//! The registry of lands and people, and the settlement of one frame: all
//! lands produce into the market, then all people consume from it.

use vstd::prelude::*;
use crate::lands::Land;
use crate::market::{credited, debited, quantity_in, MarketLedger, Settlement, WHEAT};
use crate::people::Person;

verus! {

/// The wheat that `lands` yield in one frame, all together.
pub open spec fn total_production(lands: Seq<Land>) -> nat
    decreases lands.len(),
{
    if lands.len() == 0 {
        0
    } else {
        total_production(lands.drop_last()) + lands.last().output()
    }
}

/// The wheat that `people` ask for in one frame, all together.
pub open spec fn total_consumption(people: Seq<Person>) -> nat
    decreases people.len(),
{
    if people.len() == 0 {
        0
    } else {
        total_consumption(people.drop_last()) + people.last().appetite()
    }
}

/// `goods` after every land in `lands` has produced: the wheat on hand has
/// grown by their total yield and stops at `u32::MAX`. Without lands nothing
/// is touched.
pub open spec fn after_production(goods: Map<Seq<char>, u32>, lands: Seq<Land>) -> Map<
    Seq<char>,
    u32,
> {
    if lands.len() == 0 {
        goods
    } else {
        let sum = quantity_in(goods, WHEAT@) + total_production(lands);
        goods.insert(
            WHEAT@,
            if sum > u32::MAX {
                u32::MAX
            } else {
                sum as u32
            },
        )
    }
}

/// `goods` after every person in `people` has consumed: the wheat on hand has
/// shrunk by their total demand and stops at zero. Without people nothing is
/// touched.
pub open spec fn after_consumption(goods: Map<Seq<char>, u32>, people: Seq<Person>) -> Map<
    Seq<char>,
    u32,
> {
    if people.len() == 0 {
        goods
    } else {
        let held = quantity_in(goods, WHEAT@);
        let asked = total_consumption(people);
        goods.insert(
            WHEAT@,
            if held >= asked {
                (held - asked) as u32
            } else {
                0
            },
        )
    }
}

/// `goods` after one frame: production by all of `lands` first, consumption
/// by all of `people` after it.
pub open spec fn after_step(goods: Map<Seq<char>, u32>, lands: Seq<Land>, people: Seq<Person>) -> Map<
    Seq<char>,
    u32,
> {
    after_consumption(after_production(goods, lands), people)
}

/// Whether one frame leaves somebody short: `people` ask for more wheat than
/// is on hand once `lands` have produced.
pub open spec fn runs_short(goods: Map<Seq<char>, u32>, lands: Seq<Land>, people: Seq<Person>) -> bool {
    total_consumption(people) > quantity_in(after_production(goods, lands), WHEAT@)
}

/// The sizes of `lands`, land by land.
pub open spec fn sizes_of(lands: Seq<Land>) -> Seq<u32> {
    Seq::new(lands.len(), |i: int| lands[i].size)
}

proof fn lemma_one_more_land(goods: Map<Seq<char>, u32>, lands: Seq<Land>, i: int)
    requires
        0 <= i < lands.len(),
    ensures
        credited(after_production(goods, lands.take(i)), WHEAT@, lands[i].yield_rate)
            == after_production(goods, lands.take(i + 1)),
{
    let before = lands.take(i);
    let after = lands.take(i + 1);
    assert(after.drop_last() =~= before);
    assert(after.last() == lands[i]);
    assert(credited(after_production(goods, before), WHEAT@, lands[i].yield_rate)
        =~= after_production(goods, after));
}

proof fn lemma_one_more_person(goods: Map<Seq<char>, u32>, people: Seq<Person>, i: int)
    requires
        0 <= i < people.len(),
    ensures
        debited(after_consumption(goods, people.take(i)), WHEAT@, people[i].capacity)
            == after_consumption(goods, people.take(i + 1)),
        total_consumption(people.take(i + 1)) == total_consumption(people.take(i))
            + people[i].capacity,
        quantity_in(goods, WHEAT@) >= total_consumption(people.take(i)) ==> quantity_in(
            after_consumption(goods, people.take(i)),
            WHEAT@,
        ) == quantity_in(goods, WHEAT@) - total_consumption(people.take(i)),
        quantity_in(goods, WHEAT@) < total_consumption(people.take(i)) ==> quantity_in(
            after_consumption(goods, people.take(i)),
            WHEAT@,
        ) == 0,
{
    let before = people.take(i);
    let after = people.take(i + 1);
    assert(after.drop_last() =~= before);
    assert(after.last() == people[i]);
    assert(debited(after_consumption(goods, before), WHEAT@, people[i].capacity)
        =~= after_consumption(goods, after));
}

proof fn lemma_production_without(lands: Seq<Land>, i: int)
    requires
        0 <= i < lands.len(),
    ensures
        total_production(lands) == total_production(lands.remove(i)) + lands[i].output(),
    decreases lands.len(),
{
    if i == lands.len() - 1 {
        assert(lands.remove(i) =~= lands.drop_last());
    } else {
        lemma_production_without(lands.drop_last(), i);
        assert(lands.remove(i).drop_last() =~= lands.drop_last().remove(i));
        assert(lands.remove(i).last() == lands.last());
    }
}

proof fn lemma_consumption_without(people: Seq<Person>, i: int)
    requires
        0 <= i < people.len(),
    ensures
        total_consumption(people) == total_consumption(people.remove(i)) + people[i].appetite(),
    decreases people.len(),
{
    if i == people.len() - 1 {
        assert(people.remove(i) =~= people.drop_last());
    } else {
        lemma_consumption_without(people.drop_last(), i);
        assert(people.remove(i).drop_last() =~= people.drop_last().remove(i));
        assert(people.remove(i).last() == people.last());
    }
}

/// The order of the lands does not change what they yield together: two
/// sequences that hold the same lands, each as often as the other, have the
/// same total production.
pub proof fn lemma_production_ignores_order(one: Seq<Land>, other: Seq<Land>)
    requires
        one.to_multiset() == other.to_multiset(),
    ensures
        total_production(one) == total_production(other),
    decreases one.len(),
{
    one.to_multiset_ensures();
    other.to_multiset_ensures();
    if one.len() == 0 {
        assert(other.len() == 0);
    } else {
        let land = one.last();
        assert(one.contains(land));
        assert(other.to_multiset().count(land) > 0);
        assert(other.contains(land));
        let i = choose|i: int| 0 <= i < other.len() && other[i] == land;
        assert(one.drop_last() =~= one.remove(one.len() - 1));
        assert(one.drop_last().to_multiset() =~= other.remove(i).to_multiset());
        lemma_production_ignores_order(one.drop_last(), other.remove(i));
        lemma_production_without(other, i);
    }
}

/// The order of the people does not change what they ask for together.
pub proof fn lemma_consumption_ignores_order(one: Seq<Person>, other: Seq<Person>)
    requires
        one.to_multiset() == other.to_multiset(),
    ensures
        total_consumption(one) == total_consumption(other),
    decreases one.len(),
{
    one.to_multiset_ensures();
    other.to_multiset_ensures();
    if one.len() == 0 {
        assert(other.len() == 0);
    } else {
        let person = one.last();
        assert(one.contains(person));
        assert(other.to_multiset().count(person) > 0);
        assert(other.contains(person));
        let i = choose|i: int| 0 <= i < other.len() && other[i] == person;
        assert(one.drop_last() =~= one.remove(one.len() - 1));
        assert(one.drop_last().to_multiset() =~= other.remove(i).to_multiset());
        lemma_consumption_ignores_order(one.drop_last(), other.remove(i));
        lemma_consumption_without(other, i);
    }
}

/// The order within the lands and within the people does not change a
/// frame: the market after it and the report of a shortage are the same.
pub proof fn lemma_step_ignores_order(
    goods: Map<Seq<char>, u32>,
    lands: Seq<Land>,
    other_lands: Seq<Land>,
    people: Seq<Person>,
    other_people: Seq<Person>,
)
    requires
        lands.to_multiset() == other_lands.to_multiset(),
        people.to_multiset() == other_people.to_multiset(),
    ensures
        after_step(goods, lands, people) == after_step(goods, other_lands, other_people),
        runs_short(goods, lands, people) == runs_short(goods, other_lands, other_people),
{
    lands.to_multiset_ensures();
    other_lands.to_multiset_ensures();
    people.to_multiset_ensures();
    other_people.to_multiset_ensures();
    lemma_production_ignores_order(lands, other_lands);
    lemma_consumption_ignores_order(people, other_people);
    assert(lands.len() == other_lands.len());
    assert(people.len() == other_people.len());
}

/// The lands and people of the world, each kind in the order in which its
/// members were added. Members are never removed one by one; the registry is
/// only ever cleared as a whole.
pub struct EntityRegistry {
    lands: Vec<Land>,
    people: Vec<Person>,
}

impl EntityRegistry {
    /// The lands, oldest first.
    pub closed spec fn lands(&self) -> Seq<Land> {
        self.lands@
    }

    /// The people, oldest first.
    pub closed spec fn people(&self) -> Seq<Person> {
        self.people@
    }

    /// A registry without lands or people.
    pub fn new() -> (registry: EntityRegistry)
        ensures
            registry.lands() == Seq::<Land>::empty(),
            registry.people() == Seq::<Person>::empty(),
    {
        EntityRegistry { lands: Vec::new(), people: Vec::new() }
    }

    /// Appends `land` behind the lands already there.
    pub fn add_land(&mut self, land: Land)
        ensures
            final(self).lands() == old(self).lands().push(land),
            final(self).people() == old(self).people(),
    {
        self.lands.push(land);
    }

    /// Appends `person` behind the people already there.
    pub fn add_person(&mut self, person: Person)
        ensures
            final(self).lands() == old(self).lands(),
            final(self).people() == old(self).people().push(person),
    {
        self.people.push(person);
    }

    /// Removes every land and every person.
    pub fn clear(&mut self)
        ensures
            final(self).lands() == Seq::<Land>::empty(),
            final(self).people() == Seq::<Person>::empty(),
    {
        self.lands.clear();
        self.people.clear();
    }

    /// The sizes of the lands, oldest land first.
    pub fn land_sizes(&self) -> (sizes: Vec<u32>)
        ensures
            sizes@ == sizes_of(self.lands()),
    {
        let mut sizes: Vec<u32> = Vec::new();
        let mut i: usize = 0;
        while i < self.lands.len()
            invariant
                i <= self.lands@.len(),
                sizes@.len() == i,
                forall|k: int| 0 <= k < i ==> sizes@[k] == self.lands@[k].size,
            decreases self.lands@.len() - i,
        {
            sizes.push(self.lands[i].show_size());
            i += 1;
        }
        assert(sizes@ =~= sizes_of(self.lands@));
        sizes
    }

    /// How many lands there are.
    pub fn land_count(&self) -> (count: usize)
        ensures
            count == self.lands().len(),
    {
        self.lands.len()
    }

    /// How many people there are.
    pub fn person_count(&self) -> (count: usize)
        ensures
            count == self.people().len(),
    {
        self.people.len()
    }

    /// Settles one frame against `ledger`: every land produces, oldest first,
    /// and its yield is credited as wheat; then every person consumes, oldest
    /// first, and their demand is debited as wheat. All production of the
    /// frame comes before any consumption, so people can eat what was grown in
    /// the same frame. Reports whether any person found the supply exhausted.
    pub fn step(&self, ledger: &mut MarketLedger) -> (settlement: Settlement)
        ensures
            final(ledger)@ == after_step(old(ledger)@, self.lands(), self.people()),
            settlement == if runs_short(old(ledger)@, self.lands(), self.people()) {
                Settlement::SupplyExhausted
            } else {
                Settlement::Paid
            },
    {
        let ghost start = ledger@;
        let mut i: usize = 0;
        while i < self.lands.len()
            invariant
                i <= self.lands@.len(),
                ledger@ == after_production(start, self.lands@.take(i as int)),
            decreases self.lands@.len() - i,
        {
            let amount = self.lands[i].produce();
            proof {
                lemma_one_more_land(start, self.lands@, i as int);
            }
            ledger.credit(WHEAT, amount);
            i += 1;
        }
        assert(self.lands@.take(self.lands@.len() as int) =~= self.lands@);
        let ghost grown = ledger@;
        let mut settlement = Settlement::Paid;
        let mut j: usize = 0;
        while j < self.people.len()
            invariant
                j <= self.people@.len(),
                ledger@ == after_consumption(grown, self.people@.take(j as int)),
                settlement == if total_consumption(self.people@.take(j as int)) > quantity_in(
                    grown,
                    WHEAT@,
                ) {
                    Settlement::SupplyExhausted
                } else {
                    Settlement::Paid
                },
            decreases self.people@.len() - j,
        {
            let amount = self.people[j].consume();
            proof {
                lemma_one_more_person(grown, self.people@, j as int);
            }
            match ledger.debit(WHEAT, amount) {
                Settlement::SupplyExhausted => {
                    settlement = Settlement::SupplyExhausted;
                },
                Settlement::Paid => {},
            }
            j += 1;
        }
        assert(self.people@.take(self.people@.len() as int) =~= self.people@);
        settlement
    }
}

} // verus!

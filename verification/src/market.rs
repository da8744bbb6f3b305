//! The market ledger: how much of each named good the world holds.
//!
//! Quantities are unsigned and never wrap. A debit larger than the quantity
//! on hand takes what is there, leaves zero and reports that the supply was
//! exhausted; a credit that would pass `u32::MAX` stops at `u32::MAX`.

use vstd::prelude::*;

verus! {

/// Name of the good that lands yield and people eat.
pub const WHEAT: &'static str = "wheat";

/// Name of the second good every fresh market lists.
pub const APPLE: &'static str = "apple";

/// Quantity of `good` in `goods`; a good that was never entered counts as zero.
pub open spec fn quantity_in(goods: Map<Seq<char>, u32>, good: Seq<char>) -> nat {
    if goods.contains_key(good) {
        goods[good] as nat
    } else {
        0
    }
}

/// `goods` after `amount` of `good` came in: the good is listed, with its old
/// quantity plus `amount`, or with `u32::MAX` where the sum would pass it.
pub open spec fn credited(goods: Map<Seq<char>, u32>, good: Seq<char>, amount: u32) -> Map<
    Seq<char>,
    u32,
> {
    let sum = quantity_in(goods, good) + amount;
    goods.insert(
        good,
        if sum > u32::MAX {
            u32::MAX
        } else {
            sum as u32
        },
    )
}

/// `goods` after `amount` of `good` was asked for: the good is listed, with
/// what is left of its old quantity, or with zero where less was on hand.
pub open spec fn debited(goods: Map<Seq<char>, u32>, good: Seq<char>, amount: u32) -> Map<
    Seq<char>,
    u32,
> {
    let held = quantity_in(goods, good);
    goods.insert(
        good,
        if held >= amount {
            (held - amount) as u32
        } else {
            0
        },
    )
}

/// The goods a fresh market lists: wheat and apples, none of either.
pub open spec fn starter_set() -> Map<Seq<char>, u32> {
    Map::<Seq<char>, u32>::empty().insert(WHEAT@, 0u32).insert(APPLE@, 0u32)
}

/// How a debit ended.
#[derive(Clone, Copy, Debug, PartialEq, Eq, Structural)]
pub enum Settlement {
    /// The whole amount was on hand and was taken.
    Paid,
    /// Less than the amount was on hand; what there was is gone.
    SupplyExhausted,
}

/// Whether `lines` lists `goods`: every good of `goods` on one line and on no
/// other, with its quantity, and nothing else.
pub open spec fn lists(lines: Seq<(String, u32)>, goods: Map<Seq<char>, u32>) -> bool {
    &&& forall|i: int|
        0 <= i < lines.len() ==> goods.contains_key(#[trigger] lines[i].0@) && goods[lines[i].0@]
            == lines[i].1
    &&& forall|good: Seq<char>|
        goods.contains_key(good) ==> exists|i: int|
            0 <= i < lines.len() && #[trigger] lines[i].0@ == good
    &&& forall|i: int, j: int|
        0 <= i < j < lines.len() ==> #[trigger] lines[i].0@ != #[trigger] lines[j].0@
}

/// One line of the ledger.
struct Entry {
    name: String,
    quantity: u32,
}

/// The shared ledger of goods, from a good's name to the quantity on hand.
///
/// Its view is the mapping itself. Each good is kept on one line, in the order
/// in which the goods were first entered.
pub struct MarketLedger {
    entries: Vec<Entry>,
}

spec fn names_distinct(entries: Seq<Entry>) -> bool {
    forall|i: int, j: int| 0 <= i < j < entries.len() ==> entries[i].name@ != entries[j].name@
}

spec fn listed(entries: Seq<Entry>, good: Seq<char>) -> bool {
    exists|i: int| 0 <= i < entries.len() && entries[i].name@ == good
}

spec fn line_of(entries: Seq<Entry>, good: Seq<char>) -> int {
    choose|i: int| 0 <= i < entries.len() && entries[i].name@ == good
}

spec fn goods_of(entries: Seq<Entry>) -> Map<Seq<char>, u32> {
    Map::new(
        |good: Seq<char>| listed(entries, good),
        |good: Seq<char>| entries[line_of(entries, good)].quantity,
    )
}

proof fn lemma_line(entries: Seq<Entry>, i: int)
    requires
        names_distinct(entries),
        0 <= i < entries.len(),
    ensures
        listed(entries, entries[i].name@),
        line_of(entries, entries[i].name@) == i,
        goods_of(entries).contains_key(entries[i].name@),
        goods_of(entries)[entries[i].name@] == entries[i].quantity,
{
    let j = line_of(entries, entries[i].name@);
    assert(0 <= j < entries.len() && entries[j].name@ == entries[i].name@);
    if j < i {
        assert(entries[j].name@ != entries[i].name@);
    } else if i < j {
        assert(entries[i].name@ != entries[j].name@);
    }
}

proof fn lemma_rewrite(entries: Seq<Entry>, i: int, quantity: u32)
    requires
        names_distinct(entries),
        0 <= i < entries.len(),
    ensures
        names_distinct(entries.update(i, Entry { name: entries[i].name, quantity })),
        goods_of(entries.update(i, Entry { name: entries[i].name, quantity })) == goods_of(
            entries,
        ).insert(entries[i].name@, quantity),
{
    let after = entries.update(i, Entry { name: entries[i].name, quantity });
    assert(forall|k: int| 0 <= k < entries.len() ==> after[k].name@ == entries[k].name@);
    assert(names_distinct(after));
    assert forall|good: Seq<char>| listed(after, good) == listed(entries, good) by {
        if listed(entries, good) {
            let k = line_of(entries, good);
            assert(after[k].name@ == good);
        }
        if listed(after, good) {
            let k = line_of(after, good);
            assert(entries[k].name@ == good);
        }
    }
    assert forall|good: Seq<char>| listed(after, good) implies #[trigger] goods_of(after)[good]
        == goods_of(entries).insert(entries[i].name@, quantity)[good] by {
        let k = line_of(after, good);
        lemma_line(after, k);
        lemma_line(entries, k);
    }
    assert(goods_of(after) =~= goods_of(entries).insert(entries[i].name@, quantity));
}

proof fn lemma_append(entries: Seq<Entry>, entry: Entry)
    requires
        names_distinct(entries),
        !listed(entries, entry.name@),
    ensures
        names_distinct(entries.push(entry)),
        goods_of(entries.push(entry)) == goods_of(entries).insert(entry.name@, entry.quantity),
{
    let after = entries.push(entry);
    assert forall|i: int, j: int| 0 <= i < j < after.len() implies after[i].name@
        != after[j].name@ by {
        if j == entries.len() {
            assert(entries[i].name@ != entry.name@);
        }
    }
    assert forall|good: Seq<char>| listed(after, good) == (listed(entries, good) || good
        == entry.name@) by {
        if listed(entries, good) {
            let k = line_of(entries, good);
            assert(after[k].name@ == good);
        }
        if good == entry.name@ {
            assert(after[entries.len() as int].name@ == good);
        }
    }
    assert forall|good: Seq<char>| listed(after, good) implies #[trigger] goods_of(after)[good]
        == goods_of(entries).insert(entry.name@, entry.quantity)[good] by {
        let k = line_of(after, good);
        lemma_line(after, k);
        if k < entries.len() {
            lemma_line(entries, k);
        }
    }
    assert(goods_of(after) =~= goods_of(entries).insert(entry.name@, entry.quantity));
}

impl View for MarketLedger {
    type V = Map<Seq<char>, u32>;

    closed spec fn view(&self) -> Map<Seq<char>, u32> {
        goods_of(self.entries@)
    }
}

impl MarketLedger {
    #[verifier::type_invariant]
    spec fn well_formed(self) -> bool {
        names_distinct(self.entries@)
    }

    /// A ledger that lists no good.
    pub fn new() -> (ledger: MarketLedger)
        ensures
            ledger@ == Map::<Seq<char>, u32>::empty(),
    {
        let ledger = MarketLedger { entries: Vec::new() };
        assert(ledger@ =~= Map::<Seq<char>, u32>::empty());
        ledger
    }

    fn find(&self, good: &str) -> (found: Option<usize>)
        ensures
            match found {
                Some(i) => i < self.entries@.len() && self.entries@[i as int].name@ == good@,
                None => !listed(self.entries@, good@),
            },
    {
        let wanted: String = good.to_owned();
        let mut i: usize = 0;
        while i < self.entries.len()
            invariant
                i <= self.entries@.len(),
                wanted@ == good@,
                forall|k: int| 0 <= k < i ==> self.entries@[k].name@ != good@,
            decreases self.entries@.len() - i,
        {
            if self.entries[i].name == wanted {
                return Some(i);
            }
            i += 1;
        }
        None
    }

    fn store(&mut self, good: &str, quantity: u32)
        ensures
            final(self)@ == old(self)@.insert(good@, quantity),
    {
        proof {
            use_type_invariant(&*self);
        }
        let found = self.find(good);
        let mut entries: Vec<Entry> = Vec::new();
        std::mem::swap(&mut entries, &mut self.entries);
        match found {
            Some(i) => {
                proof {
                    lemma_rewrite(entries@, i as int, quantity);
                }
                entries[i].quantity = quantity;
            },
            None => {
                let entry = Entry { name: good.to_owned(), quantity };
                proof {
                    lemma_append(entries@, entry);
                }
                entries.push(entry);
            },
        }
        self.entries = entries;
    }

    /// Whether `good` is listed, with whatever quantity.
    pub fn contains(&self, good: &str) -> (listed: bool)
        ensures
            listed == self@.contains_key(good@),
    {
        proof {
            use_type_invariant(self);
        }
        self.find(good).is_some()
    }

    /// The quantity of `good` on hand, zero for a good never entered.
    pub fn quantity(&self, good: &str) -> (quantity: u32)
        ensures
            quantity == quantity_in(self@, good@),
    {
        proof {
            use_type_invariant(self);
        }
        match self.find(good) {
            Some(i) => {
                proof {
                    lemma_line(self.entries@, i as int);
                }
                self.entries[i].quantity
            },
            None => 0,
        }
    }

    /// Adds `amount` to the quantity of `good`, entering the good first if it
    /// is not listed. The quantity stops at `u32::MAX`.
    pub fn credit(&mut self, good: &str, amount: u32)
        ensures
            final(self)@ == credited(old(self)@, good@, amount),
    {
        let held = self.quantity(good);
        let sum: u32 = if amount > u32::MAX - held {
            u32::MAX
        } else {
            held + amount
        };
        self.store(good, sum);
    }

    /// Takes `amount` from the quantity of `good`. Where less is on hand, the
    /// quantity becomes zero and the supply is reported exhausted. The good is
    /// listed afterwards either way.
    pub fn debit(&mut self, good: &str, amount: u32) -> (settlement: Settlement)
        ensures
            final(self)@ == debited(old(self)@, good@, amount),
            settlement == if quantity_in(old(self)@, good@) >= amount {
                Settlement::Paid
            } else {
                Settlement::SupplyExhausted
            },
    {
        let held = self.quantity(good);
        if held >= amount {
            self.store(good, held - amount);
            Settlement::Paid
        } else {
            self.store(good, 0);
            Settlement::SupplyExhausted
        }
    }

    /// Forgets every good and lists the starter set, at zero.
    pub fn restart(&mut self)
        ensures
            final(self)@ == starter_set(),
    {
        self.entries = Vec::new();
        assert(self@ =~= Map::<Seq<char>, u32>::empty());
        self.store(WHEAT, 0);
        self.store(APPLE, 0);
    }

    /// The ledger's lines as pairs of name and quantity: every listed good
    /// once, with its quantity, in the order in which the goods were entered.
    pub fn entries(&self) -> (lines: Vec<(String, u32)>)
        ensures
            lists(lines@, self@),
    {
        proof {
            use_type_invariant(self);
        }
        let mut lines: Vec<(String, u32)> = Vec::new();
        let mut i: usize = 0;
        while i < self.entries.len()
            invariant
                i <= self.entries@.len(),
                lines@.len() == i,
                forall|k: int|
                    0 <= k < i ==> (#[trigger] lines@[k]).0@ == self.entries@[k].name@ && lines@[k].1
                        == self.entries@[k].quantity,
            decreases self.entries@.len() - i,
        {
            lines.push((self.entries[i].name.clone(), self.entries[i].quantity));
            i += 1;
        }
        proof {
            assert forall|k: int| 0 <= k < lines@.len() implies self@.contains_key(
                #[trigger] lines@[k].0@,
            ) && self@[lines@[k].0@] == lines@[k].1 by {
                assert(lines@[k].0@ == self.entries@[k].name@);
                lemma_line(self.entries@, k);
            }
            assert forall|good: Seq<char>| self@.contains_key(good) implies exists|k: int|
                0 <= k < lines@.len() && #[trigger] lines@[k].0@ == good by {
                let k = line_of(self.entries@, good);
                assert(lines@[k].0@ == good);
            }
            assert forall|a: int, b: int| 0 <= a < b < lines@.len() implies #[trigger] lines@[a].0@
                != #[trigger] lines@[b].0@ by {
                assert(lines@[a].0@ == self.entries@[a].name@);
                assert(lines@[b].0@ == self.entries@[b].name@);
            }
        }
        lines
    }
}

} // verus!

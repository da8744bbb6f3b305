//! Runs of frames, and what holds of the game over them.

use vstd::prelude::*;
use crate::clock::SimulationClock;
use crate::input::KeyEvent;
use crate::lands::Land;
use crate::market::starter_set;
use crate::people::Person;
use crate::registry::{after_step, total_consumption, total_production};
use crate::stimulation::{next_mode, recognizes, World};

verus! {

/// What the host hands to one frame.
pub struct Frame {
    /// The event of the frame.
    pub event: KeyEvent,
    /// The time the frame took, in milliseconds.
    pub elapsed_ms: u64,
}

/// Whether `event` leaves a running game running, with the lands and people
/// it has.
pub open spec fn idle(event: KeyEvent) -> bool {
    !(event is BackToMenu || event is AddLand || event is AddPerson)
}

/// Whether every frame of `frames` has an idle event.
pub open spec fn all_idle(frames: Seq<Frame>) -> bool {
    forall|i: int| 0 <= i < frames.len() ==> idle(#[trigger] frames[i].event)
}

/// `world` after the frames of `frames`, first to last.
pub open spec fn after_frames(world: World, frames: Seq<Frame>) -> World
    decreases frames.len(),
{
    if frames.len() == 0 {
        world
    } else {
        after_frames(world, frames.drop_last()).after_frame(
            frames.last().event,
            frames.last().elapsed_ms,
        )
    }
}

/// The wheat on hand after `n` frames of pure production: `wheat` grown by
/// `n` times `gain`, stopping at `u32::MAX`.
pub open spec fn grown(wheat: nat, gain: nat, n: nat) -> nat {
    if wheat + n * gain > u32::MAX {
        u32::MAX as nat
    } else {
        wheat + n * gain
    }
}

/// The wheat on hand after `n` frames of pure consumption: `wheat` less `n`
/// times `loss`, stopping at zero.
pub open spec fn eaten(wheat: nat, loss: nat, n: nat) -> nat {
    if wheat >= n * loss {
        (wheat - n * loss) as nat
    } else {
        0
    }
}

/// Every row of the transition table, as a frame yields it. A recognized
/// event leads to the mode the table names and has the side effect the table
/// names; in play the frame also settles the economy, and advances the clock
/// unless it leaves for the menu. The quit flag is raised by `Quit` in every
/// mode and by nothing else.
pub proof fn lemma_transition_table(world: World, event: KeyEvent, elapsed_ms: u64)
    ensures
        world.after_frame(event, elapsed_ms).mode == next_mode(world.mode, event),
        world.frame_report(event).quit == (event is Quit),
        (world.mode is Menu || world.mode is End) && event is Play ==> {
            let next = world.after_frame(event, elapsed_ms);
            &&& next.mode is Playing
            &&& next.clock == SimulationClock::zero()
            &&& next.lands == Seq::<Land>::empty()
            &&& next.people == Seq::<Person>::empty()
            &&& next.market == starter_set()
        },
        (world.mode is Menu || world.mode is End) && event is Quit ==> world.after_frame(
            event,
            elapsed_ms,
        ) == world,
        world.mode is Playing && event is BackToMenu ==> {
            let next = world.after_frame(event, elapsed_ms);
            &&& next.mode is Menu
            &&& next.clock == SimulationClock::zero()
            &&& next.lands == world.lands
            &&& next.people == world.people
            &&& next.market == after_step(world.market, world.lands, world.people)
        },
        world.mode is Playing && event is AddLand ==> {
            let next = world.after_frame(event, elapsed_ms);
            &&& next.mode is Playing
            &&& next.clock == world.clock.advanced(elapsed_ms)
            &&& next.lands == world.lands.push(Land::standard())
            &&& next.people == world.people
            &&& next.market == after_step(world.market, next.lands, next.people)
        },
        world.mode is Playing && event is AddPerson ==> {
            let next = world.after_frame(event, elapsed_ms);
            &&& next.mode is Playing
            &&& next.clock == world.clock.advanced(elapsed_ms)
            &&& next.lands == world.lands
            &&& next.people == world.people.push(Person::standard())
            &&& next.market == after_step(world.market, next.lands, next.people)
        },
        world.mode is Playing && event is Quit ==> {
            let next = world.after_frame(event, elapsed_ms);
            &&& next.mode is Playing
            &&& next.clock == world.clock.advanced(elapsed_ms)
            &&& next.lands == world.lands
            &&& next.people == world.people
            &&& next.market == after_step(world.market, world.lands, world.people)
        },
{
}

/// An event that the active mode does not recognize is no event: the frame
/// is the frame that no key at all would have given. Outside play that frame
/// changes nothing: mode, clock, lands, people and market are what they were.
/// In play it changes what every frame of play changes and nothing else: the
/// market by one settlement and the clock by the time that passed.
pub proof fn lemma_unrecognized_key_is_ignored(world: World, event: KeyEvent, elapsed_ms: u64)
    requires
        !recognizes(world.mode, event),
    ensures
        world.after_frame(event, elapsed_ms) == world.after_frame(KeyEvent::NoKey, elapsed_ms),
        world.frame_report(event) == world.frame_report(KeyEvent::NoKey),
        !world.frame_report(event).quit,
        !(world.mode is Playing) ==> world.after_frame(event, elapsed_ms) == world,
        world.mode is Playing ==> world.after_frame(event, elapsed_ms) == world.settled().timed(
            elapsed_ms,
        ),
{
}

/// A frame is the work of one handler, the one of the mode on entry. The
/// menu's and the end screen's make of the frame what they make of the key
/// and nothing more. The handler of play takes in the newcomer, settles once
/// and advances the clock, or, to leave for the menu, settles once and ends
/// in the menu with the clock at rest.
pub proof fn lemma_one_handler_per_frame(world: World, event: KeyEvent, elapsed_ms: u64)
    ensures
        !(world.mode is Playing) ==> world.after_frame(event, elapsed_ms) == world.after_menu_key(
            event,
        ),
        world.mode is Playing ==> world.after_frame(event, elapsed_ms) == world.after_play(
            event,
            elapsed_ms,
        ),
        world.mode is Playing && !(event is BackToMenu) ==> world.after_frame(event, elapsed_ms)
            == world.with_newcomer(event).settled().timed(elapsed_ms),
        world.mode is Playing && event is BackToMenu ==> world.after_frame(event, elapsed_ms)
            == world.settled().in_menu(),
        world.after_frame(event, elapsed_ms).mode == next_mode(world.mode, event),
{
}

/// The economy does not wait for the clock: what a frame does to the mode,
/// the lands, the people and the market is the same however long the frame
/// took and whatever the clock showed, and the clock moves the same whatever
/// the economy did.
pub proof fn lemma_economy_ignores_the_clock(
    world: World,
    clock: SimulationClock,
    event: KeyEvent,
    elapsed_ms: u64,
    other_ms: u64,
)
    ensures
        ({
            let one = world.after_frame(event, elapsed_ms);
            let other = (World { clock, ..world }).after_frame(event, other_ms);
            &&& one.mode == other.mode
            &&& one.lands == other.lands
            &&& one.people == other.people
            &&& one.market == other.market
        }),
        world.frame_report(event) == (World { clock, ..world }).frame_report(event),
{
}

/// The end screen is never entered: a frame that does not start there does
/// not end there.
pub proof fn lemma_end_is_never_entered(world: World, event: KeyEvent, elapsed_ms: u64)
    requires
        !(world.mode is End),
    ensures
        !(world.after_frame(event, elapsed_ms).mode is End),
{
}

/// No run of frames takes a session from its start to the end screen.
pub proof fn lemma_end_is_unreachable(frames: Seq<Frame>)
    ensures
        !(after_frames(World::initial(), frames).mode is End),
    decreases frames.len(),
{
    if frames.len() > 0 {
        lemma_end_is_unreachable(frames.drop_last());
    }
}

/// Dispatching again without a new event does not apply the last event a
/// second time: mode, lands and people stay as the first dispatch left them.
/// Outside play the whole world stays; in play the second dispatch is one more
/// frame of the economy and of the clock, and nothing else.
pub proof fn lemma_event_applies_once(
    world: World,
    event: KeyEvent,
    elapsed_ms: u64,
    further_ms: u64,
)
    ensures
        ({
            let once = world.after_frame(event, elapsed_ms);
            let twice = once.after_frame(KeyEvent::NoKey, further_ms);
            &&& twice.mode == once.mode
            &&& twice.lands == once.lands
            &&& twice.people == once.people
            &&& !(once.mode is Playing) ==> twice == once
            &&& once.mode is Playing ==> twice == once.settled().timed(further_ms)
        }),
{
}

/// Leaving for the menu and starting again wipes the game: whatever lands,
/// people, goods and time a running game had, after `BackToMenu` and then
/// `Play` the market is exactly the starter set, there are no lands and no
/// people, and the clock is at rest.
pub proof fn lemma_menu_and_back_resets(world: World, leave_ms: u64, start_ms: u64)
    requires
        world.mode is Playing,
    ensures
        ({
            let fresh = world.after_frame(KeyEvent::BackToMenu, leave_ms).after_frame(
                KeyEvent::Play,
                start_ms,
            );
            &&& fresh.mode is Playing
            &&& fresh.market == starter_set()
            &&& fresh.lands == Seq::<Land>::empty()
            &&& fresh.people == Seq::<Person>::empty()
            &&& fresh.clock == SimulationClock::zero()
            &&& fresh.clock.ticks == 0
        }),
{
}

/// Idle frames of play keep the game in play with the lands and people it
/// has.
pub proof fn lemma_idle_frames_keep_the_field(world: World, frames: Seq<Frame>)
    requires
        world.mode is Playing,
        all_idle(frames),
    ensures
        after_frames(world, frames).mode is Playing,
        after_frames(world, frames).lands == world.lands,
        after_frames(world, frames).people == world.people,
    decreases frames.len(),
{
    if frames.len() > 0 {
        lemma_idle_frames_keep_the_field(world, frames.drop_last());
        assert(idle(frames[frames.len() - 1].event));
    }
}

/// Without people, wheat only grows: after any number of idle frames of play
/// the wheat on hand is what it was plus the lands' total yield for each
/// frame, stopping at `u32::MAX`.
pub proof fn lemma_production_only(world: World, frames: Seq<Frame>)
    requires
        world.mode is Playing,
        world.people.len() == 0,
        all_idle(frames),
    ensures
        after_frames(world, frames).wheat() == grown(
            world.wheat(),
            total_production(world.lands),
            frames.len(),
        ),
    decreases frames.len(),
{
    if frames.len() > 0 {
        let earlier = frames.drop_last();
        lemma_production_only(world, earlier);
        lemma_idle_frames_keep_the_field(world, earlier);
        assert(idle(frames[frames.len() - 1].event));
        let gain = total_production(world.lands);
        assert((earlier.len() + 1) * gain == earlier.len() * gain + gain) by (nonlinear_arith);
        assert(earlier.len() * gain >= 0) by (nonlinear_arith)
            requires
                earlier.len() >= 0,
                gain >= 0,
        ;
    }
}

/// Without lands, wheat only shrinks: after any number of idle frames of play
/// the wheat on hand is what it was less the people's total demand for each
/// frame, stopping at zero.
pub proof fn lemma_consumption_only(world: World, frames: Seq<Frame>)
    requires
        world.mode is Playing,
        world.lands.len() == 0,
        all_idle(frames),
    ensures
        after_frames(world, frames).wheat() == eaten(
            world.wheat(),
            total_consumption(world.people),
            frames.len(),
        ),
    decreases frames.len(),
{
    if frames.len() > 0 {
        let earlier = frames.drop_last();
        lemma_consumption_only(world, earlier);
        lemma_idle_frames_keep_the_field(world, earlier);
        assert(idle(frames[frames.len() - 1].event));
        let loss = total_consumption(world.people);
        assert((earlier.len() + 1) * loss == earlier.len() * loss + loss) by (nonlinear_arith);
        assert(earlier.len() * loss >= 0) by (nonlinear_arith)
            requires
                earlier.len() >= 0,
                loss >= 0,
        ;
    }
}

/// Without lands nothing is produced: over any number of idle frames of play
/// the wheat on hand stays what it was, provided nobody eats it, that is,
/// there is no wheat or the people ask for none.
pub proof fn lemma_no_lands_no_wheat(world: World, frames: Seq<Frame>)
    requires
        world.mode is Playing,
        world.lands.len() == 0,
        all_idle(frames),
        frames.len() == 0 || world.wheat() == 0 || total_consumption(world.people) == 0,
    ensures
        after_frames(world, frames).wheat() == world.wheat(),
{
    lemma_consumption_only(world, frames);
    let loss = total_consumption(world.people);
    if loss == 0 {
        assert(frames.len() * loss == 0) by (nonlinear_arith)
            requires
                loss == 0,
        ;
    } else {
        assert(frames.len() * loss >= 0) by (nonlinear_arith)
            requires
                frames.len() >= 0,
                loss >= 0,
        ;
    }
}

/// Production is linear: with one land that yields `land.output()` and
/// nobody to eat, after `frames.len()` idle frames of play the wheat on hand
/// is what it was plus `frames.len()` times that yield, as long as this fits
/// the ledger.
pub proof fn lemma_linear_production(world: World, land: Land, frames: Seq<Frame>)
    requires
        world.mode is Playing,
        world.lands == seq![land],
        world.people.len() == 0,
        all_idle(frames),
        world.wheat() + frames.len() * land.output() <= u32::MAX,
    ensures
        after_frames(world, frames).wheat() == world.wheat() + frames.len() * land.output(),
{
    lemma_production_only(world, frames);
    lemma_total_of_one_land(land);
}

/// One land yields what it yields.
pub proof fn lemma_total_of_one_land(land: Land)
    ensures
        total_production(seq![land]) == land.output(),
{
    let lands = seq![land];
    assert(lands.drop_last() =~= Seq::<Land>::empty());
    assert(total_production(lands.drop_last()) == 0);
    assert(lands.last() == land);
}

/// One person asks for what they ask for.
pub proof fn lemma_total_of_one_person(person: Person)
    ensures
        total_consumption(seq![person]) == person.appetite(),
{
    let people = seq![person];
    assert(people.drop_last() =~= Seq::<Person>::empty());
    assert(total_consumption(people.drop_last()) == 0);
    assert(people.last() == person);
}

/// Production comes before consumption: with one land, one person and an
/// empty market, a frame in which the land yields at least what the person
/// asks for leaves the difference on the market, and nobody goes short.
pub proof fn lemma_production_feeds_consumption(
    world: World,
    land: Land,
    person: Person,
    frame: Frame,
)
    requires
        world.mode is Playing,
        world.lands == seq![land],
        world.people == seq![person],
        world.wheat() == 0,
        land.output() >= person.appetite(),
        idle(frame.event),
    ensures
        world.after_frame(frame.event, frame.elapsed_ms).wheat() == land.output()
            - person.appetite(),
        !world.frame_report(frame.event).supply_exhausted,
{
    lemma_total_of_one_land(land);
    lemma_total_of_one_person(person);
}

/// Wheat never goes below zero: with no land and one person who asks for
/// more than is on hand, a frame leaves the market with no wheat at all, and
/// reports the supply exhausted.
pub proof fn lemma_shortage_empties_the_market(world: World, person: Person, frame: Frame)
    requires
        world.mode is Playing,
        world.lands.len() == 0,
        world.people == seq![person],
        person.appetite() > world.wheat(),
        idle(frame.event),
    ensures
        world.after_frame(frame.event, frame.elapsed_ms).wheat() == 0,
        world.frame_report(frame.event).supply_exhausted,
{
    lemma_total_of_one_person(person);
}

} // verus!

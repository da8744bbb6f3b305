//! The game itself: a world of lands, people, a market and a clock, and the
//! controller that runs exactly one mode's handler per frame.
//!
//! A frame is one call of [`State::dispatch`]. The mode on entry selects the
//! handler. The menu and the end screen only listen for keys. A frame of play
//! first takes in the land or person that the key adds, then settles the
//! economy (all production, then all consumption), then advances the clock; it
//! settles on every frame of play, whatever the key was and however little
//! time has passed. The frame that leaves for the menu settles too, and ends
//! in the menu with the clock at rest.

use vstd::prelude::*;
use crate::clock::SimulationClock;
use crate::input::{interpret, meaning, Key, KeyEvent};
use crate::lands::Land;
use crate::market::{lists, quantity_in, starter_set, MarketLedger, Settlement, WHEAT};
use crate::people::Person;
use crate::registry::{after_step, runs_short, sizes_of, EntityRegistry};

verus! {

/// The phase the game is in. Exactly one is active at a time.
#[derive(Clone, Copy, Debug, PartialEq, Eq, Structural)]
pub enum GameMode {
    /// The main menu, where every session starts.
    Menu,
    /// A game is running.
    Playing,
    /// The end screen. No event leads here; it is kept for a condition of
    /// defeat yet to be chosen.
    End,
}

/// Whether `event` has an effect in `mode`.
pub open spec fn recognizes(mode: GameMode, event: KeyEvent) -> bool {
    match mode {
        GameMode::Menu | GameMode::End => event is Play || event is Quit,
        GameMode::Playing => event is BackToMenu || event is Quit || event is AddLand
            || event is AddPerson,
    }
}

/// The mode that follows `mode` once `event` was handled in it.
pub open spec fn next_mode(mode: GameMode, event: KeyEvent) -> GameMode {
    match mode {
        GameMode::Menu | GameMode::End => if event is Play {
            GameMode::Playing
        } else {
            mode
        },
        GameMode::Playing => if event is BackToMenu {
            GameMode::Menu
        } else {
            mode
        },
    }
}

/// What one frame tells the host.
#[derive(Clone, Copy, Debug, PartialEq, Eq, Structural)]
pub struct FrameReport {
    /// The player asked to leave: the host stops after this frame.
    pub quit: bool,
    /// Some person found less wheat on the market than they asked for.
    pub supply_exhausted: bool,
}

/// What a frame shows: a copy of what the screen needs, taken from the game
/// and detached from it.
pub struct Snapshot {
    /// The active mode.
    pub mode: GameMode,
    /// The displayed time, in ticks.
    pub time: u64,
    /// The goods on the market, each with its quantity.
    pub goods: Vec<(String, u32)>,
    /// The sizes of the lands, oldest land first.
    pub land_sizes: Vec<u32>,
}

/// Everything the game owns, as mathematics.
#[verifier::ext_equal]
pub struct World {
    /// The active mode.
    pub mode: GameMode,
    /// The displayed clock.
    pub clock: SimulationClock,
    /// The lands, oldest first.
    pub lands: Seq<Land>,
    /// The people, oldest first.
    pub people: Seq<Person>,
    /// The market: quantity on hand by name of good.
    pub market: Map<Seq<char>, u32>,
}

impl World {
    /// The world a session starts with: the menu, a clock at rest, nobody and
    /// nothing.
    pub open spec fn initial() -> World {
        World {
            mode: GameMode::Menu,
            clock: SimulationClock::zero(),
            lands: Seq::empty(),
            people: Seq::empty(),
            market: Map::empty(),
        }
    }

    /// This world back in the menu: the clock is at rest, all else is kept.
    pub open spec fn in_menu(self) -> World {
        World { mode: GameMode::Menu, clock: SimulationClock::zero(), ..self }
    }

    /// This world at the start of a new game: the clock is at rest, lands and
    /// people are gone, the market lists the starter set at zero.
    pub open spec fn restarted(self) -> World {
        World {
            mode: GameMode::Playing,
            clock: SimulationClock::zero(),
            lands: Seq::empty(),
            people: Seq::empty(),
            market: starter_set(),
        }
    }

    /// This world with `land` added behind its lands.
    pub open spec fn with_land(self, land: Land) -> World {
        World { lands: self.lands.push(land), ..self }
    }

    /// This world with `person` added behind its people.
    pub open spec fn with_person(self, person: Person) -> World {
        World { people: self.people.push(person), ..self }
    }

    /// This world after its lands produced and its people consumed once.
    pub open spec fn settled(self) -> World {
        World { market: after_step(self.market, self.lands, self.people), ..self }
    }

    /// This world after `elapsed_ms` more milliseconds on its clock.
    pub open spec fn timed(self, elapsed_ms: u64) -> World {
        World { clock: self.clock.advanced(elapsed_ms), ..self }
    }

    /// The wheat on the market.
    pub open spec fn wheat(self) -> nat {
        quantity_in(self.market, WHEAT@)
    }

    /// What the menu's handler, and the end screen's, makes of `event`: a new
    /// game on `Play`, nothing otherwise.
    pub open spec fn after_menu_key(self, event: KeyEvent) -> World {
        match event {
            KeyEvent::Play => self.restarted(),
            _ => self,
        }
    }

    /// This world with the standard land or person that `event` adds, or as
    /// it is where `event` adds nobody.
    pub open spec fn with_newcomer(self, event: KeyEvent) -> World {
        match event {
            KeyEvent::AddLand => self.with_land(Land::standard()),
            KeyEvent::AddPerson => self.with_person(Person::standard()),
            _ => self,
        }
    }

    /// This world after a frame of play with `event` that took `elapsed_ms`.
    /// On `BackToMenu` the frame settles and ends in the menu with the clock
    /// at rest. On every other event the newcomer, if any, is taken in, the
    /// frame settles and the clock advances.
    pub open spec fn after_play(self, event: KeyEvent, elapsed_ms: u64) -> World {
        match event {
            KeyEvent::BackToMenu => self.settled().in_menu(),
            _ => self.with_newcomer(event).settled().timed(elapsed_ms),
        }
    }

    /// This world after one frame: the handler of the mode on entry ran, and
    /// no other.
    pub open spec fn after_frame(self, event: KeyEvent, elapsed_ms: u64) -> World {
        match self.mode {
            GameMode::Menu => self.after_menu_key(event),
            GameMode::End => self.after_menu_key(event),
            GameMode::Playing => self.after_play(event, elapsed_ms),
        }
    }

    /// What a frame of play with `event` reports.
    pub open spec fn play_report(self, event: KeyEvent) -> FrameReport {
        let joined = self.with_newcomer(event);
        FrameReport {
            quit: event is Quit,
            supply_exhausted: runs_short(joined.market, joined.lands, joined.people),
        }
    }

    /// What one frame with `event` reports.
    pub open spec fn frame_report(self, event: KeyEvent) -> FrameReport {
        match self.mode {
            GameMode::Playing => self.play_report(event),
            _ => FrameReport { quit: event is Quit, supply_exhausted: false },
        }
    }
}

/// The game: the active mode and the clock, registry and market it owns.
pub struct State {
    mode: GameMode,
    clock: SimulationClock,
    registry: EntityRegistry,
    market: MarketLedger,
}

impl View for State {
    type V = World;

    closed spec fn view(&self) -> World {
        World {
            mode: self.mode,
            clock: self.clock,
            lands: self.registry.lands(),
            people: self.registry.people(),
            market: self.market@,
        }
    }
}

impl State {
    /// A session at its start: in the menu, with an empty world.
    pub fn new() -> (state: State)
        ensures
            state@ == World::initial(),
    {
        State {
            mode: GameMode::Menu,
            clock: SimulationClock::new(),
            registry: EntityRegistry::new(),
            market: MarketLedger::new(),
        }
    }

    /// Goes to the menu and puts the clock to rest. World and market stay.
    pub fn back_to_menu(&mut self)
        ensures
            final(self)@ == old(self)@.in_menu(),
    {
        self.mode = GameMode::Menu;
        self.clock.reset();
    }

    /// Starts a new game: the clock is put to rest, all lands and people are
    /// removed and the market is reset to the starter set.
    pub fn restart(&mut self)
        ensures
            final(self)@ == old(self)@.restarted(),
    {
        self.mode = GameMode::Playing;
        self.clock.reset();
        self.registry.clear();
        self.market.restart();
    }

    /// The handler of the main menu: `Play` starts a new game, `Quit` asks the
    /// host to stop, every other event is ignored. Returns whether to quit.
    pub fn main_menu(&mut self, event: KeyEvent) -> (quit: bool)
        ensures
            final(self)@ == old(self)@.after_menu_key(event),
            quit == (event is Quit),
    {
        match event {
            KeyEvent::Play => {
                self.restart();
                false
            },
            KeyEvent::Quit => true,
            _ => false,
        }
    }

    /// The handler of the end screen: the same keys as the main menu, with
    /// the same effects.
    pub fn dead(&mut self, event: KeyEvent) -> (quit: bool)
        ensures
            final(self)@ == old(self)@.after_menu_key(event),
            quit == (event is Quit),
    {
        match event {
            KeyEvent::Play => {
                self.restart();
                false
            },
            KeyEvent::Quit => true,
            _ => false,
        }
    }

    /// The handler of play, one frame of the game. `AddLand` and `AddPerson`
    /// add the standard land or person before anything else; `Quit` asks the
    /// host to stop; every other event but `BackToMenu` is ignored. Then the
    /// lands produce, then the people consume. Then the clock advances by
    /// `elapsed_ms`, or, on `BackToMenu`, the game leaves for the menu and the
    /// clock is put to rest.
    pub fn play(&mut self, event: KeyEvent, elapsed_ms: u64) -> (report: FrameReport)
        ensures
            final(self)@ == old(self)@.after_play(event, elapsed_ms),
            report == old(self)@.play_report(event),
    {
        let mut quit = false;
        let mut leave = false;
        match event {
            KeyEvent::BackToMenu => {
                leave = true;
            },
            KeyEvent::Quit => {
                quit = true;
            },
            KeyEvent::AddLand => {
                self.registry.add_land(Land::grassland());
            },
            KeyEvent::AddPerson => {
                self.registry.add_person(Person::farmer());
            },
            _ => {},
        }
        let settlement = self.registry.step(&mut self.market);
        if leave {
            self.back_to_menu();
        } else {
            self.clock.advance(elapsed_ms);
        }
        let supply_exhausted = match settlement {
            Settlement::SupplyExhausted => true,
            Settlement::Paid => false,
        };
        FrameReport { quit, supply_exhausted }
    }

    /// Runs one frame: the handler of the active mode, and only that one.
    pub fn dispatch(&mut self, event: KeyEvent, elapsed_ms: u64) -> (report: FrameReport)
        ensures
            final(self)@ == old(self)@.after_frame(event, elapsed_ms),
            report == old(self)@.frame_report(event),
    {
        match self.mode {
            GameMode::Menu => {
                let quit = self.main_menu(event);
                FrameReport { quit, supply_exhausted: false }
            },
            GameMode::End => {
                let quit = self.dead(event);
                FrameReport { quit, supply_exhausted: false }
            },
            GameMode::Playing => self.play(event, elapsed_ms),
        }
    }

    /// Runs one frame from what the host saw: the key that was pressed, if
    /// any, read as the active mode reads it, and the time the frame took.
    pub fn tick(&mut self, key: Option<Key>, elapsed_ms: u64) -> (report: FrameReport)
        ensures
            final(self)@ == old(self)@.after_frame(meaning(old(self)@.mode, key), elapsed_ms),
            report == old(self)@.frame_report(meaning(old(self)@.mode, key)),
    {
        let event = interpret(self.mode, key);
        self.dispatch(event, elapsed_ms)
    }

    /// The active mode.
    pub fn mode(&self) -> (mode: GameMode)
        ensures
            mode == self@.mode,
    {
        self.mode
    }

    /// The displayed time: ticks of the clock since it was last put to rest.
    pub fn time(&self) -> (ticks: u64)
        ensures
            ticks == self@.clock.ticks,
    {
        self.clock.time()
    }

    /// The quantity of `good` on the market.
    pub fn quantity(&self, good: &str) -> (quantity: u32)
        ensures
            quantity == quantity_in(self@.market, good@),
    {
        self.market.quantity(good)
    }

    /// What the screen needs of the game as it stands: the mode, the
    /// displayed time, every good of the market with its quantity, and the
    /// size of every land, oldest land first.
    pub fn snapshot(&self) -> (shot: Snapshot)
        ensures
            shot.mode == self@.mode,
            shot.time == self@.clock.ticks,
            lists(shot.goods@, self@.market),
            shot.land_sizes@ == sizes_of(self@.lands),
    {
        Snapshot {
            mode: self.mode,
            time: self.clock.time(),
            goods: self.market.entries(),
            land_sizes: self.registry.land_sizes(),
        }
    }

    /// The market, for reading.
    pub fn market(&self) -> (market: &MarketLedger)
        ensures
            market@ == self@.market,
    {
        &self.market
    }

    /// The registry, for reading.
    pub fn registry(&self) -> (registry: &EntityRegistry)
        ensures
            registry.lands() == self@.lands,
            registry.people() == self@.people,
    {
        &self.registry
    }
}

} // verus!

//! Match bookkeeping: the round counter, the reload table it selects from, turns,
//! players and items.
use vstd::prelude::*;

use crate::shotgun::{loaded_from, random_kinds, Shotgun};

verus! {

/// Which overlay menu is open.
#[derive(Clone, Copy, Debug, PartialEq, Eq, Structural)]
pub enum Menu {
    Off,
    Log,
    Help,
}

impl Default for Menu {
    fn default() -> (r: Menu)
        ensures
            r == Menu::Off,
    {
        Menu::Off
    }
}

/// How many shells a reload puts in, by round.
#[derive(Clone, Copy, Debug, PartialEq, Eq, Structural)]
pub enum ReloadAmount {
    One,
    Two,
    Three,
    Four,
    Five,
}

impl Default for ReloadAmount {
    fn default() -> (r: ReloadAmount)
        ensures
            r == ReloadAmount::One,
    {
        ReloadAmount::One
    }
}

/// Number of shells of each reload size.
pub open spec fn amount_of(a: ReloadAmount) -> nat {
    match a {
        ReloadAmount::One => 3,
        ReloadAmount::Two => 5,
        ReloadAmount::Three => 6,
        ReloadAmount::Four => 8,
        ReloadAmount::Five => 10,
    }
}

/// Reload size for a round: rounds 1 to 4 have their own, every other round the fifth.
pub open spec fn amount_for_round(round: int) -> ReloadAmount {
    if round == 1 {
        ReloadAmount::One
    } else if round == 2 {
        ReloadAmount::Two
    } else if round == 3 {
        ReloadAmount::Three
    } else if round == 4 {
        ReloadAmount::Four
    } else {
        ReloadAmount::Five
    }
}

impl ReloadAmount {
    pub fn as_usize(&self) -> (r: usize)
        ensures
            r == amount_of(*self),
    {
        match self {
            ReloadAmount::One => 3,
            ReloadAmount::Two => 5,
            ReloadAmount::Three => 6,
            ReloadAmount::Four => 8,
            ReloadAmount::Five => 10,
        }
    }

    /// The reload size of round `round`.
    pub fn for_round(round: u8) -> (r: ReloadAmount)
        ensures
            r == amount_for_round(round as int),
    {
        match round {
            1 => ReloadAmount::One,
            2 => ReloadAmount::Two,
            3 => ReloadAmount::Three,
            4 => ReloadAmount::Four,
            _ => ReloadAmount::Five,
        }
    }
}

/// Items a player can hold.
#[derive(Clone, Copy, Debug, PartialEq, Eq, Structural)]
pub enum Items {
    Saw,
    Beer,
    Cigarette,
    Mirror,
    Inverter,
    MagnifyingGlass,
    Handcuffs,
    Meth,
    AED,
    Adrenaline,
    LSD,
}

/// A participant of the match.
#[derive(Debug, Clone)]
pub struct Player {
    name: String,
    id: u8,
    health: u8,
    items: Vec<Items>,
}

/// Round counter and whose turn it is.
#[derive(Debug, Clone, Copy)]
pub struct MatchData {
    count: u8,
    turn: Option<u16>,
}

impl Default for MatchData {
    fn default() -> (r: MatchData)
        ensures
            r.round() == 0,
    {
        MatchData { count: 0, turn: None }
    }
}

impl MatchData {
    /// The round counter.
    pub closed spec fn round(self) -> u8 {
        self.count
    }

    /// A match at round 1.
    pub fn new() -> (r: MatchData)
        ensures
            r.round() == 1,
    {
        MatchData { count: 1, turn: None }
    }

    /// Moves on to the next round.
    pub fn incr_round(&mut self)
        requires
            old(self).round() < u8::MAX,
        ensures
            final(self).round() == old(self).round() + 1,
    {
        self.count += 1;
    }

    pub fn count(&self) -> (r: u8)
        ensures
            r == self.round(),
    {
        self.count
    }

    /// Sets the round counter to zero.
    pub fn reset_count(&mut self)
        ensures
            final(self).round() == 0,
    {
        self.count = 0;
    }
}

/// The game state the panels report on.
#[derive(Debug, Clone)]
pub struct Data {
    pub shotgun: Shotgun,
    pub match_data: MatchData,
}

impl Data {
    /// An empty shotgun at round 1.
    pub fn new() -> (r: Data)
        ensures
            r.shotgun.shells@.len() == 0,
            r.match_data.round() == 1,
    {
        Data { shotgun: Shotgun::new(), match_data: MatchData::new() }
    }
}

/// Turns taken so far.
pub struct TurnSystem {
    pub current_turn: usize,
}

/// Every this many turns the shotgun is reloaded.
pub const TURNS_PER_RELOAD: usize = 3;

/// Shells put in by the reload between turns.
pub const SHELLS_PER_TURN_RELOAD: usize = 5;

impl TurnSystem {
    pub fn new() -> (r: TurnSystem)
        ensures
            r.current_turn == 0,
    {
        TurnSystem { current_turn: 0 }
    }

    /// Counts one more turn; every third turn the shotgun is reloaded with five shells
    /// from the mixed table. Returns whether it was reloaded.
    pub fn advance_turn(&mut self, data: &mut Data) -> (reloaded: bool)
        requires
            old(self).current_turn < usize::MAX,
        ensures
            final(self).current_turn == old(self).current_turn + 1,
            reloaded == (final(self).current_turn % TURNS_PER_RELOAD == 0),
            reloaded ==> final(data).shotgun.shells@.len() == SHELLS_PER_TURN_RELOAD,
            reloaded ==> loaded_from(
                final(data).shotgun.shells@,
                random_kinds(),
                SHELLS_PER_TURN_RELOAD as nat,
            ),
            !reloaded ==> final(data).shotgun == old(data).shotgun,
            final(data).match_data == old(data).match_data,
    {
        self.current_turn += 1;
        if self.current_turn % TURNS_PER_RELOAD == 0 {
            data.shotgun.load_random_shells(SHELLS_PER_TURN_RELOAD);
            true
        } else {
            false
        }
    }
}

} // verus!

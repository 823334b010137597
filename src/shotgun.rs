//! The shotgun: a concealed, ordered chamber of shells, loaded by weighted draws
//! and fired from the most recently loaded end.
use vstd::prelude::*;

use crate::rng::{choose_weighted, random_below, weight_total, weights_of};

verus! {

/// One round of ammunition. `Blank` is the harmless default.
///
/// Only the kind of a fired shell is reported; what a `Poison`, `Taser` or other
/// special shell does to a player is left to the game rules built on top.
#[derive(Clone, Copy, Debug, PartialEq, Eq, Structural)]
pub enum Shell {
    Live,
    Blank,
    Poison,
    BeanBag,
    Taser,
    Imposter,
    SelfDestruct,
}

/// Barrel modifier. Stored with the shotgun; firing does not consult it yet.
#[derive(Clone, Copy, Debug, PartialEq, Eq, Structural)]
pub enum ShotgunModel {
    Default,
    Revolver,
}

/// Mechanical state of the shotgun. Stored with it; firing does not consult it yet.
#[derive(Clone, Copy, Debug, PartialEq, Eq, Structural)]
pub enum ShotgunState {
    Default,
    SawedOff,
    Rusty,
    ThickBarrel,
    Reinforced,
}

impl Default for Shell {
    fn default() -> (r: Shell)
        ensures
            r == Shell::Blank,
    {
        Shell::Blank
    }
}

impl Default for ShotgunModel {
    fn default() -> (r: ShotgunModel)
        ensures
            r == ShotgunModel::Default,
    {
        ShotgunModel::Default
    }
}

impl Default for ShotgunState {
    fn default() -> (r: ShotgunState)
        ensures
            r == ShotgunState::Default,
    {
        ShotgunState::Default
    }
}

/// Name of a shell kind, as it appears in the log.
pub open spec fn shell_label(s: Shell) -> Seq<char> {
    match s {
        Shell::Live => "Live"@,
        Shell::Blank => "Blank"@,
        Shell::Poison => "Poison"@,
        Shell::BeanBag => "BeanBag"@,
        Shell::Taser => "Taser"@,
        Shell::Imposter => "Imposter"@,
        Shell::SelfDestruct => "SelfDestruct"@,
    }
}

impl Shell {
    pub fn name(&self) -> (r: &'static str)
        ensures
            r@ == shell_label(*self),
    {
        match self {
            Shell::Live => "Live",
            Shell::Blank => "Blank",
            Shell::Poison => "Poison",
            Shell::BeanBag => "BeanBag",
            Shell::Taser => "Taser",
            Shell::Imposter => "Imposter",
            Shell::SelfDestruct => "SelfDestruct",
        }
    }
}

/// The repair pass after a draw: a non-empty draw without any blank gets a blank at
/// position `pick`; any other draw is kept as it is.
pub open spec fn with_blank(drawn: Seq<Shell>, pick: int) -> Seq<Shell> {
    if drawn.len() > 0 && !drawn.contains(Shell::Blank) {
        drawn.update(pick, Shell::Blank)
    } else {
        drawn
    }
}

/// `chamber` is what a load of `n` shells drawn from `kinds` can leave: `n` draws,
/// each one of `kinds`, followed by the repair pass at a position inside the chamber.
pub open spec fn loaded_from(chamber: Seq<Shell>, kinds: Seq<Shell>, n: nat) -> bool {
    exists|drawn: Seq<Shell>, pick: int|
        {
            &&& #[trigger] with_blank(drawn, pick) == chamber
            &&& drawn.len() == n
            &&& n > 0 ==> 0 <= pick < n
            &&& forall|i: int| 0 <= i < n ==> kinds.contains(#[trigger] drawn[i])
        }
}

/// The shell kinds of the mixed preset, in table order.
pub open spec fn random_kinds() -> Seq<Shell> {
    seq![
        Shell::Live,
        Shell::Blank,
        Shell::Poison,
        Shell::BeanBag,
        Shell::Taser,
        Shell::Imposter,
    ]
}

/// The shell kinds of the plain preset, in table order.
pub open spec fn default_kinds() -> Seq<Shell> {
    seq![Shell::Live, Shell::Blank]
}

/// What a shot yields from `chamber`: the last shell loaded, or nothing.
pub open spec fn fired(chamber: Seq<Shell>) -> Option<Shell> {
    if chamber.len() == 0 {
        None
    } else {
        Some(chamber.last())
    }
}

/// The chamber after one shot.
pub open spec fn after_fire(chamber: Seq<Shell>) -> Seq<Shell> {
    if chamber.len() == 0 {
        chamber
    } else {
        chamber.drop_last()
    }
}

/// The chamber after `k` shots.
pub open spec fn after_fires(chamber: Seq<Shell>, k: nat) -> Seq<Shell>
    decreases k,
{
    if k == 0 {
        chamber
    } else {
        after_fire(after_fires(chamber, (k - 1) as nat))
    }
}

/// After `k` shots, the chamber is what was loaded, less its last `k` shells.
proof fn lemma_after_fires_take(chamber: Seq<Shell>, k: nat)
    requires
        k <= chamber.len(),
    ensures
        after_fires(chamber, k) == chamber.take(chamber.len() - k),
    decreases k,
{
    if k == 0 {
        assert(chamber.take(chamber.len() as int) =~= chamber);
    } else {
        lemma_after_fires_take(chamber, (k - 1) as nat);
        assert(chamber.take(chamber.len() - (k - 1)).drop_last() =~= chamber.take(
            chamber.len() - k,
        ));
    }
}

/// A chamber of `n` shells yields exactly `n` shells when fired `n` times, the last
/// loaded first; it is then empty, and the next shot finds no shell.
pub proof fn law_fire_until_empty(chamber: Seq<Shell>, n: nat)
    requires
        chamber.len() == n,
    ensures
        forall|k: nat|
            k < n ==> #[trigger] fired(after_fires(chamber, k)) == Some(chamber[n - 1 - k]),
        after_fires(chamber, n) == Seq::<Shell>::empty(),
        fired(after_fires(chamber, n)) is None,
{
    assert forall|k: nat| k < n implies #[trigger] fired(after_fires(chamber, k)) == Some(
        chamber[n - 1 - k],
    ) by {
        lemma_after_fires_take(chamber, k);
    }
    lemma_after_fires_take(chamber, n);
    assert(chamber.take(0) =~= Seq::<Shell>::empty());
}

/// Log text for the outcome of a shot.
pub open spec fn outcome_label(outcome: Option<Shell>) -> Seq<char> {
    match outcome {
        Some(s) => "Popped shell: "@ + shell_label(s),
        None => "No shell in shotgun."@,
    }
}

/// The text that reports the outcome of a shot.
pub fn outcome_text(outcome: Option<Shell>) -> (r: String)
    ensures
        r@ == outcome_label(outcome),
{
    match outcome {
        Some(s) => String::from_str("Popped shell: ").concat(s.name()),
        None => String::from_str("No shell in shotgun."),
    }
}

#[derive(Debug, Clone)]
pub struct Shotgun {
    /// The chamber; the last element is the next to be fired.
    pub shells: Vec<Shell>,
    pub state: ShotgunState,
    pub model: ShotgunModel,
}

impl Default for Shotgun {
    fn default() -> (r: Shotgun)
        ensures
            r.shells@.len() == 0,
            r.state == ShotgunState::Default,
            r.model == ShotgunModel::Default,
    {
        Shotgun::new()
    }
}

impl Shotgun {
    /// An empty shotgun in its default state and model.
    pub fn new() -> (r: Shotgun)
        ensures
            r.shells@.len() == 0,
            r.state == ShotgunState::Default,
            r.model == ShotgunModel::Default,
    {
        Shotgun { shells: Vec::new(), state: ShotgunState::Default, model: ShotgunModel::Default }
    }

    /// Whether the chamber holds a blank.
    pub fn has_blank(&self) -> (r: bool)
        ensures
            r == self.shells@.contains(Shell::Blank),
    {
        let mut i: usize = 0;
        while i < self.shells.len()
            invariant
                i <= self.shells@.len(),
                forall|j: int| 0 <= j < i ==> self.shells@[j] != Shell::Blank,
            decreases self.shells@.len() - i,
        {
            if self.shells[i] == Shell::Blank {
                return true;
            }
            i += 1;
        }
        false
    }

    /// Replaces the chamber by `num_shells` shells drawn independently from
    /// `all_shells`, each with probability proportional to its weight, in draw order;
    /// then, if the draw is non-empty and holds no blank, one uniformly chosen
    /// position becomes a blank.
    pub fn load(&mut self, all_shells: Vec<Shell>, weights: Vec<usize>, num_shells: usize)
        requires
            all_shells@.len() == weights@.len(),
            weights@.len() > 0,
            forall|i: int| 0 <= i < weights@.len() ==> weights@[i] > 0,
            weight_total(weights@) <= usize::MAX,
        ensures
            final(self).shells@.len() == num_shells,
            num_shells > 0 ==> final(self).shells@.contains(Shell::Blank),
            forall|i: int|
                0 <= i < num_shells ==> #[trigger] final(self).shells@[i] == Shell::Blank
                    || all_shells@.contains(final(self).shells@[i]),
            loaded_from(final(self).shells@, all_shells@, num_shells as nat),
            final(self).state == old(self).state,
            final(self).model == old(self).model,
    {
        let mut rng = rand::thread_rng();
        let mut table: Vec<(Shell, usize)> = Vec::new();
        let mut i: usize = 0;
        while i < weights.len()
            invariant
                i <= weights@.len(),
                all_shells@.len() == weights@.len(),
                table@.len() == i,
                forall|j: int| 0 <= j < i ==> #[trigger] table@[j] == (all_shells@[j], weights@[j]),
            decreases weights@.len() - i,
        {
            table.push((all_shells[i], weights[i]));
            i += 1;
        }
        assert(weights_of(table@) =~= weights@);

        let mut drawn: Vec<Shell> = Vec::new();
        let mut k: usize = 0;
        while k < num_shells
            invariant
                k <= num_shells,
                drawn@.len() == k,
                table@.len() == all_shells@.len(),
                table@.len() > 0,
                forall|j: int| 0 <= j < table@.len() ==> #[trigger] table@[j] == (all_shells@[j], weights@[j]),
                forall|j: int| 0 <= j < weights@.len() ==> weights@[j] > 0,
                weights_of(table@) == weights@,
                weight_total(weights@) <= usize::MAX,
                forall|j: int| 0 <= j < k ==> all_shells@.contains(#[trigger] drawn@[j]),
            decreases num_shells - k,
        {
            let s = match choose_weighted(table.as_slice(), &mut rng) {
                Ok(s) => s,
                Err(_) => vstd::pervasive::unreached(),
            };
            proof {
                let w = choose|w: int| 0 <= w < table@.len() && table@[w].0 == s;
                assert(all_shells@[w] == s);
            }
            drawn.push(s);
            k += 1;
        }

        let ghost draw = drawn@;
        let ghost mut pick: int = 0;
        self.shells = drawn;
        if self.shells.len() > 0 && !self.has_blank() {
            let p = random_below(&mut rng, self.shells.len());
            proof {
                pick = p as int;
            }
            self.shells.set(p, Shell::Blank);
            assert(self.shells@[p as int] == Shell::Blank);
        }
        assert(with_blank(draw, pick) =~= self.shells@);
    }

    /// Loads `num_shells` shells from the mixed table: Live 10, Blank 14,
    /// Poison 1, BeanBag 2, Taser 1, Imposter 1.
    pub fn load_random_shells(&mut self, num_shells: usize)
        ensures
            final(self).shells@.len() == num_shells,
            num_shells > 0 ==> final(self).shells@.contains(Shell::Blank),
            loaded_from(final(self).shells@, random_kinds(), num_shells as nat),
            final(self).state == old(self).state,
            final(self).model == old(self).model,
    {
        let all_shells = vec![
            Shell::Live,
            Shell::Blank,
            Shell::Poison,
            Shell::BeanBag,
            Shell::Taser,
            Shell::Imposter,
        ];
        let weights: Vec<usize> = vec![10, 14, 1, 2, 1, 1];
        assert(all_shells@ =~= random_kinds());
        proof {
            reveal_with_fuel(weight_total, 7);
        }
        self.load(all_shells, weights, num_shells);
    }

    /// Loads `num_shells` shells from the plain table: Live 10, Blank 14.
    pub fn load_default_shells(&mut self, num_shells: usize)
        ensures
            final(self).shells@.len() == num_shells,
            num_shells > 0 ==> final(self).shells@.contains(Shell::Blank),
            loaded_from(final(self).shells@, default_kinds(), num_shells as nat),
            final(self).state == old(self).state,
            final(self).model == old(self).model,
    {
        let all_shells = vec![Shell::Live, Shell::Blank];
        let weights: Vec<usize> = vec![10, 14];
        assert(all_shells@ =~= default_kinds());
        proof {
            reveal_with_fuel(weight_total, 3);
        }
        self.load(all_shells, weights, num_shells);
    }

    /// Fires: removes and returns the most recently loaded shell, or `None` when the
    /// chamber is empty.
    pub fn shoot(&mut self) -> (r: Option<Shell>)
        ensures
            r == fired(old(self).shells@),
            final(self).shells@ == after_fire(old(self).shells@),
            final(self).state == old(self).state,
            final(self).model == old(self).model,
    {
        self.shells.pop()
    }

    /// Number of shells left in the chamber.
    pub fn shell_count(&self) -> (r: usize)
        ensures
            r == self.shells@.len(),
    {
        self.shells.len()
    }
}

} // verus!

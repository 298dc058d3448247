//! Whose turn it is, where any number of actors take turns: each waits a
//! number of rounds, and the one that waits least acts next.

use vstd::prelude::*;

verus! {

/// What the game shows: the loading screen, the menu, the profile editor or a match.
#[derive(PartialEq, Eq, Hash, Copy, Debug, Clone, Structural)]
pub enum GameState {
    AssetsLoading,
    Menu,
    ProfileEdit,
    Game,
}

impl Default for GameState {
    fn default() -> (state: GameState)
        ensures
            state == GameState::AssetsLoading,
    {
        GameState::AssetsLoading
    }
}

/// The steps of a turn.
#[derive(PartialEq, Eq, Hash, Copy, Debug, Clone, Structural)]
pub enum GameTurnSteps {
    /// Nobody holds the turn: the next actor is looked for.
    SearchForAgents,
    /// The actor that holds the turn chooses what to do.
    ActionSelection,
    /// What was chosen is carried out.
    PerformAction,
}

impl Default for GameTurnSteps {
    fn default() -> (step: GameTurnSteps)
        ensures
            step == GameTurnSteps::SearchForAgents,
    {
        GameTurnSteps::SearchForAgents
    }
}

impl GameTurnSteps {
    /// The step that follows, given whether this step has done its work:
    /// an actor was found, an action was chosen, the action was carried
    /// out. A step that has not done its work stays.
    pub open spec fn spec_next(self, done: bool) -> GameTurnSteps {
        if !done {
            self
        } else {
            match self {
                GameTurnSteps::SearchForAgents => GameTurnSteps::ActionSelection,
                GameTurnSteps::ActionSelection => GameTurnSteps::PerformAction,
                GameTurnSteps::PerformAction => GameTurnSteps::SearchForAgents,
            }
        }
    }

    /// The step that follows, given whether this step has done its work.
    #[verifier::when_used_as_spec(spec_next)]
    pub fn next(self, done: bool) -> (step: GameTurnSteps)
        ensures
            step == self.spec_next(done),
    {
        if !done {
            return self;
        }
        match self {
            GameTurnSteps::SearchForAgents => GameTurnSteps::ActionSelection,
            GameTurnSteps::ActionSelection => GameTurnSteps::PerformAction,
            GameTurnSteps::PerformAction => GameTurnSteps::SearchForAgents,
        }
    }
}

/// For how many rounds an actor still waits.
#[derive(PartialEq, Eq, Hash, Copy, Debug, Clone, Structural)]
pub struct ActorTurn(pub usize);

impl Default for ActorTurn {
    fn default() -> (turn: ActorTurn)
        ensures
            turn.0 == 0,
    {
        ActorTurn(0)
    }
}

/// By how many rounds the wait of an actor grows when it has acted.
pub const ROUNDS_BETWEEN_TURNS: usize = 2;

impl ActorTurn {
    /// Whether `remove_token` can be called: the longer wait can be held in
    /// a `usize`.
    pub fn can_remove_token(&self) -> (ok: bool)
        ensures
            ok == (self.0 + ROUNDS_BETWEEN_TURNS <= usize::MAX),
    {
        self.0 <= usize::MAX - ROUNDS_BETWEEN_TURNS
    }

    /// Takes the turn from an actor that has acted: it waits two rounds more.
    pub fn remove_token(&mut self)
        requires
            old(self).0 + ROUNDS_BETWEEN_TURNS <= usize::MAX,
        ensures
            final(self).0 == old(self).0 + ROUNDS_BETWEEN_TURNS,
    {
        self.0 = self.0 + ROUNDS_BETWEEN_TURNS;
    }
}

/// Whether the actor at `i` acts next: its wait is the least, it is the
/// first to wait so little, and its wait is less than `usize::MAX`.
pub open spec fn acts_next(actors: Seq<ActorTurn>, i: int) -> bool {
    &&& 0 <= i < actors.len()
    &&& actors[i].0 < usize::MAX
    &&& forall|j: int| 0 <= j < actors.len() ==> actors[i].0 <= (#[trigger] actors[j]).0
    &&& forall|j: int| 0 <= j < i ==> actors[i].0 < (#[trigger] actors[j]).0
}

/// Finds the actor that acts next: the first of those that wait least.
/// Nobody acts where there is no actor, or where all wait `usize::MAX` rounds.
pub fn search_for_actors(actors: &[ActorTurn]) -> (found: Option<usize>)
    ensures
        match found {
            Some(i) => acts_next(actors@, i as int),
            None => forall|j: int| 0 <= j < actors@.len() ==> (#[trigger] actors@[j]).0 == usize::MAX,
        },
{
    let mut lowest_delay: (usize, usize) = (usize::MAX, 0);
    let mut i: usize = 0;
    while i < actors.len()
        invariant
            i <= actors@.len(),
            forall|j: int| 0 <= j < i ==> lowest_delay.0 <= (#[trigger] actors@[j]).0,
            lowest_delay.0 < usize::MAX ==> lowest_delay.1 < i && actors@[lowest_delay.1 as int].0
                == lowest_delay.0 && forall|j: int|
                0 <= j < lowest_delay.1 ==> lowest_delay.0 < (#[trigger] actors@[j]).0,
        decreases actors@.len() - i,
    {
        if actors[i].0 < lowest_delay.0 {
            lowest_delay = (actors[i].0, i);
        }
        i += 1;
    }
    if lowest_delay.0 < usize::MAX {
        Some(lowest_delay.1)
    } else {
        None
    }
}

/// At most one actor acts next.
pub proof fn lemma_acts_next_is_unique(actors: Seq<ActorTurn>, i: int, j: int)
    requires
        acts_next(actors, i),
        acts_next(actors, j),
    ensures
        i == j,
{
    if i < j {
        assert(actors[j].0 < actors[i].0);
        assert(actors[i].0 <= actors[j].0);
    } else if j < i {
        assert(actors[i].0 < actors[j].0);
        assert(actors[j].0 <= actors[i].0);
    }
}

/// Two actors take turns one after the other: where the first waits one
/// round less than the second, the first acts, and once it has acted the
/// second waits one round less than the first, and acts.
pub proof fn lemma_two_actors_alternate(first: usize, second: usize)
    requires
        second == first + 1,
        first + ROUNDS_BETWEEN_TURNS < usize::MAX,
    ensures
        acts_next(seq![ActorTurn(first), ActorTurn(second)], 0),
        acts_next(seq![ActorTurn((first + ROUNDS_BETWEEN_TURNS) as usize), ActorTurn(second)], 1),
        first + ROUNDS_BETWEEN_TURNS == second + 1,
{
}

} // verus!

use vstd::prelude::*;

verus! {

/// Deepest the stack of game states may grow.
pub const MAX_STATE_DEPTH: usize = 8;

/// A screen of the game.
#[derive(Clone, Copy, Debug, PartialEq, Eq, Hash, Structural)]
pub enum GameState {
    MainMenu,
    PauseMenu,
    Level,
    GameOver,
}

/// A transition that the stack of states cannot make.
#[derive(Clone, Copy, Debug, PartialEq, Eq, Structural)]
pub enum StateError {
    /// A pop would leave no state at all.
    StackEmpty,
    /// A push would go past `MAX_STATE_DEPTH`.
    StackFull,
    /// The requested state is already the active one.
    AlreadyInState,
}

/// The states of the game, the active one last; an overlay such as the pause
/// menu is pushed above the state it pauses.
pub struct StateStack {
    stack: Vec<GameState>,
}

impl View for StateStack {
    type V = Seq<GameState>;

    closed spec fn view(&self) -> Seq<GameState> {
        self.stack@
    }
}

impl StateStack {
    /// At least one state, and at most `MAX_STATE_DEPTH`.
    pub open spec fn wf(&self) -> bool {
        1 <= self@.len() <= MAX_STATE_DEPTH
    }

    /// The active state.
    pub open spec fn top(&self) -> GameState {
        self@.last()
    }

    /// A stack holding `initial` alone.
    pub fn new(initial: GameState) -> (r: StateStack)
        ensures
            r@ == seq![initial],
            r.wf(),
    {
        let mut stack = Vec::new();
        stack.push(initial);
        StateStack { stack }
    }

    /// The active state.
    pub fn current(&self) -> (r: GameState)
        requires
            self.wf(),
        ensures
            r == self.top(),
    {
        self.stack[self.stack.len() - 1]
    }

    /// The number of states on the stack.
    pub fn depth(&self) -> (r: usize)
        ensures
            r == self@.len(),
    {
        self.stack.len()
    }

    /// Puts `s` above the active state.
    pub fn push(&mut self, s: GameState) -> (r: Result<(), StateError>)
        requires
            old(self).wf(),
        ensures
            final(self).wf(),
            r == (if old(self).top() == s {
                Err(StateError::AlreadyInState)
            } else if old(self)@.len() == MAX_STATE_DEPTH {
                Err(StateError::StackFull)
            } else {
                Ok(())
            }),
            r is Ok ==> final(self)@ == old(self)@.push(s),
            r is Err ==> final(self)@ == old(self)@,
    {
        if self.current() == s {
            Err(StateError::AlreadyInState)
        } else if self.stack.len() == MAX_STATE_DEPTH {
            Err(StateError::StackFull)
        } else {
            self.stack.push(s);
            Ok(())
        }
    }

    /// Removes the active state and returns to the one below it.
    pub fn pop(&mut self) -> (r: Result<GameState, StateError>)
        requires
            old(self).wf(),
        ensures
            final(self).wf(),
            r == (if old(self)@.len() == 1 {
                Err(StateError::StackEmpty)
            } else {
                Ok(old(self).top())
            }),
            r is Ok ==> final(self)@ == old(self)@.drop_last(),
            r is Err ==> final(self)@ == old(self)@,
    {
        if self.stack.len() == 1 {
            Err(StateError::StackEmpty)
        } else {
            let s = self.stack.pop();
            match s {
                Some(s) => Ok(s),
                None => Err(StateError::StackEmpty),
            }
        }
    }

    /// Replaces the active state by `s`.
    pub fn set(&mut self, s: GameState) -> (r: Result<(), StateError>)
        requires
            old(self).wf(),
        ensures
            final(self).wf(),
            r == (if old(self).top() == s { Err(StateError::AlreadyInState) } else { Ok(()) }),
            r is Ok ==> final(self)@ == old(self)@.update(old(self)@.len() - 1, s),
            r is Err ==> final(self)@ == old(self)@,
    {
        if self.current() == s {
            Err(StateError::AlreadyInState)
        } else {
            let last = self.stack.len() - 1;
            self.stack.set(last, s);
            Ok(())
        }
    }
}

} // verus!

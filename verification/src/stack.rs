//! The application state stack: push, pop, replace, and the guarantee
//! that the stack never runs empty.

use vstd::prelude::*;

use crate::states::GameState;

verus! {

/// The error returned by a pop on a stack that holds only one state.
/// The base state can never be removed.
#[derive(Clone, Copy, PartialEq, Eq, Structural, Debug)]
pub struct EmptyStackError;

/// An ordered stack of application states. The last element is the top,
/// i.e. the currently active state. A stack always holds at least one
/// state: `pop` refuses to remove the last one.
pub struct StateStack {
    states: Vec<GameState>,
}

/// One operation on the state stack, used to state what any sequence of
/// operations does to it.
#[derive(Clone, Copy, PartialEq, Eq, Structural, Debug)]
pub enum StackOp {
    Push(GameState),
    Pop,
}

/// What a single operation does to the stack contents. A pop on a stack
/// with a single state leaves it unchanged (the operation fails instead).
pub open spec fn stack_after_op(s: Seq<GameState>, op: StackOp) -> Seq<GameState> {
    match op {
        StackOp::Push(g) => s.push(g),
        StackOp::Pop => if s.len() > 1 {
            s.drop_last()
        } else {
            s
        },
    }
}

/// What a sequence of operations, applied first to last, does to the stack.
pub open spec fn stack_after_ops(s: Seq<GameState>, ops: Seq<StackOp>) -> Seq<GameState>
    decreases ops.len(),
{
    if ops.len() == 0 {
        s
    } else {
        stack_after_op(stack_after_ops(s, ops.drop_last()), ops.last())
    }
}

/// Law: starting from a stack with at least one state, no sequence of
/// push and pop operations can empty it; a pop on a one-state stack
/// fails and leaves the stack unchanged.
pub proof fn lemma_stack_never_empty(init: Seq<GameState>, ops: Seq<StackOp>)
    requires
        init.len() >= 1,
    ensures
        stack_after_ops(init, ops).len() >= 1,
    decreases ops.len(),
{
    if ops.len() > 0 {
        lemma_stack_never_empty(init, ops.drop_last());
    }
}

impl StateStack {
    /// The stack contents, bottom first; the last element is the top.
    pub closed spec fn view(&self) -> Seq<GameState> {
        self.states@
    }

    /// A stack is well formed when it holds at least one state.
    pub open spec fn wf(&self) -> bool {
        self@.len() >= 1
    }

    /// Creates a stack holding exactly the given initial state.
    pub fn new(initial: GameState) -> (s: Self)
        ensures
            s@ == seq![initial],
            s.wf(),
    {
        let states = vec![initial];
        assert(states@ =~= seq![initial]);
        StateStack { states }
    }

    /// The number of states on the stack.
    pub fn depth(&self) -> (n: usize)
        ensures
            n == self@.len(),
    {
        self.states.len()
    }

    /// The state at position `i`, counted from the bottom of the stack.
    pub fn state_at(&self, i: usize) -> (r: GameState)
        requires
            i < self@.len(),
        ensures
            r == self@[i as int],
    {
        self.states[i]
    }

    /// The top of the stack: the currently active state.
    pub fn current(&self) -> (r: GameState)
        requires
            self.wf(),
        ensures
            r == self@.last(),
    {
        self.states[self.states.len() - 1]
    }

    /// Pushes a new state on top of the stack. The previous top stays on
    /// the stack beneath it, dormant until popped back to.
    pub fn push(&mut self, state: GameState)
        ensures
            final(self)@ == old(self)@.push(state),
            final(self)@ == stack_after_op(old(self)@, StackOp::Push(state)),
            final(self).wf(),
    {
        self.states.push(state);
    }

    /// Pops the top state and returns it, reactivating the state beneath.
    /// On a stack with a single state the pop fails with `EmptyStackError`
    /// and the stack is left unchanged.
    pub fn pop(&mut self) -> (r: Result<GameState, EmptyStackError>)
        requires
            old(self).wf(),
        ensures
            old(self)@.len() > 1 ==> r == Ok::<GameState, EmptyStackError>(old(self)@.last())
                && final(self)@ == old(self)@.drop_last(),
            old(self)@.len() == 1 ==> r == Err::<GameState, EmptyStackError>(EmptyStackError)
                && final(self)@ == old(self)@,
            final(self)@ == stack_after_op(old(self)@, StackOp::Pop),
            final(self).wf(),
    {
        if self.states.len() <= 1 {
            Err(EmptyStackError)
        } else {
            let top = self.states.pop().unwrap();
            Ok(top)
        }
    }

    /// Replaces the top state with the given one. The rest of the stack
    /// is untouched.
    pub fn replace(&mut self, state: GameState)
        requires
            old(self).wf(),
        ensures
            final(self)@ == old(self)@.drop_last().push(state),
            final(self).wf(),
    {
        let _ = self.states.pop();
        self.states.push(state);
    }
}

} // verus!

//! The application states that can sit on the state stack.

use vstd::prelude::*;

verus! {

/// A named application state. States are stacked: only the top of the
/// stack is active for per-frame update handling, while the states below
/// it stay dormant until they are popped back to.
#[derive(Clone, Copy, PartialEq, Eq, Structural, Debug)]
pub enum GameState {
    /// The main menu, with the Play, Controls and Exit buttons.
    MainMenu,
    /// The controls screen, with the instructional text and a Back button.
    ControlMenu,
    /// The running game itself. No scene is defined for it here.
    MainGame,
}

} // verus!

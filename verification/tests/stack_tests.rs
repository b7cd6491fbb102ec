use bevy_simple_menu::stack::{EmptyStackError, StateStack};
use bevy_simple_menu::states::GameState;

#[test]
fn new_stack_holds_initial_state() {
    let s = StateStack::new(GameState::MainMenu);
    assert_eq!(s.depth(), 1);
    assert_eq!(s.current(), GameState::MainMenu);
}

#[test]
fn push_suspends_and_activates() {
    let mut s = StateStack::new(GameState::MainMenu);
    s.push(GameState::ControlMenu);
    assert_eq!(s.depth(), 2);
    assert_eq!(s.state_at(0), GameState::MainMenu);
    assert_eq!(s.state_at(1), GameState::ControlMenu);
    assert_eq!(s.current(), GameState::ControlMenu);
}

#[test]
fn pop_returns_top_and_reveals_previous() {
    let mut s = StateStack::new(GameState::MainMenu);
    s.push(GameState::MainGame);
    let popped = s.pop();
    assert_eq!(popped, Ok(GameState::MainGame));
    assert_eq!(s.depth(), 1);
    assert_eq!(s.current(), GameState::MainMenu);
}

#[test]
fn pop_on_single_state_fails_and_leaves_stack_unchanged() {
    let mut s = StateStack::new(GameState::MainMenu);
    let popped = s.pop();
    assert_eq!(popped, Err(EmptyStackError));
    assert_eq!(s.depth(), 1);
    assert_eq!(s.current(), GameState::MainMenu);
}

#[test]
fn stack_never_empties_under_any_push_pop_sequence() {
    let mut s = StateStack::new(GameState::MainMenu);
    // a long, errant sequence of operations: the depth never reaches zero
    for round in 0..5u32 {
        for _ in 0..round {
            s.push(GameState::MainGame);
        }
        for _ in 0..(round + 3) {
            let _ = s.pop();
            assert!(s.depth() >= 1);
        }
        assert_eq!(s.depth(), 1);
        assert_eq!(s.current(), GameState::MainMenu);
    }
}

#[test]
fn replace_swaps_the_top() {
    let mut s = StateStack::new(GameState::MainMenu);
    s.push(GameState::ControlMenu);
    s.replace(GameState::MainGame);
    assert_eq!(s.depth(), 2);
    assert_eq!(s.state_at(0), GameState::MainMenu);
    assert_eq!(s.current(), GameState::MainGame);
}

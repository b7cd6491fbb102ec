use bevy_simple_menu::events::{ExitEvents, Interaction};
use bevy_simple_menu::menus::controls_menu::{
    handle_back_button_interaction, setup_controls_menu, teardown_controls_menu,
};
use bevy_simple_menu::menus::main_menu::{
    action_for, handle_menu_item_click, setup_main_menu, teardown_menu_items, Action, MenuItem,
};
use bevy_simple_menu::scene::{
    label_text, ButtonTag, ClearColor, Color, Label, SceneGraph, Widget,
};
use bevy_simple_menu::stack::{EmptyStackError, StateStack};
use bevy_simple_menu::states::GameState;

fn nodes_of(g: &SceneGraph) -> Vec<bevy_simple_menu::scene::Node> {
    let mut v = Vec::new();
    for i in 0..g.node_count() {
        v.push(g.node_at(i));
    }
    v
}

#[test]
fn main_menu_scene_has_root_title_and_three_tagged_buttons() {
    let mut g = SceneGraph::new();
    let mut clear = ClearColor(Color::White);
    setup_main_menu(&mut g, &mut clear);
    assert_eq!(clear.0, Color::Black);
    let nodes = nodes_of(&g);
    assert_eq!(nodes.len(), 8);
    // one marked root, owned by the main menu, visible
    assert_eq!(nodes[0].parent, None);
    assert_eq!(nodes[0].owner, GameState::MainMenu);
    assert_eq!(nodes[0].widget, Widget::Layout);
    assert!(nodes[0].visible);
    // the title
    assert_eq!(nodes[1].parent, Some(nodes[0].id));
    assert_eq!(nodes[1].label, Some(Label::GameTitle));
    // the three buttons, in order, each tagged with its item
    let tags: Vec<_> = nodes.iter().filter_map(|n| n.tag).collect();
    assert_eq!(
        tags,
        vec![
            ButtonTag::Item(MenuItem::Play),
            ButtonTag::Item(MenuItem::Controls),
            ButtonTag::Item(MenuItem::Exit),
        ]
    );
    // every node is owned by the main menu and visible
    for n in &nodes {
        assert_eq!(n.owner, GameState::MainMenu);
        assert!(n.visible);
    }
}

#[test]
fn controls_menu_scene_has_help_text_and_one_back_button() {
    let mut g = SceneGraph::new();
    setup_controls_menu(&mut g);
    let nodes = nodes_of(&g);
    assert_eq!(nodes.len(), 4);
    assert_eq!(nodes[0].parent, None);
    assert_eq!(nodes[0].owner, GameState::ControlMenu);
    assert_eq!(nodes[1].label, Some(Label::ControlsHelp));
    let back_buttons: Vec<_> =
        nodes.iter().filter(|n| n.tag == Some(ButtonTag::Back)).collect();
    assert_eq!(back_buttons.len(), 1);
    assert_eq!(back_buttons[0].widget, Widget::Button);
    assert_eq!(nodes[3].label, Some(Label::Back));
    assert_eq!(nodes[3].parent, Some(back_buttons[0].id));
}

#[test]
fn labels_read_as_expected() {
    assert_eq!(label_text(Label::GameTitle), "Bevy Simple Menu");
    assert_eq!(label_text(Label::Play), "Play");
    assert_eq!(label_text(Label::Controls), "Controls");
    assert_eq!(label_text(Label::Exit), "Exit");
    assert_eq!(label_text(Label::Back), "Back");
    assert_eq!(
        label_text(Label::ControlsHelp),
        "Use \"WASD\" to move and \"E\" to interact with things."
    );
}

#[test]
fn action_dispatch_table() {
    assert_eq!(action_for(MenuItem::Play), Action::StartGame);
    assert_eq!(action_for(MenuItem::Controls), Action::OpenControls);
    assert_eq!(action_for(MenuItem::Exit), Action::Quit);
}

#[test]
fn teardown_removes_marked_root_and_all_descendants() {
    let mut g = SceneGraph::new();
    let mut clear = ClearColor(Color::White);
    setup_main_menu(&mut g, &mut clear);
    assert_eq!(g.node_count(), 8);
    teardown_menu_items(&mut g);
    assert_eq!(g.node_count(), 0);
}

#[test]
fn teardown_removes_descendants_added_after_the_initial_build() {
    let mut g = SceneGraph::new();
    let mut clear = ClearColor(Color::White);
    setup_main_menu(&mut g, &mut clear);
    let root_id = g.node_at(0).id;
    // attach a late child under the root: it inherits the owner
    let late = g.spawn_child(root_id, Widget::Text, Some(Label::Play));
    assert!(late.is_some());
    assert_eq!(g.node_count(), 9);
    assert_eq!(g.node_at(8).owner, GameState::MainMenu);
    teardown_menu_items(&mut g);
    assert_eq!(g.node_count(), 0);
}

#[test]
fn teardown_without_matching_entities_is_a_noop() {
    let mut g = SceneGraph::new();
    let mut clear = ClearColor(Color::White);
    setup_main_menu(&mut g, &mut clear);
    let before = nodes_of(&g);
    // the controls menu owns nothing here: nothing changes, nothing fails
    teardown_controls_menu(&mut g);
    let after = nodes_of(&g);
    assert_eq!(before, after);
    // and on an empty graph it is a no-op too
    let mut empty = SceneGraph::new();
    teardown_menu_items(&mut empty);
    assert_eq!(empty.node_count(), 0);
}

#[test]
fn teardown_keeps_other_scenes_intact() {
    let mut g = SceneGraph::new();
    setup_controls_menu(&mut g);
    let mut clear = ClearColor(Color::White);
    setup_main_menu(&mut g, &mut clear);
    assert_eq!(g.node_count(), 12);
    teardown_menu_items(&mut g);
    let nodes = nodes_of(&g);
    assert_eq!(nodes.len(), 4);
    for n in &nodes {
        assert_eq!(n.owner, GameState::ControlMenu);
    }
}

#[test]
fn spawn_child_of_unknown_parent_spawns_nothing() {
    let mut g = SceneGraph::new();
    setup_controls_menu(&mut g);
    let r = g.spawn_child(999, Widget::Text, None);
    assert_eq!(r, None);
    assert_eq!(g.node_count(), 4);
}

#[test]
fn click_play_pushes_main_game() {
    let mut exits = ExitEvents::new();
    let mut stack = StateStack::new(GameState::MainMenu);
    let query = vec![(Interaction::Clicked, MenuItem::Play)];
    handle_menu_item_click(&mut exits, &mut stack, &query);
    assert_eq!(stack.depth(), 2);
    assert_eq!(stack.current(), GameState::MainGame);
    assert_eq!(exits.count(), 0);
}

#[test]
fn click_controls_pushes_control_menu() {
    let mut exits = ExitEvents::new();
    let mut stack = StateStack::new(GameState::MainMenu);
    let query = vec![
        (Interaction::Hovered, MenuItem::Play),
        (Interaction::Clicked, MenuItem::Controls),
        (Interaction::Idle, MenuItem::Exit),
    ];
    handle_menu_item_click(&mut exits, &mut stack, &query);
    assert_eq!(stack.depth(), 2);
    assert_eq!(stack.current(), GameState::ControlMenu);
    assert_eq!(exits.count(), 0);
}

#[test]
fn click_exit_sends_exactly_one_exit_event_and_keeps_stack() {
    let mut exits = ExitEvents::new();
    let mut stack = StateStack::new(GameState::MainMenu);
    let query = vec![(Interaction::Clicked, MenuItem::Exit)];
    handle_menu_item_click(&mut exits, &mut stack, &query);
    assert_eq!(exits.count(), 1);
    assert_eq!(stack.depth(), 1);
    assert_eq!(stack.current(), GameState::MainMenu);
}

#[test]
fn hovered_and_idle_signals_do_nothing() {
    let mut exits = ExitEvents::new();
    let mut stack = StateStack::new(GameState::MainMenu);
    let query = vec![
        (Interaction::Hovered, MenuItem::Play),
        (Interaction::Idle, MenuItem::Controls),
        (Interaction::Hovered, MenuItem::Exit),
    ];
    handle_menu_item_click(&mut exits, &mut stack, &query);
    assert_eq!(stack.depth(), 1);
    assert_eq!(exits.count(), 0);
}

#[test]
fn back_click_pops_the_stack() {
    let mut stack = StateStack::new(GameState::MainMenu);
    stack.push(GameState::ControlMenu);
    let r = handle_back_button_interaction(&mut stack, &vec![Interaction::Clicked]);
    assert_eq!(r, Ok(()));
    assert_eq!(stack.depth(), 1);
    assert_eq!(stack.current(), GameState::MainMenu);
}

#[test]
fn errant_back_click_on_base_state_reports_empty_stack_error() {
    let mut stack = StateStack::new(GameState::MainMenu);
    let r = handle_back_button_interaction(&mut stack, &vec![Interaction::Clicked]);
    assert_eq!(r, Err(EmptyStackError));
    assert_eq!(stack.depth(), 1);
    assert_eq!(stack.current(), GameState::MainMenu);
}

#[test]
fn each_exit_click_sends_its_own_event() {
    let mut exits = ExitEvents::new();
    let mut stack = StateStack::new(GameState::MainMenu);
    let query = vec![
        (Interaction::Clicked, MenuItem::Exit),
        (Interaction::Clicked, MenuItem::Exit),
    ];
    handle_menu_item_click(&mut exits, &mut stack, &query);
    assert_eq!(exits.count(), 2);
    assert_eq!(stack.depth(), 1);
}

#[test]
fn simultaneous_clicks_are_processed_in_iteration_order() {
    let mut exits = ExitEvents::new();
    let mut stack = StateStack::new(GameState::MainMenu);
    let query = vec![
        (Interaction::Clicked, MenuItem::Play),
        (Interaction::Clicked, MenuItem::Controls),
    ];
    handle_menu_item_click(&mut exits, &mut stack, &query);
    assert_eq!(stack.depth(), 3);
    assert_eq!(stack.state_at(1), GameState::MainGame);
    assert_eq!(stack.state_at(2), GameState::ControlMenu);
}

use bevy_simple_menu::events::Interaction;
use bevy_simple_menu::menus::main_menu::MenuItem;
use bevy_simple_menu::menus::{Hook, MenuApp, MenusPlugin, SystemId};
use bevy_simple_menu::scene::{ButtonTag, Color, Label, Node, Widget};
use bevy_simple_menu::stack::EmptyStackError;
use bevy_simple_menu::states::GameState;

fn scene_of(app: &MenuApp) -> Vec<Node> {
    let mut v = Vec::new();
    for i in 0..app.scene_node_count() {
        v.push(app.scene_node_at(i));
    }
    v
}

fn stack_of(app: &MenuApp) -> Vec<GameState> {
    let mut v = Vec::new();
    for i in 0..app.stack_depth() {
        v.push(app.stack_at(i));
    }
    v
}

/// The id of the button carrying the given tag in the live scene.
fn button_id(app: &MenuApp, tag: ButtonTag) -> u64 {
    scene_of(app)
        .iter()
        .find(|n| n.tag == Some(tag))
        .expect("no button with that tag in the live scene")
        .id
}

#[test]
fn plugin_registers_the_eight_lifecycle_rows() {
    let rows = MenusPlugin.build();
    assert_eq!(rows.len(), 8);
    assert_eq!(rows[0], (GameState::MainMenu, Hook::Enter, SystemId::SetupMainMenu));
    assert_eq!(rows[1], (GameState::MainMenu, Hook::Resume, SystemId::SetupMainMenu));
    assert_eq!(rows[2], (GameState::MainMenu, Hook::Update, SystemId::HandleMenuItemClick));
    assert_eq!(rows[3], (GameState::MainMenu, Hook::Pause, SystemId::TeardownMenuItems));
    assert_eq!(rows[4], (GameState::MainMenu, Hook::Exit, SystemId::TeardownMenuItems));
    assert_eq!(rows[5], (GameState::ControlMenu, Hook::Enter, SystemId::SetupControlsMenu));
    assert_eq!(
        rows[6],
        (GameState::ControlMenu, Hook::Update, SystemId::HandleBackButtonInteraction)
    );
    assert_eq!(rows[7], (GameState::ControlMenu, Hook::Exit, SystemId::TeardownControlsMenu));
    // the controls menu registers no pause handler: it is never paused
    assert!(!rows.iter().any(|r| r.0 == GameState::ControlMenu && r.1 == Hook::Pause));
    // the running game registers nothing
    assert!(!rows.iter().any(|r| r.0 == GameState::MainGame));
}

#[test]
fn startup_builds_the_main_menu_on_a_black_background() {
    let app = MenuApp::new();
    assert_eq!(stack_of(&app), vec![GameState::MainMenu]);
    assert_eq!(app.clear_color(), Color::Black);
    let scene = scene_of(&app);
    assert_eq!(scene.len(), 8);
    assert_eq!(scene[0].parent, None);
    assert_eq!(scene[0].owner, GameState::MainMenu);
    assert_eq!(app.exit_count(), 0);
}

#[test]
fn scenario_click_controls_swaps_to_controls_scene() {
    let mut app = MenuApp::new();
    let controls = button_id(&app, ButtonTag::Item(MenuItem::Controls));
    app.frame(&vec![(controls, Interaction::Clicked)]);
    // stack = [MainMenu, ControlMenu]
    assert_eq!(stack_of(&app), vec![GameState::MainMenu, GameState::ControlMenu]);
    // the main menu scene is torn down; the controls scene stands, with one Back button
    let scene = scene_of(&app);
    assert_eq!(scene.len(), 4);
    assert!(scene.iter().all(|n| n.owner == GameState::ControlMenu));
    let backs: Vec<_> = scene.iter().filter(|n| n.tag == Some(ButtonTag::Back)).collect();
    assert_eq!(backs.len(), 1);
    assert_eq!(app.exit_count(), 0);
}

#[test]
fn scenario_back_returns_to_a_rebuilt_main_menu() {
    let mut app = MenuApp::new();
    let controls = button_id(&app, ButtonTag::Item(MenuItem::Controls));
    app.frame(&vec![(controls, Interaction::Clicked)]);
    let back = button_id(&app, ButtonTag::Back);
    app.frame(&vec![(back, Interaction::Clicked)]);
    assert_eq!(stack_of(&app), vec![GameState::MainMenu]);
    let scene = scene_of(&app);
    assert_eq!(scene.len(), 8);
    let tags: Vec<_> = scene.iter().filter_map(|n| n.tag).collect();
    assert_eq!(
        tags,
        vec![
            ButtonTag::Item(MenuItem::Play),
            ButtonTag::Item(MenuItem::Controls),
            ButtonTag::Item(MenuItem::Exit),
        ]
    );
}

#[test]
fn scenario_click_play_pushes_main_game_with_no_scene() {
    let mut app = MenuApp::new();
    let play = button_id(&app, ButtonTag::Item(MenuItem::Play));
    app.frame(&vec![(play, Interaction::Clicked)]);
    assert_eq!(stack_of(&app), vec![GameState::MainMenu, GameState::MainGame]);
    // the main menu was paused and torn down; the running game defines no scene
    assert_eq!(app.scene_node_count(), 0);
}

#[test]
fn scenario_click_exit_sends_exactly_one_exit_signal() {
    let mut app = MenuApp::new();
    let exit = button_id(&app, ButtonTag::Item(MenuItem::Exit));
    let before = scene_of(&app);
    app.frame(&vec![(exit, Interaction::Clicked)]);
    assert_eq!(app.exit_count(), 1);
    // the stack and the scene are untouched
    assert_eq!(stack_of(&app), vec![GameState::MainMenu]);
    assert_eq!(scene_of(&app), before);
}

#[test]
fn scenario_errant_pop_on_base_state_fails_and_changes_nothing() {
    let mut app = MenuApp::new();
    let before_scene = scene_of(&app);
    let r = app.pop_state();
    assert_eq!(r, Err(EmptyStackError));
    assert_eq!(stack_of(&app), vec![GameState::MainMenu]);
    assert_eq!(scene_of(&app), before_scene);
}

#[test]
fn exactly_the_active_scene_is_present_across_transitions() {
    let mut app = MenuApp::new();
    let marker_owners = |app: &MenuApp| -> Vec<GameState> {
        scene_of(app).iter().filter(|n| n.parent.is_none()).map(|n| n.owner).collect()
    };
    assert_eq!(marker_owners(&app), vec![GameState::MainMenu]);
    app.push_state(GameState::ControlMenu);
    assert_eq!(marker_owners(&app), vec![GameState::ControlMenu]);
    let _ = app.pop_state();
    assert_eq!(marker_owners(&app), vec![GameState::MainMenu]);
    app.push_state(GameState::MainGame);
    assert_eq!(marker_owners(&app), Vec::<GameState>::new());
    let _ = app.pop_state();
    assert_eq!(marker_owners(&app), vec![GameState::MainMenu]);
}

#[test]
fn hovered_or_stale_signals_change_nothing() {
    let mut app = MenuApp::new();
    let play = button_id(&app, ButtonTag::Item(MenuItem::Play));
    let before = scene_of(&app);
    // hovering does nothing
    app.frame(&vec![(play, Interaction::Hovered), (play, Interaction::Idle)]);
    assert_eq!(stack_of(&app), vec![GameState::MainMenu]);
    assert_eq!(scene_of(&app), before);
    // a signal aimed at an entity that was torn down hits nothing:
    // the controls transition runs first, and the play button is gone
    let controls = button_id(&app, ButtonTag::Item(MenuItem::Controls));
    app.frame(&vec![(controls, Interaction::Clicked), (play, Interaction::Clicked)]);
    assert_eq!(stack_of(&app), vec![GameState::MainMenu, GameState::ControlMenu]);
    assert_eq!(app.scene_node_count(), 4);
}

#[test]
fn untagged_nodes_do_not_react_to_clicks() {
    let mut app = MenuApp::new();
    // the title text carries no tag: clicking it does nothing
    let title = scene_of(&app)
        .iter()
        .find(|n| n.label == Some(Label::GameTitle))
        .unwrap()
        .id;
    app.frame(&vec![(title, Interaction::Clicked)]);
    assert_eq!(stack_of(&app), vec![GameState::MainMenu]);
    assert_eq!(app.scene_node_count(), 8);
    assert_eq!(app.exit_count(), 0);
}

#[test]
fn scene_nodes_are_widgets_of_the_expected_kinds() {
    let app = MenuApp::new();
    let scene = scene_of(&app);
    assert_eq!(scene[0].widget, Widget::Layout);
    assert_eq!(scene[1].widget, Widget::Text);
    let buttons = scene.iter().filter(|n| n.widget == Widget::Button).count();
    assert_eq!(buttons, 3);
}

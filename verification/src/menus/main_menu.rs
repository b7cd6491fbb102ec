//! The main menu: its scene, its buttons, and the click handling that
//! drives the state stack.

use vstd::prelude::*;

use crate::events::AppExit;
use crate::events::ExitEvents;
use crate::events::Interaction;
use crate::scene::ButtonTag;
use crate::scene::ClearColor;
use crate::scene::Color;
use crate::scene::Label;
use crate::scene::Node;
use crate::scene::SceneGraph;
use crate::scene::Widget;
use crate::stack::StateStack;
use crate::states::GameState;

verus! {

/// The buttons in the main menu.
#[derive(Clone, Copy, PartialEq, Eq, Structural, Debug)]
pub enum MenuItem {
    /// The play button is used to start the game.
    Play,
    /// The controls button is used to open the controls menu.
    Controls,
    /// The exit button is used to exit the game.
    Exit,
}

/// What a click on a menu item does.
#[derive(Clone, Copy, PartialEq, Eq, Structural, Debug)]
pub enum Action {
    /// Push the running game on top of the menu.
    StartGame,
    /// Push the controls screen on top of the menu.
    OpenControls,
    /// Ask the host engine to quit; the state stack is untouched.
    Quit,
}

/// The dispatch table from menu item to action.
pub open spec fn spec_action_for(item: MenuItem) -> Action {
    match item {
        MenuItem::Play => Action::StartGame,
        MenuItem::Controls => Action::OpenControls,
        MenuItem::Exit => Action::Quit,
    }
}

/// Maps a menu item to the action a click on it performs.
pub fn action_for(item: MenuItem) -> (r: Action)
    ensures
        r == spec_action_for(item),
{
    match item {
        MenuItem::Play => Action::StartGame,
        MenuItem::Controls => Action::OpenControls,
        MenuItem::Exit => Action::Quit,
    }
}

/// The label each main-menu button displays.
pub open spec fn spec_item_label(item: MenuItem) -> Label {
    match item {
        MenuItem::Play => Label::Play,
        MenuItem::Controls => Label::Controls,
        MenuItem::Exit => Label::Exit,
    }
}

/// The two nodes a main-menu button consists of: the button container,
/// tagged with its menu item, and the text child carrying its label.
pub open spec fn button_nodes(base: u64, parent: u64, item: MenuItem) -> Seq<Node> {
    seq![
        Node {
            id: base,
            parent: Some(parent),
            owner: GameState::MainMenu,
            widget: Widget::Button,
            label: None,
            tag: Some(ButtonTag::Item(item)),
            visible: true,
        },
        Node {
            id: (base + 1) as u64,
            parent: Some(base),
            owner: GameState::MainMenu,
            widget: Widget::Text,
            label: Some(spec_item_label(item)),
            tag: None,
            visible: true,
        },
    ]
}

/// The full main-menu scene, built from identifier `base` on: one marked
/// root container, the title text, and the Play, Controls and Exit
/// buttons, in that order.
pub open spec fn main_menu_nodes(base: u64) -> Seq<Node> {
    seq![
        Node {
            id: base,
            parent: None,
            owner: GameState::MainMenu,
            widget: Widget::Layout,
            label: None,
            tag: None,
            visible: true,
        },
        Node {
            id: (base + 1) as u64,
            parent: Some(base),
            owner: GameState::MainMenu,
            widget: Widget::Text,
            label: Some(Label::GameTitle),
            tag: None,
            visible: true,
        },
    ] + button_nodes((base + 2) as u64, base, MenuItem::Play) + button_nodes(
        (base + 4) as u64,
        base,
        MenuItem::Controls,
    ) + button_nodes((base + 6) as u64, base, MenuItem::Exit)
}

/// Spawns one main-menu button: the tagged button container and its label
/// text as a child.
fn spawn_button(commands: &mut SceneGraph, parent: u64, item: MenuItem)
    requires
        old(commands).wf(),
        old(commands).spec_next_id() + 2 <= u64::MAX,
    ensures
        final(commands)@ == old(commands)@ + button_nodes(
            old(commands).spec_next_id(),
            parent,
            item,
        ),
        final(commands).spec_next_id() == old(commands).spec_next_id() + 2,
        final(commands).wf(),
{
    let button = commands.spawn(
        Some(parent),
        GameState::MainMenu,
        Widget::Button,
        None,
        Some(ButtonTag::Item(item)),
    );
    let label = match item {
        MenuItem::Play => Label::Play,
        MenuItem::Controls => Label::Controls,
        MenuItem::Exit => Label::Exit,
    };
    let _ = commands.spawn(Some(button), GameState::MainMenu, Widget::Text, Some(label), None);
    proof {
        assert(final(commands)@ =~= old(commands)@ + button_nodes(
            old(commands).spec_next_id(),
            parent,
            item,
        ));
    }
}

/// Sets up the main menu: paints the background black and builds the
/// scene under one marked root — the title text and the Play, Controls
/// and Exit buttons, each tagged with its menu item. The root is spawned
/// visible, so the freshly built menu renders immediately.
pub fn setup_main_menu(commands: &mut SceneGraph, clear_color: &mut ClearColor)
    requires
        old(commands).wf(),
        old(commands).spec_next_id() + 8 <= u64::MAX,
    ensures
        final(commands)@ == old(commands)@ + main_menu_nodes(old(commands).spec_next_id()),
        final(commands).spec_next_id() == old(commands).spec_next_id() + 8,
        final(commands).wf(),
        final(clear_color).0 == Color::Black,
{
    clear_color.0 = Color::Black;
    let root = commands.spawn(None, GameState::MainMenu, Widget::Layout, None, None);
    let _ = commands.spawn(
        Some(root),
        GameState::MainMenu,
        Widget::Text,
        Some(Label::GameTitle),
        None,
    );
    spawn_button(commands, root, MenuItem::Play);
    spawn_button(commands, root, MenuItem::Controls);
    spawn_button(commands, root, MenuItem::Exit);
    proof {
        assert(final(commands)@ =~= old(commands)@ + main_menu_nodes(
            old(commands).spec_next_id(),
        ));
    }
}

/// Tears down the main menu: removes every node the main menu owns from
/// the scene graph, the marked root and all its descendants.
pub fn teardown_menu_items(commands: &mut SceneGraph)
    requires
        old(commands).wf(),
    ensures
        final(commands)@ == old(commands)@.filter(crate::scene::keeps(GameState::MainMenu)),
        forall|i: int|
            0 <= i < final(commands)@.len() ==> (#[trigger] final(commands)@[i]).owner
                != GameState::MainMenu,
        final(commands).spec_next_id() == old(commands).spec_next_id(),
        final(commands).wf(),
{
    commands.teardown(GameState::MainMenu);
}

/// The stack contents after the clicks of one frame's button query are
/// processed in iteration order: each click on Play pushes the running
/// game, each click on Controls pushes the controls screen, and clicks on
/// Exit leave the stack alone.
pub open spec fn spec_click_stack(s: Seq<GameState>, q: Seq<(Interaction, MenuItem)>) -> Seq<
    GameState,
>
    decreases q.len(),
{
    if q.len() == 0 {
        s
    } else {
        let prev = spec_click_stack(s, q.drop_last());
        if q.last().0 == Interaction::Clicked {
            match spec_action_for(q.last().1) {
                Action::StartGame => prev.push(GameState::MainGame),
                Action::OpenControls => prev.push(GameState::ControlMenu),
                Action::Quit => prev,
            }
        } else {
            prev
        }
    }
}

/// How many clicks on the Exit button one frame's query holds.
pub open spec fn spec_exit_clicks(q: Seq<(Interaction, MenuItem)>) -> int
    decreases q.len(),
{
    if q.len() == 0 {
        0int
    } else {
        spec_exit_clicks(q.drop_last()) + if q.last().0 == Interaction::Clicked && q.last().1
            == MenuItem::Exit {
            1int
        } else {
            0int
        }
    }
}

/// The number of exit clicks is between zero and the query length.
pub proof fn lemma_exit_clicks_bound(q: Seq<(Interaction, MenuItem)>)
    ensures
        0 <= spec_exit_clicks(q) <= q.len(),
    decreases q.len(),
{
    if q.len() > 0 {
        lemma_exit_clicks_bound(q.drop_last());
    }
}

/// Handles the clicks on the main-menu buttons for one frame. The query
/// holds, per button of the scene, its interaction signal and its menu
/// item; entries are processed independently, in iteration order. A click
/// on Play pushes the running game, a click on Controls pushes the
/// controls screen, and a click on Exit sends exactly one application-exit
/// event and leaves the stack untouched. Hovered and idle buttons do
/// nothing.
pub fn handle_menu_item_click(
    app_exit_events: &mut ExitEvents,
    app_state: &mut StateStack,
    query: &Vec<(Interaction, MenuItem)>,
)
    requires
        old(app_exit_events)@ + query@.len() <= u64::MAX,
    ensures
        final(app_state)@ == spec_click_stack(old(app_state)@, query@),
        final(app_exit_events)@ == old(app_exit_events)@ + spec_exit_clicks(query@),
{
    let n = query.len();
    let mut i: usize = 0;
    proof {
        assert(query@.take(0) =~= Seq::<(Interaction, MenuItem)>::empty());
    }
    while i < n
        invariant
            i <= n,
            n == query@.len(),
            old(app_exit_events)@ + n <= u64::MAX,
            app_state@ == spec_click_stack(old(app_state)@, query@.take(i as int)),
            app_exit_events@ == old(app_exit_events)@ + spec_exit_clicks(query@.take(i as int)),
        decreases n - i,
    {
        proof {
            assert(query@.take(i as int + 1).drop_last() =~= query@.take(i as int));
            assert(query@.take(i as int + 1).last() == query@[i as int]);
            lemma_exit_clicks_bound(query@.take(i as int));
        }
        let pair = query[i];
        match pair.0 {
            Interaction::Clicked => {
                match action_for(pair.1) {
                    Action::StartGame => app_state.push(GameState::MainGame),
                    Action::OpenControls => app_state.push(GameState::ControlMenu),
                    Action::Quit => app_exit_events.send(AppExit),
                }
            },
            Interaction::Hovered => {},
            Interaction::Idle => {},
        }
        i += 1;
    }
    proof {
        assert(query@.take(n as int) =~= query@);
    }
}

} // verus!

//! The controls screen: its scene and the Back button that returns the
//! player to the previous state.

use vstd::prelude::*;

use crate::events::Interaction;
use crate::scene::ButtonTag;
use crate::scene::Label;
use crate::scene::Node;
use crate::scene::SceneGraph;
use crate::scene::Widget;
use crate::stack::EmptyStackError;
use crate::stack::StateStack;
use crate::states::GameState;

verus! {

/// The full controls-menu scene, built from identifier `base` on: one
/// marked root container, the instructional text, and the Back button
/// with its label text.
pub open spec fn controls_menu_nodes(base: u64) -> Seq<Node> {
    seq![
        Node {
            id: base,
            parent: None,
            owner: GameState::ControlMenu,
            widget: Widget::Layout,
            label: None,
            tag: None,
            visible: true,
        },
        Node {
            id: (base + 1) as u64,
            parent: Some(base),
            owner: GameState::ControlMenu,
            widget: Widget::Text,
            label: Some(Label::ControlsHelp),
            tag: None,
            visible: true,
        },
        Node {
            id: (base + 2) as u64,
            parent: Some(base),
            owner: GameState::ControlMenu,
            widget: Widget::Button,
            label: None,
            tag: Some(ButtonTag::Back),
            visible: true,
        },
        Node {
            id: (base + 3) as u64,
            parent: Some((base + 2) as u64),
            owner: GameState::ControlMenu,
            widget: Widget::Text,
            label: Some(Label::Back),
            tag: None,
            visible: true,
        },
    ]
}

/// Sets up the controls menu: builds, under one marked root, the
/// instructional text and the Back button tagged as such. The root is
/// spawned visible, so the freshly built screen renders immediately.
pub fn setup_controls_menu(commands: &mut SceneGraph)
    requires
        old(commands).wf(),
        old(commands).spec_next_id() + 4 <= u64::MAX,
    ensures
        final(commands)@ == old(commands)@ + controls_menu_nodes(old(commands).spec_next_id()),
        final(commands).spec_next_id() == old(commands).spec_next_id() + 4,
        final(commands).wf(),
{
    let root = commands.spawn(None, GameState::ControlMenu, Widget::Layout, None, None);
    let _ = commands.spawn(
        Some(root),
        GameState::ControlMenu,
        Widget::Text,
        Some(Label::ControlsHelp),
        None,
    );
    let button = commands.spawn(
        Some(root),
        GameState::ControlMenu,
        Widget::Button,
        None,
        Some(ButtonTag::Back),
    );
    let _ = commands.spawn(Some(button), GameState::ControlMenu, Widget::Text, Some(Label::Back), None);
    proof {
        assert(final(commands)@ =~= old(commands)@ + controls_menu_nodes(
            old(commands).spec_next_id(),
        ));
    }
}

/// Tears down the controls menu: removes every node the controls menu
/// owns from the scene graph, the marked root and all its descendants.
pub fn teardown_controls_menu(commands: &mut SceneGraph)
    requires
        old(commands).wf(),
    ensures
        final(commands)@ == old(commands)@.filter(crate::scene::keeps(GameState::ControlMenu)),
        forall|i: int|
            0 <= i < final(commands)@.len() ==> (#[trigger] final(commands)@[i]).owner
                != GameState::ControlMenu,
        final(commands).spec_next_id() == old(commands).spec_next_id(),
        final(commands).wf(),
{
    commands.teardown(GameState::ControlMenu);
}

/// How many of the Back button's signals in one frame's query are clicks.
pub open spec fn spec_back_clicks(q: Seq<Interaction>) -> int
    decreases q.len(),
{
    if q.len() == 0 {
        0int
    } else {
        spec_back_clicks(q.drop_last()) + if q.last() == Interaction::Clicked {
            1int
        } else {
            0int
        }
    }
}

/// Handles the Back button for one frame. The query holds the button's
/// interaction signals in iteration order; each click pops the state
/// stack, returning the player to the previous state. A pop on a stack
/// that holds only one state fails, leaves the stack unchanged, and is
/// reported as an `EmptyStackError` once the sweep is done. Hovered and
/// idle signals do nothing.
pub fn handle_back_button_interaction(
    app_state: &mut StateStack,
    query: &Vec<Interaction>,
) -> (r: Result<(), EmptyStackError>)
    requires
        old(app_state).wf(),
    ensures
        spec_back_clicks(query@) < old(app_state)@.len() ==> r is Ok && final(app_state)@ == old(
            app_state,
        )@.take(old(app_state)@.len() - spec_back_clicks(query@)),
        spec_back_clicks(query@) >= old(app_state)@.len() ==> r
            == Err::<(), EmptyStackError>(EmptyStackError) && final(app_state)@ == old(
            app_state,
        )@.take(1),
        final(app_state).wf(),
{
    let ghost s0 = old(app_state)@;
    let ghost len0 = s0.len() as int;
    let n = query.len();
    let mut i: usize = 0;
    let mut failed = false;
    proof {
        assert(query@.take(0) =~= Seq::<Interaction>::empty());
        assert(s0.take(len0) =~= s0);
    }
    while i < n
        invariant
            i <= n,
            n == query@.len(),
            old(app_state).wf(),
            app_state.wf(),
            s0 == old(app_state)@,
            len0 == s0.len(),
            spec_back_clicks(query@.take(i as int)) < len0 ==> !failed && app_state@ == s0.take(
                len0 - spec_back_clicks(query@.take(i as int)),
            ),
            spec_back_clicks(query@.take(i as int)) >= len0 ==> failed && app_state@ == s0.take(1),
        decreases n - i,
    {
        proof {
            assert(query@.take(i as int + 1).drop_last() =~= query@.take(i as int));
            assert(query@.take(i as int + 1).last() == query@[i as int]);
            lemma_back_clicks_bound(query@.take(i as int));
        }
        let ghost c = spec_back_clicks(query@.take(i as int));
        match query[i] {
            Interaction::Clicked => {
                proof {
                    if c < len0 {
                        let kept = s0.take(len0 - c);
                        assert(kept.len() == len0 - c);
                        if kept.len() > 1 {
                            assert(kept.drop_last() =~= s0.take(len0 - c - 1));
                        } else {
                            assert(kept =~= s0.take(1));
                        }
                    }
                }
                let popped = app_state.pop();
                if popped.is_err() {
                    failed = true;
                }
            },
            Interaction::Hovered => {},
            Interaction::Idle => {},
        }
        i += 1;
    }
    proof {
        assert(query@.take(n as int) =~= query@);
    }
    if failed {
        Err(EmptyStackError)
    } else {
        Ok(())
    }
}

/// The number of Back clicks is between zero and the query length.
pub proof fn lemma_back_clicks_bound(q: Seq<Interaction>)
    ensures
        0 <= spec_back_clicks(q) <= q.len(),
    decreases q.len(),
{
    if q.len() > 0 {
        lemma_back_clicks_bound(q.drop_last());
    }
}

} // verus!

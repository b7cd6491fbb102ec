//! The scene graph model: UI nodes owned by an application state, spawned
//! as a tree under a marker-carrying root, and torn down as a unit.
//!
//! Scene membership is kept as explicit ownership: every node records the
//! state that owns it, and a node spawned under a parent inherits the
//! parent's owner. Tearing a scene down is then the removal of every node
//! owned by that state, which removes the marked root together with all of
//! its descendants, including any attached after the initial build.

use vstd::prelude::*;

use crate::menus::main_menu::MenuItem;
use crate::states::GameState;

verus! {

/// A background color. Only the palette this menu uses is modeled.
#[derive(Clone, Copy, PartialEq, Eq, Structural, Debug)]
pub enum Color {
    Black,
    White,
    DarkGray,
}

/// The background clear color of the window, a resource the scenes set.
#[derive(Clone, Copy, PartialEq, Eq, Structural, Debug)]
pub struct ClearColor(pub Color);

/// The kind of UI node a scene entity renders as.
#[derive(Clone, Copy, PartialEq, Eq, Structural, Debug)]
pub enum Widget {
    /// A layout container; the root of each scene is one.
    Layout,
    /// A text node.
    Text,
    /// A clickable button.
    Button,
}

/// The fixed texts this menu displays, named so a node can carry one.
#[derive(Clone, Copy, PartialEq, Eq, Structural, Debug)]
pub enum Label {
    /// The game title shown atop the main menu.
    GameTitle,
    /// The instructional text of the controls screen.
    ControlsHelp,
    /// The label of the Play button.
    Play,
    /// The label of the Controls button.
    Controls,
    /// The label of the Exit button.
    Exit,
    /// The label of the Back button on the controls screen.
    Back,
}

/// The action tag a button entity carries, identifying what a click on it
/// does. A button carries exactly one tag, set at creation.
#[derive(Clone, Copy, PartialEq, Eq, Structural, Debug)]
pub enum ButtonTag {
    /// A main-menu button, tagged with the menu item it triggers.
    Item(MenuItem),
    /// The controls screen's button that returns to the previous state.
    Back,
}

/// What each label reads as.
pub open spec fn spec_label_text(label: Label) -> Seq<char> {
    match label {
        Label::GameTitle => "Bevy Simple Menu"@,
        Label::ControlsHelp => "Use \"WASD\" to move and \"E\" to interact with things."@,
        Label::Play => "Play"@,
        Label::Controls => "Controls"@,
        Label::Exit => "Exit"@,
        Label::Back => "Back"@,
    }
}

/// The display text of a label.
pub fn label_text(label: Label) -> (r: &'static str)
    ensures
        r@ == spec_label_text(label),
{
    match label {
        Label::GameTitle => "Bevy Simple Menu",
        Label::ControlsHelp => "Use \"WASD\" to move and \"E\" to interact with things.",
        Label::Play => "Play",
        Label::Controls => "Controls",
        Label::Exit => "Exit",
        Label::Back => "Back",
    }
}

/// One entity of the scene graph.
///
/// A node whose `parent` is `None` is a scene root and carries the scene
/// marker for its owning state; every other node points at a parent node
/// of the same owner. Nodes are spawned visible: a freshly built scene is
/// meant to be rendered immediately, so nothing has to clear a hidden flag
/// afterwards.
#[derive(Clone, Copy, PartialEq, Eq, Debug)]
pub struct Node {
    /// The entity identifier, unique within a graph.
    pub id: u64,
    /// The parent entity, or `None` for a scene root.
    pub parent: Option<u64>,
    /// The state whose scene this node belongs to.
    pub owner: GameState,
    /// What the node renders as.
    pub widget: Widget,
    /// The text the node displays, if any.
    pub label: Option<Label>,
    /// The action tag, present exactly on button nodes.
    pub tag: Option<ButtonTag>,
    /// Whether the node is rendered. Nodes are created visible.
    pub visible: bool,
}

/// The predicate a node must satisfy to survive a teardown of `state`:
/// it keeps every node the state does not own.
pub open spec fn keeps(state: GameState) -> spec_fn(Node) -> bool {
    |n: Node| n.owner != state
}

/// Well-formedness of a node sequence against an identifier bound:
/// every id is below the bound, and no two nodes share an id.
pub open spec fn wf_nodes(s: Seq<Node>, next: u64) -> bool {
    &&& (forall|i: int| 0 <= i < s.len() ==> (#[trigger] s[i]).id < next)
    &&& (forall|i: int, j: int|
        0 <= i < j < s.len() ==> (#[trigger] s[i]).id != (#[trigger] s[j]).id)
}

/// The first node carrying the given id, if any. Under `wf_nodes` the id
/// is unique, so this is the node with that id.
pub open spec fn spec_find_node(s: Seq<Node>, id: u64) -> Option<Node>
    decreases s.len(),
{
    if s.len() == 0 {
        None
    } else if s[0].id == id {
        Some(s[0])
    } else {
        spec_find_node(s.drop_first(), id)
    }
}

/// Law (idempotent teardown): filtering a graph for a state that owns
/// none of its nodes keeps every node: the graph is unchanged.
pub proof fn lemma_teardown_idempotent(s: Seq<Node>, state: GameState)
    requires
        forall|i: int| 0 <= i < s.len() ==> (#[trigger] s[i]).owner != state,
    ensures
        s.filter(keeps(state)) == s,
    decreases s.len(),
{
    reveal(Seq::filter);
    if s.len() > 0 {
        lemma_teardown_idempotent(s.drop_last(), state);
        assert(s.filter(keeps(state)) =~= s);
    } else {
        assert(s.filter(keeps(state)) =~= s);
    }
}

/// Law (teardown completeness): no node owned by `state` survives the
/// teardown of `state` — the scene's marked root, every node of the
/// initial build, and every descendant attached under one of them later,
/// since a spawned child inherits its parent's owner.
pub proof fn lemma_teardown_complete(s: Seq<Node>, state: GameState)
    ensures
        forall|i: int|
            0 <= i < s.filter(keeps(state)).len() ==> (#[trigger] s.filter(keeps(state))[i]).owner
                != state,
        forall|i: int|
            0 <= i < s.filter(keeps(state)).len() ==> !((#[trigger] s.filter(
                keeps(state),
            )[i]).parent is None && s.filter(keeps(state))[i].owner == state),
{
    assert forall|i: int| 0 <= i < s.filter(keeps(state)).len() implies (#[trigger] s.filter(
        keeps(state),
    )[i]).owner != state by {
        s.lemma_filter_pred(keeps(state), i);
    }
}

/// Filtering a sequence whose nodes are all owned by `state` with the
/// teardown predicate for `state` removes every one of them.
pub proof fn lemma_owned_filter_empty(s: Seq<Node>, state: GameState)
    requires
        forall|i: int| 0 <= i < s.len() ==> (#[trigger] s[i]).owner == state,
    ensures
        s.filter(keeps(state)) == Seq::<Node>::empty(),
    decreases s.len(),
{
    reveal(Seq::filter);
    if s.len() > 0 {
        lemma_owned_filter_empty(s.drop_last(), state);
    }
}

/// The scene graph: the arena of live UI entities, with the next fresh
/// entity identifier. Identifiers are never reused, so a signal aimed at a
/// torn-down entity can never hit a later one.
pub struct SceneGraph {
    nodes: Vec<Node>,
    next_id: u64,
}

impl SceneGraph {
    /// The live nodes, in spawn order.
    pub closed spec fn view(&self) -> Seq<Node> {
        self.nodes@
    }

    /// The next identifier a spawned node will get.
    pub closed spec fn spec_next_id(&self) -> u64 {
        self.next_id
    }

    /// A graph is well formed when its nodes are: ids unique and below the
    /// allocation bound, and every non-root node has a parent of the same
    /// owner spawned before it.
    pub open spec fn wf(&self) -> bool {
        wf_nodes(self@, self.spec_next_id())
    }

    /// Creates an empty scene graph.
    pub fn new() -> (s: Self)
        ensures
            s@ == Seq::<Node>::empty(),
            s.spec_next_id() == 0,
            s.wf(),
    {
        let s = SceneGraph { nodes: Vec::new(), next_id: 0 };
        proof {
            assert(s.nodes@ =~= Seq::<Node>::empty());
        }
        s
    }

    /// The number of live nodes.
    pub fn node_count(&self) -> (n: usize)
        ensures
            n == self@.len(),
    {
        self.nodes.len()
    }

    /// The node at position `i`, in spawn order.
    pub fn node_at(&self, i: usize) -> (n: Node)
        requires
            i < self@.len(),
        ensures
            n == self@[i as int],
    {
        self.nodes[i]
    }

    /// The next identifier a spawned node will get.
    pub fn next_id(&self) -> (r: u64)
        ensures
            r == self.spec_next_id(),
    {
        self.next_id
    }

    /// Spawns one node with a fresh identifier and returns the identifier.
    /// The node is created visible.
    pub(crate) fn spawn(
        &mut self,
        parent: Option<u64>,
        owner: GameState,
        widget: Widget,
        label: Option<Label>,
        tag: Option<ButtonTag>,
    ) -> (id: u64)
        requires
            old(self).wf(),
            old(self).spec_next_id() < u64::MAX,
        ensures
            id == old(self).spec_next_id(),
            final(self)@ == old(self)@.push(
                Node { id, parent, owner, widget, label, tag, visible: true },
            ),
            final(self).spec_next_id() == old(self).spec_next_id() + 1,
            final(self).wf(),
    {
        let id = self.next_id;
        let node = Node { id, parent, owner, widget, label, tag, visible: true };
        self.nodes.push(node);
        self.next_id = id + 1;
        proof {
            let s0 = old(self)@;
            let s1 = self.nodes@;
            assert(s1 == s0.push(node));
            assert forall|i: int| 0 <= i < s1.len() implies (#[trigger] s1[i]).id
                < self.next_id by {
                if i < s0.len() {
                    assert(s1[i] == s0[i]);
                } else {
                    assert(s1[i] == node);
                }
            }
            assert forall|i: int, j: int| 0 <= i < j < s1.len() implies (#[trigger] s1[i]).id != (
            #[trigger] s1[j]).id by {
                assert(s1[i] == s0[i]);
                if j < s0.len() {
                    assert(s1[j] == s0[j]);
                } else {
                    assert(s1[j] == node);
                }
            }
            assert(wf_nodes(s1, self.next_id));
        }
        id
    }

    /// Looks the node with identifier `id` up, returning a copy of it.
    pub fn find_node(&self, id: u64) -> (r: Option<Node>)
        ensures
            r == spec_find_node(self@, id),
    {
        let n = self.nodes.len();
        let mut i: usize = 0;
        proof {
            assert(self.nodes@.skip(0) =~= self.nodes@);
        }
        while i < n
            invariant
                i <= n,
                n == self.nodes@.len(),
                spec_find_node(self.nodes@, id) == spec_find_node(
                    self.nodes@.skip(i as int),
                    id,
                ),
            decreases n - i,
        {
            proof {
                assert(self.nodes@.skip(i as int)[0] == self.nodes@[i as int]);
                assert(self.nodes@.skip(i as int).drop_first() =~= self.nodes@.skip(i as int + 1));
            }
            if self.nodes[i].id == id {
                return Some(self.nodes[i]);
            }
            i += 1;
        }
        proof {
            assert(self.nodes@.skip(n as int) =~= Seq::<Node>::empty());
        }
        None
    }

    /// Spawns a child under the node with identifier `parent`, inheriting
    /// that node's owner, so a later teardown of the owning scene removes
    /// the child as well. Returns `None`, spawning nothing, when no node
    /// carries the identifier.
    #[verifier::rlimit(50)]
    pub fn spawn_child(&mut self, parent: u64, widget: Widget, label: Option<Label>) -> (r: Option<
        u64,
    >)
        requires
            old(self).wf(),
            old(self).spec_next_id() < u64::MAX,
        ensures
            spec_find_node(old(self)@, parent) matches Some(p) ==> r == Some(
                old(self).spec_next_id(),
            ) && final(self)@ == old(self)@.push(
                Node {
                    id: old(self).spec_next_id(),
                    parent: Some(parent),
                    owner: p.owner,
                    widget,
                    label,
                    tag: None,
                    visible: true,
                },
            ) && final(self).spec_next_id() == old(self).spec_next_id() + 1,
            spec_find_node(old(self)@, parent) is None ==> r is None && final(self)@ == old(
                self,
            )@ && final(self).spec_next_id() == old(self).spec_next_id(),
            final(self).wf(),
    {
        let n = self.nodes.len();
        let mut i: usize = 0;
        proof {
            assert(self.nodes@.skip(0) =~= self.nodes@);
        }
        while i < n
            invariant
                i <= n,
                n == self.nodes@.len(),
                self.nodes@ == old(self)@,
                self.spec_next_id() == old(self).spec_next_id(),
                old(self).wf(),
                old(self).spec_next_id() < u64::MAX,
                spec_find_node(self.nodes@, parent) == spec_find_node(
                    self.nodes@.skip(i as int),
                    parent,
                ),
            decreases n - i,
        {
            proof {
                assert(self.nodes@.skip(i as int)[0] == self.nodes@[i as int]);
                assert(self.nodes@.skip(i as int).drop_first() =~= self.nodes@.skip(i as int + 1));
            }
            if self.nodes[i].id == parent {
                let owner = self.nodes[i].owner;
                let ghost pre = self.nodes@;
                let id = self.spawn(Some(parent), owner, widget, label, None);
                proof {
                    assert(spec_find_node(pre, parent) matches Some(p) && p.owner == owner);
                }
                return Some(id);
            }
            i += 1;
        }
        proof {
            assert(self.nodes@.skip(n as int) =~= Seq::<Node>::empty());
        }
        None
    }

    /// Removes every node owned by `state`: the scene's marked root and
    /// all of its descendants, in one sweep, so none of them remains
    /// reachable afterwards. Tearing down a state that owns nothing is a
    /// no-op, not an error, and leaves the graph exactly as it was.
    /// Identifiers of removed nodes are never handed out again.
    #[verifier::rlimit(50)]
    pub fn teardown(&mut self, state: GameState)
        requires
            old(self).wf(),
        ensures
            final(self)@ == old(self)@.filter(keeps(state)),
            forall|i: int|
                0 <= i < final(self)@.len() ==> (#[trigger] final(self)@[i]).owner != state,
            (forall|i: int| 0 <= i < old(self)@.len() ==> (#[trigger] old(self)@[i]).owner != state)
                ==> final(self)@ == old(self)@,
            final(self).spec_next_id() == old(self).spec_next_id(),
            final(self).wf(),
    {
        let ghost bound = old(self).spec_next_id();
        let mut kept: Vec<Node> = Vec::new();
        let n = self.nodes.len();
        let mut i: usize = 0;
        proof {
            assert(self.nodes@.take(0) =~= Seq::<Node>::empty());
            assert(Seq::<Node>::empty().filter(keeps(state)) =~= Seq::<Node>::empty()) by {
                reveal(Seq::filter);
            }
        }
        while i < n
            invariant
                i <= n,
                n == self.nodes@.len(),
                self.nodes@ == old(self)@,
                self.next_id == bound,
                old(self).wf(),
                kept@ == self.nodes@.take(i as int).filter(keeps(state)),
                forall|k: int|
                    0 <= k < kept@.len() ==> exists|m: int|
                        0 <= m < i && (#[trigger] kept@[k]) == old(self)@[m],
                wf_nodes(kept@, bound),
            decreases n - i,
        {
            let ghost s0 = self.nodes@;
            let ghost k0 = kept@;
            let node = self.nodes[i];
            proof {
                s0.take(i as int).lemma_filter_push(node, keeps(state));
                assert(s0.take(i as int + 1) =~= s0.take(i as int).push(node));
            }
            if node.owner != state {
                kept.push(node);
                proof {
                    let k1 = kept@;
                    assert(k1 == k0.push(node));
                    assert forall|k: int| 0 <= k < k1.len() implies exists|m: int|
                        0 <= m < i + 1 && (#[trigger] k1[k]) == s0[m] by {
                        if k < k0.len() {
                            assert(k1[k] == k0[k]);
                            let m = choose|m: int| 0 <= m < i && (#[trigger] k0[k]) == s0[m];
                            assert(k1[k] == s0[m]);
                        } else {
                            assert(k1[k] == s0[i as int]);
                        }
                    }
                    assert forall|a: int, b: int| 0 <= a < b < k1.len() implies (
                    #[trigger] k1[a]).id != (#[trigger] k1[b]).id by {
                        if b < k0.len() {
                            assert(k1[a] == k0[a] && k1[b] == k0[b]);
                        } else {
                            assert(k1[b] == node);
                            assert(k1[a] == k0[a]);
                            let m = choose|m: int| 0 <= m < i && (#[trigger] k0[a]) == s0[m];
                            assert(s0[m].id != s0[i as int].id);
                        }
                    }
                    assert(wf_nodes(k1, bound));
                }
            }
            i += 1;
        }
        proof {
            assert(self.nodes@.take(n as int) =~= self.nodes@);
        }
        self.nodes = kept;
        proof {
            assert forall|i: int| 0 <= i < self.nodes@.len() implies (
            #[trigger] self.nodes@[i]).owner != state by {
                old(self)@.lemma_filter_pred(keeps(state), i);
            }
            if forall|i: int| 0 <= i < old(self)@.len() ==> (#[trigger] old(self)@[i]).owner
                != state {
                lemma_teardown_idempotent(old(self)@, state);
            }
        }
    }
}

} // verus!

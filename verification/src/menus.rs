//! The menu controller: the plugin's registration of scene lifecycle
//! hooks, and the driver that applies state transitions with the hooks
//! run in order — pause the suspended state, enter the new one on a push;
//! exit the popped state, resume the revealed one on a pop.

pub mod controls_menu;
pub mod main_menu;

use vstd::prelude::*;

use crate::events::AppExit;
use crate::events::ExitEvents;
use crate::events::Interaction;
use crate::menus::controls_menu::controls_menu_nodes;
use crate::menus::controls_menu::setup_controls_menu;
use crate::menus::controls_menu::teardown_controls_menu;
use crate::menus::main_menu::main_menu_nodes;
use crate::menus::main_menu::setup_main_menu;
use crate::menus::main_menu::action_for;
use crate::menus::main_menu::spec_action_for;
use crate::menus::main_menu::teardown_menu_items;
use crate::menus::main_menu::Action;
use crate::scene::keeps;
use crate::scene::lemma_owned_filter_empty;
use crate::scene::spec_find_node;
use crate::scene::wf_nodes;
use crate::scene::ButtonTag;
use crate::scene::ClearColor;
use crate::scene::Color;
use crate::scene::Node;
use crate::scene::SceneGraph;
use crate::stack::EmptyStackError;
use crate::stack::StateStack;
use crate::states::GameState;

verus! {

/// The five lifecycle hooks a state's systems can be registered on.
#[derive(Clone, Copy, PartialEq, Eq, Structural, Debug)]
pub enum Hook {
    /// The state was pushed and becomes active.
    Enter,
    /// The state on top of it was popped; the state becomes active again.
    Resume,
    /// The state is on top and a frame is processed.
    Update,
    /// Another state was pushed on top; the state goes dormant.
    Pause,
    /// The state was popped off the stack.
    Exit,
}

/// The systems of this plugin, named so the registration table is data.
#[derive(Clone, Copy, PartialEq, Eq, Structural, Debug)]
pub enum SystemId {
    SetupMainMenu,
    HandleMenuItemClick,
    TeardownMenuItems,
    SetupControlsMenu,
    HandleBackButtonInteraction,
    TeardownControlsMenu,
}

/// The system this plugin registers for a state and hook. The main menu
/// builds on enter and resume, handles clicks on update, and tears down
/// on both pause and exit. The controls menu builds on enter, handles the
/// Back button on update, and tears down on exit only: it is never
/// paused, being always the top of the stack while active. The running
/// game registers nothing here.
pub open spec fn spec_systems_for(state: GameState, hook: Hook) -> Option<SystemId> {
    match (state, hook) {
        (GameState::MainMenu, Hook::Enter) => Some(SystemId::SetupMainMenu),
        (GameState::MainMenu, Hook::Resume) => Some(SystemId::SetupMainMenu),
        (GameState::MainMenu, Hook::Update) => Some(SystemId::HandleMenuItemClick),
        (GameState::MainMenu, Hook::Pause) => Some(SystemId::TeardownMenuItems),
        (GameState::MainMenu, Hook::Exit) => Some(SystemId::TeardownMenuItems),
        (GameState::ControlMenu, Hook::Enter) => Some(SystemId::SetupControlsMenu),
        (GameState::ControlMenu, Hook::Update) => Some(SystemId::HandleBackButtonInteraction),
        (GameState::ControlMenu, Hook::Exit) => Some(SystemId::TeardownControlsMenu),
        _ => None,
    }
}

/// The system registered for a state and hook.
pub fn systems_for(state: GameState, hook: Hook) -> (r: Option<SystemId>)
    ensures
        r == spec_systems_for(state, hook),
{
    match (state, hook) {
        (GameState::MainMenu, Hook::Enter) => Some(SystemId::SetupMainMenu),
        (GameState::MainMenu, Hook::Resume) => Some(SystemId::SetupMainMenu),
        (GameState::MainMenu, Hook::Update) => Some(SystemId::HandleMenuItemClick),
        (GameState::MainMenu, Hook::Pause) => Some(SystemId::TeardownMenuItems),
        (GameState::MainMenu, Hook::Exit) => Some(SystemId::TeardownMenuItems),
        (GameState::ControlMenu, Hook::Enter) => Some(SystemId::SetupControlsMenu),
        (GameState::ControlMenu, Hook::Update) => Some(SystemId::HandleBackButtonInteraction),
        (GameState::ControlMenu, Hook::Exit) => Some(SystemId::TeardownControlsMenu),
        _ => None,
    }
}

/// The plugin that wires the menu systems to the state lifecycle.
pub struct MenusPlugin;

impl MenusPlugin {
    /// The rows the plugin registers: state, hook, and the system run.
    pub open spec fn spec_registrations() -> Seq<(GameState, Hook, SystemId)> {
        seq![
            (GameState::MainMenu, Hook::Enter, SystemId::SetupMainMenu),
            (GameState::MainMenu, Hook::Resume, SystemId::SetupMainMenu),
            (GameState::MainMenu, Hook::Update, SystemId::HandleMenuItemClick),
            (GameState::MainMenu, Hook::Pause, SystemId::TeardownMenuItems),
            (GameState::MainMenu, Hook::Exit, SystemId::TeardownMenuItems),
            (GameState::ControlMenu, Hook::Enter, SystemId::SetupControlsMenu),
            (GameState::ControlMenu, Hook::Update, SystemId::HandleBackButtonInteraction),
            (GameState::ControlMenu, Hook::Exit, SystemId::TeardownControlsMenu),
        ]
    }

    /// Builds the plugin's registration table, row by row, exactly as
    /// `spec_systems_for` dispatches.
    pub fn build(&self) -> (r: Vec<(GameState, Hook, SystemId)>)
        ensures
            r@ == Self::spec_registrations(),
            forall|k: int|
                0 <= k < r@.len() ==> spec_systems_for((#[trigger] r@[k]).0, r@[k].1) == Some(
                    r@[k].2,
                ),
    {
        let mut r: Vec<(GameState, Hook, SystemId)> = Vec::new();
        r.push((GameState::MainMenu, Hook::Enter, SystemId::SetupMainMenu));
        r.push((GameState::MainMenu, Hook::Resume, SystemId::SetupMainMenu));
        r.push((GameState::MainMenu, Hook::Update, SystemId::HandleMenuItemClick));
        r.push((GameState::MainMenu, Hook::Pause, SystemId::TeardownMenuItems));
        r.push((GameState::MainMenu, Hook::Exit, SystemId::TeardownMenuItems));
        r.push((GameState::ControlMenu, Hook::Enter, SystemId::SetupControlsMenu));
        r.push((GameState::ControlMenu, Hook::Update, SystemId::HandleBackButtonInteraction));
        r.push((GameState::ControlMenu, Hook::Exit, SystemId::TeardownControlsMenu));
        proof {
            assert(r@ =~= Self::spec_registrations());
        }
        r
    }
}

/// The scene a state builds on enter or resume, laid out from identifier
/// `base` on. The running game defines no scene here.
pub open spec fn spec_scene_nodes(state: GameState, base: u64) -> Seq<Node> {
    match state {
        GameState::MainMenu => main_menu_nodes(base),
        GameState::ControlMenu => controls_menu_nodes(base),
        GameState::MainGame => Seq::<Node>::empty(),
    }
}

/// Every node of a state's scene is owned by that state; the marker sits
/// on the first node, the root, and only there.
proof fn lemma_scene_nodes_props(state: GameState, base: u64)
    ensures
        forall|i: int|
            0 <= i < spec_scene_nodes(state, base).len() ==> (#[trigger] spec_scene_nodes(
                state,
                base,
            )[i]).owner == state,
        state != GameState::MainGame ==> spec_scene_nodes(state, base)[0].parent is None,
        forall|i: int|
            1 <= i < spec_scene_nodes(state, base).len() ==> (#[trigger] spec_scene_nodes(
                state,
                base,
            )[i]).parent is Some,
{
    let s = spec_scene_nodes(state, base);
    match state {
        GameState::MainMenu => {
            assert forall|i: int| 0 <= i < s.len() implies (#[trigger] s[i]).owner == state && (i
                >= 1 ==> s[i].parent is Some) by {
                if i == 0 {
                } else if i == 1 {
                } else if i == 2 {
                } else if i == 3 {
                } else if i == 4 {
                } else if i == 5 {
                } else if i == 6 {
                } else {
                    assert(i == 7);
                }
            }
        },
        GameState::ControlMenu => {
            assert forall|i: int| 0 <= i < s.len() implies (#[trigger] s[i]).owner == state && (i
                >= 1 ==> s[i].parent is Some) by {
                if i == 0 {
                } else if i == 1 {
                } else if i == 2 {
                } else {
                    assert(i == 3);
                }
            }
        },
        GameState::MainGame => {},
    }
}

/// What running the lifecycle hook of a state does to the scene graph,
/// the next entity identifier and the clear color, per the plugin's
/// registration table. Hooks with no registered system change nothing.
pub open spec fn spec_run_hook(
    scene: Seq<Node>,
    next: u64,
    clear: Color,
    state: GameState,
    hook: Hook,
) -> (Seq<Node>, u64, Color) {
    match spec_systems_for(state, hook) {
        Some(SystemId::SetupMainMenu) => (
            scene + main_menu_nodes(next),
            (next + 8) as u64,
            Color::Black,
        ),
        Some(SystemId::SetupControlsMenu) => (
            scene + controls_menu_nodes(next),
            (next + 4) as u64,
            clear,
        ),
        Some(SystemId::TeardownMenuItems) => (
            scene.filter(keeps(GameState::MainMenu)),
            next,
            clear,
        ),
        Some(SystemId::TeardownControlsMenu) => (
            scene.filter(keeps(GameState::ControlMenu)),
            next,
            clear,
        ),
        _ => (scene, next, clear),
    }
}

/// The running menu application: the state stack, the scene graph, the
/// clear color and the exit event channel, driven per the plugin's
/// registration table.
pub struct MenuApp {
    stack: StateStack,
    scene: SceneGraph,
    clear_color: ClearColor,
    exit_events: ExitEvents,
}

/// The controller's state after one lifecycle transition of a push: the
/// current top is paused, the target pushed and entered.
pub open spec fn spec_push_state(
    m: (Seq<GameState>, Seq<Node>, u64, u64, Color),
    target: GameState,
) -> (Seq<GameState>, Seq<Node>, u64, u64, Color) {
    let paused = spec_run_hook(m.1, m.2, m.4, m.0.last(), Hook::Pause);
    let entered = spec_run_hook(paused.0, paused.1, paused.2, target, Hook::Enter);
    (m.0.push(target), entered.0, entered.1, m.3, entered.2)
}

/// The controller's state after one lifecycle transition of a pop: the
/// top is exited and removed, the state beneath resumed. Meaningful when
/// the stack holds more than one state.
pub open spec fn spec_pop_state(m: (Seq<GameState>, Seq<Node>, u64, u64, Color)) -> (
    Seq<GameState>,
    Seq<Node>,
    u64,
    u64,
    Color,
) {
    let exited = spec_run_hook(m.1, m.2, m.4, m.0.last(), Hook::Exit);
    let stack1 = m.0.drop_last();
    let resumed = spec_run_hook(exited.0, exited.1, exited.2, stack1.last(), Hook::Resume);
    (stack1, resumed.0, resumed.1, m.3, resumed.2)
}

/// What one button signal does to the controller, processed only when it
/// is a click on a button of the active scene: a Play click pushes the
/// running game, a Controls click pushes the controls screen, an Exit
/// click sends one exit event, a Back click pops the stack; each
/// transition runs its lifecycle hooks at once. Anything else — a hover,
/// an idle signal, or an identifier that matches no live tagged button —
/// changes nothing.
pub open spec fn spec_frame_signal(
    m: (Seq<GameState>, Seq<Node>, u64, u64, Color),
    sig: (u64, Interaction),
) -> (Seq<GameState>, Seq<Node>, u64, u64, Color) {
    if sig.1 != Interaction::Clicked {
        m
    } else {
        match spec_find_node(m.1, sig.0) {
            Some(node) => match node.tag {
                Some(ButtonTag::Item(item)) => if m.0.last() == GameState::MainMenu {
                    match spec_action_for(item) {
                        Action::StartGame => spec_push_state(m, GameState::MainGame),
                        Action::OpenControls => spec_push_state(m, GameState::ControlMenu),
                        Action::Quit => (m.0, m.1, m.2, (m.3 + 1) as u64, m.4),
                    }
                } else {
                    m
                },
                Some(ButtonTag::Back) => if m.0.last() == GameState::ControlMenu && m.0.len() > 1 {
                    spec_pop_state(m)
                } else {
                    m
                },
                None => m,
            },
            None => m,
        }
    }
}

/// The controller's state after the signals of one frame, processed in
/// iteration order.
pub open spec fn spec_frame(
    m: (Seq<GameState>, Seq<Node>, u64, u64, Color),
    sigs: Seq<(u64, Interaction)>,
) -> (Seq<GameState>, Seq<Node>, u64, u64, Color)
    decreases sigs.len(),
{
    if sigs.len() == 0 {
        m
    } else {
        spec_frame_signal(spec_frame(m, sigs.drop_last()), sigs.last())
    }
}

impl MenuApp {
    /// The stack contents, bottom first.
    pub closed spec fn spec_stack(&self) -> Seq<GameState> {
        self.stack@
    }

    /// The live scene nodes.
    pub closed spec fn spec_scene(&self) -> Seq<Node> {
        self.scene@
    }

    /// The next entity identifier the scene graph will hand out.
    pub closed spec fn spec_next_id(&self) -> u64 {
        self.scene.spec_next_id()
    }

    /// How many exit events have been sent.
    pub closed spec fn spec_exits(&self) -> u64 {
        self.exit_events@
    }

    /// The current background clear color.
    pub closed spec fn spec_clear(&self) -> Color {
        self.clear_color.0
    }

    /// Everything the controller owns, as one value.
    pub open spec fn model(&self) -> (Seq<GameState>, Seq<Node>, u64, u64, Color) {
        (self.spec_stack(), self.spec_scene(), self.spec_next_id(), self.spec_exits(), self.spec_clear())
    }

    /// The controller's invariant between frames: the stack is never
    /// empty, its base is the main menu, the controls screen sits only on
    /// top, and the scene graph holds exactly the active state's scene —
    /// so the markers present are exactly those of the states entered or
    /// resumed and not paused or exited.
    pub open spec fn wf(&self) -> bool {
        &&& self.spec_stack().len() >= 1
    &&& self.spec_stack()[0] == GameState::MainMenu
        &&& (forall|i: int|
            0 <= i < self.spec_stack().len() - 1 ==> (#[trigger] self.spec_stack()[i])
                != GameState::ControlMenu)
        &&& wf_nodes(self.spec_scene(), self.spec_next_id())
        &&& (exists|base: u64|
            self.spec_scene() == spec_scene_nodes(self.spec_stack().last(), base))
    }

    /// Runs the system this plugin registers for the state's lifecycle
    /// hook, if any. Update hooks run nothing here: they are driven by
    /// `frame`, which supplies the signals.
    fn run_hook(&mut self, state: GameState, hook: Hook)
        requires
            old(self).scene.wf(),
            old(self).spec_next_id() + 8 <= u64::MAX,
        ensures
            ({
                let r = spec_run_hook(
                    old(self).spec_scene(),
                    old(self).spec_next_id(),
                    old(self).spec_clear(),
                    state,
                    hook,
                );
                final(self).spec_scene() == r.0 && final(self).spec_next_id() == r.1
                    && final(self).spec_clear() == r.2
            }),
            final(self).spec_stack() == old(self).spec_stack(),
            final(self).spec_exits() == old(self).spec_exits(),
            final(self).scene.wf(),
            final(self).spec_next_id() <= old(self).spec_next_id() + 8,
    {
        match systems_for(state, hook) {
            Some(SystemId::SetupMainMenu) => setup_main_menu(&mut self.scene, &mut self.clear_color),
            Some(SystemId::SetupControlsMenu) => setup_controls_menu(&mut self.scene),
            Some(SystemId::TeardownMenuItems) => teardown_menu_items(&mut self.scene),
            Some(SystemId::TeardownControlsMenu) => teardown_controls_menu(&mut self.scene),
            Some(SystemId::HandleMenuItemClick) => (),
            Some(SystemId::HandleBackButtonInteraction) => (),
            None => (),
        }
    }

    /// Creates the application as the host would start it: the stack
    /// holds the main menu, whose enter hook has run, so its scene stands
    /// built and the background is black.
    pub fn new() -> (app: MenuApp)
        ensures
            app.spec_stack() == seq![GameState::MainMenu],
            app.spec_scene() == main_menu_nodes(0),
            app.spec_next_id() == 8,
            app.spec_exits() == 0,
            app.spec_clear() == Color::Black,
            app.wf(),
    {
        let mut scene = SceneGraph::new();
        let mut clear_color = ClearColor(Color::Black);
        setup_main_menu(&mut scene, &mut clear_color);
        let app = MenuApp {
            stack: StateStack::new(GameState::MainMenu),
            scene,
            clear_color,
            exit_events: ExitEvents::new(),
        };
        proof {
            assert(app.spec_scene() =~= main_menu_nodes(0));
            lemma_scene_nodes_props(GameState::MainMenu, 0);
            assert(app.spec_scene() == spec_scene_nodes(app.spec_stack().last(), 0));
        }
        app
    }

    /// Pushes `target` on the stack with its lifecycle hooks: the current
    /// top is paused (its scene torn down, where one is registered), then
    /// the target entered (its scene built). The controls screen is never
    /// pushed upon: it registers no pause hook, being always on top while
    /// active.
    pub fn push_state(&mut self, target: GameState)
        requires
            old(self).wf(),
            old(self).spec_stack().last() != GameState::ControlMenu,
            old(self).spec_next_id() + 8 <= u64::MAX,
        ensures
            final(self).model() == spec_push_state(old(self).model(), target),
            final(self).wf(),
            final(self).spec_exits() == old(self).spec_exits(),
            final(self).spec_next_id() <= old(self).spec_next_id() + 8,
    {
        let ghost base0 = choose|b: u64|
            old(self).spec_scene() == spec_scene_nodes(old(self).spec_stack().last(), b);
        let current = self.stack.current();
        self.run_hook(current, Hook::Pause);
        proof {
            lemma_scene_nodes_props(current, base0);
            if current == GameState::MainMenu {
                lemma_owned_filter_empty(old(self).spec_scene(), GameState::MainMenu);
            }
            assert(self.spec_scene() =~= Seq::<Node>::empty());
        }
        self.stack.push(target);
        let ghost base1 = self.spec_next_id();
        self.run_hook(target, Hook::Enter);
        proof {
            assert(self.spec_scene() =~= spec_scene_nodes(target, base1));
            assert(self.spec_stack().last() == target);
            assert forall|i: int|
                0 <= i < self.spec_stack().len() - 1 implies (#[trigger] self.spec_stack()[i])
                != GameState::ControlMenu by {
                assert(self.spec_stack()[i] == old(self).spec_stack()[i]);
                if i == old(self).spec_stack().len() - 1 {
                    assert(self.spec_stack()[i] == old(self).spec_stack().last());
                }
            }
        }
    }

    /// Pops the top state with its lifecycle hooks: the popped state is
    /// exited (its scene torn down, where one is registered), then the
    /// revealed state resumed (its scene rebuilt, where one is
    /// registered). A pop on a stack holding only one state fails with
    /// `EmptyStackError` and changes nothing: the base state cannot be
    /// left.
    pub fn pop_state(&mut self) -> (r: Result<GameState, EmptyStackError>)
        requires
            old(self).wf(),
            old(self).spec_next_id() + 8 <= u64::MAX,
        ensures
            old(self).spec_stack().len() == 1 ==> r == Err::<GameState, EmptyStackError>(
                EmptyStackError,
            ) && final(self).model() == old(self).model(),
            old(self).spec_stack().len() > 1 ==> r == Ok::<GameState, EmptyStackError>(
                old(self).spec_stack().last(),
            ) && final(self).model() == spec_pop_state(old(self).model()),
            final(self).wf(),
            final(self).spec_exits() == old(self).spec_exits(),
            final(self).spec_next_id() <= old(self).spec_next_id() + 8,
    {
        let ghost base0 = choose|b: u64|
            old(self).spec_scene() == spec_scene_nodes(old(self).spec_stack().last(), b);
        let popped = match self.stack.pop() {
            Err(e) => {
                return Err(e);
            },
            Ok(p) => p,
        };
        self.run_hook(popped, Hook::Exit);
        proof {
            lemma_scene_nodes_props(popped, base0);
            if popped == GameState::MainMenu {
                lemma_owned_filter_empty(old(self).spec_scene(), GameState::MainMenu);
            }
            if popped == GameState::ControlMenu {
                lemma_owned_filter_empty(old(self).spec_scene(), GameState::ControlMenu);
            }
            assert(self.spec_scene() =~= Seq::<Node>::empty());
        }
        let now = self.stack.current();
        proof {
            assert(self.spec_stack() == old(self).spec_stack().drop_last());
            assert(now == old(self).spec_stack()[old(self).spec_stack().len() - 2]);
            assert(now != GameState::ControlMenu);
        }
        let ghost base1 = self.spec_next_id();
        self.run_hook(now, Hook::Resume);
        proof {
            assert(self.spec_scene() =~= spec_scene_nodes(now, base1));
        }
        Ok(popped)
    }

    /// Sends one application-exit event; the stack and the scene are
    /// untouched.
    fn send_exit(&mut self)
        requires
            old(self).spec_exits() < u64::MAX,
        ensures
            final(self).spec_exits() == old(self).spec_exits() + 1,
            final(self).spec_stack() == old(self).spec_stack(),
            final(self).spec_scene() == old(self).spec_scene(),
            final(self).spec_next_id() == old(self).spec_next_id(),
            final(self).spec_clear() == old(self).spec_clear(),
    {
        self.exit_events.send(AppExit);
    }

    /// Processes one button signal, as `spec_frame_signal` states.
    fn frame_signal(&mut self, id: u64, interaction: Interaction)
        requires
            old(self).wf(),
            old(self).spec_next_id() + 8 <= u64::MAX,
            old(self).spec_exits() < u64::MAX,
        ensures
            final(self).model() == spec_frame_signal(old(self).model(), (id, interaction)),
            final(self).wf(),
            final(self).spec_next_id() <= old(self).spec_next_id() + 8,
            final(self).spec_exits() <= old(self).spec_exits() + 1,
    {
        let clicked = match interaction {
            Interaction::Clicked => true,
            Interaction::Hovered => false,
            Interaction::Idle => false,
        };
        if !clicked {
            return ;
        }
        match self.scene.find_node(id) {
            None => (),
            Some(node) => match node.tag {
                None => (),
                Some(ButtonTag::Item(item)) => {
                    if self.stack.current() == GameState::MainMenu {
                        match action_for(item) {
                            Action::StartGame => self.push_state(GameState::MainGame),
                            Action::OpenControls => self.push_state(GameState::ControlMenu),
                            Action::Quit => self.send_exit(),
                        }
                    }
                },
                Some(ButtonTag::Back) => {
                    if self.stack.current() == GameState::ControlMenu {
                        proof {
                            assert(self.spec_stack().len() > 1);
                        }
                        let _ = self.pop_state();
                    }
                },
            },
        }
    }

    /// Processes the button signals of one frame, in iteration order;
    /// each click is applied as a full transition, its lifecycle hooks
    /// run before the next signal is examined, so a signal aimed at an
    /// entity the transition tore down no longer matches anything.
    pub fn frame(&mut self, signals: &Vec<(u64, Interaction)>)
        requires
            old(self).wf(),
            old(self).spec_next_id() + 8 * signals@.len() <= u64::MAX,
            old(self).spec_exits() + signals@.len() <= u64::MAX,
        ensures
            final(self).model() == spec_frame(old(self).model(), signals@),
            final(self).wf(),
    {
        let n = signals.len();
        let mut i: usize = 0;
        proof {
            assert(signals@.take(0) =~= Seq::<(u64, Interaction)>::empty());
        }
        while i < n
            invariant
                i <= n,
                n == signals@.len(),
                old(self).spec_next_id() + 8 * n <= u64::MAX,
                old(self).spec_exits() + n <= u64::MAX,
                self.model() == spec_frame(old(self).model(), signals@.take(i as int)),
                self.wf(),
                self.spec_next_id() <= old(self).spec_next_id() + 8 * i,
                self.spec_exits() <= old(self).spec_exits() + i,
            decreases n - i,
        {
            proof {
                assert(signals@.take(i as int + 1).drop_last() =~= signals@.take(i as int));
                assert(signals@.take(i as int + 1).last() == signals@[i as int]);
            }
            let sig = signals[i];
            self.frame_signal(sig.0, sig.1);
            i += 1;
        }
        proof {
            assert(signals@.take(n as int) =~= signals@);
        }
    }

    /// The current state: the top of the stack.
    pub fn current_state(&self) -> (r: GameState)
        requires
            self.wf(),
        ensures
            r == self.spec_stack().last(),
    {
        self.stack.current()
    }

    /// The number of states on the stack.
    pub fn stack_depth(&self) -> (n: usize)
        ensures
            n == self.spec_stack().len(),
    {
        self.stack.depth()
    }

    /// The state at position `i` of the stack, counted from the bottom.
    pub fn stack_at(&self, i: usize) -> (r: GameState)
        requires
            i < self.spec_stack().len(),
        ensures
            r == self.spec_stack()[i as int],
    {
        self.stack.state_at(i)
    }

    /// The number of live scene nodes.
    pub fn scene_node_count(&self) -> (n: usize)
        ensures
            n == self.spec_scene().len(),
    {
        self.scene.node_count()
    }

    /// The scene node at position `i`, in spawn order.
    pub fn scene_node_at(&self, i: usize) -> (n: Node)
        requires
            i < self.spec_scene().len(),
        ensures
            n == self.spec_scene()[i as int],
    {
        self.scene.node_at(i)
    }

    /// The next identifier the scene graph will hand out.
    pub fn scene_next_id(&self) -> (r: u64)
        ensures
            r == self.spec_next_id(),
    {
        self.scene.next_id()
    }

    /// How many application-exit events have been sent.
    pub fn exit_count(&self) -> (n: u64)
        ensures
            n == self.spec_exits(),
    {
        self.exit_events.count()
    }

    /// The current background clear color.
    pub fn clear_color(&self) -> (c: Color)
        ensures
            c == self.spec_clear(),
    {
        self.clear_color.0
    }
}

/// The scene-root markers present in a node sequence: the owners of its
/// parentless nodes.
pub open spec fn scene_markers(s: Seq<Node>) -> Set<GameState> {
    Set::new(
        |g: GameState|
            exists|i: int| 0 <= i < s.len() && (#[trigger] s[i]).parent is None && s[i].owner == g,
    )
}

/// The states whose scenes should stand: with this controller's wiring,
/// the top of the stack, when it defines a scene (the running game
/// defines none); every state below the top has been paused or never
/// entered a scene, and every popped state was exited.
pub open spec fn active_scene_states(stack: Seq<GameState>) -> Set<GameState> {
    if stack.last() == GameState::MainGame {
        Set::<GameState>::empty()
    } else {
        set![stack.last()]
    }
}

/// Law (exclusive active scene): between frames, the scene-root markers
/// present in a well-formed controller's scene graph are exactly the
/// markers of the states on the stack that have been entered or resumed
/// and not paused or exited.
pub proof fn lemma_exclusive_active_scene(app: &MenuApp)
    requires
        app.wf(),
    ensures
        scene_markers(app.spec_scene()) == active_scene_states(app.spec_stack()),
{
    let top = app.spec_stack().last();
    let base = choose|b: u64| app.spec_scene() == spec_scene_nodes(top, b);
    let s = app.spec_scene();
    lemma_scene_nodes_props(top, base);
    if top == GameState::MainGame {
        assert(scene_markers(s) =~= active_scene_states(app.spec_stack()));
    } else {
        assert(s[0].parent is None && s[0].owner == top);
        assert(scene_markers(s).contains(top));
        assert forall|g: GameState| scene_markers(s).contains(g) implies g == top by {
            let i = choose|i: int|
                0 <= i < s.len() && (#[trigger] s[i]).parent is None && s[i].owner == g;
            assert(s[i].owner == top);
        }
        assert(scene_markers(s) =~= active_scene_states(app.spec_stack()));
    }
}

} // verus!

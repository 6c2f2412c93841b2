//! The main window's session: it is hidden, not closed, when the user closes
//! it; a tray click, the tray menu's "open" entry or a second launch of the
//! application bring it back; only the menu's "quit" entry ends the process.
use vstd::prelude::*;
use crate::text::same_text;

verus! {

/// What the host reports of the main window.
#[derive(Clone, Copy, Debug, PartialEq, Eq, Structural)]
pub struct WindowState {
    pub visible: bool,
    pub minimized: bool,
    pub focused: bool,
}

#[derive(Clone, Copy, Debug, PartialEq, Eq, Structural)]
pub enum MouseButton {
    Left,
    Right,
    Middle,
}

/// An entry of the tray menu.
#[derive(Clone, Copy, Debug, PartialEq, Eq, Structural)]
pub enum MenuChoice {
    /// Shows the window.
    Open,
    /// Ends the process.
    Quit,
}

/// What the host hands to the session.
#[derive(Clone, Copy, Debug, PartialEq, Eq, Structural)]
pub enum SessionEvent {
    /// The user asked to close the window.
    CloseRequested,
    /// The tray icon was clicked.
    TrayClick(MouseButton),
    /// An entry of the tray menu was chosen.
    MenuSelected(MenuChoice),
    /// The application was launched again while this process runs.
    SecondLaunch,
}

/// What the session asks of the host.
#[derive(Clone, Copy, Debug, PartialEq, Eq, Structural)]
pub enum Action {
    Nothing,
    /// Keep the process, hide the window.
    HideWindow,
    /// Un-minimize, show and focus the window, in that order.
    RevealWindow,
    /// End the process with this code.
    ExitProcess(i32),
}

/// One call on the window.
#[derive(Clone, Copy, Debug, PartialEq, Eq, Structural)]
pub enum WindowOp {
    Unminimize,
    Show,
    Focus,
    Hide,
}

/// How the window is restored and shaped at startup.
#[derive(Clone, Copy, Debug, PartialEq, Eq, Structural)]
pub enum GeometryRestore {
    PositionOnly,
    Full,
}

/// The fixed presentation of the main window, asserted after its geometry is
/// restored.
#[derive(Clone, Copy, Debug, PartialEq, Eq, Structural)]
pub struct WindowLayout {
    pub restore: GeometryRestore,
    pub width: u32,
    pub height: u32,
    pub decorations: bool,
    pub resizable: bool,
    pub fullscreen: bool,
    pub maximizable: bool,
}

impl MenuChoice {
    /// The entry's identifier in the host's menu.
    pub open spec fn key(self) -> Seq<char> {
        match self {
            MenuChoice::Open => "open"@,
            MenuChoice::Quit => "quit"@,
        }
    }

    pub fn id(self) -> (r: &'static str)
        ensures
            r@ == self.key(),
    {
        match self {
            MenuChoice::Open => "open",
            MenuChoice::Quit => "quit",
        }
    }

    /// The entry's caption.
    pub fn label(self) -> (r: &'static str)
        ensures
            self is Open ==> r@ == "Exibir Janela"@,
            self is Quit ==> r@ == "Sair"@,
    {
        match self {
            MenuChoice::Open => "Exibir Janela",
            MenuChoice::Quit => "Sair",
        }
    }

    /// The entry that an identifier names, if any.
    pub fn from_id(id: &str) -> (r: Option<MenuChoice>)
        ensures
            match r {
                Some(c) => id@ == c.key(),
                None => forall|c: MenuChoice| id@ != c.key(),
            },
    {
        if same_text(id, MenuChoice::Open.id()) {
            Some(MenuChoice::Open)
        } else if same_text(id, MenuChoice::Quit.id()) {
            Some(MenuChoice::Quit)
        } else {
            assert forall|c: MenuChoice| id@ != c.key() by {
                match c {
                    MenuChoice::Open => {},
                    MenuChoice::Quit => {},
                }
            }
            None
        }
    }
}

/// The entries of the tray menu, in order.
pub fn tray_menu() -> (r: Vec<MenuChoice>)
    ensures
        r@ == seq![MenuChoice::Open, MenuChoice::Quit],
{
    vec![MenuChoice::Open, MenuChoice::Quit]
}

/// The host's label of the main window.
pub fn main_window_label() -> (r: &'static str)
    ensures
        r@ == "main"@,
{
    "main"
}

/// The main window's title.
pub fn window_title() -> (r: &'static str)
    ensures
        r@ == "No Ponto"@,
{
    "No Ponto"
}

/// The startup presentation: position restored, then a fixed 420 by 588
/// window without decorations that cannot be resized, made full screen or
/// maximized.
pub fn main_window_layout() -> (r: WindowLayout)
    ensures
        r == (WindowLayout {
            restore: GeometryRestore::PositionOnly,
            width: 420,
            height: 588,
            decorations: false,
            resizable: false,
            fullscreen: false,
            maximizable: false,
        }),
{
    WindowLayout {
        restore: GeometryRestore::PositionOnly,
        width: 420,
        height: 588,
        decorations: false,
        resizable: false,
        fullscreen: false,
        maximizable: false,
    }
}

/// What the session does on an event.
pub open spec fn action_for(e: SessionEvent) -> Action {
    match e {
        SessionEvent::CloseRequested => Action::HideWindow,
        SessionEvent::TrayClick(MouseButton::Left) => Action::RevealWindow,
        SessionEvent::TrayClick(_) => Action::Nothing,
        SessionEvent::MenuSelected(MenuChoice::Open) => Action::RevealWindow,
        SessionEvent::MenuSelected(MenuChoice::Quit) => Action::ExitProcess(0),
        SessionEvent::SecondLaunch => Action::RevealWindow,
    }
}

/// The calls on the window that carry out an action, in order.
pub open spec fn ops_for(a: Action) -> Seq<WindowOp> {
    match a {
        Action::HideWindow => seq![WindowOp::Hide],
        Action::RevealWindow => seq![WindowOp::Unminimize, WindowOp::Show, WindowOp::Focus],
        _ => Seq::empty(),
    }
}

/// The window after one call that succeeded.
pub open spec fn after_op(w: WindowState, op: WindowOp) -> WindowState {
    match op {
        WindowOp::Unminimize => WindowState { minimized: false, ..w },
        WindowOp::Show => WindowState { visible: true, ..w },
        WindowOp::Focus => WindowState { focused: true, ..w },
        WindowOp::Hide => WindowState { visible: false, focused: false, ..w },
    }
}

/// The window after a sequence of calls that all succeeded.
pub open spec fn after_ops(w: WindowState, ops: Seq<WindowOp>) -> WindowState
    decreases ops.len(),
{
    if ops.len() == 0 {
        w
    } else {
        after_ops(after_op(w, ops[0]), ops.drop_first())
    }
}

impl Action {
    /// The calls on the window that carry out the action, in order.
    pub fn window_ops(self) -> (r: Vec<WindowOp>)
        ensures
            r@ == ops_for(self),
    {
        match self {
            Action::HideWindow => vec![WindowOp::Hide],
            Action::RevealWindow => vec![WindowOp::Unminimize, WindowOp::Show, WindowOp::Focus],
            _ => Vec::new(),
        }
    }
}

/// The window's state as the session sees it.
pub struct WindowSession {
    pub window: WindowState,
}

impl WindowSession {
    /// The session at process start: the host has shown the window.
    pub fn start() -> (r: WindowSession)
        ensures
            r.window == (WindowState { visible: true, minimized: false, focused: true }),
    {
        WindowSession { window: WindowState { visible: true, minimized: false, focused: true } }
    }

    /// What the session does on an event.
    pub fn respond(event: SessionEvent) -> (r: Action)
        ensures
            r == action_for(event),
    {
        match event {
            SessionEvent::CloseRequested => Action::HideWindow,
            SessionEvent::TrayClick(MouseButton::Left) => Action::RevealWindow,
            SessionEvent::TrayClick(_) => Action::Nothing,
            SessionEvent::MenuSelected(MenuChoice::Open) => Action::RevealWindow,
            SessionEvent::MenuSelected(MenuChoice::Quit) => Action::ExitProcess(0),
            SessionEvent::SecondLaunch => Action::RevealWindow,
        }
    }

    /// Takes an event: returns the action for the host and records the
    /// window as it is once the action's calls have succeeded.
    pub fn handle(&mut self, event: SessionEvent) -> (r: Action)
        ensures
            r == action_for(event),
            final(self).window == after_ops(old(self).window, ops_for(r)),
    {
        let action = WindowSession::respond(event);
        let ops = action.window_ops();
        let mut w = self.window;
        let mut i: usize = 0;
        assert(ops@ =~= ops@.subrange(0, ops@.len() as int));
        while i < ops.len()
            invariant
                ops@ == ops_for(action),
                i <= ops@.len(),
                after_ops(self.window, ops@) == after_ops(w, ops@.subrange(i as int, ops@.len() as int)),
            decreases ops.len() - i,
        {
            let ghost rest = ops@.subrange(i as int, ops@.len() as int);
            assert(rest.drop_first() =~= ops@.subrange(i + 1, ops@.len() as int));
            w = match ops[i] {
                WindowOp::Unminimize => WindowState { minimized: false, ..w },
                WindowOp::Show => WindowState { visible: true, ..w },
                WindowOp::Focus => WindowState { focused: true, ..w },
                WindowOp::Hide => WindowState { visible: false, focused: false, ..w },
            };
            i = i + 1;
        }
        assert(ops@.subrange(i as int, ops@.len() as int) =~= Seq::<WindowOp>::empty());
        self.window = w;
        action
    }
}

/// A close request hides the window and keeps the process: it never ends it.
pub proof fn lemma_close_hides(w: WindowState)
    ensures
        action_for(SessionEvent::CloseRequested) == Action::HideWindow,
        !(action_for(SessionEvent::CloseRequested) is ExitProcess),
        !after_ops(w, ops_for(action_for(SessionEvent::CloseRequested))).visible,
{
    reveal_with_fuel(after_ops, 2);
}

/// After a left click on the tray icon, or the menu's "open" entry, the window
/// is shown, not minimized and focused, whatever it was before.
pub proof fn lemma_tray_reveals(w: WindowState, e: SessionEvent)
    requires
        e == SessionEvent::TrayClick(MouseButton::Left) || e == SessionEvent::MenuSelected(
            MenuChoice::Open,
        ),
    ensures
        action_for(e) == Action::RevealWindow,
        after_ops(w, ops_for(action_for(e))) == (WindowState {
            visible: true,
            minimized: false,
            focused: true,
        }),
{
    reveal_with_fuel(after_ops, 4);
}

/// A second launch brings the running window forward, shown and focused,
/// instead of opening another.
pub proof fn lemma_second_launch_reveals(w: WindowState)
    ensures
        action_for(SessionEvent::SecondLaunch) == Action::RevealWindow,
        after_ops(w, ops_for(action_for(SessionEvent::SecondLaunch))) == (WindowState {
            visible: true,
            minimized: false,
            focused: true,
        }),
{
    reveal_with_fuel(after_ops, 4);
}

/// The menu's "quit" entry ends the process with code 0, and it is the only
/// event that ends it.
pub proof fn lemma_only_quit_exits(e: SessionEvent)
    ensures
        action_for(SessionEvent::MenuSelected(MenuChoice::Quit)) == Action::ExitProcess(0),
        action_for(e) is ExitProcess ==> e == SessionEvent::MenuSelected(MenuChoice::Quit),
{
}

} // verus!

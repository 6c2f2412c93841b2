use no_ponto::window::{
    main_window_label, main_window_layout, tray_menu, window_title, Action, GeometryRestore,
    MenuChoice, MouseButton, SessionEvent, WindowOp, WindowSession, WindowState,
};

fn session(visible: bool, minimized: bool, focused: bool) -> WindowSession {
    WindowSession { window: WindowState { visible, minimized, focused } }
}

const SHOWN: WindowState = WindowState { visible: true, minimized: false, focused: true };

#[test]
fn starts_visible() {
    assert_eq!(WindowSession::start().window, SHOWN);
}

#[test]
fn close_request_hides_and_keeps_running() {
    let mut s = WindowSession::start();
    let a = s.handle(SessionEvent::CloseRequested);
    assert_eq!(a, Action::HideWindow);
    assert!(!matches!(a, Action::ExitProcess(_)));
    assert!(!s.window.visible);
    assert_eq!(a.window_ops(), vec![WindowOp::Hide]);
}

#[test]
fn left_tray_click_reveals_minimized_window() {
    let mut s = session(false, true, false);
    let a = s.handle(SessionEvent::TrayClick(MouseButton::Left));
    assert_eq!(a, Action::RevealWindow);
    assert_eq!(a.window_ops(), vec![WindowOp::Unminimize, WindowOp::Show, WindowOp::Focus]);
    assert_eq!(s.window, SHOWN);
}

#[test]
fn other_tray_clicks_do_nothing() {
    for b in [MouseButton::Right, MouseButton::Middle] {
        let mut s = session(false, false, false);
        assert_eq!(s.handle(SessionEvent::TrayClick(b)), Action::Nothing);
        assert_eq!(s.window, WindowState { visible: false, minimized: false, focused: false });
    }
}

#[test]
fn open_entry_reveals_window() {
    let mut s = session(false, false, false);
    assert_eq!(s.handle(SessionEvent::MenuSelected(MenuChoice::Open)), Action::RevealWindow);
    assert_eq!(s.window, SHOWN);
}

#[test]
fn quit_entry_exits_with_zero() {
    for start in [session(true, false, true), session(false, true, false)] {
        let mut s = start;
        let before = s.window;
        let a = s.handle(SessionEvent::MenuSelected(MenuChoice::Quit));
        assert_eq!(a, Action::ExitProcess(0));
        assert!(a.window_ops().is_empty());
        assert_eq!(s.window, before);
    }
}

#[test]
fn second_launch_focuses_existing_window() {
    let mut s = session(true, true, false);
    assert_eq!(s.handle(SessionEvent::SecondLaunch), Action::RevealWindow);
    assert_eq!(s.window, SHOWN);
}

#[test]
fn hide_then_reveal_round() {
    let mut s = WindowSession::start();
    s.handle(SessionEvent::CloseRequested);
    assert!(!s.window.visible);
    s.handle(SessionEvent::SecondLaunch);
    assert_eq!(s.window, SHOWN);
}

#[test]
fn respond_matches_handle() {
    assert_eq!(WindowSession::respond(SessionEvent::CloseRequested), Action::HideWindow);
    assert_eq!(WindowSession::respond(SessionEvent::SecondLaunch), Action::RevealWindow);
    assert_eq!(
        WindowSession::respond(SessionEvent::MenuSelected(MenuChoice::Quit)),
        Action::ExitProcess(0)
    );
}

#[test]
fn menu_ids_resolve() {
    assert_eq!(MenuChoice::Open.id(), "open");
    assert_eq!(MenuChoice::Quit.id(), "quit");
    assert_eq!(MenuChoice::from_id("open"), Some(MenuChoice::Open));
    assert_eq!(MenuChoice::from_id("quit"), Some(MenuChoice::Quit));
    assert_eq!(MenuChoice::from_id("Quit"), None);
    assert_eq!(MenuChoice::from_id(""), None);
    assert_eq!(MenuChoice::from_id("opened"), None);
    assert_eq!(MenuChoice::Open.label(), "Exibir Janela");
    assert_eq!(MenuChoice::Quit.label(), "Sair");
}

#[test]
fn tray_menu_has_two_entries() {
    assert_eq!(tray_menu(), vec![MenuChoice::Open, MenuChoice::Quit]);
}

#[test]
fn main_window_is_fixed() {
    let l = main_window_layout();
    assert_eq!(l.restore, GeometryRestore::PositionOnly);
    assert_eq!((l.width, l.height), (420, 588));
    assert!(!l.decorations && !l.resizable && !l.fullscreen && !l.maximizable);
    assert_eq!(main_window_label(), "main");
    assert_eq!(window_title(), "No Ponto");
}

use multi_window::handle::WindowHandle;
use multi_window::kinds::AboutWindow;
use multi_window::kinds::AppState;
use multi_window::kinds::Content;
use multi_window::kinds::LogWindow;
use multi_window::kinds::SettingsWindow;
use multi_window::kinds::ThemeChoice;
use multi_window::manager::WindowManager;
use multi_window::requests::CloseRequest;
use multi_window::settings::WindowSettings;
use multi_window::window;
use multi_window::WindowUnion;

fn handle(raw: u64) -> WindowHandle {
    WindowHandle { raw }
}

#[test]
fn new_registry_is_empty() {
    let m: WindowManager<WindowUnion> = WindowManager::new();
    assert!(m.empty());
    let d: WindowManager<WindowUnion> = WindowManager::default();
    assert!(d.empty());
}

#[test]
fn main_handle_is_reserved() {
    assert_eq!(WindowHandle::main(), WindowHandle { raw: 0 });
}

#[test]
fn with_main_registers_under_main_handle() {
    let m = WindowManager::with_main(window(SettingsWindow { tab: 0 }));
    assert!(!m.empty());
    assert!(m.is_registered(WindowHandle::main()));
    assert!(!m.is_registered(handle(1)));
}

#[test]
fn spawn_then_close_restores_empty() {
    let mut m: WindowManager<WindowUnion> = WindowManager::new();
    assert!(m.empty());
    m.open(window(LogWindow { first_line: 0 }), handle(1));
    assert!(!m.empty());
    m.was_closed(handle(1));
    assert!(m.empty());

    let mut seeded = WindowManager::with_main(window(SettingsWindow { tab: 0 }));
    assert!(!seeded.empty());
    seeded.open(window(LogWindow { first_line: 0 }), handle(2));
    seeded.was_closed(handle(2));
    assert!(!seeded.empty());
}

#[test]
fn open_returns_the_request_for_the_host() {
    let mut m: WindowManager<WindowUnion> = WindowManager::new();
    let request = m.open(window(LogWindow { first_line: 10 }), handle(4));
    assert_eq!(request.handle, handle(4));
    assert_eq!(
        request.settings,
        WindowSettings { width: 800, height: 600, resizable: true, decorations: true }
    );
    assert!(m.is_registered(handle(4)));
}

#[test]
fn exists_any_of_kind_until_closed() {
    let mut m: WindowManager<WindowUnion> = WindowManager::new();
    let probe = window(LogWindow { first_line: 99 });
    assert!(!m.any_of(&probe));
    m.open(window(LogWindow { first_line: 0 }), handle(1));
    assert!(m.any_of(&probe));
    m.was_closed(handle(1));
    assert!(!m.any_of(&probe));
}

#[test]
fn exists_any_of_survives_while_another_instance_remains() {
    let mut m: WindowManager<WindowUnion> = WindowManager::new();
    let probe = window(LogWindow { first_line: 0 });
    m.open(window(LogWindow { first_line: 1 }), handle(1));
    m.open(window(LogWindow { first_line: 2 }), handle(2));
    m.was_closed(handle(1));
    assert!(m.any_of(&probe));
    m.was_closed(handle(2));
    assert!(!m.any_of(&probe));
}

#[test]
fn instances_of_counts_matching_handles() {
    let mut m: WindowManager<WindowUnion> = WindowManager::new();
    let probe = window(SettingsWindow { tab: 7 });
    assert_eq!(m.instances_of(&probe), vec![]);
    m.open(window(SettingsWindow { tab: 1 }), handle(1));
    m.open(window(LogWindow { first_line: 0 }), handle(2));
    m.open(window(SettingsWindow { tab: 2 }), handle(3));
    let found = m.instances_of(&probe);
    assert_eq!(
        found,
        vec![
            (handle(1), window(SettingsWindow { tab: 1 })),
            (handle(3), window(SettingsWindow { tab: 2 })),
        ]
    );
    m.was_closed(handle(3));
    assert_eq!(
        m.instances_of(&probe),
        vec![(handle(1), window(SettingsWindow { tab: 1 }))]
    );
    m.open(window(SettingsWindow { tab: 3 }), handle(5));
    assert_eq!(m.instances_of(&probe).len(), 2);
}

#[test]
fn closed_is_idempotent() {
    let mut m: WindowManager<WindowUnion> = WindowManager::new();
    m.open(window(SettingsWindow { tab: 0 }), handle(1));
    m.open(window(LogWindow { first_line: 0 }), handle(2));
    m.was_closed(handle(1));
    assert!(!m.is_registered(handle(1)));
    assert!(m.is_registered(handle(2)));
    m.was_closed(handle(1));
    assert!(!m.is_registered(handle(1)));
    assert!(m.is_registered(handle(2)));
    assert!(!m.empty());
}

#[test]
fn closing_an_unknown_handle_is_a_no_op() {
    let mut m = WindowManager::with_main(window(SettingsWindow { tab: 0 }));
    m.was_closed(handle(42));
    assert!(m.is_registered(WindowHandle::main()));
    assert!(!m.empty());
}

#[test]
fn close_all_batches_one_request_per_window() {
    let mut m: WindowManager<WindowUnion> = WindowManager::new();
    m.open(window(SettingsWindow { tab: 0 }), handle(1));
    m.open(window(LogWindow { first_line: 0 }), handle(2));
    m.open(window(SettingsWindow { tab: 4 }), handle(3));
    let batch = m.close_all();
    assert_eq!(
        batch.requests,
        vec![
            CloseRequest { handle: handle(1) },
            CloseRequest { handle: handle(2) },
            CloseRequest { handle: handle(3) },
        ]
    );
    // close_all only requests: nothing is removed until the host confirms.
    assert!(m.is_registered(handle(1)));
    assert!(m.is_registered(handle(2)));
    assert!(m.is_registered(handle(3)));
    assert!(!m.empty());
}

#[test]
fn close_all_on_an_empty_registry_is_an_empty_batch() {
    let mut m: WindowManager<WindowUnion> = WindowManager::new();
    let batch = m.close_all();
    assert_eq!(batch.requests, vec![]);
    assert!(m.empty());
}

#[test]
fn queries_dispatch_to_the_registered_instance() {
    let app = AppState { dark_mode: false, log_lines: 250 };
    let mut m = WindowManager::with_main(window(SettingsWindow { tab: 2 }));
    m.open(window(LogWindow { first_line: 40 }), handle(9));
    assert_eq!(m.title(&app, WindowHandle::main()), "Settings");
    assert_eq!(m.title(&app, handle(9)), "Log");
}

#[test]
fn view_and_theme_dispatch_by_handle() {
    let app = AppState { dark_mode: true, log_lines: 12 };
    let mut m: WindowManager<WindowUnion> = WindowManager::new();
    m.open(window(SettingsWindow { tab: 5 }), handle(1));
    m.open(window(LogWindow { first_line: 3 }), handle(2));
    m.open(window(AboutWindow {}), handle(8));
    assert_eq!(
        m.view(&app, handle(1)),
        Content::SettingsPanel { tab: 5, dark_mode: true }
    );
    assert_eq!(
        m.view(&app, handle(2)),
        Content::LogView { first_line: 3, lines_total: 12 }
    );
    // The about page is numbered by the handle it is registered under.
    assert_eq!(m.view(&app, handle(8)), Content::AboutPage { window_number: 8 });
    assert_eq!(m.theme(&app, handle(1)), ThemeChoice::Dark);
    assert_eq!(m.theme(&app, handle(2)), ThemeChoice::Dark);
}

#[test]
fn scenario_main_settings_then_log() {
    let settings_probe = window(SettingsWindow { tab: 0 });
    let log_probe = window(LogWindow { first_line: 0 });

    // Only the main handle is registered, holding a settings instance.
    let mut m = WindowManager::with_main(window(SettingsWindow { tab: 0 }));

    // Spawn a log window, obtaining a second handle from the host.
    let h2 = handle(2);
    m.open(window(LogWindow { first_line: 0 }), h2);

    assert!(m.any_of(&settings_probe));
    assert!(m.any_of(&log_probe));
    assert!(!m.empty());

    m.was_closed(WindowHandle::main());
    assert!(!m.any_of(&settings_probe));

    m.was_closed(h2);
    assert!(m.empty());
}

use multi_window::handle::WindowHandle;
use multi_window::kinds::AboutWindow;
use multi_window::kinds::AppState;
use multi_window::kinds::Content;
use multi_window::kinds::LogWindow;
use multi_window::kinds::SettingsWindow;
use multi_window::kinds::ThemeChoice;
use multi_window::settings::WindowSettings;
use multi_window::window;
use multi_window::Window;
use multi_window::WindowUnion;

fn handle(raw: u64) -> WindowHandle {
    WindowHandle { raw }
}

#[test]
fn union_routes_to_settings_kind() {
    let app = AppState { dark_mode: false, log_lines: 0 };
    let w = window(SettingsWindow { tab: 3 });
    assert!(matches!(w, WindowUnion::Settings(_)));
    assert_eq!(w.kind(), "Settings");
    assert_eq!(
        w.content(&app, handle(1)),
        Content::SettingsPanel { tab: 3, dark_mode: false }
    );
    assert_eq!(w.title(&app, handle(1)), "Settings");
    assert_eq!(w.theme(&app, handle(1)), ThemeChoice::Light);
    assert_eq!(
        w.settings(),
        WindowSettings { width: 420, height: 540, resizable: false, decorations: true }
    );
}

#[test]
fn union_routes_to_log_kind() {
    let app = AppState { dark_mode: false, log_lines: 812 };
    let w = window(LogWindow { first_line: 100 });
    assert!(matches!(w, WindowUnion::Log(_)));
    assert_eq!(w.kind(), "Log");
    assert_eq!(
        w.content(&app, handle(2)),
        Content::LogView { first_line: 100, lines_total: 812 }
    );
    assert_eq!(w.title(&app, handle(2)), "Log");
    assert_eq!(w.theme(&app, handle(2)), ThemeChoice::Dark);
    assert_eq!(
        w.settings(),
        WindowSettings { width: 800, height: 600, resizable: true, decorations: true }
    );
}

#[test]
fn union_routes_to_about_kind() {
    let app = AppState { dark_mode: true, log_lines: 0 };
    let w = window(AboutWindow {});
    assert!(matches!(w, WindowUnion::About(_)));
    assert_eq!(w.kind(), "About");
    assert_eq!(w.content(&app, handle(7)), Content::AboutPage { window_number: 7 });
    assert_eq!(w.title(&app, handle(7)), "About");
    assert_eq!(w.theme(&app, handle(7)), ThemeChoice::Dark);
    assert_eq!(
        w.settings(),
        WindowSettings { width: 300, height: 180, resizable: false, decorations: false }
    );
}

#[test]
fn about_content_is_numbered_by_its_handle() {
    let app = AppState { dark_mode: false, log_lines: 0 };
    let w = window(AboutWindow {});
    assert_eq!(w.content(&app, handle(1)), Content::AboutPage { window_number: 1 });
    assert_eq!(w.content(&app, handle(31)), Content::AboutPage { window_number: 31 });
}

#[test]
fn theme_follows_application_state() {
    let light = AppState { dark_mode: false, log_lines: 0 };
    let dark = AppState { dark_mode: true, log_lines: 0 };
    let settings = window(SettingsWindow { tab: 0 });
    assert_eq!(settings.theme(&light, handle(1)), ThemeChoice::Light);
    assert_eq!(settings.theme(&dark, handle(1)), ThemeChoice::Dark);
    // The log window keeps its own theme regardless of the application's.
    let log = window(LogWindow { first_line: 0 });
    assert_eq!(log.theme(&light, handle(2)), ThemeChoice::Dark);
    assert_eq!(log.theme(&dark, handle(2)), ThemeChoice::Dark);
}

#[test]
fn same_kind_with_different_content_matches() {
    // Kind identity deliberately ignores instance content: two settings
    // windows opened on different tabs still count as the same kind.
    let a = window(SettingsWindow { tab: 1 });
    let b = window(SettingsWindow { tab: 9 });
    assert!(a.matches_kind(&b));
    assert!(b.matches_kind(&a));
    assert_ne!(a, b);
}

#[test]
fn different_kinds_do_not_match() {
    let settings = window(SettingsWindow { tab: 1 });
    let log = window(LogWindow { first_line: 1 });
    let about = window(AboutWindow {});
    assert!(!settings.matches_kind(&log));
    assert!(!settings.matches_kind(&about));
    assert!(!log.matches_kind(&about));
    assert!(about.matches_kind(&window(AboutWindow {})));
}

#[test]
fn union_equality_is_structural() {
    assert_eq!(window(SettingsWindow { tab: 4 }), window(SettingsWindow { tab: 4 }));
    assert_ne!(window(SettingsWindow { tab: 4 }), window(SettingsWindow { tab: 5 }));
    assert_ne!(window(LogWindow { first_line: 0 }), window(AboutWindow {}));
}

#[test]
fn duplicate_preserves_the_instance() {
    let w = window(LogWindow { first_line: 17 });
    assert_eq!(w.duplicate(), w);
}

#[test]
fn default_window_settings() {
    assert_eq!(
        WindowSettings::default(),
        WindowSettings { width: 640, height: 480, resizable: true, decorations: true }
    );
}

use platform_detect::window::linux_window_system;
use platform_detect::{detect_windowsystem, WindowSystem};

#[test]
fn test_detect_windowsystem() {
    let ws = detect_windowsystem("linux", true, false, Some("x11"));

    println!("{:?}", ws);
}

#[test]
fn linux_without_any_display_has_no_window_system() {
    assert_eq!(detect_windowsystem("linux", false, false, None), WindowSystem::NoDisplay);
    assert_eq!(
        detect_windowsystem("linux", false, false, Some("wayland")),
        WindowSystem::NoDisplay
    );
    assert_eq!(
        detect_windowsystem("linux", false, false, Some("x11")),
        WindowSystem::NoDisplay
    );
    assert_eq!(
        detect_windowsystem("linux", false, false, Some("tty")),
        WindowSystem::NoDisplay
    );
}

#[test]
fn linux_display_without_session_type_is_x11() {
    assert_eq!(detect_windowsystem("linux", true, false, None), WindowSystem::X11);
    assert_eq!(detect_windowsystem("linux", false, true, None), WindowSystem::X11);
    assert_eq!(detect_windowsystem("linux", true, true, None), WindowSystem::X11);
}

#[test]
fn linux_wayland_session_is_wayland() {
    assert_eq!(
        detect_windowsystem("linux", true, false, Some("wayland")),
        WindowSystem::Wayland
    );
    assert_eq!(
        detect_windowsystem("linux", false, true, Some("wayland")),
        WindowSystem::Wayland
    );
    assert_eq!(
        detect_windowsystem("linux", true, true, Some("wayland")),
        WindowSystem::Wayland
    );
}

#[test]
fn linux_other_session_type_falls_back_to_x11() {
    for session in ["something-else", "x11", "", "tty", "mir", "Wayland", "WAYLAND", "wayland ", "waylan"] {
        assert_eq!(
            detect_windowsystem("linux", true, false, Some(session)),
            WindowSystem::X11
        );
        assert_eq!(
            detect_windowsystem("linux", false, true, Some(session)),
            WindowSystem::X11
        );
    }
}

#[test]
fn missing_session_type_reads_as_x11() {
    for (display, wayland_display) in [(false, false), (true, false), (false, true), (true, true)] {
        assert_eq!(
            linux_window_system(display, wayland_display, None),
            linux_window_system(display, wayland_display, Some("x11"))
        );
    }
}

#[test]
fn linux_window_system_cases() {
    assert_eq!(linux_window_system(false, false, None), WindowSystem::NoDisplay);
    assert_eq!(linux_window_system(true, false, None), WindowSystem::X11);
    assert_eq!(linux_window_system(true, false, Some("wayland")), WindowSystem::Wayland);
    assert_eq!(linux_window_system(true, false, Some("something-else")), WindowSystem::X11);
}

#[test]
fn macos_is_always_quartz() {
    assert_eq!(detect_windowsystem("macos", false, false, None), WindowSystem::Quartz);
    assert_eq!(
        detect_windowsystem("macos", true, true, Some("wayland")),
        WindowSystem::Quartz
    );
    assert_eq!(detect_windowsystem("macos", true, false, Some("x11")), WindowSystem::Quartz);
}

#[test]
fn windows_is_always_its_native_shell() {
    assert_eq!(
        detect_windowsystem("windows", false, false, None),
        WindowSystem::WindowsExplorer
    );
    assert_eq!(
        detect_windowsystem("windows", true, true, Some("wayland")),
        WindowSystem::WindowsExplorer
    );
}

#[test]
fn other_platforms_have_unknown_window_system() {
    for platform in ["freebsd", "android", "ios", "dos", "", "Linux", "linux2", "solaris"] {
        assert_eq!(detect_windowsystem(platform, false, false, None), WindowSystem::Unknown);
        assert_eq!(
            detect_windowsystem(platform, true, true, Some("wayland")),
            WindowSystem::Unknown
        );
    }
}

#[test]
fn detect_windowsystem_repeats_its_answer() {
    for platform in ["linux", "macos", "windows", "netbsd"] {
        for session in [None, Some("wayland"), Some("x11"), Some("other")] {
            for display in [false, true] {
                let first = detect_windowsystem(platform, display, false, session);
                let second = detect_windowsystem(platform, display, false, session);
                assert_eq!(first, second);
            }
        }
    }
}

#[test]
fn window_system_values_print_for_debugging() {
    assert_eq!(
        format!("{:?}", detect_windowsystem("linux", true, false, Some("wayland"))),
        "Wayland"
    );
    assert_eq!(format!("{:?}", detect_windowsystem("macos", false, false, None)), "Quartz");
}

//! Window-system taxonomy and its classifier.

use crate::text::same_text;
use vstd::prelude::*;

verus! {

/// The display subsystem a program runs under.
#[derive(Copy, Clone, Debug, PartialEq, Eq, Structural)]
pub enum WindowSystem {
    X11,
    Wayland,
    /// The native windowing shell of Windows.
    WindowsExplorer,
    /// The native window system of macOS.
    Quartz,
    /// The platform is none of those whose window system is known.
    Unknown,
    /// No graphical display is available (a headless or text-only session).
    NoDisplay,
}

/// The window system of a Linux session.
///
/// With neither a display-server address nor a Wayland display there is no
/// window system. Otherwise the session is Wayland exactly when its session
/// type is the text `"wayland"`; a missing or different session type means
/// X11.
pub open spec fn session_window_system(
    display: bool,
    wayland_display: bool,
    session_type: Option<Seq<char>>,
) -> WindowSystem {
    if !display && !wayland_display {
        WindowSystem::NoDisplay
    } else if session_type == Some("wayland"@) {
        WindowSystem::Wayland
    } else {
        WindowSystem::X11
    }
}

/// The window system that the signals stand for. `platform` is matched
/// exactly; the session signals are consulted only for `"linux"`.
pub open spec fn window_system_of(
    platform: Seq<char>,
    display: bool,
    wayland_display: bool,
    session_type: Option<Seq<char>>,
) -> WindowSystem {
    if platform == "linux"@ {
        session_window_system(display, wayland_display, session_type)
    } else if platform == "macos"@ {
        WindowSystem::Quartz
    } else if platform == "windows"@ {
        WindowSystem::WindowsExplorer
    } else {
        WindowSystem::Unknown
    }
}

/// Classifies the window system of a Linux session. `display` and
/// `wayland_display` say whether the variable of that name is set;
/// `session_type` is the value of the session-type variable, if it is set.
/// A session type that is not set is read as `"x11"`.
pub fn linux_window_system(
    display: bool,
    wayland_display: bool,
    session_type: Option<&str>,
) -> (ws: WindowSystem)
    ensures
        ws == session_window_system(display, wayland_display, session_type.deep_view()),
        ws is NoDisplay <==> !display && !wayland_display,
        ws is NoDisplay || ws is Wayland || ws is X11,
{
    if !display && !wayland_display {
        return WindowSystem::NoDisplay;
    }
    let session: &str = match session_type {
        Some(name) => name,
        None => {
            proof {
                lemma_session_names();
            }
            "x11"
        },
    };
    if same_text(session, "wayland") {
        WindowSystem::Wayland
    } else {
        WindowSystem::X11
    }
}

/// Classifies the window system from the platform name and the session
/// signals of [`linux_window_system`].
///
/// Every input has an answer: macOS is always Quartz, Windows always its
/// native shell, and a platform name other than these and `"linux"` gives
/// [`WindowSystem::Unknown`].
pub fn detect_windowsystem(
    platform: &str,
    display: bool,
    wayland_display: bool,
    session_type: Option<&str>,
) -> (ws: WindowSystem)
    ensures
        ws == window_system_of(platform@, display, wayland_display, session_type.deep_view()),
        ws is Unknown <==> platform@ != "linux"@ && platform@ != "macos"@ && platform@
            != "windows"@,
{
    if same_text(platform, "linux") {
        linux_window_system(display, wayland_display, session_type)
    } else if same_text(platform, "macos") {
        WindowSystem::Quartz
    } else if same_text(platform, "windows") {
        WindowSystem::WindowsExplorer
    } else {
        WindowSystem::Unknown
    }
}

/// Lengths of the two session-type names.
proof fn lemma_session_names()
    ensures
        "x11"@.len() == 3,
        "wayland"@.len() == 7,
{
    reveal_strlit("x11");
    reveal_strlit("wayland");
}

/// Length and first character of each platform name with a known window
/// system.
proof fn lemma_platform_names()
    ensures
        "linux"@.len() == 5 && "linux"@[0] == 'l',
        "macos"@.len() == 5 && "macos"@[0] == 'm',
        "windows"@.len() == 7 && "windows"@[0] == 'w',
{
    reveal_strlit("linux");
    reveal_strlit("macos");
    reveal_strlit("windows");
}

/// The three platform names are pairwise different texts, so each has
/// exactly one row: `"linux"` defers to the session, the other two have a
/// fixed answer whatever the session signals hold.
pub proof fn lemma_window_table(
    display: bool,
    wayland_display: bool,
    session_type: Option<Seq<char>>,
)
    ensures
        window_system_of("linux"@, display, wayland_display, session_type)
            == session_window_system(display, wayland_display, session_type),
        window_system_of("macos"@, display, wayland_display, session_type) == WindowSystem::Quartz,
        window_system_of("windows"@, display, wayland_display, session_type)
            == WindowSystem::WindowsExplorer,
{
    lemma_platform_names();
}

/// The outcomes of a Linux session, one per situation: nothing to display
/// on; a display with no session type; a session type of `"wayland"`, of
/// `"x11"`, and of any other text.
pub proof fn lemma_session_cases(
    display: bool,
    wayland_display: bool,
    session_type: Option<Seq<char>>,
)
    ensures
        session_window_system(false, false, session_type) == WindowSystem::NoDisplay,
        display || wayland_display ==> session_window_system(display, wayland_display, None)
            == WindowSystem::X11,
        display || wayland_display ==> session_window_system(
            display,
            wayland_display,
            Some("wayland"@),
        ) == WindowSystem::Wayland,
        display || wayland_display ==> session_window_system(
            display,
            wayland_display,
            Some("x11"@),
        ) == WindowSystem::X11,
        (display || wayland_display) && session_type != Some("wayland"@) ==> session_window_system(
            display,
            wayland_display,
            session_type,
        ) == WindowSystem::X11,
{
    lemma_session_names();
}

/// Reading a missing session type as `"x11"` changes nothing: the answer is
/// the one for a session type that is set to `"x11"`.
pub proof fn lemma_missing_session_type_is_x11(display: bool, wayland_display: bool)
    ensures
        session_window_system(display, wayland_display, None) == session_window_system(
            display,
            wayland_display,
            Some("x11"@),
        ),
{
    lemma_session_names();
}

/// Classification is a function of the signals alone: two evaluations on
/// equal signals, whenever and wherever they are made, give equal results.
pub proof fn lemma_window_system_deterministic(
    platform1: Seq<char>,
    display1: bool,
    wayland_display1: bool,
    session_type1: Option<Seq<char>>,
    platform2: Seq<char>,
    display2: bool,
    wayland_display2: bool,
    session_type2: Option<Seq<char>>,
)
    requires
        platform1 =~= platform2,
        display1 == display2,
        wayland_display1 == wayland_display2,
        session_type1 =~~= session_type2,
    ensures
        window_system_of(platform1, display1, wayland_display1, session_type1) == window_system_of(
            platform2,
            display2,
            wayland_display2,
            session_type2,
        ),
{
}

/// The session signals matter only under `"linux"`: on any other platform
/// name they do not change the answer.
pub proof fn lemma_session_signals_scoped(
    platform: Seq<char>,
    display1: bool,
    wayland_display1: bool,
    session_type1: Option<Seq<char>>,
    display2: bool,
    wayland_display2: bool,
    session_type2: Option<Seq<char>>,
)
    requires
        platform != "linux"@,
    ensures
        window_system_of(platform, display1, wayland_display1, session_type1) == window_system_of(
            platform,
            display2,
            wayland_display2,
            session_type2,
        ),
{
}

} // verus!

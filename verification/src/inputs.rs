//! The immutable inputs of a recording session: the capture target, the
//! audio flag and the mode, together with the derivation of the
//! human-readable target name.

use vstd::prelude::*;
use vstd::string::StringExecFns;

verus! {

/// The two recording modes: low-latency single-file recording with an
/// immediate shareable link, or high-fidelity multi-segment recording meant
/// for local editing.
#[derive(Clone, Copy, PartialEq, Eq, Structural, Debug)]
pub enum RecordingMode {
    Instant,
    Studio,
}

/// Geometry of a capture region, in integral device pixels.
#[derive(Clone, Copy, PartialEq, Eq, Structural, Debug)]
pub struct Bounds {
    pub x: i64,
    pub y: i64,
    pub width: u64,
    pub height: u64,
}

/// What is being captured: a whole screen, a single window, or a rectangular
/// area of a screen. Immutable once a session starts.
#[derive(Clone, Copy, PartialEq, Eq, Structural, Debug)]
pub enum ScreenCaptureTarget {
    Screen { id: u32 },
    Window { id: u32 },
    Area { screen: u32, bounds: Bounds },
}

/// The inputs a session is started with. They are kept verbatim in the
/// session so that a restart can reuse them unchanged.
#[derive(Clone, Copy, PartialEq, Eq, Structural, Debug)]
pub struct StartRecordingInputs {
    pub capture_target: ScreenCaptureTarget,
    pub capture_system_audio: bool,
    pub mode: RecordingMode,
}

/// One on-screen window as the platform reports it: its identifier and the
/// name of the process that owns it.
pub struct WindowInfo {
    pub window_id: u32,
    pub owner_name: String,
}

/// The owner name of the last window in `windows` whose identifier is `id`,
/// if any. When the platform reports the same identifier twice, the later
/// entry wins.
pub open spec fn window_owner_name(windows: Seq<WindowInfo>, id: u32) -> Option<Seq<char>>
    decreases windows.len(),
{
    if windows.len() == 0 {
        None
    } else if windows.last().window_id == id {
        Some(windows.last().owner_name@)
    } else {
        window_owner_name(windows.drop_last(), id)
    }
}

/// The view of an optional owned string.
pub open spec fn opt_string_view(o: Option<String>) -> Option<Seq<char>> {
    match o {
        Some(s) => Some(s@),
        None => None,
    }
}

/// The human-readable name of a capture target: an area is called "Area";
/// a window is named after its owning process, or "Window" when the window
/// is not among the on-screen windows; a screen is named by its platform
/// title, or "Screen" when it has none.
pub open spec fn target_name_spec(
    target: ScreenCaptureTarget,
    screen_title: Option<String>,
    windows: Seq<WindowInfo>,
) -> Seq<char> {
    match target {
        ScreenCaptureTarget::Area { .. } => "Area"@,
        ScreenCaptureTarget::Window { id } => match window_owner_name(windows, id) {
            Some(name) => name,
            None => "Window"@,
        },
        ScreenCaptureTarget::Screen { .. } => match screen_title {
            Some(title) => title@,
            None => "Screen"@,
        },
    }
}

/// Derives the target name from the capture target, the platform title of
/// the targeted screen, and the list of on-screen windows.
pub fn target_name_for(
    target: &ScreenCaptureTarget,
    screen_title: &Option<String>,
    windows: &Vec<WindowInfo>,
) -> (r: String)
    ensures
        r@ == target_name_spec(*target, *screen_title, windows@),
{
    match target {
        ScreenCaptureTarget::Area { .. } => String::from_str("Area"),
        ScreenCaptureTarget::Window { id } => {
            let mut found: Option<String> = None;
            let mut i: usize = 0;
            while i < windows.len()
                invariant
                    i <= windows.len(),
                    opt_string_view(found) == window_owner_name(
                        windows@.take(i as int),
                        *id,
                    ),
                decreases windows.len() - i,
            {
                proof {
                    assert(windows@.take(i + 1).drop_last() =~= windows@.take(i as int));
                    assert(windows@.take(i + 1).last() == windows@[i as int]);
                }
                if windows[i].window_id == *id {
                    found = Some(windows[i].owner_name.clone());
                }
                i = i + 1;
            }
            proof {
                assert(windows@.take(windows@.len() as int) =~= windows@);
            }
            match found {
                Some(name) => name,
                None => String::from_str("Window"),
            }
        },
        ScreenCaptureTarget::Screen { .. } => match screen_title {
            Some(title) => title.clone(),
            None => String::from_str("Screen"),
        },
    }
}

} // verus!

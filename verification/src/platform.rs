//! What the native window system is asked to do, decided here and carried
//! out by the caller.
//!
//! Each function takes the platform and the values read from it, and
//! returns the request to make, or nothing where the platform has no such
//! primitive. Window and process handles are carried as `isize`; zero is no
//! handle.

use vstd::prelude::*;

verus! {

/// The two kinds of platform: one with layered windows and job objects, and
/// every other, on which each request of this file is nothing.
#[derive(Clone, Copy, Debug, PartialEq, Eq, Structural)]
pub enum Platform {
    Windows,
    Other,
}

/// Extended window style: the window is composed with transparency.
pub const WS_EX_LAYERED: u32 = 0x0008_0000;

/// Extended window style: pointer and keyboard input pass through.
pub const WS_EX_TRANSPARENT: u32 = 0x0000_0020;

/// Extended window style: the window is kept out of the taskbar and the
/// window switcher.
pub const WS_EX_TOOLWINDOW: u32 = 0x0000_0080;

/// The three extended styles of the overlay window together.
pub const OVERLAY_EX_STYLE: u32 = 0x0008_00a0;

/// Layered-window attribute flag: the colour key is in force.
pub const LWA_COLORKEY: u32 = 0x0000_0001;

/// The colour that the compositor treats as see-through: pure black.
pub const COLOR_KEY: u32 = 0x0000_0000;

/// Show-window command: show the window in its current size and position.
pub const SW_SHOW: i32 = 5;

/// Job limit flag: closing the job ends every process in it.
pub const JOB_OBJECT_LIMIT_KILL_ON_JOB_CLOSE: u32 = 0x2000;

/// Job information class of the extended limits.
pub const JOB_OBJECT_EXTENDED_LIMIT_INFORMATION: u32 = 9;

/// Process access right asked for when a child is put into the job.
pub const PROCESS_ALL_ACCESS: u32 = 0x001f_ffff;

/// Screen width assumed when the platform reports none.
pub const FALLBACK_SCREEN_WIDTH: u32 = 1920;

/// Screen height assumed when the platform reports none.
pub const FALLBACK_SCREEN_HEIGHT: u32 = 1080;

/// The styling of the overlay window: the extended style bits to switch on,
/// and the colour key to arm.
#[derive(Clone, Copy, Debug, PartialEq, Eq, Structural)]
pub struct OverlayStyle {
    pub hwnd: isize,
    pub ex_style_bits: u32,
    pub color_key: u32,
    pub alpha: u8,
    pub layered_flags: u32,
}

/// The styling that makes the given window an overlay.
pub open spec fn overlay_style_for(hwnd: isize) -> OverlayStyle {
    OverlayStyle {
        hwnd,
        ex_style_bits: OVERLAY_EX_STYLE,
        color_key: COLOR_KEY,
        alpha: 0,
        layered_flags: LWA_COLORKEY,
    }
}

/// Decides how to style the overlay window right after it is created. On
/// Windows, with a resolved handle, the window becomes layered, transparent
/// to input and a tool window, and pure black becomes see-through. Without
/// a handle, or on another platform, nothing is done and the window stays
/// an ordinary one.
pub fn apply_overlay_style(platform: Platform, window: Option<isize>) -> (style: Option<
    OverlayStyle,
>)
    ensures
        style == match (platform, window) {
            (Platform::Windows, Some(hwnd)) => if hwnd != 0 {
                Some(overlay_style_for(hwnd))
            } else {
                None
            },
            _ => None,
        },
{
    match (platform, window) {
        (Platform::Windows, Some(hwnd)) => {
            if hwnd != 0 {
                Some(
                    OverlayStyle {
                        hwnd,
                        ex_style_bits: OVERLAY_EX_STYLE,
                        color_key: COLOR_KEY,
                        alpha: 0,
                        layered_flags: LWA_COLORKEY,
                    },
                )
            } else {
                None
            }
        },
        _ => None,
    }
}

/// The extended style of a window once the overlay bits are switched on.
pub open spec fn styled_bits(ex_style: u32) -> u32 {
    ex_style | OVERLAY_EX_STYLE
}

/// The overlay bits are exactly the three styles.
pub proof fn lemma_overlay_bits()
    ensures
        OVERLAY_EX_STYLE == WS_EX_LAYERED | WS_EX_TRANSPARENT | WS_EX_TOOLWINDOW,
{
    assert(0x0008_00a0u32 == 0x0008_0000u32 | 0x0000_0020u32 | 0x0000_0080u32) by (bit_vector);
}

/// Switching the overlay bits on sets the three styles, keeps every other
/// bit as it was, and changes nothing when done again.
pub proof fn lemma_styled_bits(ex_style: u32)
    ensures
        styled_bits(ex_style) & WS_EX_LAYERED == WS_EX_LAYERED,
        styled_bits(ex_style) & WS_EX_TRANSPARENT == WS_EX_TRANSPARENT,
        styled_bits(ex_style) & WS_EX_TOOLWINDOW == WS_EX_TOOLWINDOW,
        styled_bits(ex_style) & !OVERLAY_EX_STYLE == ex_style & !OVERLAY_EX_STYLE,
        styled_bits(styled_bits(ex_style)) == styled_bits(ex_style),
{
    assert((ex_style | 0x0008_00a0u32) & 0x0008_0000u32 == 0x0008_0000u32) by (bit_vector);
    assert((ex_style | 0x0008_00a0u32) & 0x0000_0020u32 == 0x0000_0020u32) by (bit_vector);
    assert((ex_style | 0x0008_00a0u32) & 0x0000_0080u32 == 0x0000_0080u32) by (bit_vector);
    assert((ex_style | 0x0008_00a0u32) & !0x0008_00a0u32 == ex_style & !0x0008_00a0u32)
        by (bit_vector);
    assert((ex_style | 0x0008_00a0u32) | 0x0008_00a0u32 == ex_style | 0x0008_00a0u32)
        by (bit_vector);
}

impl OverlayStyle {
    /// The extended style to write back, given the one the window has now.
    pub fn styled(&self, ex_style: u32) -> (updated: u32)
        ensures
            updated == ex_style | self.ex_style_bits,
            self.ex_style_bits == OVERLAY_EX_STYLE ==> updated == styled_bits(ex_style),
    {
        ex_style | self.ex_style_bits
    }
}

/// The native handle of the controller window, kept so that the window can
/// be shown from outside the toolkit. Zero until a handle is stored.
#[derive(Clone, Copy, Debug, PartialEq, Eq, Structural)]
pub struct PanelWindow {
    pub hwnd: isize,
}

/// A request to show a window with the given show command and, where
/// `foreground` is set, to bring it to the foreground as well.
#[derive(Clone, Copy, Debug, PartialEq, Eq, Structural)]
pub struct ShowRequest {
    pub hwnd: isize,
    pub command: i32,
    pub foreground: bool,
}

impl PanelWindow {
    /// A holder with no handle yet.
    pub fn new() -> (window: PanelWindow)
        ensures
            window.hwnd == 0,
    {
        PanelWindow { hwnd: 0 }
    }
}

/// Keeps the handle of the controller window for `show_panel_window`.
pub fn store_panel_hwnd(window: &mut PanelWindow, hwnd: isize)
    ensures
        final(window).hwnd == hwnd,
{
    window.hwnd = hwnd;
}

/// Decides how to force the controller window onto the screen, whatever the
/// toolkit thinks of its visibility: on Windows, with a stored handle, the
/// window is shown and brought to the foreground; otherwise nothing is done.
pub fn show_panel_window(platform: Platform, window: &PanelWindow) -> (request: Option<
    ShowRequest,
>)
    ensures
        request == if platform == Platform::Windows && window.hwnd != 0 {
            Some(ShowRequest { hwnd: window.hwnd, command: SW_SHOW, foreground: true })
        } else {
            None
        },
{
    match platform {
        Platform::Windows => {
            if window.hwnd != 0 {
                Some(ShowRequest { hwnd: window.hwnd, command: SW_SHOW, foreground: true })
            } else {
                None
            }
        },
        Platform::Other => None,
    }
}

/// The kill group of the controller: a job that ends every process in it
/// when its handle is closed. The handle is never zero.
#[derive(Clone, Copy, Debug, PartialEq, Eq, Structural)]
pub struct JobObject {
    pub handle: isize,
}

/// The limits to set on a fresh job.
#[derive(Clone, Copy, Debug, PartialEq, Eq, Structural)]
pub struct JobLimits {
    pub information_class: u32,
    pub limit_flags: u32,
}

/// A request to put a process into a job.
#[derive(Clone, Copy, Debug, PartialEq, Eq, Structural)]
pub struct JobAssignment {
    pub job: isize,
    pub process: isize,
}

impl JobObject {
    /// Takes the handle that creating a job gave. There is a kill group
    /// exactly when the platform has jobs and the handle is not zero.
    pub fn new(platform: Platform, created: isize) -> (job: Option<JobObject>)
        ensures
            job == if platform == Platform::Windows && created != 0 {
                Some(JobObject { handle: created })
            } else {
                None
            },
    {
        match platform {
            Platform::Windows => {
                if created != 0 {
                    Some(JobObject { handle: created })
                } else {
                    None
                }
            },
            Platform::Other => None,
        }
    }

    /// The limits of a kill group: its processes end when the job closes.
    pub fn limits(&self) -> (limits: JobLimits)
        ensures
            limits == (JobLimits {
                information_class: JOB_OBJECT_EXTENDED_LIMIT_INFORMATION,
                limit_flags: JOB_OBJECT_LIMIT_KILL_ON_JOB_CLOSE,
            }),
    {
        JobLimits {
            information_class: JOB_OBJECT_EXTENDED_LIMIT_INFORMATION,
            limit_flags: JOB_OBJECT_LIMIT_KILL_ON_JOB_CLOSE,
        }
    }

    /// Decides the assignment of an opened process to this job. A process
    /// that could not be opened, handle zero, is left alone.
    pub fn assign(&self, process: isize) -> (assignment: Option<JobAssignment>)
        ensures
            assignment == if process != 0 {
                Some(JobAssignment { job: self.handle, process })
            } else {
                None
            },
    {
        if process != 0 {
            Some(JobAssignment { job: self.handle, process })
        } else {
            None
        }
    }
}

/// The application identifier as the platform takes it: the UTF-16 units of
/// `AIMX` followed by a zero.
pub open spec fn app_user_model_id() -> Seq<u16> {
    seq![0x41u16, 0x49u16, 0x4du16, 0x58u16, 0u16]
}

/// The identifier spells `AIMX`.
pub proof fn lemma_app_user_model_id_spells_name()
    ensures
        app_user_model_id().len() == "AIMX"@.len() + 1,
        forall|i: int| 0 <= i < "AIMX"@.len() ==> app_user_model_id()[i] == "AIMX"@[i] as u16,
        app_user_model_id()[4] == 0,
{
    reveal_strlit("AIMX");
}

/// Decides the identifier under which controller and overlay are grouped in
/// the taskbar: on Windows the zero-terminated wide string to set, on other
/// platforms nothing.
pub fn set_app_user_model_id(platform: Platform) -> (id: Option<Vec<u16>>)
    ensures
        platform == Platform::Windows ==> id is Some && id->0@ == app_user_model_id(),
        platform != Platform::Windows ==> id is None,
{
    match platform {
        Platform::Windows => {
            let mut wide: Vec<u16> = Vec::new();
            wide.push(0x41);
            wide.push(0x49);
            wide.push(0x4d);
            wide.push(0x58);
            wide.push(0);
            assert(wide@ =~= app_user_model_id());
            Some(wide)
        },
        Platform::Other => None,
    }
}

/// The size of the primary screen in pixels: what the platform reported, or
/// 1920 by 1080 when it reported nothing or a side that is not positive.
pub fn screen_size(reported: Option<(i32, i32)>) -> (size: (u32, u32))
    ensures
        size == match reported {
            Some((width, height)) => if width > 0 && height > 0 {
                (width as u32, height as u32)
            } else {
                (FALLBACK_SCREEN_WIDTH, FALLBACK_SCREEN_HEIGHT)
            },
            None => (FALLBACK_SCREEN_WIDTH, FALLBACK_SCREEN_HEIGHT),
        },
        size.0 > 0,
        size.1 > 0,
{
    match reported {
        Some((width, height)) => {
            if width > 0 && height > 0 {
                (width as u32, height as u32)
            } else {
                (FALLBACK_SCREEN_WIDTH, FALLBACK_SCREEN_HEIGHT)
            }
        },
        None => (FALLBACK_SCREEN_WIDTH, FALLBACK_SCREEN_HEIGHT),
    }
}

} // verus!

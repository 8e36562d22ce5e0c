//! The settings record shared by the controller and the overlay, and the
//! geometry derived from it.
//!
//! Lengths and offsets are fixed-point numbers: thousandths of a pixel, held
//! in an `i32`. A radius of three and a half pixels is `3_500`.

use vstd::prelude::*;
use vstd::string::StringExecFns;

verus! {

/// Fixed-point units in one pixel.
pub const UNITS_PER_PIXEL: i64 = 1000;

/// Free space, in pixels, that the marker window keeps around the marker.
pub const PADDING_PIXELS: i64 = 4;

/// The smallest side, in pixels, that the marker window may have.
pub const MIN_WINDOW_PIXELS: u32 = 16;

/// What the controller does when its window is asked to close.
#[derive(Clone, Copy, Debug, PartialEq, Eq, Structural)]
pub enum CloseAction {
    Ask,
    Minimize,
    Quit,
}

/// The close action that a policy name stands for. Every name other than
/// `"quit"` and `"minimize"` means `Ask`.
pub open spec fn close_action_named(name: Seq<char>) -> CloseAction {
    if name == "quit"@ {
        CloseAction::Quit
    } else if name == "minimize"@ {
        CloseAction::Minimize
    } else {
        CloseAction::Ask
    }
}

/// The name under which a close action is written to the wire and to disk.
pub open spec fn close_action_name(action: CloseAction) -> Seq<char> {
    match action {
        CloseAction::Ask => "ask"@,
        CloseAction::Minimize => "minimize"@,
        CloseAction::Quit => "quit"@,
    }
}

/// The close policy of a record that names none.
pub fn default_close_action() -> (action: CloseAction)
    ensures
        action == CloseAction::Ask,
        action == close_action_named("ask"@),
{
    proof {
        lemma_policy_names_differ();
    }
    CloseAction::Ask
}

/// The three policy names are pairwise different strings.
pub proof fn lemma_policy_names_differ()
    ensures
        "ask"@ != "quit"@,
        "ask"@ != "minimize"@,
        "quit"@ != "minimize"@,
{
    reveal_strlit("ask");
    reveal_strlit("quit");
    reveal_strlit("minimize");
    assert("ask"@.len() == 3);
    assert("quit"@.len() == 4);
    assert("minimize"@.len() == 8);
}

/// Writing a close action by name and reading the name back gives the same
/// action.
pub proof fn lemma_close_action_round_trip(action: CloseAction)
    ensures
        close_action_named(close_action_name(action)) == action,
{
    lemma_policy_names_differ();
}

impl CloseAction {
    /// Reads a policy name; unknown names fall back to `Ask`.
    pub fn from_name(name: &str) -> (action: CloseAction)
        ensures
            action == close_action_named(name@),
    {
        let given = String::from_str(name);
        let quit = String::from_str("quit");
        let minimize = String::from_str("minimize");
        if given == quit {
            CloseAction::Quit
        } else if given == minimize {
            CloseAction::Minimize
        } else {
            CloseAction::Ask
        }
    }

    /// The name of this policy.
    pub fn name(&self) -> (name: &'static str)
        ensures
            name@ == close_action_name(*self),
    {
        match self {
            CloseAction::Ask => "ask",
            CloseAction::Minimize => "minimize",
            CloseAction::Quit => "quit",
        }
    }
}

/// The settings of the marker: where it sits relative to the screen centre,
/// how it looks, and what closing the controller window does.
///
/// `outer_radius` may be smaller than `inner_radius`; nothing corrects that.
#[derive(Clone, Copy, Debug, PartialEq, Eq)]
pub struct Config {
    pub offset_x: i32,
    pub offset_y: i32,
    pub fill_color: [u8; 3],
    pub inner_radius: i32,
    pub outer_radius: i32,
    pub stroke_width: i32,
    pub stroke_color: [u8; 3],
    pub close_action: CloseAction,
}

/// The larger of two integers.
pub open spec fn larger(a: int, b: int) -> int {
    if a >= b {
        a
    } else {
        b
    }
}

/// The side the marker needs, in fixed-point units, before rounding: the
/// diameter of the larger circle, the stroke, and the padding.
pub open spec fn marker_extent(inner_radius: int, outer_radius: int, stroke_width: int) -> int {
    2 * larger(inner_radius, outer_radius) + stroke_width + PADDING_PIXELS * UNITS_PER_PIXEL
}

/// The side of the marker window in whole pixels: the extent rounded up to a
/// pixel, and never less than the minimum.
pub open spec fn window_pixels(inner_radius: int, outer_radius: int, stroke_width: int) -> int {
    let extent = marker_extent(inner_radius, outer_radius, stroke_width);
    if extent <= MIN_WINDOW_PIXELS * UNITS_PER_PIXEL {
        MIN_WINDOW_PIXELS as int
    } else {
        (extent + UNITS_PER_PIXEL - 1) / (UNITS_PER_PIXEL as int)
    }
}

/// The window never shrinks when a radius or the stroke grows.
pub proof fn lemma_window_size_monotonic(
    inner_a: int,
    outer_a: int,
    stroke_a: int,
    inner_b: int,
    outer_b: int,
    stroke_b: int,
)
    requires
        inner_a <= inner_b,
        outer_a <= outer_b,
        stroke_a <= stroke_b,
    ensures
        window_pixels(inner_a, outer_a, stroke_a) <= window_pixels(inner_b, outer_b, stroke_b),
{
}

/// The window is at least the minimum, whatever the settings.
pub proof fn lemma_window_size_floor(inner_radius: int, outer_radius: int, stroke_width: int)
    ensures
        window_pixels(inner_radius, outer_radius, stroke_width) >= MIN_WINDOW_PIXELS,
{
}

/// The window of a record is never smaller than that of a record whose radii
/// and stroke are no larger, and never smaller than the minimum: with radii
/// and stroke of zero it is the minimum.
pub proof fn lemma_config_window_size_monotonic(smaller: Config, larger: Config)
    requires
        smaller.inner_radius <= larger.inner_radius,
        smaller.outer_radius <= larger.outer_radius,
        smaller.stroke_width <= larger.stroke_width,
    ensures
        smaller.spec_window_size() <= larger.spec_window_size(),
        smaller.spec_window_size() >= MIN_WINDOW_PIXELS,
        window_pixels(0, 0, 0) == MIN_WINDOW_PIXELS,
{
}

/// Where the marker window goes on a screen: the side of the square window
/// in pixels, and its top-left corner in fixed-point units.
#[derive(Clone, Copy, Debug, PartialEq, Eq)]
pub struct Placement {
    pub size: u32,
    pub x: i64,
    pub y: i64,
}

/// The corner coordinate that centres a window of `size` pixels on a screen
/// axis of `screen` pixels and then moves it by `offset` units.
pub open spec fn centered_origin(screen: int, size: int, offset: int) -> int {
    (screen - size) * UNITS_PER_PIXEL / 2 + offset
}

impl Default for Config {
    fn default() -> (config: Config)
        ensures
            config == Config::initial(),
    {
        Config {
            offset_x: 0,
            offset_y: 0,
            fill_color: [255, 0, 0],
            inner_radius: 3_000,
            outer_radius: 3_500,
            stroke_width: 1_000,
            stroke_color: [0, 0, 0],
            close_action: default_close_action(),
        }
    }
}

impl Config {
    /// The built-in settings: a red dot of radius 3 inside a black ring of
    /// radius 3.5 and width 1, centred, asking before it closes.
    pub open spec fn initial() -> Config {
        Config {
            offset_x: 0,
            offset_y: 0,
            fill_color: [255u8, 0u8, 0u8],
            inner_radius: 3_000,
            outer_radius: 3_500,
            stroke_width: 1_000,
            stroke_color: [0u8, 0u8, 0u8],
            close_action: CloseAction::Ask,
        }
    }

    /// The window side of this record, in pixels.
    pub open spec fn spec_window_size(&self) -> int {
        window_pixels(self.inner_radius as int, self.outer_radius as int, self.stroke_width as int)
    }

    /// The placement of this record's window on a screen of the given size.
    pub open spec fn spec_placement(&self, screen: (u32, u32)) -> Placement {
        Placement {
            size: self.spec_window_size() as u32,
            x: centered_origin(screen.0 as int, self.spec_window_size(), self.offset_x as int) as i64,
            y: centered_origin(screen.1 as int, self.spec_window_size(), self.offset_y as int) as i64,
        }
    }

    /// The settings to start with: what was stored, or the built-in
    /// settings when nothing usable was stored.
    pub fn load(stored: Option<Config>) -> (config: Config)
        ensures
            config == match stored {
                Some(found) => found,
                None => Config::initial(),
            },
    {
        match stored {
            Some(found) => found,
            None => Config::default(),
        }
    }

    /// The side, in pixels, of the smallest square window that holds the
    /// marker with its padding.
    pub fn window_size(&self) -> (size: u32)
        ensures
            size == self.spec_window_size(),
            size >= MIN_WINDOW_PIXELS,
            size * UNITS_PER_PIXEL >= marker_extent(
                self.inner_radius as int,
                self.outer_radius as int,
                self.stroke_width as int,
            ),
            size > MIN_WINDOW_PIXELS ==> (size - 1) * UNITS_PER_PIXEL < marker_extent(
                self.inner_radius as int,
                self.outer_radius as int,
                self.stroke_width as int,
            ),
    {
        let radius: i64 = if self.inner_radius >= self.outer_radius {
            self.inner_radius as i64
        } else {
            self.outer_radius as i64
        };
        let extent: i64 = 2 * radius + self.stroke_width as i64 + PADDING_PIXELS * UNITS_PER_PIXEL;
        if extent <= MIN_WINDOW_PIXELS as i64 * UNITS_PER_PIXEL {
            MIN_WINDOW_PIXELS
        } else {
            let pixels: i64 = (extent + UNITS_PER_PIXEL - 1) / UNITS_PER_PIXEL;
            pixels as u32
        }
    }

    /// Where this record's window goes on a screen of `screen` pixels: the
    /// window is centred and then moved by the offsets.
    pub fn placement(&self, screen: (u32, u32)) -> (placement: Placement)
        ensures
            placement == self.spec_placement(screen),
            placement.size == self.spec_window_size(),
            placement.x == centered_origin(
                screen.0 as int,
                self.spec_window_size(),
                self.offset_x as int,
            ),
            placement.y == centered_origin(
                screen.1 as int,
                self.spec_window_size(),
                self.offset_y as int,
            ),
    {
        let size: u32 = self.window_size();
        let half: i64 = UNITS_PER_PIXEL / 2;
        let x: i64 = (screen.0 as i64 - size as i64) * half + self.offset_x as i64;
        let y: i64 = (screen.1 as i64 - size as i64) * half + self.offset_y as i64;
        Placement { size, x, y }
    }
}

} // verus!

//! Startup window sizing.

use vstd::prelude::*;

verus! {

/// The logical pixels reserved around the welcome window for desktop chrome.
pub const DESKTOP_MARGIN_PX: i32 = 96;

/// The largest extent that fits a monitor extent with the desktop margin,
/// never below one pixel.
pub open spec fn fitted_extent(preferred: i32, monitor: i32) -> int {
    let room: int = if monitor - DESKTOP_MARGIN_PX < i32::MIN {
        i32::MIN as int
    } else {
        monitor - DESKTOP_MARGIN_PX
    };
    let room = if room < 1 {
        1
    } else {
        room
    };
    if preferred < room {
        preferred as int
    } else {
        room
    }
}

fn fit_extent(preferred: i32, monitor: i32) -> (extent: i32)
    ensures
        extent == fitted_extent(preferred, monitor),
{
    let room = if monitor < i32::MIN + DESKTOP_MARGIN_PX {
        i32::MIN
    } else {
        monitor - DESKTOP_MARGIN_PX
    };
    let room = if room < 1 {
        1
    } else {
        room
    };
    if preferred < room {
        preferred
    } else {
        room
    }
}

/// Caps the welcome size in logical pixels with desktop margin, without
/// applying scale twice.
pub fn bounded_size(preferred: (i32, i32), monitor: (i32, i32)) -> (size: (i32, i32))
    ensures
        size.0 == fitted_extent(preferred.0, monitor.0),
        size.1 == fitted_extent(preferred.1, monitor.1),
{
    (fit_extent(preferred.0, monitor.0), fit_extent(preferred.1, monitor.1))
}

/// A bounded size never exceeds the preferred size and, for a positive
/// preference, is at least one pixel and leaves the desktop margin whenever
/// the monitor is larger than the margin.
pub proof fn lemma_bounded_size_fits(preferred: i32, monitor: i32)
    ensures
        fitted_extent(preferred, monitor) <= preferred,
        preferred >= 1 ==> fitted_extent(preferred, monitor) >= 1,
        monitor - DESKTOP_MARGIN_PX >= 1 ==> fitted_extent(preferred, monitor) <= monitor
            - DESKTOP_MARGIN_PX,
{
}

/// The welcome window's preferred width in logical pixels.
pub const WELCOME_WIDTH_PX: i32 = 880;

/// The welcome window's preferred height in logical pixels.
pub const WELCOME_HEIGHT_PX: i32 = 680;

/// Below this width the welcome columns stack vertically.
pub const WELCOME_STACK_BELOW_PX: i32 = 800;

/// How the welcome window's two columns are arranged.
#[derive(Clone, Copy, Debug, PartialEq, Eq, Structural)]
pub enum WelcomeLayout {
    /// One column above the other.
    Stacked,
    /// The columns side by side.
    SideBySide,
}

/// The welcome window's size and column layout.
#[derive(Clone, Copy, Debug, PartialEq, Eq, Structural)]
pub struct WelcomeGeometry {
    pub width: i32,
    pub height: i32,
    pub layout: WelcomeLayout,
}

/// The welcome size after fitting it to each monitor with a positive size,
/// in order, starting from the preferred size.
pub open spec fn welcome_size(monitors: Seq<(i32, i32)>) -> (i32, i32)
    decreases monitors.len(),
{
    if monitors.len() == 0 {
        (WELCOME_WIDTH_PX, WELCOME_HEIGHT_PX)
    } else {
        let size = welcome_size(monitors.drop_last());
        let monitor = monitors.last();
        if monitor.0 > 0 && monitor.1 > 0 {
            (
                fitted_extent(size.0, monitor.0) as i32,
                fitted_extent(size.1, monitor.1) as i32,
            )
        } else {
            size
        }
    }
}

/// Sizes the welcome window to fit every monitor with a positive size, and
/// stacks its columns when the result is narrower than the stacking width.
pub fn welcome_geometry(monitors: &[(i32, i32)]) -> (geometry: WelcomeGeometry)
    ensures
        (geometry.width, geometry.height) == welcome_size(monitors@),
        geometry.layout == (if geometry.width < WELCOME_STACK_BELOW_PX {
            WelcomeLayout::Stacked
        } else {
            WelcomeLayout::SideBySide
        }),
{
    let mut size: (i32, i32) = (WELCOME_WIDTH_PX, WELCOME_HEIGHT_PX);
    let mut i: usize = 0;
    while i < monitors.len()
        invariant
            0 <= i <= monitors@.len(),
            size == welcome_size(monitors@.take(i as int)),
        decreases monitors@.len() - i,
    {
        proof {
            assert(monitors@.take(i + 1).drop_last() =~= monitors@.take(i as int));
        }
        let monitor = monitors[i];
        if monitor.0 > 0 && monitor.1 > 0 {
            size = bounded_size(size, monitor);
        }
        i = i + 1;
    }
    proof {
        assert(monitors@.take(monitors@.len() as int) =~= monitors@);
    }
    let layout = if size.0 < WELCOME_STACK_BELOW_PX {
        WelcomeLayout::Stacked
    } else {
        WelcomeLayout::SideBySide
    };
    WelcomeGeometry { width: size.0, height: size.1, layout }
}

} // verus!

//! Main-window presentation state: which image the viewport shows and at
//! which bounded zoom level. Nothing here reads documents or history.

use vstd::prelude::*;
use crate::text::{append_decimal, decimal};

verus! {

/// Selects which existing image is shown in the shared main viewport.
#[derive(Clone, Copy, Debug, PartialEq, Eq, Structural)]
pub enum MainViewMode {
    /// Shows the newest accepted canonical pattern preview.
    Preview,
    /// Shows the immutable embedded source artwork.
    Source,
}

impl Default for MainViewMode {
    /// The preview is shown by default.
    fn default() -> (mode: Self)
        ensures
            mode == MainViewMode::Preview,
    {
        MainViewMode::Preview
    }
}

/// The number of bounded zoom levels.
pub const ZOOM_LEVEL_COUNT: usize = 9;

/// The zoom level selected when a viewport opens (unit zoom).
pub const DEFAULT_ZOOM_INDEX: usize = 4;

/// The whole-percent magnification of each zoom level: 0.25, 0.33, 0.5,
/// 0.67, 1, 1.5, 2, 3 and 4 times.
pub open spec fn zoom_percent_at(index: int) -> u32 {
    if index == 0 {
        25
    } else if index == 1 {
        33
    } else if index == 2 {
        50
    } else if index == 3 {
        67
    } else if index == 4 {
        100
    } else if index == 5 {
        150
    } else if index == 6 {
        200
    } else if index == 7 {
        300
    } else {
        400
    }
}

/// Retains bounded zoom and view choices without participating in document
/// authority.
#[derive(Clone, Copy, Debug, PartialEq, Eq, Structural)]
pub struct MainViewState {
    mode: MainViewMode,
    zoom_index: usize,
    fit: bool,
}

impl MainViewState {
    /// The shown image.
    pub closed spec fn view_mode(self) -> MainViewMode {
        self.mode
    }

    /// The selected zoom level.
    pub closed spec fn level(self) -> nat {
        self.zoom_index as nat
    }

    /// The image is fitted to the viewport.
    pub closed spec fn fitted(self) -> bool {
        self.fit
    }

    /// The zoom level is one of the bounded levels.
    pub open spec fn inv(self) -> bool {
        self.level() < ZOOM_LEVEL_COUNT
    }

    /// Every state keeps its zoom level within the bounded levels.
    #[verifier::type_invariant]
    closed spec fn bounded(self) -> bool {
        self.zoom_index < ZOOM_LEVEL_COUNT
    }

    /// Starts in the canonical Preview view fitted to the available viewport.
    pub fn new() -> (state: Self)
        ensures
            state.view_mode() == MainViewMode::Preview,
            state.level() == DEFAULT_ZOOM_INDEX,
            state.fitted(),
            state.inv(),
    {
        MainViewState { mode: MainViewMode::Preview, zoom_index: DEFAULT_ZOOM_INDEX, fit: true }
    }

    /// Returns the current presentation mode without changing document or
    /// preview state.
    pub fn mode(self) -> (mode: MainViewMode)
        ensures
            mode == self.view_mode(),
    {
        self.mode
    }

    /// Selects an already available viewport image and preserves the current
    /// zoom choice.
    pub fn set_mode(&mut self, mode: MainViewMode)
        ensures
            final(self).view_mode() == mode,
            final(self).level() == old(self).level(),
            final(self).fitted() == old(self).fitted(),
    {
        proof {
            use_type_invariant(&*self);
        }
        self.mode = mode;
    }

    /// Returns whether the current image is fitted to the shared viewport.
    pub fn is_fit(self) -> (fit: bool)
        ensures
            fit == self.fitted(),
    {
        self.fit
    }

    /// Returns the index of the current bounded zoom level.
    pub fn zoom_index(self) -> (index: usize)
        ensures
            index == self.level(),
            index < ZOOM_LEVEL_COUNT,
    {
        proof {
            use_type_invariant(&self);
        }
        self.zoom_index
    }

    /// Returns the current zoom as a whole percentage.
    pub fn zoom_percent(self) -> (percent: u32)
        ensures
            percent == zoom_percent_at(self.level() as int),
    {
        proof {
            use_type_invariant(&self);
        }
        let table: [u32; 9] = [25, 33, 50, 67, 100, 150, 200, 300, 400];
        table[self.zoom_index]
    }

    /// Returns the user-facing whole-percent label for the current zoom.
    pub fn zoom_label(self) -> (label: String)
        ensures
            label@ == decimal(zoom_percent_at(self.level() as int) as nat) + "%"@,
    {
        proof {
            use_type_invariant(&self);
        }
        let mut label = String::new();
        append_decimal(&mut label, self.zoom_percent() as u64);
        label.append("%");
        label
    }

    /// Selects Fit without changing the retained manual zoom level.
    pub fn fit(&mut self)
        ensures
            final(self).fitted(),
            final(self).level() == old(self).level(),
            final(self).view_mode() == old(self).view_mode(),
    {
        proof {
            use_type_invariant(&*self);
        }
        self.fit = true;
    }

    /// Advances to the next bounded zoom level and leaves Fit mode.
    pub fn zoom_in(&mut self)
        ensures
            final(self).level() == (if old(self).level() + 1 < ZOOM_LEVEL_COUNT {
                old(self).level() + 1
            } else {
                (ZOOM_LEVEL_COUNT - 1) as nat
            }),
            !final(self).fitted(),
            final(self).view_mode() == old(self).view_mode(),
            final(self).inv(),
    {
        proof {
            use_type_invariant(&*self);
        }
        self.zoom_index = if self.zoom_index + 1 < ZOOM_LEVEL_COUNT {
            self.zoom_index + 1
        } else {
            ZOOM_LEVEL_COUNT - 1
        };
        self.fit = false;
    }

    /// Moves to the previous bounded zoom level and leaves Fit mode.
    pub fn zoom_out(&mut self)
        ensures
            final(self).level() == (if old(self).level() > 0 {
                old(self).level() - 1
            } else {
                0
            }),
            !final(self).fitted(),
            final(self).view_mode() == old(self).view_mode(),
            final(self).inv(),
    {
        proof {
            use_type_invariant(&*self);
        }
        self.zoom_index = self.zoom_index.saturating_sub(1);
        self.fit = false;
    }

    /// Reports whether a larger bounded zoom level remains available.
    pub fn can_zoom_in(self) -> (can: bool)
        ensures
            can == (self.level() + 1 < ZOOM_LEVEL_COUNT),
    {
        proof {
            use_type_invariant(&self);
        }
        self.zoom_index + 1 < ZOOM_LEVEL_COUNT
    }

    /// Reports whether a smaller bounded zoom level remains available.
    pub fn can_zoom_out(self) -> (can: bool)
        ensures
            can == (self.level() > 0),
    {
        self.zoom_index > 0
    }
}

impl Default for MainViewState {
    /// Starts in the canonical Preview view fitted to the available viewport.
    fn default() -> (state: Self)
        ensures
            state.view_mode() == MainViewMode::Preview,
            state.level() == DEFAULT_ZOOM_INDEX,
            state.fitted(),
            state.inv(),
    {
        MainViewState::new()
    }
}

/// Zoom magnification grows strictly with the level, so zooming in always
/// magnifies until the last level and zooming out always reduces until the
/// first.
pub proof fn lemma_zoom_levels_increase(i: int, j: int)
    requires
        0 <= i < j < ZOOM_LEVEL_COUNT,
    ensures
        zoom_percent_at(i) < zoom_percent_at(j),
{
}

} // verus!

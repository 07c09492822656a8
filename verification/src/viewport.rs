//! The navigation-and-viewport state machine: the current position in the
//! catalog, the currently requested display dimensions, and the decision
//! which image to load and at which size for each discrete input event.
//!
//! Decisions and commits are separated: [`ViewportController::plan`] turns
//! an event into a [`Plan`] without touching the state, the surrounding
//! event loop performs the load, and on success one of the commit methods
//! applies the transition. A failed load thus leaves both the index and the
//! displayed image exactly as they were.

use crate::catalog::Catalog;
use crate::geometry::Dims;
use crate::geometry::MIN_DISPLAY_DIM;
use crate::geometry::fit_to_viewport;
use crate::geometry::lemma_fit_within_bounds;
use crate::geometry::spec_fit;
use crate::geometry::spec_zoom_in;
use crate::geometry::spec_zoom_out;
use crate::geometry::zoom_in_target;
use crate::geometry::zoom_out_target;
use vstd::prelude::*;

verus! {

/// One discrete input event, as the surrounding event loop reports it.
#[derive(Clone, Copy, PartialEq, Eq, Structural, Debug)]
pub enum InputEvent {
    StepLeft,
    StepRight,
    ZoomIn,
    ZoomOut,
    Quit,
}

/// What the event loop must do for one event: nothing, load the image at
/// an index and fit it to the viewport, reload the image at an index and
/// scale it toward a target size, or shut down.
#[derive(Clone, Copy, PartialEq, Eq, Structural, Debug)]
pub enum Plan {
    NoChange,
    Navigate { index: usize },
    Rescale { index: usize, target: Dims },
    Quit,
}

/// Owner of the viewport state: the catalog, the current position in it,
/// the currently requested display dimensions, and the fixed bounds of the
/// display area.
pub struct ViewportController {
    pub catalog: Catalog,
    pub current_index: usize,
    pub current_dimensions: Dims,
    pub viewport_bounds: Dims,
}

impl ViewportController {
    /// Well-formedness: the index stays inside the catalog (and is pinned
    /// to zero when the catalog is empty), and all dimensions are positive.
    pub open spec fn wf(self) -> bool {
        &&& self.catalog@.len() == 0 ==> self.current_index == 0
        &&& self.catalog@.len() > 0 ==> (self.current_index as int) < self.catalog@.len()
        &&& self.current_dimensions.width >= MIN_DISPLAY_DIM
        &&& self.current_dimensions.height >= MIN_DISPLAY_DIM
        &&& self.viewport_bounds.width >= MIN_DISPLAY_DIM
        &&& self.viewport_bounds.height >= MIN_DISPLAY_DIM
    }

    /// Sets up the controller at startup: the resolved starting index, and
    /// the starting image fitted to the viewport.
    pub fn new(catalog: Catalog, start_index: usize, viewport_bounds: Dims, initial_natural: Dims) -> (c:
        ViewportController)
        requires
            catalog@.len() == 0 ==> start_index == 0,
            catalog@.len() > 0 ==> (start_index as int) < catalog@.len(),
            initial_natural.width >= 1,
            initial_natural.height >= 1,
            viewport_bounds.width >= 1,
            viewport_bounds.height >= 1,
        ensures
            c.wf(),
            c.catalog@ == catalog@,
            c.current_index == start_index,
            c.viewport_bounds == viewport_bounds,
            c.current_dimensions == spec_fit(initial_natural, viewport_bounds),
    {
        let current_dimensions = fit_to_viewport(initial_natural, viewport_bounds);
        proof {
            lemma_fit_within_bounds(initial_natural, viewport_bounds);
        }
        ViewportController { catalog, current_index: start_index, current_dimensions, viewport_bounds }
    }

    /// Decides what one event asks for. Navigation saturates: stepping left
    /// at the first image or right at the last one changes nothing. Zoom
    /// requests a reload of the current image at the current dimensions
    /// shifted by the zoom step. With an empty catalog every event but quit
    /// is a no-op.
    pub fn plan(&self, event: InputEvent) -> (p: Plan)
        requires
            self.wf(),
        ensures
            event == InputEvent::Quit ==> p == Plan::Quit,
            event == InputEvent::StepRight ==> p == (if self.current_index + 1
                < self.catalog@.len() {
                (Plan::Navigate { index: (self.current_index + 1) as usize })
            } else {
                Plan::NoChange
            }),
            event == InputEvent::StepLeft ==> p == (if self.current_index > 0 {
                (Plan::Navigate { index: (self.current_index - 1) as usize })
            } else {
                Plan::NoChange
            }),
            event == InputEvent::ZoomIn ==> p == (if self.catalog@.len() > 0 {
                (Plan::Rescale {
                    index: self.current_index,
                    target: spec_zoom_in(self.current_dimensions),
                })
            } else {
                Plan::NoChange
            }),
            event == InputEvent::ZoomOut ==> p == (if self.catalog@.len() > 0 {
                (Plan::Rescale {
                    index: self.current_index,
                    target: spec_zoom_out(self.current_dimensions),
                })
            } else {
                Plan::NoChange
            }),
    {
        match event {
            InputEvent::Quit => Plan::Quit,
            InputEvent::StepRight => {
                let len = self.catalog.len();
                if len > 0 && self.current_index < len - 1 {
                    Plan::Navigate { index: self.current_index + 1 }
                } else {
                    Plan::NoChange
                }
            },
            InputEvent::StepLeft => {
                if self.current_index > 0 {
                    Plan::Navigate { index: self.current_index - 1 }
                } else {
                    Plan::NoChange
                }
            },
            InputEvent::ZoomIn => {
                if self.catalog.len() > 0 {
                    Plan::Rescale {
                        index: self.current_index,
                        target: zoom_in_target(self.current_dimensions),
                    }
                } else {
                    Plan::NoChange
                }
            },
            InputEvent::ZoomOut => {
                if self.catalog.len() > 0 {
                    Plan::Rescale {
                        index: self.current_index,
                        target: zoom_out_target(self.current_dimensions),
                    }
                } else {
                    Plan::NoChange
                }
            },
        }
    }

    /// Commits a navigation step once the image at `index` has been loaded
    /// and its natural size is known: the position moves to `index` and the
    /// display size is reset to the fit-to-viewport size of the new image —
    /// any zoom applied to the previous image is discarded.
    pub fn commit_navigation(&mut self, index: usize, natural: Dims)
        requires
            old(self).wf(),
            (index as int) < old(self).catalog@.len(),
            natural.width >= 1,
            natural.height >= 1,
        ensures
            final(self).wf(),
            final(self).current_index == index,
            final(self).current_dimensions == spec_fit(natural, old(self).viewport_bounds),
            final(self).viewport_bounds == old(self).viewport_bounds,
            final(self).catalog@ == old(self).catalog@,
    {
        let dims = fit_to_viewport(natural, self.viewport_bounds);
        proof {
            lemma_fit_within_bounds(natural, self.viewport_bounds);
        }
        self.current_index = index;
        self.current_dimensions = dims;
    }

    /// Commits a zoom step once the current image has been reloaded and
    /// scaled: only the requested display dimensions change.
    pub fn commit_rescale(&mut self, target: Dims)
        requires
            old(self).wf(),
            target.width >= MIN_DISPLAY_DIM,
            target.height >= MIN_DISPLAY_DIM,
        ensures
            final(self).wf(),
            final(self).current_dimensions == target,
            final(self).current_index == old(self).current_index,
            final(self).viewport_bounds == old(self).viewport_bounds,
            final(self).catalog@ == old(self).catalog@,
    {
        self.current_dimensions = target;
    }
}

/// The state after a committed zoom step to `target`.
pub open spec fn spec_rescaled(s: ViewportController, target: Dims) -> ViewportController {
    (ViewportController {
        catalog: s.catalog,
        current_index: s.current_index,
        current_dimensions: target,
        viewport_bounds: s.viewport_bounds,
    })
}

/// The state after `n` committed zoom-in steps.
pub open spec fn spec_zoomed_in_n(s: ViewportController, n: nat) -> ViewportController
    decreases n,
{
    if n == 0 {
        s
    } else {
        spec_rescaled(
            spec_zoomed_in_n(s, (n - 1) as nat),
            spec_zoom_in(spec_zoomed_in_n(s, (n - 1) as nat).current_dimensions),
        )
    }
}

/// The state after a committed navigation step to `index` for an image of
/// natural size `natural`.
pub open spec fn spec_navigated(s: ViewportController, index: usize, natural: Dims) -> ViewportController {
    (ViewportController {
        catalog: s.catalog,
        current_index: index,
        current_dimensions: spec_fit(natural, s.viewport_bounds),
        viewport_bounds: s.viewport_bounds,
    })
}

/// Law: zooming changes nothing but the requested dimensions — position,
/// catalog and viewport bounds survive any number of zoom-in steps.
pub proof fn lemma_zoom_preserves_position(s: ViewportController, n: nat)
    ensures
        spec_zoomed_in_n(s, n).catalog == s.catalog,
        spec_zoomed_in_n(s, n).current_index == s.current_index,
        spec_zoomed_in_n(s, n).viewport_bounds == s.viewport_bounds,
    decreases n,
{
    if n > 0 {
        lemma_zoom_preserves_position(s, (n - 1) as nat);
    }
}

/// Law: zoom is reset on navigation. However many zoom-in steps were
/// committed before it, a navigation step lands in the same state as if no
/// zoom had happened: the new display size follows the fit-to-viewport rule
/// for the new image alone.
pub proof fn lemma_zoom_reset_on_navigation(s: ViewportController, n: nat, index: usize, natural: Dims)
    ensures
        spec_navigated(spec_zoomed_in_n(s, n), index, natural) == spec_navigated(
            s,
            index,
            natural,
        ),
{
    lemma_zoom_preserves_position(s, n);
}

} // verus!

use vstd::prelude::*;

verus! {

/// Why the zoom has its current value. A resize of the window fits the
/// document anew only while the mode is `Fit`.
#[derive(Clone, Copy, Debug, PartialEq, Eq, Structural)]
pub enum FitMode {
    /// Set by fitting the document to the area.
    Fit,
    /// Set by asking for one document unit per pixel.
    ActualSize,
    /// Set by the user's own panning or zooming.
    Custom,
}

impl FitMode {
    /// The mode after the user panned: a fitted view becomes a custom one,
    /// the other modes stay.
    pub open spec fn after_pan(self) -> FitMode {
        if self == FitMode::Fit {
            FitMode::Custom
        } else {
            self
        }
    }
}

/// The rotation after a quarter turn clockwise.
pub open spec fn turned_cw(rotation_deg: int) -> int {
    (rotation_deg + 90) % 360
}

/// The rotation after a quarter turn counter-clockwise.
pub open spec fn turned_ccw(rotation_deg: int) -> int {
    (rotation_deg + 270) % 360
}

/// The part of the view that is not a measure: rotation, mirroring and the
/// fit mode. Zoom and pan are real-valued and kept by the caller, which
/// reports through `fitted`, `actual_size_set`, `zoomed` and `panned` what it
/// did to them.
#[derive(Clone, Copy, Debug, PartialEq, Eq, Structural)]
pub struct ViewState {
    /// Rotation in degrees, in `[0, 360)`.
    pub rotation_deg: u16,
    pub mirror_h: bool,
    pub mirror_v: bool,
    pub fit_mode: FitMode,
}

impl Default for ViewState {
    fn default() -> (view: Self)
        ensures
            view == ViewState::initial(),
    {
        ViewState { rotation_deg: 0, mirror_h: false, mirror_v: false, fit_mode: FitMode::Fit }
    }
}

impl ViewState {
    /// The view of a freshly loaded document: upright, not mirrored, fitted.
    pub open spec fn initial() -> ViewState {
        ViewState { rotation_deg: 0, mirror_h: false, mirror_v: false, fit_mode: FitMode::Fit }
    }

    /// The rotation is normalized.
    pub open spec fn wf(self) -> bool {
        self.rotation_deg < 360
    }

    /// Whether the rotation lays the document on its side, so that its width
    /// runs along the height of the area.
    pub open spec fn swaps_axes_spec(self) -> bool {
        self.rotation_deg % 180 > 45
    }

    /// Back to the initial view.
    pub fn reset(&mut self)
        ensures
            *final(self) == ViewState::initial(),
    {
        *self = ViewState { rotation_deg: 0, mirror_h: false, mirror_v: false, fit_mode: FitMode::Fit };
    }

    /// A quarter turn clockwise.
    pub fn rotate_cw(&mut self)
        ensures
            final(self).wf(),
            final(self).rotation_deg == turned_cw(old(self).rotation_deg as int),
            final(self).mirror_h == old(self).mirror_h,
            final(self).mirror_v == old(self).mirror_v,
            final(self).fit_mode == old(self).fit_mode,
    {
        self.rotation_deg = (self.rotation_deg % 360 + 90) % 360;
    }

    /// A quarter turn counter-clockwise.
    pub fn rotate_ccw(&mut self)
        ensures
            final(self).wf(),
            final(self).rotation_deg == turned_ccw(old(self).rotation_deg as int),
            final(self).mirror_h == old(self).mirror_h,
            final(self).mirror_v == old(self).mirror_v,
            final(self).fit_mode == old(self).fit_mode,
    {
        self.rotation_deg = (self.rotation_deg % 360 + 270) % 360;
    }

    pub fn toggle_mirror_h(&mut self)
        ensures
            *final(self) == (ViewState { mirror_h: !old(self).mirror_h, ..*old(self) }),
    {
        self.mirror_h = !self.mirror_h;
    }

    pub fn toggle_mirror_v(&mut self)
        ensures
            *final(self) == (ViewState { mirror_v: !old(self).mirror_v, ..*old(self) }),
    {
        self.mirror_v = !self.mirror_v;
    }

    pub fn swaps_axes(&self) -> (swapped: bool)
        ensures
            swapped == self.swaps_axes_spec(),
    {
        self.rotation_deg % 180 > 45
    }

    /// The document was fitted to the area.
    pub fn fitted(&mut self)
        ensures
            *final(self) == (ViewState { fit_mode: FitMode::Fit, ..*old(self) }),
    {
        self.fit_mode = FitMode::Fit;
    }

    /// The zoom was set to one document unit per pixel.
    pub fn actual_size_set(&mut self)
        ensures
            *final(self) == (ViewState { fit_mode: FitMode::ActualSize, ..*old(self) }),
    {
        self.fit_mode = FitMode::ActualSize;
    }

    /// The user zoomed.
    pub fn zoomed(&mut self)
        ensures
            *final(self) == (ViewState { fit_mode: FitMode::Custom, ..*old(self) }),
    {
        self.fit_mode = FitMode::Custom;
    }

    /// The user panned.
    pub fn panned(&mut self)
        ensures
            *final(self) == (ViewState { fit_mode: old(self).fit_mode.after_pan(), ..*old(self) }),
    {
        match self.fit_mode {
            FitMode::Fit => {
                self.fit_mode = FitMode::Custom;
            },
            _ => {},
        }
    }
}

/// Four quarter turns in one direction bring every normalized rotation back
/// to where it was, a turn each way cancels, and a turn keeps the rotation
/// normalized.
pub proof fn lemma_quarter_turns(rotation_deg: int)
    requires
        0 <= rotation_deg < 360,
    ensures
        0 <= turned_cw(rotation_deg) < 360,
        0 <= turned_ccw(rotation_deg) < 360,
        turned_cw(turned_cw(turned_cw(turned_cw(rotation_deg)))) == rotation_deg,
        turned_ccw(turned_ccw(turned_ccw(turned_ccw(rotation_deg)))) == rotation_deg,
        turned_ccw(turned_cw(rotation_deg)) == rotation_deg,
        turned_cw(turned_ccw(rotation_deg)) == rotation_deg,
{
}

/// A quarter turn changes which way the document lies whenever the rotation
/// is a multiple of 90 degrees.
pub proof fn lemma_quarter_turn_swaps_axes(view: ViewState)
    requires
        view.wf(),
        view.rotation_deg % 90 == 0,
    ensures
        (ViewState { rotation_deg: turned_cw(view.rotation_deg as int) as u16, ..view })
            .swaps_axes_spec() == !view.swaps_axes_spec(),
        (ViewState { rotation_deg: turned_ccw(view.rotation_deg as int) as u16, ..view })
            .swaps_axes_spec() == !view.swaps_axes_spec(),
{
}

/// Panning leaves the fitted mode once and for all: after a pan the mode is
/// never `Fit`, and a further pan changes nothing.
pub proof fn lemma_pan_leaves_fit_once(mode: FitMode)
    ensures
        FitMode::Fit.after_pan() == FitMode::Custom,
        mode.after_pan() != FitMode::Fit,
        mode.after_pan().after_pan() == mode.after_pan(),
        mode != FitMode::Fit ==> mode.after_pan() == mode,
{
}

} // verus!

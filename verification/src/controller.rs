use crate::actions::Command;
use crate::viewport::{FitMode, ViewState};
use vstd::prelude::*;

verus! {

/// How long zooming and panning must have rested before the document is
/// rasterized anew, in milliseconds.
pub const RERENDER_DELAY_MS: u64 = 150;

/// What the caller has to do after a command: the work that needs the
/// window, the file system or real-valued zoom and pan.
#[derive(Clone, Copy, Debug, PartialEq, Eq, Structural)]
pub enum Effect {
    Nothing,
    /// Let the user pick a file, and load it.
    OpenFileDialog,
    /// Step the navigator back, and load the file it gives.
    NavigatePrev,
    /// Step the navigator forward, and load the file it gives.
    NavigateNext,
    /// Set the zoom so that the document fits the area, and clear the pan.
    FitToArea,
    /// Set the zoom to one document unit per pixel, and clear the pan.
    SetActualSize,
    /// Zoom in by one step about the centre.
    ZoomIn,
    /// Zoom out by one step about the centre.
    ZoomOut,
    /// Show the export dialog with the document's size.
    OpenExportDialog,
    /// Render the document and hand it to the clipboard.
    CopyToClipboard,
    /// Set zoom and pan back to their defaults and then, where `then_fit`
    /// is set, fit the document to the area.
    ResetZoomAndPan { then_fit: bool },
}

/// Where a requested document is loaded.
#[derive(Clone, Copy, Debug, PartialEq, Eq, Structural)]
pub enum LoadStrategy {
    /// On the calling thread, which waits for it.
    Synchronous,
    /// On a worker, which also renders the first frame.
    Background,
}

/// What a poll of a background load found.
#[derive(Debug)]
pub enum LoadOutcome {
    /// The document is loaded and its first frame rendered, with this view.
    Loaded(ViewState),
    /// Loading or rendering failed, with this message.
    Failed(String),
    /// The worker has not answered yet.
    Pending,
    /// The worker ended without an answer.
    Disconnected,
}

/// What the caller does with the result of a poll.
#[derive(Debug)]
pub enum LoadDecision {
    /// Replace document and pixels by the loaded ones.
    SwapIn,
    /// Keep what is displayed and show this message.
    ShowError(String),
    /// Keep the load pending and poll again on the next frame.
    KeepWaiting,
    /// The answer belongs to a load that a later one replaced: drop it.
    Discard,
}

/// What one frame has to do before it draws.
#[derive(Clone, Copy, Debug, PartialEq, Eq, Structural)]
pub struct FramePlan {
    /// Fit the document to the area first.
    pub refit: bool,
    /// After fitting, cap the zoom at the largest initial scale.
    pub cap_zoom: bool,
    /// Rasterize the document.
    pub render: bool,
}

/// The state that decides what the viewer does next: the discrete view, the
/// display toggles, whether the picture is stale, the debounce timer and the
/// background load in flight. Times are milliseconds on a clock that does
/// not go back.
#[derive(Clone, Copy, Debug)]
pub struct Controller {
    pub view: ViewState,
    pub show_checkerboard: bool,
    pub dark_mode: bool,
    /// The picture on screen no longer matches the state.
    pub render_dirty: bool,
    /// A zoom or pan waits for the input to rest before it is rendered.
    pub pending_rerender: bool,
    /// When the last zoom or pan came in.
    pub zoom_idle_since: Option<u64>,
    /// The next automatic fit caps the zoom.
    pub cap_initial_zoom: bool,
    /// The number of the latest background load.
    pub load_generation: u64,
    /// Whether the latest background load is still awaited.
    pub load_in_flight: bool,
}

/// The time from `since` to `now`, and 0 where `now` is the earlier.
pub open spec fn elapsed_ms(since: u64, now: u64) -> int {
    if now >= since {
        now - since
    } else {
        0
    }
}

/// The number of the load after `generation`.
pub open spec fn next_generation(generation: u64) -> u64 {
    if generation == u64::MAX {
        0
    } else {
        (generation + 1) as u64
    }
}

impl LoadStrategy {
    /// Until the display area is known a document is loaded synchronously,
    /// from then on in the background.
    pub fn for_area(area_known: bool) -> (strategy: LoadStrategy)
        ensures
            strategy == if area_known {
                LoadStrategy::Background
            } else {
                LoadStrategy::Synchronous
            },
    {
        if area_known {
            LoadStrategy::Background
        } else {
            LoadStrategy::Synchronous
        }
    }
}

impl LoadOutcome {
    /// The message shown for an outcome that is a failure.
    pub open spec fn error_text(self) -> Option<Seq<char>> {
        match self {
            LoadOutcome::Failed(message) => Some("Error: "@ + message@),
            LoadOutcome::Disconnected => Some("Loading failed unexpectedly"@),
            _ => None,
        }
    }
}

impl Controller {
    /// The state at start: initial view, checkerboard and dark theme on,
    /// picture stale, nothing pending.
    pub open spec fn initial() -> Controller {
        Controller {
            view: ViewState::initial(),
            show_checkerboard: true,
            dark_mode: true,
            render_dirty: true,
            pending_rerender: false,
            zoom_idle_since: None,
            cap_initial_zoom: true,
            load_generation: 0,
            load_in_flight: false,
        }
    }

    /// The state with the debounce timer started at `now_ms`.
    pub open spec fn rerender_scheduled(self, now_ms: u64) -> Controller {
        Controller { zoom_idle_since: Some(now_ms), pending_rerender: true, ..self }
    }

    /// The state with the picture marked stale and this view.
    pub open spec fn redrawn_with(self, view: ViewState) -> Controller {
        Controller { view, render_dirty: true, ..self }
    }

    /// The state after `command`. `has_document` says whether a document is
    /// loaded, `can_fit` whether the sizes of document and area are all
    /// positive, so that fitting has an effect.
    pub open spec fn after(
        self,
        command: Command,
        has_document: bool,
        can_fit: bool,
        now_ms: u64,
    ) -> Controller {
        match command {
            Command::OpenFile | Command::PrevFile | Command::NextFile => self,
            Command::FitToWindow => if !has_document {
                self
            } else if can_fit {
                self.redrawn_with(ViewState { fit_mode: FitMode::Fit, ..self.view })
            } else {
                self.redrawn_with(self.view)
            },
            Command::ActualSize => self.redrawn_with(
                ViewState { fit_mode: FitMode::ActualSize, ..self.view },
            ),
            Command::ZoomIn | Command::ZoomOut => (Controller {
                view: ViewState { fit_mode: FitMode::Custom, ..self.view },
                ..self
            }).rerender_scheduled(now_ms),
            Command::RotateCw => self.redrawn_with(
                ViewState {
                    rotation_deg: crate::viewport::turned_cw(self.view.rotation_deg as int) as u16,
                    ..self.view
                },
            ),
            Command::RotateCcw => self.redrawn_with(
                ViewState {
                    rotation_deg: crate::viewport::turned_ccw(self.view.rotation_deg as int) as u16,
                    ..self.view
                },
            ),
            Command::MirrorH => self.redrawn_with(
                ViewState { mirror_h: !self.view.mirror_h, ..self.view },
            ),
            Command::MirrorV => self.redrawn_with(
                ViewState { mirror_v: !self.view.mirror_v, ..self.view },
            ),
            Command::Export | Command::CopyClipboard => self,
            Command::ToggleBackground => Controller {
                show_checkerboard: !self.show_checkerboard,
                ..self
            },
            Command::ToggleTheme => Controller { dark_mode: !self.dark_mode, ..self },
            Command::ResetView => Controller {
                view: ViewState::initial(),
                cap_initial_zoom: true,
                render_dirty: true,
                ..self
            },
        }
    }

    /// What the caller has to do for `command`.
    pub open spec fn effect_of(command: Command, has_document: bool, can_fit: bool) -> Effect {
        match command {
            Command::OpenFile => Effect::OpenFileDialog,
            Command::PrevFile => Effect::NavigatePrev,
            Command::NextFile => Effect::NavigateNext,
            Command::FitToWindow => if has_document && can_fit {
                Effect::FitToArea
            } else {
                Effect::Nothing
            },
            Command::ActualSize => Effect::SetActualSize,
            Command::ZoomIn => Effect::ZoomIn,
            Command::ZoomOut => Effect::ZoomOut,
            Command::Export => if has_document {
                Effect::OpenExportDialog
            } else {
                Effect::Nothing
            },
            Command::CopyClipboard => if has_document {
                Effect::CopyToClipboard
            } else {
                Effect::Nothing
            },
            Command::ResetView => Effect::ResetZoomAndPan { then_fit: has_document && can_fit },
            _ => Effect::Nothing,
        }
    }

    pub fn new() -> (controller: Self)
        ensures
            controller == Controller::initial(),
    {
        Controller {
            view: ViewState::default(),
            show_checkerboard: true,
            dark_mode: true,
            render_dirty: true,
            pending_rerender: false,
            zoom_idle_since: None,
            cap_initial_zoom: true,
            load_generation: 0,
            load_in_flight: false,
        }
    }

    /// Starts the debounce timer anew: the document is rendered once no
    /// further input has come for `RERENDER_DELAY_MS`.
    pub fn schedule_rerender(&mut self, now_ms: u64)
        ensures
            *final(self) == old(self).rerender_scheduled(now_ms),
    {
        self.zoom_idle_since = Some(now_ms);
        self.pending_rerender = true;
    }

    /// Carries out the discrete part of `command` and says what is left for
    /// the caller to do.
    pub fn apply(&mut self, command: Command, has_document: bool, can_fit: bool, now_ms: u64) -> (effect:
        Effect)
        ensures
            *final(self) == old(self).after(command, has_document, can_fit, now_ms),
            effect == Controller::effect_of(command, has_document, can_fit),
            old(self).view.wf() ==> final(self).view.wf(),
    {
        match command {
            Command::OpenFile => Effect::OpenFileDialog,
            Command::PrevFile => Effect::NavigatePrev,
            Command::NextFile => Effect::NavigateNext,
            Command::FitToWindow => {
                if !has_document {
                    Effect::Nothing
                } else if can_fit {
                    self.view.fitted();
                    self.render_dirty = true;
                    Effect::FitToArea
                } else {
                    self.render_dirty = true;
                    Effect::Nothing
                }
            },
            Command::ActualSize => {
                self.view.actual_size_set();
                self.render_dirty = true;
                Effect::SetActualSize
            },
            Command::ZoomIn => {
                self.view.zoomed();
                self.schedule_rerender(now_ms);
                Effect::ZoomIn
            },
            Command::ZoomOut => {
                self.view.zoomed();
                self.schedule_rerender(now_ms);
                Effect::ZoomOut
            },
            Command::RotateCw => {
                self.view.rotate_cw();
                self.render_dirty = true;
                Effect::Nothing
            },
            Command::RotateCcw => {
                self.view.rotate_ccw();
                self.render_dirty = true;
                Effect::Nothing
            },
            Command::MirrorH => {
                self.view.toggle_mirror_h();
                self.render_dirty = true;
                Effect::Nothing
            },
            Command::MirrorV => {
                self.view.toggle_mirror_v();
                self.render_dirty = true;
                Effect::Nothing
            },
            Command::Export => {
                if has_document {
                    Effect::OpenExportDialog
                } else {
                    Effect::Nothing
                }
            },
            Command::CopyClipboard => {
                if has_document {
                    Effect::CopyToClipboard
                } else {
                    Effect::Nothing
                }
            },
            Command::ToggleBackground => {
                self.show_checkerboard = !self.show_checkerboard;
                Effect::Nothing
            },
            Command::ToggleTheme => {
                self.dark_mode = !self.dark_mode;
                Effect::Nothing
            },
            Command::ResetView => {
                self.view.reset();
                self.cap_initial_zoom = true;
                self.render_dirty = true;
                Effect::ResetZoomAndPan { then_fit: has_document && can_fit }
            },
        }
    }

    /// The user dragged the picture: a fitted view becomes a custom one, and
    /// the debounce timer starts anew.
    pub fn on_pan(&mut self, now_ms: u64)
        ensures
            *final(self) == (Controller {
                view: ViewState { fit_mode: old(self).view.fit_mode.after_pan(), ..old(self).view },
                ..*old(self)
            }).rerender_scheduled(now_ms),
    {
        self.view.panned();
        self.schedule_rerender(now_ms);
    }

    /// The user zoomed with wheel or pinch: the view becomes a custom one,
    /// and the debounce timer starts anew.
    pub fn on_zoom(&mut self, now_ms: u64)
        ensures
            *final(self) == (Controller {
                view: ViewState { fit_mode: FitMode::Custom, ..old(self).view },
                ..*old(self)
            }).rerender_scheduled(now_ms),
    {
        self.view.zoomed();
        self.schedule_rerender(now_ms);
    }

    /// Marks the picture stale once zooming and panning have rested for
    /// `RERENDER_DELAY_MS`. The answer says whether a re-render is still
    /// waiting, so that the caller asks for another frame.
    pub fn check_deferred_rerender(&mut self, now_ms: u64) -> (waiting: bool)
        ensures
            old(self).rerender_due(now_ms) ==> *final(self) == (Controller {
                render_dirty: true,
                pending_rerender: false,
                zoom_idle_since: None,
                ..*old(self)
            }),
            !old(self).rerender_due(now_ms) ==> *final(self) == *old(self),
            waiting == final(self).pending_rerender,
    {
        if self.pending_rerender {
            match self.zoom_idle_since {
                Some(since) => {
                    if now_ms >= since && now_ms - since >= RERENDER_DELAY_MS {
                        self.render_dirty = true;
                        self.pending_rerender = false;
                        self.zoom_idle_since = None;
                    }
                },
                None => {},
            }
        }
        self.pending_rerender
    }

    /// Whether a deferred re-render has waited long enough at `now_ms`.
    pub open spec fn rerender_due(self, now_ms: u64) -> bool {
        &&& self.pending_rerender
        &&& self.zoom_idle_since matches Some(since)
        &&& elapsed_ms(since, now_ms) >= RERENDER_DELAY_MS
    }

    /// What a frame does before it draws: a stale picture of a loaded
    /// document is rendered anew, after the document was fitted to the area
    /// where the view is a fitted one. The first fit after a load or a reset
    /// caps the zoom.
    pub open spec fn frame_plan(self, has_document: bool) -> FramePlan {
        let render = self.render_dirty && has_document;
        let refit = render && self.view.fit_mode == FitMode::Fit;
        FramePlan { refit, cap_zoom: refit && self.cap_initial_zoom, render }
    }

    /// Decides what this frame does before it draws, and records that it
    /// will have been done.
    pub fn plan_frame(&mut self, has_document: bool) -> (plan: FramePlan)
        ensures
            plan == old(self).frame_plan(has_document),
            *final(self) == (Controller {
                render_dirty: old(self).render_dirty && !has_document,
                cap_initial_zoom: old(self).cap_initial_zoom && !plan.refit,
                ..*old(self)
            }),
    {
        let render = self.render_dirty && has_document;
        let refit = render && match self.view.fit_mode {
            FitMode::Fit => true,
            _ => false,
        };
        let cap_zoom = refit && self.cap_initial_zoom;
        if refit {
            self.cap_initial_zoom = false;
        }
        if render {
            self.render_dirty = false;
        }
        FramePlan { refit, cap_zoom, render }
    }

    /// A document was loaded synchronously: the view starts anew, the
    /// picture is stale and the next fit caps the zoom.
    pub fn document_loaded(&mut self)
        ensures
            *final(self) == (Controller {
                view: ViewState::initial(),
                render_dirty: true,
                cap_initial_zoom: true,
                ..*old(self)
            }),
    {
        self.view.reset();
        self.render_dirty = true;
        self.cap_initial_zoom = true;
    }

    /// Starts a background load and gives its number. An earlier load that
    /// has not answered yet is given up: its answer will be discarded.
    pub fn begin_background_load(&mut self) -> (ticket: u64)
        ensures
            ticket == next_generation(old(self).load_generation),
            ticket != old(self).load_generation,
            *final(self) == (Controller {
                load_generation: ticket,
                load_in_flight: true,
                ..*old(self)
            }),
    {
        self.load_generation = if self.load_generation == u64::MAX {
            0
        } else {
            self.load_generation + 1
        };
        self.load_in_flight = true;
        self.load_generation
    }

    /// Whether an answer with this number is the one that is awaited.
    pub open spec fn awaits(self, ticket: u64) -> bool {
        self.load_in_flight && ticket == self.load_generation
    }

    /// The state after the poll of load `ticket` found `outcome`.
    pub open spec fn after_poll(self, ticket: u64, outcome: LoadOutcome) -> Controller {
        if !self.awaits(ticket) {
            self
        } else {
            match outcome {
                LoadOutcome::Loaded(view) => Controller {
                    view,
                    render_dirty: false,
                    pending_rerender: false,
                    load_in_flight: false,
                    ..self
                },
                LoadOutcome::Pending => self,
                _ => Controller { load_in_flight: false, ..self },
            }
        }
    }

    /// Takes in what a poll of background load `ticket` found. A loaded
    /// document comes with its view and a fresh picture; a failure leaves
    /// everything but the pending load as it was.
    pub fn on_load_polled(&mut self, ticket: u64, outcome: LoadOutcome) -> (decision: LoadDecision)
        ensures
            *final(self) == old(self).after_poll(ticket, outcome),
            !old(self).awaits(ticket) ==> decision is Discard,
            old(self).awaits(ticket) ==> match outcome {
                LoadOutcome::Loaded(_) => decision is SwapIn,
                LoadOutcome::Pending => decision is KeepWaiting,
                _ => decision matches LoadDecision::ShowError(message) && Some(message@)
                    == outcome.error_text(),
            },
    {
        if !self.load_in_flight || ticket != self.load_generation {
            return LoadDecision::Discard;
        }
        match outcome {
            LoadOutcome::Loaded(view) => {
                self.view = view;
                self.render_dirty = false;
                self.pending_rerender = false;
                self.load_in_flight = false;
                LoadDecision::SwapIn
            },
            LoadOutcome::Failed(message) => {
                self.load_in_flight = false;
                LoadDecision::ShowError(String::from_str("Error: ").concat(message.as_str()))
            },
            LoadOutcome::Pending => LoadDecision::KeepWaiting,
            LoadOutcome::Disconnected => {
                self.load_in_flight = false;
                LoadDecision::ShowError(String::from_str("Loading failed unexpectedly"))
            },
        }
    }
}

/// The view is a fitted one only right after a fit, a reset, or where it was
/// one before; zooming always makes it a custom one, and a fit that cannot
/// take place leaves the view as it was.
pub proof fn lemma_fit_mode_follows_the_user(
    before: Controller,
    command: Command,
    has_document: bool,
    can_fit: bool,
    now_ms: u64,
)
    ensures
        ({
            let after = before.after(command, has_document, can_fit, now_ms);
            &&& after.view.fit_mode == FitMode::Fit ==> {
                ||| before.view.fit_mode == FitMode::Fit
                ||| command == Command::FitToWindow && has_document && can_fit
                ||| command == Command::ResetView
            }
            &&& command == Command::ZoomIn || command == Command::ZoomOut ==> after.view.fit_mode
                == FitMode::Custom
            &&& command == Command::FitToWindow && !(has_document && can_fit) ==> after.view
                == before.view
        }),
{
}

/// An answer to a load that a later load replaced is never taken in: once a
/// new load has begun, the number of the one before it is no longer awaited.
pub proof fn lemma_stale_load_is_discarded(before: Controller, outcome: LoadOutcome)
    ensures
        ({
            let ticket = next_generation(before.load_generation);
            let now = Controller { load_generation: ticket, load_in_flight: true, ..before };
            &&& now.awaits(ticket)
            &&& !now.awaits(before.load_generation)
            &&& now.after_poll(before.load_generation, outcome) == now
        }),
{
}

/// Input that keeps coming holds the re-render back: right after a zoom or
/// pan at `now_ms` nothing is due, and it becomes due exactly when
/// `RERENDER_DELAY_MS` have passed without further input.
pub proof fn lemma_debounce(before: Controller, now_ms: u64, later_ms: u64)
    requires
        later_ms >= now_ms,
    ensures
        before.rerender_scheduled(now_ms).rerender_due(later_ms) <==> later_ms - now_ms
            >= RERENDER_DELAY_MS,
{
}

} // verus!

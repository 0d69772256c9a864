use svg_viewer::actions::{commands, Command, ExportDialogResult, ToolbarAction};
use svg_viewer::controller::{
    Controller, Effect, FramePlan, LoadDecision, LoadOutcome, LoadStrategy, RERENDER_DELAY_MS,
};
use svg_viewer::render::{clamp_dimension, clipboard_size, render_size, MAX_RENDER_DIM};
use svg_viewer::shortcuts::{handle_shortcuts, KeyboardInput};
use svg_viewer::viewport::{FitMode, ViewState};

fn no_keys() -> KeyboardInput {
    KeyboardInput {
        command: false,
        shift: false,
        no_modifiers: true,
        key_o: false,
        key_arrow_left: false,
        key_arrow_right: false,
        key_plus: false,
        key_equals: false,
        key_minus: false,
        key_0: false,
        key_1: false,
        key_r: false,
        key_h: false,
        key_v: false,
        key_e: false,
        key_c: false,
        key_t: false,
        key_q: false,
    }
}

fn with_command() -> KeyboardInput {
    let mut k = no_keys();
    k.command = true;
    k.no_modifiers = false;
    k
}

#[test]
fn default_action_asks_for_nothing() {
    let action = ToolbarAction::default();
    assert!(commands(&action).is_empty());
    assert!(!action.open_file && !action.reset_view && !action.toggle_theme);
}

#[test]
fn commands_come_in_a_fixed_order() {
    let mut action = ToolbarAction::default();
    action.reset_view = true;
    action.rotate_cw = true;
    action.open_file = true;
    action.zoom_out = true;
    assert_eq!(
        commands(&action),
        vec![Command::OpenFile, Command::ZoomOut, Command::RotateCw, Command::ResetView]
    );
    let all = ToolbarAction {
        open_file: true,
        prev_file: true,
        next_file: true,
        fit_to_window: true,
        actual_size: true,
        zoom_in: true,
        zoom_out: true,
        rotate_cw: true,
        rotate_ccw: true,
        mirror_h: true,
        mirror_v: true,
        export: true,
        copy_clipboard: true,
        toggle_bg: true,
        toggle_theme: true,
        reset_view: true,
    };
    assert_eq!(
        commands(&all),
        vec![
            Command::OpenFile,
            Command::PrevFile,
            Command::NextFile,
            Command::FitToWindow,
            Command::ActualSize,
            Command::ZoomIn,
            Command::ZoomOut,
            Command::RotateCw,
            Command::RotateCcw,
            Command::MirrorH,
            Command::MirrorV,
            Command::Export,
            Command::CopyClipboard,
            Command::ToggleBackground,
            Command::ToggleTheme,
            Command::ResetView,
        ]
    );
}

#[test]
fn dialog_result_is_taken_once() {
    let mut r = ExportDialogResult::Export;
    assert!(r.take());
    assert_eq!(r, ExportDialogResult::Undecided);
    assert!(!r.take());
    let mut r = ExportDialogResult::Cancel;
    assert!(!r.take());
    assert_eq!(r, ExportDialogResult::Undecided);
}

#[test]
fn controller_starts_stale_and_fitted() {
    let c = Controller::new();
    assert_eq!(c.view, ViewState::default());
    assert!(c.show_checkerboard && c.dark_mode && c.render_dirty && c.cap_initial_zoom);
    assert!(!c.pending_rerender && !c.load_in_flight);
    assert_eq!(c.zoom_idle_since, None);
}

#[test]
fn file_commands_leave_the_state() {
    let mut c = Controller::new();
    c.render_dirty = false;
    assert_eq!(c.apply(Command::OpenFile, false, false, 1), Effect::OpenFileDialog);
    assert_eq!(c.apply(Command::PrevFile, true, true, 1), Effect::NavigatePrev);
    assert_eq!(c.apply(Command::NextFile, true, true, 1), Effect::NavigateNext);
    assert!(!c.render_dirty);
    assert_eq!(c.view, ViewState::default());
}

#[test]
fn fit_needs_a_document_and_sizes() {
    let mut c = Controller::new();
    c.render_dirty = false;
    c.view.fit_mode = FitMode::Custom;
    assert_eq!(c.apply(Command::FitToWindow, false, true, 1), Effect::Nothing);
    assert!(!c.render_dirty);
    assert_eq!(c.view.fit_mode, FitMode::Custom);
    assert_eq!(c.apply(Command::FitToWindow, true, false, 1), Effect::Nothing);
    assert!(c.render_dirty);
    assert_eq!(c.view.fit_mode, FitMode::Custom);
    c.render_dirty = false;
    assert_eq!(c.apply(Command::FitToWindow, true, true, 1), Effect::FitToArea);
    assert!(c.render_dirty);
    assert_eq!(c.view.fit_mode, FitMode::Fit);
}

#[test]
fn zoom_is_debounced() {
    let mut c = Controller::new();
    c.render_dirty = false;
    assert_eq!(c.apply(Command::ZoomIn, true, true, 1000), Effect::ZoomIn);
    assert_eq!(c.view.fit_mode, FitMode::Custom);
    assert!(c.pending_rerender && !c.render_dirty);
    assert_eq!(c.zoom_idle_since, Some(1000));
    assert!(c.check_deferred_rerender(1100));
    assert!(!c.render_dirty);
    // Further input starts the wait anew.
    assert_eq!(c.apply(Command::ZoomOut, true, true, 1100), Effect::ZoomOut);
    assert!(c.check_deferred_rerender(1249));
    assert!(!c.render_dirty);
    assert!(!c.check_deferred_rerender(1250));
    assert!(c.render_dirty && !c.pending_rerender);
    assert_eq!(c.zoom_idle_since, None);
    // Nothing pending: nothing happens.
    c.render_dirty = false;
    assert!(!c.check_deferred_rerender(9999));
    assert!(!c.render_dirty);
    assert_eq!(RERENDER_DELAY_MS, 150);
}

#[test]
fn a_clock_that_went_back_counts_as_no_time() {
    let mut c = Controller::new();
    c.render_dirty = false;
    c.on_zoom(500);
    assert!(c.check_deferred_rerender(100));
    assert!(!c.render_dirty);
}

#[test]
fn pan_and_zoom_gestures() {
    let mut c = Controller::new();
    c.on_pan(10);
    assert_eq!(c.view.fit_mode, FitMode::Custom);
    assert!(c.pending_rerender);
    assert_eq!(c.zoom_idle_since, Some(10));
    c.view.fit_mode = FitMode::ActualSize;
    c.on_pan(20);
    assert_eq!(c.view.fit_mode, FitMode::ActualSize);
    c.on_zoom(30);
    assert_eq!(c.view.fit_mode, FitMode::Custom);
    assert_eq!(c.zoom_idle_since, Some(30));
}

#[test]
fn rotation_and_mirror_mark_the_picture_stale() {
    let mut c = Controller::new();
    for (command, expect) in [
        (Command::RotateCw, (90, false, false)),
        (Command::RotateCw, (180, false, false)),
        (Command::RotateCcw, (90, false, false)),
        (Command::MirrorH, (90, true, false)),
        (Command::MirrorV, (90, true, true)),
        (Command::MirrorH, (90, false, true)),
    ] {
        c.render_dirty = false;
        assert_eq!(c.apply(command, true, true, 0), Effect::Nothing);
        assert!(c.render_dirty);
        assert_eq!((c.view.rotation_deg, c.view.mirror_h, c.view.mirror_v), expect);
        assert_eq!(c.view.fit_mode, FitMode::Fit);
    }
}

#[test]
fn remaining_commands() {
    let mut c = Controller::new();
    c.render_dirty = false;
    assert_eq!(c.apply(Command::ActualSize, false, false, 0), Effect::SetActualSize);
    assert_eq!(c.view.fit_mode, FitMode::ActualSize);
    assert!(c.render_dirty);
    c.render_dirty = false;
    assert_eq!(c.apply(Command::Export, false, true, 0), Effect::Nothing);
    assert_eq!(c.apply(Command::Export, true, true, 0), Effect::OpenExportDialog);
    assert_eq!(c.apply(Command::CopyClipboard, false, true, 0), Effect::Nothing);
    assert_eq!(c.apply(Command::CopyClipboard, true, true, 0), Effect::CopyToClipboard);
    assert_eq!(c.apply(Command::ToggleBackground, true, true, 0), Effect::Nothing);
    assert!(!c.show_checkerboard && c.dark_mode);
    assert_eq!(c.apply(Command::ToggleTheme, true, true, 0), Effect::Nothing);
    assert!(!c.show_checkerboard && !c.dark_mode);
    assert!(!c.render_dirty);
    c.view.rotation_deg = 270;
    c.view.mirror_v = true;
    c.cap_initial_zoom = false;
    assert_eq!(
        c.apply(Command::ResetView, true, true, 0),
        Effect::ResetZoomAndPan { then_fit: true }
    );
    assert_eq!(c.view, ViewState::default());
    assert!(c.render_dirty && c.cap_initial_zoom);
    assert_eq!(
        c.apply(Command::ResetView, true, false, 0),
        Effect::ResetZoomAndPan { then_fit: false }
    );
    assert_eq!(
        c.apply(Command::ResetView, false, true, 0),
        Effect::ResetZoomAndPan { then_fit: false }
    );
}

#[test]
fn frame_plan() {
    let mut c = Controller::new();
    // No document: nothing to do, and the picture stays stale.
    assert_eq!(
        c.plan_frame(false),
        FramePlan { refit: false, cap_zoom: false, render: false }
    );
    assert!(c.render_dirty && c.cap_initial_zoom);
    // First frame with a document: fit, cap, render.
    assert_eq!(c.plan_frame(true), FramePlan { refit: true, cap_zoom: true, render: true });
    assert!(!c.render_dirty && !c.cap_initial_zoom);
    // Nothing stale: nothing to do.
    assert_eq!(
        c.plan_frame(true),
        FramePlan { refit: false, cap_zoom: false, render: false }
    );
    // Stale again in fitted mode: fit without cap.
    c.render_dirty = true;
    assert_eq!(c.plan_frame(true), FramePlan { refit: true, cap_zoom: false, render: true });
    // Stale in a custom view: render only, and the cap is kept for later.
    c.render_dirty = true;
    c.cap_initial_zoom = true;
    c.view.fit_mode = FitMode::Custom;
    assert_eq!(c.plan_frame(true), FramePlan { refit: false, cap_zoom: false, render: true });
    assert!(c.cap_initial_zoom && !c.render_dirty);
}

#[test]
fn load_strategy() {
    assert_eq!(LoadStrategy::for_area(false), LoadStrategy::Synchronous);
    assert_eq!(LoadStrategy::for_area(true), LoadStrategy::Background);
}

#[test]
fn synchronous_load_starts_the_view_anew() {
    let mut c = Controller::new();
    c.view.rotation_deg = 180;
    c.view.fit_mode = FitMode::Custom;
    c.render_dirty = false;
    c.cap_initial_zoom = false;
    c.dark_mode = false;
    c.document_loaded();
    assert_eq!(c.view, ViewState::default());
    assert!(c.render_dirty && c.cap_initial_zoom && !c.dark_mode);
}

#[test]
fn background_load_is_swapped_in() {
    let mut c = Controller::new();
    c.pending_rerender = true;
    let ticket = c.begin_background_load();
    assert_eq!(ticket, 1);
    assert!(c.load_in_flight);
    assert!(matches!(
        c.on_load_polled(ticket, LoadOutcome::Pending),
        LoadDecision::KeepWaiting
    ));
    assert!(c.load_in_flight && c.render_dirty);
    let view =
        ViewState { rotation_deg: 0, mirror_h: false, mirror_v: false, fit_mode: FitMode::Fit };
    assert!(matches!(
        c.on_load_polled(ticket, LoadOutcome::Loaded(view)),
        LoadDecision::SwapIn
    ));
    assert!(!c.load_in_flight && !c.render_dirty && !c.pending_rerender);
    assert_eq!(c.view, view);
    // A second answer for the same load is not awaited any more.
    assert!(matches!(
        c.on_load_polled(ticket, LoadOutcome::Pending),
        LoadDecision::Discard
    ));
}

#[test]
fn background_failure_keeps_the_display() {
    let mut c = Controller::new();
    c.render_dirty = false;
    c.view.rotation_deg = 90;
    let ticket = c.begin_background_load();
    match c.on_load_polled(ticket, LoadOutcome::Failed("Failed to parse SVG: x".to_string())) {
        LoadDecision::ShowError(m) => assert_eq!(m, "Error: Failed to parse SVG: x"),
        other => panic!("unexpected: {:?}", other),
    }
    assert!(!c.load_in_flight && !c.render_dirty);
    assert_eq!(c.view.rotation_deg, 90);
    let ticket = c.begin_background_load();
    match c.on_load_polled(ticket, LoadOutcome::Disconnected) {
        LoadDecision::ShowError(m) => assert_eq!(m, "Loading failed unexpectedly"),
        other => panic!("unexpected: {:?}", other),
    }
    assert!(!c.load_in_flight);
}

#[test]
fn stale_load_is_discarded() {
    let mut c = Controller::new();
    c.view.rotation_deg = 90;
    let first = c.begin_background_load();
    let second = c.begin_background_load();
    assert_ne!(first, second);
    let view =
        ViewState { rotation_deg: 0, mirror_h: true, mirror_v: false, fit_mode: FitMode::Fit };
    assert!(matches!(
        c.on_load_polled(first, LoadOutcome::Loaded(view)),
        LoadDecision::Discard
    ));
    assert!(c.load_in_flight && c.render_dirty);
    assert_eq!(c.view.rotation_deg, 90);
    assert!(matches!(
        c.on_load_polled(second, LoadOutcome::Loaded(view)),
        LoadDecision::SwapIn
    ));
    assert_eq!(c.view, view);
    c.load_generation = u64::MAX;
    assert_eq!(c.begin_background_load(), 0);
}

#[test]
fn render_dimensions_are_clamped() {
    assert_eq!(MAX_RENDER_DIM, 4096);
    assert_eq!(clamp_dimension(0), 1);
    assert_eq!(clamp_dimension(1), 1);
    assert_eq!(clamp_dimension(800), 800);
    assert_eq!(clamp_dimension(4096), 4096);
    assert_eq!(clamp_dimension(4097), 4096);
    assert_eq!(clamp_dimension(u32::MAX), 4096);
    assert_eq!(render_size(0, 10000), (1, 4096));
    assert_eq!(render_size(100, 75), (100, 75));
}

#[test]
fn clipboard_takes_the_greater_size() {
    assert_eq!(clipboard_size((800, 600), (200, 150)), (800, 600));
    assert_eq!(clipboard_size((100, 600), (200, 150)), (200, 600));
    assert_eq!(clipboard_size((0, 0), (200, 150)), (200, 150));
    assert_eq!(clipboard_size((7, 7), (7, 7)), (7, 7));
}

#[test]
fn shortcuts_without_a_file() {
    let mut k = with_command();
    k.key_o = true;
    k.key_q = true;
    k.key_c = true;
    let (action, quit) = handle_shortcuts(&k, false);
    let mut expected = ToolbarAction::default();
    expected.open_file = true;
    assert_eq!(action, expected);
    assert!(!quit);
    let mut k = no_keys();
    k.key_r = true;
    k.key_arrow_left = true;
    assert_eq!(handle_shortcuts(&k, false), (ToolbarAction::default(), false));
}

#[test]
fn shortcuts_with_plain_keys() {
    let mut k = no_keys();
    k.key_arrow_left = true;
    k.key_arrow_right = true;
    k.key_r = true;
    k.key_h = true;
    k.key_v = true;
    k.key_t = true;
    k.key_o = true;
    k.key_q = true;
    k.key_0 = true;
    let (action, quit) = handle_shortcuts(&k, true);
    let mut expected = ToolbarAction::default();
    expected.prev_file = true;
    expected.next_file = true;
    expected.rotate_cw = true;
    expected.mirror_h = true;
    expected.mirror_v = true;
    expected.toggle_bg = true;
    assert_eq!(action, expected);
    assert!(!quit);
}

#[test]
fn shortcuts_with_shift() {
    let mut k = no_keys();
    k.shift = true;
    k.no_modifiers = false;
    k.key_r = true;
    k.key_h = true;
    k.key_t = true;
    let (action, _) = handle_shortcuts(&k, true);
    let mut expected = ToolbarAction::default();
    expected.rotate_ccw = true;
    assert_eq!(action, expected);
}

#[test]
fn shortcuts_with_command() {
    let mut k = with_command();
    k.key_o = true;
    k.key_plus = true;
    k.key_minus = true;
    k.key_0 = true;
    k.key_1 = true;
    k.key_r = true;
    k.key_c = true;
    k.key_e = true;
    k.key_arrow_left = true;
    k.key_h = true;
    let (action, quit) = handle_shortcuts(&k, true);
    let mut expected = ToolbarAction::default();
    expected.open_file = true;
    expected.zoom_in = true;
    expected.zoom_out = true;
    expected.fit_to_window = true;
    expected.actual_size = true;
    expected.reset_view = true;
    expected.copy_clipboard = true;
    assert_eq!(action, expected);
    assert!(!quit);

    let mut k = with_command();
    k.key_equals = true;
    k.key_q = true;
    let (action, quit) = handle_shortcuts(&k, true);
    let mut expected = ToolbarAction::default();
    expected.zoom_in = true;
    assert_eq!(action, expected);
    assert!(quit);

    let mut k = with_command();
    k.shift = true;
    k.key_e = true;
    k.key_r = true;
    let (action, _) = handle_shortcuts(&k, true);
    let mut expected = ToolbarAction::default();
    expected.export = true;
    assert_eq!(action, expected);
}

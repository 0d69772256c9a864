use crate::actions::ToolbarAction;
use vstd::prelude::*;

verus! {

/// The keys that were pressed in one frame, and the modifiers held.
#[derive(Clone, Copy, Debug, PartialEq, Eq, Structural)]
pub struct KeyboardInput {
    /// The primary modifier of the platform is held: Command on macOS,
    /// Control elsewhere.
    pub command: bool,
    pub shift: bool,
    /// No modifier at all is held.
    pub no_modifiers: bool,
    pub key_o: bool,
    pub key_arrow_left: bool,
    pub key_arrow_right: bool,
    pub key_plus: bool,
    pub key_equals: bool,
    pub key_minus: bool,
    pub key_0: bool,
    pub key_1: bool,
    pub key_r: bool,
    pub key_h: bool,
    pub key_v: bool,
    pub key_e: bool,
    pub key_c: bool,
    pub key_t: bool,
    pub key_q: bool,
}

/// The requests that the pressed keys stand for. Without a document only
/// "open" is available.
pub open spec fn shortcut_action(input: KeyboardInput, has_file: bool) -> ToolbarAction {
    ToolbarAction {
        open_file: input.command && input.key_o,
        prev_file: has_file && input.key_arrow_left && !input.command,
        next_file: has_file && input.key_arrow_right && !input.command,
        fit_to_window: has_file && input.command && input.key_0,
        actual_size: has_file && input.command && input.key_1,
        zoom_in: has_file && input.command && (input.key_plus || input.key_equals),
        zoom_out: has_file && input.command && input.key_minus,
        rotate_cw: has_file && input.key_r && !input.command && !input.shift,
        rotate_ccw: has_file && input.key_r && !input.command && input.shift,
        mirror_h: has_file && input.key_h && input.no_modifiers,
        mirror_v: has_file && input.key_v && input.no_modifiers,
        export: has_file && input.command && input.shift && input.key_e,
        copy_clipboard: has_file && input.command && input.key_c,
        toggle_bg: has_file && input.key_t && input.no_modifiers,
        toggle_theme: false,
        reset_view: has_file && input.command && input.key_r && !input.shift,
    }
}

/// Whether the pressed keys ask to quit.
pub open spec fn shortcut_quits(input: KeyboardInput, has_file: bool) -> bool {
    has_file && input.command && input.key_q
}

/// Turns the keys of one frame into the requests they stand for. The second
/// part of the answer says whether the user asked to quit.
pub fn handle_shortcuts(input: &KeyboardInput, has_file: bool) -> (result: (ToolbarAction, bool))
    ensures
        result.0 == shortcut_action(*input, has_file),
        result.1 == shortcut_quits(*input, has_file),
{
    let mut action = ToolbarAction::default();
    if input.command && input.key_o {
        action.open_file = true;
    }
    if !has_file {
        return (action, false);
    }
    if input.key_arrow_left && !input.command {
        action.prev_file = true;
    }
    if input.key_arrow_right && !input.command {
        action.next_file = true;
    }
    if input.command && input.key_plus {
        action.zoom_in = true;
    }
    if input.command && input.key_equals {
        action.zoom_in = true;
    }
    if input.command && input.key_minus {
        action.zoom_out = true;
    }
    if input.command && input.key_0 {
        action.fit_to_window = true;
    }
    if input.command && input.key_1 {
        action.actual_size = true;
    }
    if input.key_r && !input.command {
        if input.shift {
            action.rotate_ccw = true;
        } else {
            action.rotate_cw = true;
        }
    }
    if input.key_h && input.no_modifiers {
        action.mirror_h = true;
    }
    if input.key_v && input.no_modifiers {
        action.mirror_v = true;
    }
    if input.command && input.shift && input.key_e {
        action.export = true;
    }
    if input.command && input.key_c {
        action.copy_clipboard = true;
    }
    if input.key_t && input.no_modifiers {
        action.toggle_bg = true;
    }
    if input.command && input.key_r && !input.shift {
        action.reset_view = true;
    }
    (action, input.command && input.key_q)
}

} // verus!

use vstd::prelude::*;

verus! {

/// What the user asked for in one frame, through the toolbar or the
/// keyboard: one flag per request.
#[derive(Clone, Copy, Debug, PartialEq, Eq, Structural)]
pub struct ToolbarAction {
    pub open_file: bool,
    pub prev_file: bool,
    pub next_file: bool,
    pub fit_to_window: bool,
    pub actual_size: bool,
    pub zoom_in: bool,
    pub zoom_out: bool,
    pub rotate_cw: bool,
    pub rotate_ccw: bool,
    pub mirror_h: bool,
    pub mirror_v: bool,
    pub export: bool,
    pub copy_clipboard: bool,
    pub toggle_bg: bool,
    pub toggle_theme: bool,
    pub reset_view: bool,
}

impl ToolbarAction {
    /// The action that asks for nothing.
    pub open spec fn nothing() -> ToolbarAction {
        ToolbarAction {
            open_file: false,
            prev_file: false,
            next_file: false,
            fit_to_window: false,
            actual_size: false,
            zoom_in: false,
            zoom_out: false,
            rotate_cw: false,
            rotate_ccw: false,
            mirror_h: false,
            mirror_v: false,
            export: false,
            copy_clipboard: false,
            toggle_bg: false,
            toggle_theme: false,
            reset_view: false,
        }
    }
}

impl Default for ToolbarAction {
    fn default() -> (action: Self)
        ensures
            action == ToolbarAction::nothing(),
    {
        ToolbarAction {
            open_file: false,
            prev_file: false,
            next_file: false,
            fit_to_window: false,
            actual_size: false,
            zoom_in: false,
            zoom_out: false,
            rotate_cw: false,
            rotate_ccw: false,
            mirror_h: false,
            mirror_v: false,
            export: false,
            copy_clipboard: false,
            toggle_bg: false,
            toggle_theme: false,
            reset_view: false,
        }
    }
}

/// One request of the user.
#[derive(Clone, Copy, Debug, PartialEq, Eq, Structural)]
pub enum Command {
    OpenFile,
    PrevFile,
    NextFile,
    FitToWindow,
    ActualSize,
    ZoomIn,
    ZoomOut,
    RotateCw,
    RotateCcw,
    MirrorH,
    MirrorV,
    Export,
    CopyClipboard,
    ToggleBackground,
    ToggleTheme,
    ResetView,
}

/// `commands` with `command` behind it, where `asked` is set.
pub open spec fn with_command(commands: Seq<Command>, asked: bool, command: Command) -> Seq<
    Command,
> {
    if asked {
        commands.push(command)
    } else {
        commands
    }
}

/// The requests of one action, in the order in which they are carried out:
/// files first, then zoom, rotation and mirroring, then export and
/// clipboard, then the toggles, and the reset of the view last.
pub open spec fn commands_of(action: ToolbarAction) -> Seq<Command> {
    let c = Seq::<Command>::empty();
    let c = with_command(c, action.open_file, Command::OpenFile);
    let c = with_command(c, action.prev_file, Command::PrevFile);
    let c = with_command(c, action.next_file, Command::NextFile);
    let c = with_command(c, action.fit_to_window, Command::FitToWindow);
    let c = with_command(c, action.actual_size, Command::ActualSize);
    let c = with_command(c, action.zoom_in, Command::ZoomIn);
    let c = with_command(c, action.zoom_out, Command::ZoomOut);
    let c = with_command(c, action.rotate_cw, Command::RotateCw);
    let c = with_command(c, action.rotate_ccw, Command::RotateCcw);
    let c = with_command(c, action.mirror_h, Command::MirrorH);
    let c = with_command(c, action.mirror_v, Command::MirrorV);
    let c = with_command(c, action.export, Command::Export);
    let c = with_command(c, action.copy_clipboard, Command::CopyClipboard);
    let c = with_command(c, action.toggle_bg, Command::ToggleBackground);
    let c = with_command(c, action.toggle_theme, Command::ToggleTheme);
    with_command(c, action.reset_view, Command::ResetView)
}

fn push_if(commands: &mut Vec<Command>, asked: bool, command: Command)
    ensures
        final(commands)@ == with_command(old(commands)@, asked, command),
{
    if asked {
        commands.push(command);
    }
}

/// Lists the requests of `action` in the order in which they are carried
/// out.
pub fn commands(action: &ToolbarAction) -> (list: Vec<Command>)
    ensures
        list@ == commands_of(*action),
{
    let mut list: Vec<Command> = Vec::new();
    push_if(&mut list, action.open_file, Command::OpenFile);
    push_if(&mut list, action.prev_file, Command::PrevFile);
    push_if(&mut list, action.next_file, Command::NextFile);
    push_if(&mut list, action.fit_to_window, Command::FitToWindow);
    push_if(&mut list, action.actual_size, Command::ActualSize);
    push_if(&mut list, action.zoom_in, Command::ZoomIn);
    push_if(&mut list, action.zoom_out, Command::ZoomOut);
    push_if(&mut list, action.rotate_cw, Command::RotateCw);
    push_if(&mut list, action.rotate_ccw, Command::RotateCcw);
    push_if(&mut list, action.mirror_h, Command::MirrorH);
    push_if(&mut list, action.mirror_v, Command::MirrorV);
    push_if(&mut list, action.export, Command::Export);
    push_if(&mut list, action.copy_clipboard, Command::CopyClipboard);
    push_if(&mut list, action.toggle_bg, Command::ToggleBackground);
    push_if(&mut list, action.toggle_theme, Command::ToggleTheme);
    push_if(&mut list, action.reset_view, Command::ResetView);
    list
}

/// How the export dialog was closed.
#[derive(Clone, Copy, Debug, PartialEq, Eq, Structural)]
pub enum ExportDialogResult {
    /// The dialog is open, or its answer was consumed.
    Undecided,
    Export,
    Cancel,
}

impl ExportDialogResult {
    /// Consumes the result of the dialog: it is `Undecided` afterwards, and the
    /// answer says whether the export is to be carried out.
    pub fn take(&mut self) -> (export: bool)
        ensures
            *final(self) == ExportDialogResult::Undecided,
            export == (*old(self) == ExportDialogResult::Export),
    {
        let export = match self {
            ExportDialogResult::Export => true,
            _ => false,
        };
        *self = ExportDialogResult::Undecided;
        export
    }
}

} // verus!

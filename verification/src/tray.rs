//! The tray menu: which entries it shows in which recording state, and what
//! choosing an entry asks for.

use vstd::prelude::*;
use vstd::string::*;

verus! {

/// The recording state that the tray shows, with the states in between.
#[derive(Clone, Copy, Debug, PartialEq, Eq, Structural)]
pub enum RecordingState {
    Stopped,
    Starting,
    Recording,
    Pausing,
    Paused,
    Resuming,
    Stopping,
}

/// One line of the tray menu.
#[derive(Clone, Copy, Debug, PartialEq, Eq)]
pub enum MenuEntry {
    /// An entry that can be chosen.
    Item { id: &'static str, label: &'static str },
    /// A greyed-out line that says what is going on.
    Notice { label: &'static str },
    Separator,
}

/// What choosing a menu entry asks for.
#[derive(Clone, Copy, Debug, PartialEq, Eq, Structural)]
pub enum MenuAction {
    ToggleRecording,
    PauseRecording,
    ResumeRecording,
    StopRecording,
    OpenWindow,
    Settings,
    Quit,
    Nothing,
}

/// The entries that depend on the state, above the first separator.
pub open spec fn state_entries(state: RecordingState) -> Seq<MenuEntry> {
    let stop = MenuEntry::Item { id: "stop_recording", label: "⏹ Stop Recording" };
    match state {
        RecordingState::Stopped => Seq::empty().push(
            MenuEntry::Item { id: "toggle_recording", label: "Start Recording" },
        ),
        RecordingState::Starting => Seq::empty().push(
            MenuEntry::Notice { label: "🔄 Starting Recording..." },
        ),
        RecordingState::Recording => Seq::empty().push(
            MenuEntry::Item { id: "pause_recording", label: "⏸ Pause Recording" },
        ).push(stop),
        RecordingState::Pausing => Seq::empty().push(MenuEntry::Notice { label: "⏸ Pausing..." }).push(
            stop,
        ),
        RecordingState::Paused => Seq::empty().push(
            MenuEntry::Item { id: "resume_recording", label: "▶ Resume Recording" },
        ).push(stop),
        RecordingState::Resuming => Seq::empty().push(
            MenuEntry::Notice { label: "▶ Resuming..." },
        ).push(stop),
        RecordingState::Stopping => Seq::empty().push(MenuEntry::Notice { label: "⏹ Stopping..." }),
    }
}

/// The whole menu in a state: the entries of the state, then the window,
/// the settings and quit, set off by separators.
pub open spec fn menu_entries(state: RecordingState) -> Seq<MenuEntry> {
    state_entries(state).push(MenuEntry::Separator).push(
        MenuEntry::Item { id: "open_window", label: "Open Main Window" },
    ).push(MenuEntry::Item { id: "settings", label: "Settings" }).push(MenuEntry::Separator).push(
        MenuEntry::Item { id: "quit", label: "Quit" },
    )
}

/// What the entry with the given id asks for; an unknown id asks for nothing.
pub open spec fn action_for(item_id: Seq<char>) -> MenuAction {
    if item_id == "toggle_recording"@ {
        MenuAction::ToggleRecording
    } else if item_id == "pause_recording"@ {
        MenuAction::PauseRecording
    } else if item_id == "resume_recording"@ {
        MenuAction::ResumeRecording
    } else if item_id == "stop_recording"@ {
        MenuAction::StopRecording
    } else if item_id == "open_window"@ {
        MenuAction::OpenWindow
    } else if item_id == "settings"@ {
        MenuAction::Settings
    } else if item_id == "quit"@ {
        MenuAction::Quit
    } else {
        MenuAction::Nothing
    }
}

/// The state the tray settles on: stopped without a session, else paused or
/// recording.
pub open spec fn settled_state(is_recording: bool, is_paused: bool) -> RecordingState {
    if !is_recording {
        RecordingState::Stopped
    } else if is_paused {
        RecordingState::Paused
    } else {
        RecordingState::Recording
    }
}

/// The state the tray shows at once when an entry is chosen, before the
/// command has run; none where the entry starts no transition.
pub open spec fn transient_state(action: MenuAction, is_recording: bool) -> Option<RecordingState> {
    match action {
        MenuAction::ToggleRecording => Some(
            if is_recording {
                RecordingState::Stopping
            } else {
                RecordingState::Starting
            },
        ),
        MenuAction::PauseRecording => Some(RecordingState::Pausing),
        MenuAction::ResumeRecording => Some(RecordingState::Resuming),
        MenuAction::StopRecording => Some(RecordingState::Stopping),
        _ => None,
    }
}

/// The file name of a recording saved at the given time stamp.
pub open spec fn recording_file_name_text(stamp: Seq<char>) -> Seq<char> {
    "recording-"@ + stamp + ".wav"@
}

/// Builds the tray menu for a state.
pub fn build_menu(state: RecordingState) -> (r: Vec<MenuEntry>)
    ensures
        r@ == menu_entries(state),
{
    let stop = MenuEntry::Item { id: "stop_recording", label: "⏹ Stop Recording" };
    let mut menu: Vec<MenuEntry> = Vec::new();
    match state {
        RecordingState::Stopped => {
            menu.push(MenuEntry::Item { id: "toggle_recording", label: "Start Recording" });
        },
        RecordingState::Starting => {
            menu.push(MenuEntry::Notice { label: "🔄 Starting Recording..." });
        },
        RecordingState::Recording => {
            menu.push(MenuEntry::Item { id: "pause_recording", label: "⏸ Pause Recording" });
            menu.push(stop);
        },
        RecordingState::Pausing => {
            menu.push(MenuEntry::Notice { label: "⏸ Pausing..." });
            menu.push(stop);
        },
        RecordingState::Paused => {
            menu.push(MenuEntry::Item { id: "resume_recording", label: "▶ Resume Recording" });
            menu.push(stop);
        },
        RecordingState::Resuming => {
            menu.push(MenuEntry::Notice { label: "▶ Resuming..." });
            menu.push(stop);
        },
        RecordingState::Stopping => {
            menu.push(MenuEntry::Notice { label: "⏹ Stopping..." });
        },
    }
    assert(menu@ =~= state_entries(state));
    menu.push(MenuEntry::Separator);
    menu.push(MenuEntry::Item { id: "open_window", label: "Open Main Window" });
    menu.push(MenuEntry::Item { id: "settings", label: "Settings" });
    menu.push(MenuEntry::Separator);
    menu.push(MenuEntry::Item { id: "quit", label: "Quit" });
    menu
}

/// Reads what the chosen menu entry asks for.
pub fn handle_menu_event(item_id: &str) -> (r: MenuAction)
    ensures
        r == action_for(item_id@),
{
    let chosen = String::from_str(item_id);
    if chosen == String::from_str("toggle_recording") {
        MenuAction::ToggleRecording
    } else if chosen == String::from_str("pause_recording") {
        MenuAction::PauseRecording
    } else if chosen == String::from_str("resume_recording") {
        MenuAction::ResumeRecording
    } else if chosen == String::from_str("stop_recording") {
        MenuAction::StopRecording
    } else if chosen == String::from_str("open_window") {
        MenuAction::OpenWindow
    } else if chosen == String::from_str("settings") {
        MenuAction::Settings
    } else if chosen == String::from_str("quit") {
        MenuAction::Quit
    } else {
        MenuAction::Nothing
    }
}

/// The state the tray settles on, from the recorder's two flags.
pub fn get_current_recording_state(is_recording: bool, is_paused: bool) -> (r: RecordingState)
    ensures
        r == settled_state(is_recording, is_paused),
{
    if !is_recording {
        RecordingState::Stopped
    } else if is_paused {
        RecordingState::Paused
    } else {
        RecordingState::Recording
    }
}

/// The state the tray shows at once when an entry is chosen.
pub fn intermediate_state(action: MenuAction, is_recording: bool) -> (r: Option<RecordingState>)
    ensures
        r == transient_state(action, is_recording),
{
    match action {
        MenuAction::ToggleRecording => Some(
            if is_recording {
                RecordingState::Stopping
            } else {
                RecordingState::Starting
            },
        ),
        MenuAction::PauseRecording => Some(RecordingState::Pausing),
        MenuAction::ResumeRecording => Some(RecordingState::Resuming),
        MenuAction::StopRecording => Some(RecordingState::Stopping),
        _ => None,
    }
}

/// The file name of a recording saved at the given time stamp.
pub fn recording_file_name(stamp: &str) -> (r: String)
    ensures
        r@ == recording_file_name_text(stamp@),
{
    String::from_str("recording-").concat(stamp).concat(".wav")
}

} // verus!

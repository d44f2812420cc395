//! Decisions of the speech-to-text overlay: which command a button action
//! names, what starting a recording does, and how a transcript is pasted.

use vstd::prelude::*;
use crate::text::{chars_eq_str, chars_of, first_word, first_word_chars};

verus! {

/// A command that a button of the overlay can carry.
#[derive(Clone, Copy, Debug, PartialEq, Eq, Structural)]
pub enum WhisperCommand {
    TranscribeStart,
    TranscribeStop,
    Paste,
    Unload,
}

/// What a button's action text means.
#[derive(Clone, Copy, Debug, PartialEq, Eq, Structural)]
pub enum ActionCommand {
    /// The action holds no word: try the next event name.
    Blank,
    /// The action names something the overlay does not handle: registering
    /// handlers for this button stops here (handlers already registered for
    /// its earlier events stay).
    Unknown,
    /// One of the overlay's commands.
    Command(WhisperCommand),
}

/// The command named by an action's first word.
pub open spec fn command_of(action: Seq<char>) -> ActionCommand {
    match first_word(action) {
        None => ActionCommand::Blank,
        Some(w) => if w == "::WhisperTranscribeStart"@ {
            ActionCommand::Command(WhisperCommand::TranscribeStart)
        } else if w == "::WhisperTranscribeStop"@ {
            ActionCommand::Command(WhisperCommand::TranscribeStop)
        } else if w == "::WhisperPaste"@ {
            ActionCommand::Command(WhisperCommand::Paste)
        } else if w == "::WhisperUnload"@ {
            ActionCommand::Command(WhisperCommand::Unload)
        } else {
            ActionCommand::Unknown
        },
    }
}

/// Reads a button's action text.
pub fn parse_action(action: &str) -> (r: ActionCommand)
    ensures
        r == command_of(action@),
{
    let v = chars_of(action);
    match first_word_chars(v.as_slice()) {
        None => ActionCommand::Blank,
        Some(w) => {
            let w = w.as_slice();
            if chars_eq_str(w, "::WhisperTranscribeStart") {
                ActionCommand::Command(WhisperCommand::TranscribeStart)
            } else if chars_eq_str(w, "::WhisperTranscribeStop") {
                ActionCommand::Command(WhisperCommand::TranscribeStop)
            } else if chars_eq_str(w, "::WhisperPaste") {
                ActionCommand::Command(WhisperCommand::Paste)
            } else if chars_eq_str(w, "::WhisperUnload") {
                ActionCommand::Command(WhisperCommand::Unload)
            } else {
                ActionCommand::Unknown
            }
        },
    }
}

/// What the start button does.
#[derive(Clone, Copy, Debug, PartialEq, Eq, Structural)]
pub enum StartAction {
    /// A recognizer is loaded: start recording.
    StartRecording,
    /// Load the recognizer from the model file (recording starts on the
    /// next press).
    LoadModel,
    /// Tell the user that the model has to be downloaded first.
    NotifyModelMissing,
}

pub fn start_action(has_recognizer: bool, model_file_exists: bool) -> (a: StartAction)
    ensures
        a == (if has_recognizer {
            StartAction::StartRecording
        } else if model_file_exists {
            StartAction::LoadModel
        } else {
            StartAction::NotifyModelMissing
        }),
{
    if has_recognizer {
        StartAction::StartRecording
    } else if model_file_exists {
        StartAction::LoadModel
    } else {
        StartAction::NotifyModelMissing
    }
}

/// Where keyboard input goes.
#[derive(Clone, Copy, Debug, PartialEq, Eq, Structural)]
pub enum KeyboardFocus {
    WayVR,
    PhysicalScreen,
}

/// Where a transcript is put before pasting.
#[derive(Clone, Copy, Debug, PartialEq, Eq, Structural)]
pub enum PasteTarget {
    /// The clipboard of the embedded compositor.
    WayVrClipboard,
    /// The desktop's clipboard.
    DesktopClipboard,
}

/// Where to put the transcript for the focused side, if that side has a
/// clipboard; with no transcript there is nothing to paste.
pub fn paste_target(
    has_transcription: bool,
    focus: KeyboardFocus,
    has_wayvr_server: bool,
    has_desktop_clipboard: bool,
) -> (t: Option<PasteTarget>)
    ensures
        t == (if !has_transcription {
            None
        } else {
            match focus {
                KeyboardFocus::WayVR => if has_wayvr_server {
                    Some(PasteTarget::WayVrClipboard)
                } else {
                    None
                },
                KeyboardFocus::PhysicalScreen => if has_desktop_clipboard {
                    Some(PasteTarget::DesktopClipboard)
                } else {
                    None
                },
            }
        }),
{
    if !has_transcription {
        return None;
    }
    match focus {
        KeyboardFocus::WayVR => if has_wayvr_server {
            Some(PasteTarget::WayVrClipboard)
        } else {
            None
        },
        KeyboardFocus::PhysicalScreen => if has_desktop_clipboard {
            Some(PasteTarget::DesktopClipboard)
        } else {
            None
        },
    }
}

/// A key of the paste shortcut.
#[derive(Clone, Copy, Debug, PartialEq, Eq, Structural)]
pub enum PasteKey {
    RCtrl,
    V,
}

/// The key events that paste (Ctrl+V): right Ctrl down, V down, V up, right
/// Ctrl up.
pub fn paste_key_sequence() -> (keys: Vec<(PasteKey, bool)>)
    ensures
        keys@ == seq![
            (PasteKey::RCtrl, true),
            (PasteKey::V, true),
            (PasteKey::V, false),
            (PasteKey::RCtrl, false),
        ],
{
    let mut keys: Vec<(PasteKey, bool)> = Vec::new();
    keys.push((PasteKey::RCtrl, true));
    keys.push((PasteKey::V, true));
    keys.push((PasteKey::V, false));
    keys.push((PasteKey::RCtrl, false));
    keys
}

} // verus!

//! What the program tells its user: a severity and the identifier of a
//! message, never the text of an error.

use crate::config::UpdateChannel;
use crate::worker_loop::{UiCall, UiCallView};
use vstd::prelude::*;

verus! {

/// How serious a status message is.
#[derive(Clone, Copy, Debug, PartialEq, Eq, Structural)]
pub enum TextLevel {
    Info,
    Error,
}

pub const MESSAGE_INSTALL_IN_PROGRESS: &'static str = "message-info-install-in-progress-ffnx";

pub const MESSAGE_CHECK_UPDATE: &'static str = "message-info-check-ffnx-update";

pub const MESSAGE_UPGRADE_IN_PROGRESS: &'static str = "message-info-upgrade-in-progress-ffnx";

pub const MESSAGE_CANNOT_INSTALL: &'static str = "message-error-cannot-install-ffnx";

pub const MESSAGE_CANNOT_SAVE_FFNX_CONFIG: &'static str = "message-error-cannot-save-ffnx-config";

pub const MESSAGE_CANNOT_SAVE_CONFIG: &'static str = "message-error-cannot-save-mumba-config";

pub const MESSAGE_CANNOT_LAUNCH: &'static str = "message-error-cannot-launch-game";

pub const MESSAGE_FILE_NOT_FOUND: &'static str = "message-error-file-not-found";

pub const MESSAGE_UNKNOWN_ACTION: &'static str = "message-fatal-unknown-action";


/// What the setup wizard shows. It is kept nowhere: every run builds it
/// anew from what the orchestrator posts.
pub struct WizardStatus {
    /// The page that is shown.
    pub current_page: i32,
    /// Whether the game can be launched.
    pub is_ready: bool,
    /// Whether the game has been ready once.
    pub initialized: bool,
    /// The status that is shown: its severity and the identifier of its
    /// message; none where the status is clear.
    pub task_text: Option<(TextLevel, &'static str)>,
    /// The executable of the game that is offered or selected.
    pub game_exe_path: String,
    /// The update channel that is selected.
    pub update_channel: UpdateChannel,
}

/// A status with its texts as sequences of characters.
pub struct WizardStatusView {
    pub current_page: i32,
    pub is_ready: bool,
    pub initialized: bool,
    pub task_text: Option<(TextLevel, Seq<char>)>,
    pub game_exe_path: Seq<char>,
    pub update_channel: UpdateChannel,
}

impl View for WizardStatus {
    type V = WizardStatusView;

    open spec fn view(&self) -> WizardStatusView {
        WizardStatusView {
            current_page: self.current_page,
            is_ready: self.is_ready,
            initialized: self.initialized,
            task_text: match self.task_text {
                Some((level, message)) => Some((level, message@)),
                None => None,
            },
            game_exe_path: self.game_exe_path@,
            update_channel: self.update_channel,
        }
    }
}

/// What the wizard shows after a post of the orchestrator.
pub open spec fn posted(status: WizardStatusView, call: UiCallView) -> WizardStatusView {
    match call {
        UiCallView::SetTaskText(level, message) => WizardStatusView {
            task_text: Some((level, message)),
            ..status
        },
        UiCallView::ClearTaskText => WizardStatusView { task_text: None, ..status },
        UiCallView::SetGameReady(ready) => WizardStatusView { is_ready: ready, ..status },
        UiCallView::SetInitialized(initialized) => WizardStatusView { initialized, ..status },
        UiCallView::SetGameExePath(path) => WizardStatusView { game_exe_path: path, ..status },
        UiCallView::SetUpdateChannel(channel) => WizardStatusView { update_channel: channel, ..status },
        UiCallView::SetCurrentPage(page) => WizardStatusView { current_page: page, ..status },
        UiCallView::ShowSettings => status,
    }
}

impl WizardStatus {
    /// What the wizard shows when the program starts: the first page, no
    /// status, no game.
    pub fn new() -> (status: WizardStatus)
        ensures
            status@ == (WizardStatusView {
                current_page: 0,
                is_ready: false,
                initialized: false,
                task_text: None,
                game_exe_path: Seq::empty(),
                update_channel: UpdateChannel::Stable,
            }),
    {
        WizardStatus {
            current_page: 0,
            is_ready: false,
            initialized: false,
            task_text: None,
            game_exe_path: String::new(),
            update_channel: UpdateChannel::Stable,
        }
    }

    /// Takes a post of the orchestrator in.
    pub fn post(&mut self, call: &UiCall)
        ensures
            final(self)@ == posted(old(self)@, call@),
    {
        match call {
            UiCall::SetTaskText(level, message) => {
                self.task_text = Some((*level, *message));
            },
            UiCall::ClearTaskText => {
                self.task_text = None;
            },
            UiCall::SetGameReady(ready) => {
                self.is_ready = *ready;
            },
            UiCall::SetInitialized(initialized) => {
                self.initialized = *initialized;
            },
            UiCall::SetGameExePath(path) => {
                self.game_exe_path = path.clone();
            },
            UiCall::SetUpdateChannel(channel) => {
                self.update_channel = *channel;
            },
            UiCall::SetCurrentPage(page) => {
                self.current_page = *page;
            },
            UiCall::ShowSettings => {},
        }
    }
}


/// The language that stands at a place of the language list: French at the
/// second place, English at any other.
pub fn pos_to_language(language: i32) -> (tag: String)
    ensures
        tag@ == if language == 1 {
            "fr-FR"@
        } else {
            "en-US"@
        },
{
    if language == 1 {
        "fr-FR".to_string()
    } else {
        "en-US".to_string()
    }
}

} // verus!

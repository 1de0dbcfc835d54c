//! The preference reconciler: an exchange with the settings store and the
//! auto-launch service that persists the settings and brings the operating
//! system's auto-launch registration in line with them.
//!
//! The host carries out one command at a time and hands back the reply; the
//! reconciler answers with the next command or with the result of the pass.

use vstd::prelude::*;
use crate::json::{json_members, JsonMember};
use crate::settings::{
    settings_to_document, written_members, AppSettings, SettingsError, SettingsErrorView,
};

verus! {

/// Something the host is asked to do for the reconciler.
#[derive(Debug, PartialEq, Eq)]
pub enum SettingsCommand {
    /// Put the document into the settings store and save the store.
    Store { document: serde_json::Value },
    /// Ask the auto-launch service whether the application is registered.
    QueryAutoLaunch,
    /// Register the application for auto-launch.
    EnableAutoLaunch,
    /// Unregister the application from auto-launch.
    DisableAutoLaunch,
}

/// The mathematical value of a [`SettingsCommand`].
pub enum SettingsCommandView {
    Store { members: Map<Seq<char>, JsonMember> },
    QueryAutoLaunch,
    EnableAutoLaunch,
    DisableAutoLaunch,
}

impl View for SettingsCommand {
    type V = SettingsCommandView;

    open spec fn view(&self) -> SettingsCommandView {
        match self {
            SettingsCommand::Store { document } => SettingsCommandView::Store {
                members: json_members(*document),
            },
            SettingsCommand::QueryAutoLaunch => SettingsCommandView::QueryAutoLaunch,
            SettingsCommand::EnableAutoLaunch => SettingsCommandView::EnableAutoLaunch,
            SettingsCommand::DisableAutoLaunch => SettingsCommandView::DisableAutoLaunch,
        }
    }
}

/// How a command ended.
#[derive(Debug, PartialEq, Eq)]
pub enum ServiceReply {
    /// The command was carried out.
    Done,
    /// The answer to `QueryAutoLaunch`.
    AutoLaunch { enabled: bool },
    /// The settings store could not be opened.
    Unavailable { detail: String },
    /// The command could not be carried out.
    Failed { detail: String },
}

/// The mathematical value of a [`ServiceReply`].
pub enum ServiceReplyView {
    Done,
    AutoLaunch { enabled: bool },
    Unavailable { detail: Seq<char> },
    Failed { detail: Seq<char> },
}

impl View for ServiceReply {
    type V = ServiceReplyView;

    open spec fn view(&self) -> ServiceReplyView {
        match self {
            ServiceReply::Done => ServiceReplyView::Done,
            ServiceReply::AutoLaunch { enabled } => ServiceReplyView::AutoLaunch {
                enabled: *enabled,
            },
            ServiceReply::Unavailable { detail } => ServiceReplyView::Unavailable {
                detail: detail@,
            },
            ServiceReply::Failed { detail } => ServiceReplyView::Failed { detail: detail@ },
        }
    }
}

/// What the reconciler waits for.
#[derive(Clone, Copy, Debug, PartialEq, Eq, Structural)]
pub enum ReconcileStage {
    /// The settings are being stored.
    Storing,
    /// The auto-launch registration is being read.
    Checking,
    /// The auto-launch registration is being changed.
    Applying,
}

/// The value of a reconciler: the auto-launch registration that is wanted, and
/// what is outstanding.
#[derive(Clone, Copy, Debug, PartialEq, Eq, Structural)]
pub struct ReconcilerState {
    pub wanted: bool,
    pub stage: ReconcileStage,
}

/// A pass of the reconciler in progress. It holds no copy of the settings
/// beyond the registration that is wanted, and ends with the pass.
#[derive(Debug)]
pub struct Reconciler {
    state: ReconcilerState,
}

impl View for Reconciler {
    type V = ReconcilerState;

    closed spec fn view(&self) -> ReconcilerState {
        self.state
    }
}

/// Where a pass stands after a reply: another command for the host, or the
/// result for the caller.
#[derive(Debug)]
pub enum Progress {
    Perform { command: SettingsCommand, reconciler: Reconciler },
    Finished { result: Result<(), SettingsError> },
}

/// The mathematical value of [`Progress`].
pub enum ProgressView {
    Perform { command: SettingsCommandView, state: ReconcilerState },
    Finished { result: Result<(), SettingsErrorView> },
}

impl View for Progress {
    type V = ProgressView;

    open spec fn view(&self) -> ProgressView {
        match self {
            Progress::Perform { command, reconciler } => ProgressView::Perform {
                command: command@,
                state: reconciler@,
            },
            Progress::Finished { result } => ProgressView::Finished {
                result: match result {
                    Ok(_) => Ok(()),
                    Err(error) => Err(error@),
                },
            },
        }
    }
}

/// The command that makes the registration what is wanted.
pub open spec fn registration_command(wanted: bool) -> SettingsCommandView {
    if wanted {
        SettingsCommandView::EnableAutoLaunch
    } else {
        SettingsCommandView::DisableAutoLaunch
    }
}

/// The error of a registration that could not be changed.
pub open spec fn registration_error(wanted: bool, detail: Seq<char>) -> SettingsErrorView {
    if wanted {
        SettingsErrorView::EnableAutoLaunch { detail }
    } else {
        SettingsErrorView::DisableAutoLaunch { detail }
    }
}

/// Taking the reply to the outstanding command.
///
/// Storing: a store that failed ends the pass with its error, and the
/// registration is not looked at; otherwise the registration is read.
/// Checking: a registration that is read and is what is wanted ends the pass;
/// one that differs, or could not be read, is changed. Applying: the pass ends
/// with the outcome of the change. What was stored stays stored whatever
/// comes after.
pub open spec fn reconcile_step(state: ReconcilerState, reply: ServiceReplyView) -> ProgressView {
    match state.stage {
        ReconcileStage::Storing => match reply {
            ServiceReplyView::Unavailable { detail } => ProgressView::Finished {
                result: Err(SettingsErrorView::OpenStore { detail }),
            },
            ServiceReplyView::Failed { detail } => ProgressView::Finished {
                result: Err(SettingsErrorView::Save { detail }),
            },
            _ => ProgressView::Perform {
                command: SettingsCommandView::QueryAutoLaunch,
                state: ReconcilerState { wanted: state.wanted, stage: ReconcileStage::Checking },
            },
        },
        ReconcileStage::Checking => if reply == (ServiceReplyView::AutoLaunch {
            enabled: state.wanted,
        }) {
            ProgressView::Finished { result: Ok(()) }
        } else {
            ProgressView::Perform {
                command: registration_command(state.wanted),
                state: ReconcilerState { wanted: state.wanted, stage: ReconcileStage::Applying },
            }
        },
        ReconcileStage::Applying => match reply {
            ServiceReplyView::Unavailable { detail } => ProgressView::Finished {
                result: Err(registration_error(state.wanted, detail)),
            },
            ServiceReplyView::Failed { detail } => ProgressView::Finished {
                result: Err(registration_error(state.wanted, detail)),
            },
            _ => ProgressView::Finished { result: Ok(()) },
        },
    }
}

/// Begins writing `settings`: the whole of them is stored first.
pub fn set_settings(settings: &AppSettings) -> (r: (Reconciler, SettingsCommand))
    ensures
        r.0@ == (ReconcilerState { wanted: settings.auto_launch, stage: ReconcileStage::Storing }),
        r.1@ == (SettingsCommandView::Store { members: written_members(settings@) }),
{
    let document = settings_to_document(settings);
    (
        Reconciler::at(settings.auto_launch, ReconcileStage::Storing),
        SettingsCommand::Store { document },
    )
}

/// Begins changing the auto-launch registration to `enabled`.
pub fn set_auto_launch(enabled: bool) -> (r: (Reconciler, SettingsCommand))
    ensures
        r.0@ == (ReconcilerState { wanted: enabled, stage: ReconcileStage::Applying }),
        r.1@ == registration_command(enabled),
{
    let reconciler = Reconciler::at(enabled, ReconcileStage::Applying);
    if enabled {
        (reconciler, SettingsCommand::EnableAutoLaunch)
    } else {
        (reconciler, SettingsCommand::DisableAutoLaunch)
    }
}

/// Begins bringing the auto-launch registration in line with the persisted
/// `settings`, as is done at startup.
pub fn reconcile_auto_launch(settings: &AppSettings) -> (r: (Reconciler, SettingsCommand))
    ensures
        r.0@ == (ReconcilerState { wanted: settings.auto_launch, stage: ReconcileStage::Checking }),
        r.1@ == SettingsCommandView::QueryAutoLaunch,
{
    (
        Reconciler::at(settings.auto_launch, ReconcileStage::Checking),
        SettingsCommand::QueryAutoLaunch,
    )
}

impl Reconciler {
    /// A pass that wants the registration to be `wanted` and stands at `stage`.
    fn at(wanted: bool, stage: ReconcileStage) -> (r: Reconciler)
        ensures
            r@ == (ReconcilerState { wanted, stage }),
    {
        Reconciler { state: ReconcilerState { wanted, stage } }
    }

    /// Takes the reply to the outstanding command.
    pub fn resume(self, reply: ServiceReply) -> (r: Progress)
        ensures
            r@ == reconcile_step(self@, reply@),
    {
        let wanted = self.state.wanted;
        match self.state.stage {
            ReconcileStage::Storing => match reply {
                ServiceReply::Unavailable { detail } => Progress::Finished {
                    result: Err(SettingsError::OpenStore { detail }),
                },
                ServiceReply::Failed { detail } => Progress::Finished {
                    result: Err(SettingsError::Save { detail }),
                },
                _ => Progress::Perform {
                    command: SettingsCommand::QueryAutoLaunch,
                    reconciler: Reconciler {
                        state: ReconcilerState { wanted, stage: ReconcileStage::Checking },
                    },
                },
            },
            ReconcileStage::Checking => {
                let in_line = match reply {
                    ServiceReply::AutoLaunch { enabled } => enabled == wanted,
                    _ => false,
                };
                if in_line {
                    Progress::Finished { result: Ok(()) }
                } else {
                    let reconciler = Reconciler {
                        state: ReconcilerState { wanted, stage: ReconcileStage::Applying },
                    };
                    let command = if wanted {
                        SettingsCommand::EnableAutoLaunch
                    } else {
                        SettingsCommand::DisableAutoLaunch
                    };
                    Progress::Perform { command, reconciler }
                }
            },
            ReconcileStage::Applying => match reply {
                ServiceReply::Unavailable { detail } => Progress::Finished {
                    result: Err(Self::change_failed(wanted, detail)),
                },
                ServiceReply::Failed { detail } => Progress::Finished {
                    result: Err(Self::change_failed(wanted, detail)),
                },
                _ => Progress::Finished { result: Ok(()) },
            },
        }
    }

    fn change_failed(wanted: bool, detail: String) -> (r: SettingsError)
        ensures
            r@ == registration_error(wanted, detail@),
    {
        if wanted {
            SettingsError::EnableAutoLaunch { detail }
        } else {
            SettingsError::DisableAutoLaunch { detail }
        }
    }
}

} // verus!

//! Haptic feedback on mobile devices: which call of the haptics service each
//! kind of feedback stands for.

use vstd::prelude::*;

verus! {

/// The kinds of feedback that the UI layer can ask for.
#[derive(Clone, Copy, Debug, PartialEq, Eq, Structural)]
pub enum HapticType {
    Light,
    Medium,
    Heavy,
    Selection,
    Success,
    Warning,
    Error,
}

/// How strong an impact feels.
#[derive(Clone, Copy, Debug, PartialEq, Eq, Structural)]
pub enum ImpactFeedbackStyle {
    Light,
    Medium,
    Heavy,
}

/// What a notification feedback tells.
#[derive(Clone, Copy, Debug, PartialEq, Eq, Structural)]
pub enum NotificationFeedbackType {
    Success,
    Warning,
    Error,
}

/// A call of the haptics service.
#[derive(Clone, Copy, Debug, PartialEq, Eq, Structural)]
pub enum HapticFeedback {
    Impact { style: ImpactFeedbackStyle },
    Selection,
    Notification { kind: NotificationFeedbackType },
}

/// The call that `haptic_type` stands for: the three weights are impacts, the
/// three outcomes are notifications, and a selection is a selection.
pub open spec fn feedback_for(haptic_type: HapticType) -> HapticFeedback {
    match haptic_type {
        HapticType::Light => HapticFeedback::Impact { style: ImpactFeedbackStyle::Light },
        HapticType::Medium => HapticFeedback::Impact { style: ImpactFeedbackStyle::Medium },
        HapticType::Heavy => HapticFeedback::Impact { style: ImpactFeedbackStyle::Heavy },
        HapticType::Selection => HapticFeedback::Selection,
        HapticType::Success => HapticFeedback::Notification {
            kind: NotificationFeedbackType::Success,
        },
        HapticType::Warning => HapticFeedback::Notification {
            kind: NotificationFeedbackType::Warning,
        },
        HapticType::Error => HapticFeedback::Notification { kind: NotificationFeedbackType::Error },
    }
}

/// The call of the haptics service that gives the feedback `haptic_type`.
pub fn trigger_haptic(haptic_type: HapticType) -> (r: HapticFeedback)
    ensures
        r == feedback_for(haptic_type),
{
    match haptic_type {
        HapticType::Light => HapticFeedback::Impact { style: ImpactFeedbackStyle::Light },
        HapticType::Medium => HapticFeedback::Impact { style: ImpactFeedbackStyle::Medium },
        HapticType::Heavy => HapticFeedback::Impact { style: ImpactFeedbackStyle::Heavy },
        HapticType::Selection => HapticFeedback::Selection,
        HapticType::Success => HapticFeedback::Notification {
            kind: NotificationFeedbackType::Success,
        },
        HapticType::Warning => HapticFeedback::Notification {
            kind: NotificationFeedbackType::Warning,
        },
        HapticType::Error => HapticFeedback::Notification { kind: NotificationFeedbackType::Error },
    }
}

/// Every call of the haptics service stands for one kind of feedback, and no
/// two kinds share a call.
pub proof fn lemma_feedback_one_to_one(a: HapticType, b: HapticType, call: HapticFeedback)
    ensures
        feedback_for(a) == feedback_for(b) ==> a == b,
        exists|kind: HapticType| feedback_for(kind) == call,
{
    match call {
        HapticFeedback::Impact { style: ImpactFeedbackStyle::Light } => {
            assert(feedback_for(HapticType::Light) == call);
        },
        HapticFeedback::Impact { style: ImpactFeedbackStyle::Medium } => {
            assert(feedback_for(HapticType::Medium) == call);
        },
        HapticFeedback::Impact { style: ImpactFeedbackStyle::Heavy } => {
            assert(feedback_for(HapticType::Heavy) == call);
        },
        HapticFeedback::Selection => {
            assert(feedback_for(HapticType::Selection) == call);
        },
        HapticFeedback::Notification { kind: NotificationFeedbackType::Success } => {
            assert(feedback_for(HapticType::Success) == call);
        },
        HapticFeedback::Notification { kind: NotificationFeedbackType::Warning } => {
            assert(feedback_for(HapticType::Warning) == call);
        },
        HapticFeedback::Notification { kind: NotificationFeedbackType::Error } => {
            assert(feedback_for(HapticType::Error) == call);
        },
    }
}

} // verus!

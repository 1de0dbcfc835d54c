//! Native notifications, as far as the shell decides anything about them: what
//! is handed to the notification service, and what its answers mean to the
//! caller.

use vstd::prelude::*;
use vstd::string::StringExecFns;

verus! {

/// What the UI layer asks to be notified of.
#[derive(Debug, PartialEq, Eq)]
pub struct NotificationOptions {
    pub title: String,
    pub body: Option<String>,
    pub action_type_id: Option<String>,
}

/// What the notification service is asked to show.
#[derive(Debug, PartialEq, Eq)]
pub struct Notification {
    pub title: String,
    pub body: Option<String>,
}

/// The mathematical value of a [`Notification`].
pub struct NotificationView {
    pub title: Seq<char>,
    pub body: Option<Seq<char>>,
}

/// The value of a text that may be absent.
pub open spec fn optional_text(text: Option<String>) -> Option<Seq<char>> {
    match text {
        Some(t) => Some(t@),
        None => None,
    }
}

impl View for Notification {
    type V = NotificationView;

    open spec fn view(&self) -> NotificationView {
        NotificationView { title: self.title@, body: optional_text(self.body) }
    }
}

/// The notification that `options` ask for: their title, and their body where
/// they have one. The action type is not shown.
pub fn show_notification(options: NotificationOptions) -> (r: Notification)
    ensures
        r@ == (NotificationView { title: options.title@, body: optional_text(options.body) }),
{
    Notification { title: options.title, body: options.body }
}

/// What the caller is told after the service was asked to show a
/// notification: nothing where it was shown, and otherwise the service's words
/// behind a fixed prefix.
pub fn notification_shown(outcome: Result<(), String>) -> (r: Result<(), String>)
    ensures
        match outcome {
            Ok(_) => r is Ok,
            Err(detail) => r matches Err(text) && text@ == "Failed to show notification: "@
                + detail@,
        },
{
    match outcome {
        Ok(_) => Ok(()),
        Err(detail) => Err("Failed to show notification: ".to_owned().concat(detail.as_str())),
    }
}

/// What the user decided about notifications.
#[derive(Clone, Copy, Debug, PartialEq, Eq, Structural)]
pub enum PermissionState {
    Granted,
    Denied,
    /// The user has not been asked yet, or has not answered.
    Undetermined,
}

/// Whether notifications may be shown, from what the permission request
/// returned: only a grant counts. An error of the service is passed on as it
/// is.
pub fn request_notification_permission(outcome: Result<PermissionState, String>) -> (r: Result<
    bool,
    String,
>)
    ensures
        match outcome {
            Ok(state) => r == Ok::<bool, String>(state == PermissionState::Granted),
            Err(detail) => r == Err::<bool, String>(detail),
        },
{
    match outcome {
        Ok(PermissionState::Granted) => Ok(true),
        Ok(_) => Ok(false),
        Err(detail) => Err(detail),
    }
}

/// A capability that the shell does not offer.
#[derive(Clone, Copy, Debug, PartialEq, Eq, Structural)]
pub enum CapabilityError {
    /// The platform gives no way to do this.
    Unsupported,
}

/// Setting the application's badge is not implemented on any platform: the
/// badge cannot be reached without deeper access to the platform, and so every
/// count is refused.
pub fn set_badge_count(count: u32) -> (r: Result<(), CapabilityError>)
    ensures
        r == Err::<(), CapabilityError>(CapabilityError::Unsupported),
{
    let _ = count;
    Err(CapabilityError::Unsupported)
}

} // verus!

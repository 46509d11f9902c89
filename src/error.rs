use vstd::prelude::*;

verus! {

/// Why showing a notification did not go through.
#[derive(Clone, Copy, Debug, PartialEq, Eq, Structural)]
pub enum NotificationError {
    /// The caller gave a number of fields that no layout has; nothing was
    /// asked of the host.
    InvalidFieldCount,
    /// The host could not supply the layout's document.
    TemplateUnavailable,
    /// A text slot that the layout should have could not be found.
    SlotIndexOutOfRange,
    /// The host refused to make a notification from the finished document.
    NotificationConstructionFailed,
    /// The host's notifier could not be had, or it refused the notification.
    SubmissionFailed,
}

} // verus!

//! The notifications of one asynchronous probe run.

use vstd::prelude::*;
use crate::outcome::{ProbeResult, ProbeResultView, UnreachableReason};

verus! {

/// One notification to the sink. A run announces itself with `Started` and ends
/// with one of the other two, the terminal notifications.
#[derive(Clone, Debug, PartialEq, Eq)]
pub enum ProbeNotification {
    /// The run has begun; no connection has been tried yet.
    Started,
    /// The host was reached.
    Succeeded { message: String },
    /// The host was not reached, or the check could not be carried out.
    Failed { message: String },
}

/// A notification, as contracts see it.
pub enum ProbeNotificationView {
    Started,
    Succeeded { message: Seq<char> },
    Failed { message: Seq<char> },
}

impl ProbeNotificationView {
    /// Whether the notification ends a run.
    pub open spec fn is_terminal(self) -> bool {
        !(self is Started)
    }

    /// The name of the channel that the notification goes out on.
    pub open spec fn topic(self) -> Seq<char> {
        match self {
            ProbeNotificationView::Started => "started"@,
            ProbeNotificationView::Succeeded { .. } => "succeeded"@,
            ProbeNotificationView::Failed { .. } => "failed"@,
        }
    }
}

impl View for ProbeNotification {
    type V = ProbeNotificationView;

    open spec fn view(&self) -> ProbeNotificationView {
        match *self {
            ProbeNotification::Started => ProbeNotificationView::Started,
            ProbeNotification::Succeeded { message } => ProbeNotificationView::Succeeded {
                message: message@,
            },
            ProbeNotification::Failed { message } => ProbeNotificationView::Failed {
                message: message@,
            },
        }
    }
}

/// The terminal notification that reports a probe's outcome. Only `Reachable`
/// is reported as a success; an error is reported with its own detail.
pub open spec fn notification_of(result: ProbeResultView) -> ProbeNotificationView {
    match result {
        ProbeResultView::Reachable => ProbeNotificationView::Succeeded { message: "reachable"@ },
        ProbeResultView::Unreachable { reason: UnreachableReason::TimedOut } => {
            ProbeNotificationView::Failed { message: "unreachable within timeout"@ }
        },
        ProbeResultView::Unreachable { reason: UnreachableReason::Refused } => {
            ProbeNotificationView::Failed { message: "connection refused"@ }
        },
        ProbeResultView::Error { kind, detail } => ProbeNotificationView::Failed { message: detail },
    }
}

impl ProbeNotification {
    /// The terminal notification that reports `result`.
    pub fn for_result(result: ProbeResult) -> (notification: ProbeNotification)
        ensures
            notification@ == notification_of(result@),
            notification@.is_terminal(),
            notification@ is Succeeded <==> result@ is Reachable,
    {
        match result {
            ProbeResult::Reachable => ProbeNotification::Succeeded {
                message: String::from_str("reachable"),
            },
            ProbeResult::Unreachable { reason: UnreachableReason::TimedOut } => {
                ProbeNotification::Failed { message: String::from_str("unreachable within timeout") }
            },
            ProbeResult::Unreachable { reason: UnreachableReason::Refused } => {
                ProbeNotification::Failed { message: String::from_str("connection refused") }
            },
            ProbeResult::Error { kind, detail } => ProbeNotification::Failed { message: detail },
        }
    }

    /// Whether the notification ends a run.
    pub fn is_terminal(&self) -> (terminal: bool)
        ensures
            terminal == self@.is_terminal(),
    {
        match self {
            ProbeNotification::Started => false,
            _ => true,
        }
    }

    /// The name of the channel that the notification goes out on: one name for
    /// each kind of notification.
    pub fn topic(&self) -> (topic: &'static str)
        ensures
            topic@ == self@.topic(),
    {
        match self {
            ProbeNotification::Started => "started",
            ProbeNotification::Succeeded { .. } => "succeeded",
            ProbeNotification::Failed { .. } => "failed",
        }
    }
}

} // verus!

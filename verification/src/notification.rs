//! The desktop notification that reports a problem to the user.
//!
//! The call over the session bus is the caller's: this module says what is
//! sent, and what the answer means.

use vstd::prelude::*;
use crate::error::PlatformError;

verus! {

/// The arguments of one call to the notification service.
#[derive(Debug, PartialEq, Eq)]
pub struct NotificationCall {
    pub app_name: String,
    /// The notification to replace; zero asks for a new one.
    pub replaces_id: u32,
    pub app_icon: String,
    pub summary: String,
    pub body: String,
    pub actions: Vec<String>,
    /// Further advice to the service, as names with their values.
    pub hints: Vec<(String, String)>,
    /// Milliseconds after which the notification disappears.
    pub expire_timeout: i32,
}

/// A notification call as plain values.
pub struct NotificationModel {
    pub app_name: Seq<char>,
    pub replaces_id: u32,
    pub app_icon: Seq<char>,
    pub summary: Seq<char>,
    pub body: Seq<char>,
    pub actions: Seq<Seq<char>>,
    pub hints: Seq<(Seq<char>, Seq<char>)>,
    pub expire_timeout: i32,
}

impl View for NotificationCall {
    type V = NotificationModel;

    open spec fn view(&self) -> NotificationModel {
        NotificationModel {
            app_name: self.app_name@,
            replaces_id: self.replaces_id,
            app_icon: self.app_icon@,
            summary: self.summary@,
            body: self.body@,
            actions: Seq::new(self.actions@.len(), |i: int| self.actions@[i]@),
            hints: Seq::new(self.hints@.len(), |i: int| (self.hints@[i].0@, self.hints@[i].1@)),
            expire_timeout: self.expire_timeout,
        }
    }
}

/// The notification that shows `summary` and `body`: always a new one, from
/// this client and with its error icon, without actions or hints, gone
/// after ten seconds.
pub open spec fn notification_for(summary: Seq<char>, body: Seq<char>) -> NotificationModel {
    NotificationModel {
        app_name: "SNX-RS VPN client"@,
        replaces_id: 0,
        app_icon: "emblem-error"@,
        summary,
        body,
        actions: Seq::empty(),
        hints: Seq::empty(),
        expire_timeout: 10000,
    }
}

/// Builds the notification call for a summary line and a message.
pub fn send_notification(summary: &str, message: &str) -> (call: NotificationCall)
    ensures
        call@ == notification_for(summary@, message@),
{
    let call = NotificationCall {
        app_name: "SNX-RS VPN client".to_owned(),
        replaces_id: 0,
        app_icon: "emblem-error".to_owned(),
        summary: summary.to_owned(),
        body: message.to_owned(),
        actions: Vec::new(),
        hints: Vec::new(),
        expire_timeout: 10000,
    };
    assert(call@.actions =~= Seq::<Seq<char>>::empty());
    assert(call@.hints =~= Seq::<(Seq<char>, Seq<char>)>::empty());
    call
}

/// What the service's answer means: `delivered` is the identifier it gave the
/// notification, or `None` when the service could not be reached or turned
/// the call down. The identifier is of no further use.
pub fn notification_result(delivered: Option<u32>) -> (r: Result<(), PlatformError>)
    ensures
        delivered is Some ==> r == Ok::<(), PlatformError>(()),
        delivered is None ==> r == Err::<(), PlatformError>(PlatformError::NotificationFailed),
{
    match delivered {
        Some(_) => Ok(()),
        None => Err(PlatformError::NotificationFailed),
    }
}

} // verus!

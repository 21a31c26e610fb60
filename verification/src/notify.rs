//! The notification bridge: (title, body) pairs handed to the OS
//! notification service.
//!
//! The host passes both strings through unchanged — no clamping, no
//! rewriting. Delivery is best-effort: a submission failure is the
//! deliverer's to log and drop, never the caller's to see.

use vstd::prelude::*;

verus! {

/// One notification to deliver: a title and a body.
pub struct Notification {
    pub title: String,
    pub body: String,
}

/// Builds the notification to submit: the title and the body are passed
/// through unchanged.
pub fn build_notification(title: String, body: String) -> (n: Notification)
    ensures
        n.title@ == title@,
        n.body@ == body@,
{
    Notification { title, body }
}

} // verus!

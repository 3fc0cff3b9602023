use vstd::prelude::*;

verus! {

/// A desktop notification as the monitor hands it over: the posting
/// application's name, the summary line, and the body text.
#[derive(Clone, Debug)]
pub struct Notification {
    pub app: String,
    pub summary: String,
    pub body: String,
}

/// The alert message text forwarded to the band for a notification: the
/// summary and the body, joined by a dash.
pub open spec fn spec_notification_message(n: Notification) -> Seq<char> {
    n.summary@ + " - "@ + n.body@
}

/// Build the message text the band shows for a forwarded notification.
pub fn notification_message(n: &Notification) -> (r: String)
    ensures
        r@ == spec_notification_message(*n),
{
    let mut s = n.summary.clone();
    s.append(" - ");
    s.append(n.body.as_str());
    s
}

/// The wire signature a notification bus call must carry before it is
/// decoded.
pub open spec fn spec_notify_signature() -> Seq<char> {
    "susssasa{sv}i"@
}

/// Check a bus message's body signature against the one notification
/// calls carry.
pub fn is_notify_signature(signature: &str) -> (r: bool)
    ensures
        r == (signature@ == spec_notify_signature()),
{
    crate::utils::str_eq(signature, "susssasa{sv}i")
}

} // verus!

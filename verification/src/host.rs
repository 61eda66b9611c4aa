//! What procedures ask about the machine: its name, and the time.

use crate::clock::{local_now, time_in, LocalTime};
use crate::sync::step::{Reply, TimeLayout};
use vstd::prelude::*;
use vstd::string::*;

verus! {

/// `hostname::get`: the name of this machine, or why it could not be read. It is whatever the
/// machine says, so nothing is claimed of it.
#[verifier::external_body]
pub(crate) fn host_name() -> (name: Result<String, String>) {
    match hostname::get() {
        Ok(name) => Ok(name.to_string_lossy().into_owned()),
        Err(e) => Err(e.to_string()),
    }
}

/// Whether a text is some time in the given layout.
pub open spec fn some_time(text: Seq<char>, layout: TimeLayout) -> bool {
    exists|t: LocalTime| t.wf() && text == #[trigger] time_in(t, layout)
}

/// The reply to [`HostAndTime`](crate::sync::step::GitOp::HostAndTime) on the given machine at the
/// given time.
pub fn host_and_time_at(host: Result<String, String>, t: LocalTime, layout: TimeLayout) -> (reply:
    Reply)
    requires
        t.wf(),
    ensures
        reply matches Reply::HostAndTime(name, time) && name == host && time@ == time_in(t, layout),
{
    Reply::HostAndTime(host, t.written(layout))
}

/// The reply to [`HostAndTime`](crate::sync::step::GitOp::HostAndTime).
pub fn host_and_time(layout: TimeLayout) -> (reply: Reply)
    ensures
        reply matches Reply::HostAndTime(_, time) && some_time(time@, layout),
{
    host_and_time_at(host_name(), local_now(), layout)
}

/// The reply to [`UserAndHost`](crate::sync::step::GitOp::UserAndHost), where the environment
/// gives the name of the user.
pub fn user_and_host(user: Option<String>) -> (reply: Reply)
    ensures
        reply matches Reply::UserAndHost(u, _) && u == user,
{
    let host: Option<String> = match host_name() {
        Ok(name) => Some(name),
        Err(_) => None,
    };
    Reply::UserAndHost(user, host)
}

} // verus!

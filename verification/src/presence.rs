//! The presence the bot shows: a custom activity carrying the current
//! time, with idle status. The current time comes from chrono behind one
//! trusted wrapper; everything built on top of it is verified.

use vstd::prelude::*;

verus! {

/// The kind of activity shown in a presence.
#[derive(Clone, Copy, PartialEq, Eq, Structural, Debug)]
pub enum ActivityKind {
    Playing,
    Streaming,
    Listening,
    Watching,
    Custom,
    Competing,
}

/// The online status shown in a presence.
#[derive(Clone, Copy, PartialEq, Eq, Structural, Debug)]
pub enum OnlineStatusKind {
    Online,
    Idle,
    DoNotDisturb,
    Invisible,
    Offline,
}

/// A presence update: activity text and status.
pub struct PresenceInfo {
    pub activity_name: String,
    pub activity_state: String,
    pub kind: ActivityKind,
    pub status: OnlineStatusKind,
}

pub open spec fn activity_name_text(formatted_time: Seq<char>) -> Seq<char> {
    "with time: "@ + formatted_time
}

pub open spec fn activity_state_text() -> Seq<char> {
    "I'm a bot!"@
}

/// The presence shown for a given formatted time: a custom activity naming
/// the time, idle status.
pub fn presence_for_time(formatted_time: &str) -> (p: PresenceInfo)
    ensures
        p.activity_name@ == activity_name_text(formatted_time@),
        p.activity_state@ == activity_state_text(),
        p.kind == ActivityKind::Custom,
        p.status == OnlineStatusKind::Idle,
{
    let mut name = String::from_str("with time: ");
    name.append(formatted_time);
    PresenceInfo {
        activity_name: name,
        activity_state: String::from_str("I'm a bot!"),
        kind: ActivityKind::Custom,
        status: OnlineStatusKind::Idle,
    }
}

/// Relies on chrono's `Utc::now` for the current moment and
/// `DateTime::to_rfc2822` for its text. `to_rfc2822` only accepts years
/// RFC 2822 can carry, which the current date always is, and its output is
/// never empty.
#[verifier::external_body]
fn now_rfc2822() -> (r: String)
    ensures
        r@.len() > 0,
{
    chrono::Utc::now().to_rfc2822()
}

/// The presence for the moment of the call: a custom activity whose name
/// carries the current time in RFC 2822 form, idle status.
pub fn current_presence() -> (p: PresenceInfo)
    ensures
        exists|t: Seq<char>|
            t.len() > 0 && p.activity_name@ == activity_name_text(t),
        p.activity_state@ == activity_state_text(),
        p.kind == ActivityKind::Custom,
        p.status == OnlineStatusKind::Idle,
{
    let now = now_rfc2822();
    let p = presence_for_time(now.as_str());
    proof {
        assert(now@.len() > 0 && p.activity_name@ == activity_name_text(now@));
    }
    p
}

} // verus!

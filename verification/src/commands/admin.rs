//! Which organizer commands an agent may not run on its own, and the command
//! line it is told to hand to a human instead.
use vstd::prelude::*;

use crate::agent::{check_agent_guard, guard_message};
use crate::text::{chars_of, push_str, string_of};

verus! {

/// An organizer command that alters production data or sends external
/// communication, with what its command line needs.
#[derive(Debug, Clone, PartialEq)]
pub enum GuardedCommand {
    ProposalsDelete(String),
    /// A proposal action: the proposal id and the action as `{:?}` prints it.
    ProposalsAction(String, String),
    SponsorsUpdate(String),
    SponsorsUpdateContacts(String),
    SponsorsEmail(String),
    SponsorsSendContract(String),
    SponsorsDeleteActivity(String),
    SpeakersDelete(String),
    SpeakersBroadcast,
    MessagesReply(String),
    /// A new conversation, with the speaker it goes to.
    MessagesNew(String),
    SchedulePromote(String),
    ScheduleDelete(String),
    ScheduleSave,
}

/// The command line (after `konf `) a human is asked to run.
pub open spec fn hint_text(c: GuardedCommand) -> Seq<char> {
    match c {
        GuardedCommand::ProposalsDelete(id) => "admin proposals delete "@ + id@,
        GuardedCommand::ProposalsAction(id, action) => "admin proposals action "@ + id@ + " "@
            + action@,
        GuardedCommand::SponsorsUpdate(id) => "admin sponsors update "@ + id@,
        GuardedCommand::SponsorsUpdateContacts(id) => "admin sponsors update-contacts "@ + id@,
        GuardedCommand::SponsorsEmail(id) => "admin sponsors email "@ + id@,
        GuardedCommand::SponsorsSendContract(id) => "admin sponsors send-contract "@ + id@,
        GuardedCommand::SponsorsDeleteActivity(id) => "admin sponsors delete-activity "@ + id@,
        GuardedCommand::SpeakersDelete(id) => "admin speakers delete "@ + id@,
        GuardedCommand::SpeakersBroadcast => "admin speakers broadcast"@,
        GuardedCommand::MessagesReply(id) => "admin messages reply "@ + id@,
        GuardedCommand::MessagesNew(speaker) => "admin messages new --speaker "@ + speaker@,
        GuardedCommand::SchedulePromote(id) => "admin schedule promote "@ + id@,
        GuardedCommand::ScheduleDelete(id) => "admin schedule delete "@ + id@,
        GuardedCommand::ScheduleSave => "admin schedule save"@,
    }
}

fn prefixed(prefix: &str, rest: &str) -> (r: String)
    ensures
        r@ == prefix@ + rest@,
{
    let mut b = chars_of(prefix);
    push_str(&mut b, rest);
    string_of(&b)
}

/// The command line (after `konf `) a human is asked to run.
pub fn guard_hint(c: &GuardedCommand) -> (r: String)
    ensures
        r@ == hint_text(*c),
{
    match c {
        GuardedCommand::ProposalsDelete(id) => prefixed("admin proposals delete ", id.as_str()),
        GuardedCommand::ProposalsAction(id, action) => {
            let mut b = chars_of("admin proposals action ");
            push_str(&mut b, id.as_str());
            push_str(&mut b, " ");
            push_str(&mut b, action.as_str());
            string_of(&b)
        },
        GuardedCommand::SponsorsUpdate(id) => prefixed("admin sponsors update ", id.as_str()),
        GuardedCommand::SponsorsUpdateContacts(id) => prefixed(
            "admin sponsors update-contacts ",
            id.as_str(),
        ),
        GuardedCommand::SponsorsEmail(id) => prefixed("admin sponsors email ", id.as_str()),
        GuardedCommand::SponsorsSendContract(id) => prefixed(
            "admin sponsors send-contract ",
            id.as_str(),
        ),
        GuardedCommand::SponsorsDeleteActivity(id) => prefixed(
            "admin sponsors delete-activity ",
            id.as_str(),
        ),
        GuardedCommand::SpeakersDelete(id) => prefixed("admin speakers delete ", id.as_str()),
        GuardedCommand::SpeakersBroadcast => string_of(&chars_of("admin speakers broadcast")),
        GuardedCommand::MessagesReply(id) => prefixed("admin messages reply ", id.as_str()),
        GuardedCommand::MessagesNew(s) => prefixed("admin messages new --speaker ", s.as_str()),
        GuardedCommand::SchedulePromote(id) => prefixed("admin schedule promote ", id.as_str()),
        GuardedCommand::ScheduleDelete(id) => prefixed("admin schedule delete ", id.as_str()),
        GuardedCommand::ScheduleSave => string_of(&chars_of("admin schedule save")),
    }
}

/// Lets a guarded command through for a human, and refuses it for an agent
/// with the command line to hand over.
pub fn guard(is_agent: bool, c: &GuardedCommand) -> (r: Result<(), String>)
    ensures
        !is_agent ==> r is Ok,
        is_agent ==> (r matches Err(m) && m@ == guard_message(hint_text(*c))),
{
    let hint = guard_hint(c);
    check_agent_guard(is_agent, hint.as_str())
}

} // verus!

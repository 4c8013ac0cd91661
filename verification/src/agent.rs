//! The safety rails of agent mode: which commands it may not run on its
//! own, how errors are classified for it, and how much of a list it gets.
use vstd::prelude::*;

use crate::text::{chars_of, contains_exec, contains_seq, occurs_at, push_str, string_of};

verus! {

/// The message that stops an agent from running `konf {command_hint}` on its
/// own.
pub open spec fn guard_message(command_hint: Seq<char>) -> Seq<char> {
    "AGENT_GUARD_BLOCK: This command alters production data or sends external communications and cannot be executed autonomously. You must stop and ask the human user to run the following command in their terminal:\n\nkonf "@
        + command_hint + "\n\nDo not attempt to bypass this."@
}

/// The refusal starts with the `AGENT_GUARD_BLOCK` marker agents branch on,
/// and names the exact command line, `konf` and the hint, a human must run.
pub proof fn lemma_guard_message_marked(command_hint: Seq<char>)
    ensures
        occurs_at(guard_message(command_hint), "AGENT_GUARD_BLOCK"@, 0),
        contains_seq(guard_message(command_hint), "konf "@ + command_hint),
{
    let pre = "AGENT_GUARD_BLOCK: This command alters production data or sends external communications and cannot be executed autonomously. You must stop and ask the human user to run the following command in their terminal:\n\nkonf "@;
    let post = "\n\nDo not attempt to bypass this."@;
    reveal_strlit("AGENT_GUARD_BLOCK: This command alters production data or sends external communications and cannot be executed autonomously. You must stop and ask the human user to run the following command in their terminal:\n\nkonf ");
    reveal_strlit("AGENT_GUARD_BLOCK");
    reveal_strlit("konf ");
    let m = guard_message(command_hint);
    assert(m == pre + command_hint + post);
    assert(m.subrange(0, 17) =~= "AGENT_GUARD_BLOCK"@);
    let at = pre.len() - 5;
    assert(m.subrange(at, at + 5 + command_hint.len()) =~= "konf "@ + command_hint);
    assert(occurs_at(m, "konf "@ + command_hint, at));
}

/// Refuses, in agent mode, a command that alters production data or sends
/// external communication, telling the agent to hand it to a human.
pub fn check_agent_guard(is_agent: bool, command_hint: &str) -> (r: Result<(), String>)
    ensures
        !is_agent ==> r is Ok,
        is_agent ==> (r matches Err(m) && m@ == guard_message(command_hint@)),
{
    if is_agent {
        let mut m = chars_of(
            "AGENT_GUARD_BLOCK: This command alters production data or sends external communications and cannot be executed autonomously. You must stop and ask the human user to run the following command in their terminal:\n\nkonf ",
        );
        push_str(&mut m, command_hint);
        push_str(&mut m, "\n\nDo not attempt to bypass this.");
        return Err(string_of(&m));
    }
    Ok(())
}

/// Refuses, in agent mode, a thread change that was not confirmed with
/// `-y`/`--yes`; `what` names the change ("mutating thread status", …).
pub fn check_agent_confirmed(is_agent: bool, yes: bool, what: &str) -> (r: Result<(), String>)
    ensures
        !(is_agent && !yes) ==> r is Ok,
        is_agent && !yes ==> (r matches Err(m) && m@ == "Agent must pass -y/--yes to confirm "@
            + what@ + "."@),
{
    if is_agent && !yes {
        let mut m = chars_of("Agent must pass -y/--yes to confirm ");
        push_str(&mut m, what);
        push_str(&mut m, ".");
        return Err(string_of(&m));
    }
    Ok(())
}

/// The machine-readable class of an error an agent sees.
#[derive(Debug, Clone, Copy, PartialEq, Eq, Structural)]
pub enum ErrorCode {
    AuthRequired,
    NotFound,
    ConferenceNotSet,
    AgentGuardBlock,
    UnknownError,
}

impl ErrorCode {
    /// The code as printed.
    pub open spec fn spec_name(self) -> Seq<char> {
        match self {
            ErrorCode::AuthRequired => "AUTH_REQUIRED"@,
            ErrorCode::NotFound => "NOT_FOUND"@,
            ErrorCode::ConferenceNotSet => "CONFERENCE_NOT_SET"@,
            ErrorCode::AgentGuardBlock => "AGENT_GUARD_BLOCK"@,
            ErrorCode::UnknownError => "UNKNOWN_ERROR"@,
        }
    }

    /// The code as printed.
    pub fn name(self) -> (s: &'static str)
        ensures
            s@ == self.spec_name(),
    {
        match self {
            ErrorCode::AuthRequired => "AUTH_REQUIRED",
            ErrorCode::NotFound => "NOT_FOUND",
            ErrorCode::ConferenceNotSet => "CONFERENCE_NOT_SET",
            ErrorCode::AgentGuardBlock => "AGENT_GUARD_BLOCK",
            ErrorCode::UnknownError => "UNKNOWN_ERROR",
        }
    }
}

/// The class of an error message: the first of these rules that matches.
pub open spec fn error_class(msg: Seq<char>) -> ErrorCode {
    if contains_seq(msg, "Authentication required"@) || contains_seq(msg, "unauthorized"@) {
        ErrorCode::AuthRequired
    } else if contains_seq(msg, "not found"@) {
        ErrorCode::NotFound
    } else if contains_seq(msg, "conference context"@) {
        ErrorCode::ConferenceNotSet
    } else if contains_seq(msg, "AGENT_GUARD_BLOCK"@) {
        ErrorCode::AgentGuardBlock
    } else {
        ErrorCode::UnknownError
    }
}

/// The hints an agent gets for an error of class `code`.
pub open spec fn error_hints(code: ErrorCode) -> Seq<Seq<char>> {
    match code {
        ErrorCode::AuthRequired => seq!["Run 'konf login' to authenticate."@],
        ErrorCode::NotFound => seq!["Use 'list' commands with '--search' or '--all' to verify IDs."@],
        ErrorCode::ConferenceNotSet => seq!["Run 'konf status' to verify your active conference."@],
        _ => seq![],
    }
}

fn contains_str(text: &[char], pat: &str) -> (b: bool)
    ensures
        b == contains_seq(text@, pat@),
{
    let p = chars_of(pat);
    contains_exec(text, &p)
}

/// Classifies an error message for an agent: its code and the hints that go
/// with it.
pub fn classify_error(message: &str) -> (r: (ErrorCode, Vec<String>))
    ensures
        r.0 == error_class(message@),
        r.1@.map_values(|s: String| s@) == error_hints(r.0),
{
    let m = chars_of(message);
    let mut hints: Vec<String> = Vec::new();
    let code = if contains_str(&m, "Authentication required") || contains_str(&m, "unauthorized") {
        hints.push(String::from_str("Run 'konf login' to authenticate."));
        ErrorCode::AuthRequired
    } else if contains_str(&m, "not found") {
        hints.push(String::from_str("Use 'list' commands with '--search' or '--all' to verify IDs."));
        ErrorCode::NotFound
    } else if contains_str(&m, "conference context") {
        hints.push(String::from_str("Run 'konf status' to verify your active conference."));
        ErrorCode::ConferenceNotSet
    } else if contains_str(&m, "AGENT_GUARD_BLOCK") {
        ErrorCode::AgentGuardBlock
    } else {
        ErrorCode::UnknownError
    };
    assert(hints@.map_values(|s: String| s@) =~= error_hints(code));
    (code, hints)
}

/// How a list command prints its items.
#[derive(Debug, Clone, Copy, PartialEq, Eq, Structural)]
pub enum ListOutput {
    /// The compact JSON form of each item.
    Compact,
    /// The full JSON of each item.
    Json,
    /// A table or an interactive list, for a human.
    Human,
}

/// What a list command prints: how many items, whether that cut the list,
/// and in which form. In agent mode JSON goes out wrapped with these counts.
#[derive(Debug, Clone, Copy, PartialEq, Eq, Structural)]
pub struct ListPlan {
    pub returned: usize,
    pub truncated: bool,
    pub output: ListOutput,
}

/// The plan for a list of `total` items: at most `limit` of them (50 for an
/// agent that gave no limit, all for a human); compact JSON if asked for,
/// else full JSON when asked or for an agent, else the human form.
pub open spec fn spec_list_plan(
    total: nat,
    limit: Option<usize>,
    compact: bool,
    json: bool,
    is_agent: bool,
) -> ListPlan {
    let lim: nat = match limit {
        Some(l) => l as nat,
        None => if is_agent { 50 } else { usize::MAX as nat },
    };
    let returned = if total < lim { total } else { lim };
    ListPlan {
        returned: returned as usize,
        truncated: returned < total,
        output: if compact {
            ListOutput::Compact
        } else if json || is_agent {
            ListOutput::Json
        } else {
            ListOutput::Human
        },
    }
}

/// An agent that gives no limit gets at most 50 items, wrapped in JSON, and
/// is told whether the list was cut; a given limit is never exceeded.
pub proof fn lemma_agent_lists_capped(total: nat, limit: Option<usize>, compact: bool, json: bool)
    requires
        total <= usize::MAX,
    ensures
        limit is None ==> spec_list_plan(total, limit, compact, json, true).returned <= 50,
        limit matches Some(l) ==> spec_list_plan(total, limit, compact, json, true).returned <= l,
        spec_list_plan(total, limit, compact, json, true).returned <= total,
        spec_list_plan(total, limit, compact, json, true).truncated == (spec_list_plan(
            total,
            limit,
            compact,
            json,
            true,
        ).returned < total),
        spec_list_plan(total, limit, compact, json, true).output != ListOutput::Human,
{
}

/// Plans the output of a list command.
pub fn list_plan(
    total: usize,
    limit: Option<usize>,
    compact: bool,
    json: bool,
    is_agent: bool,
) -> (p: ListPlan)
    ensures
        p == spec_list_plan(total as nat, limit, compact, json, is_agent),
{
    let lim: usize = match limit {
        Some(l) => l,
        None => if is_agent { 50 } else { usize::MAX },
    };
    let returned = if total < lim { total } else { lim };
    let output = if compact {
        ListOutput::Compact
    } else if json || is_agent {
        ListOutput::Json
    } else {
        ListOutput::Human
    };
    ListPlan { returned, truncated: returned < total, output }
}

/// How a command that shows one record prints it.
#[derive(Debug, Clone, Copy, PartialEq, Eq, Structural)]
pub enum RecordOutput {
    /// One line of JSON, for an agent.
    CompactJson,
    /// Indented JSON, when asked for.
    PrettyJson,
    /// The human view.
    Human,
}

/// JSON for an agent (always, and on one line), indented JSON when asked
/// for, else the human view.
pub fn record_output(json: bool, is_agent: bool) -> (o: RecordOutput)
    ensures
        is_agent ==> o == RecordOutput::CompactJson,
        !is_agent && json ==> o == RecordOutput::PrettyJson,
        !is_agent && !json ==> o == RecordOutput::Human,
{
    if is_agent {
        RecordOutput::CompactJson
    } else if json {
        RecordOutput::PrettyJson
    } else {
        RecordOutput::Human
    }
}

} // verus!

use vstd::prelude::*;

use crate::style::{Paint, Part, Span, parts_of, push_span};
use crate::text::{chars_of, push_str};
use crate::types::AgentConfig;

verus! {

/// `konf agents`.
#[derive(Debug, Clone, PartialEq)]
pub struct AgentArgs {
    pub command: AgentCommand,
}

/// The `konf agents` subcommands.
#[derive(Debug, Clone, PartialEq)]
pub enum AgentCommand {
    /// Show the conference-specific agent context.
    Get { json: bool },
    /// Update it.
    SetConfig(SetArgs),
}

/// What `konf agents set` updates.
#[derive(Debug, Clone, PartialEq)]
pub struct SetArgs {
    pub context: Option<String>,
    pub review_config: Option<String>,
    pub crm_config: Option<String>,
}

/// A section of the agent configuration, when it is set.
pub open spec fn section_parts(title: Seq<char>, text: Option<String>) -> Seq<Part> {
    match text {
        Some(t) => seq![("\n"@, None), (title, Some(Paint::Bold)), (":\n"@ + t@ + "\n"@, None)],
        None => seq![],
    }
}

/// The agent configuration as `konf agents get` shows it.
pub open spec fn config_parts(c: AgentConfig) -> Seq<Part> {
    seq![
        ("── Agent Configuration ──"@, Some(Paint::BoldCyan)),
        ("\n"@, None),
        ("Hint: Use this context to guide your task execution and tone."@, Some(Paint::Dimmed)),
        ("\n"@, None),
    ] + section_parts("Conference Context"@, c.conference_context) + section_parts(
        "Proposal Review Config"@,
        c.proposal_review_config,
    ) + section_parts("Sponsor CRM Config"@, c.sponsor_crm_config) + seq![
        ("\n"@, None),
        ("── Agent Commands ──"@, Some(Paint::Dimmed)),
        ("\n"@, None),
        ("• Update context: konf agents set --context \"...\""@, Some(Paint::Dimmed)),
        ("\n"@, None),
        ("• Update rules:   konf agents set --review-config \"...\""@, Some(Paint::Dimmed)),
        ("\n"@, None),
    ]
}

fn push_section(out: &mut Vec<Span>, title: &str, text: &Option<String>)
    ensures
        parts_of(final(out)@) == parts_of(old(out)@) + section_parts(title@, *text),
{
    let ghost start = parts_of(out@);
    match text {
        Some(t) => {
            push_span(out, chars_of("\n"), None);
            push_span(out, chars_of(title), Some(Paint::Bold));
            let mut b = chars_of(":\n");
            push_str(&mut b, t.as_str());
            push_str(&mut b, "\n");
            push_span(out, b, None);
        },
        None => {},
    }
    assert(parts_of(out@) =~= start + section_parts(title@, *text));
}

/// The agent configuration as `konf agents get` shows it, as spans.
pub fn config_spans(c: &AgentConfig) -> (out: Vec<Span>)
    ensures
        parts_of(out@) == config_parts(*c),
{
    let mut out: Vec<Span> = Vec::new();
    assert(parts_of(out@) =~= Seq::<Part>::empty());
    push_span(&mut out, chars_of("── Agent Configuration ──"), Some(Paint::BoldCyan));
    push_span(&mut out, chars_of("\n"), None);
    push_span(
        &mut out,
        chars_of("Hint: Use this context to guide your task execution and tone."),
        Some(Paint::Dimmed),
    );
    push_span(&mut out, chars_of("\n"), None);
    push_section(&mut out, "Conference Context", &c.conference_context);
    push_section(&mut out, "Proposal Review Config", &c.proposal_review_config);
    push_section(&mut out, "Sponsor CRM Config", &c.sponsor_crm_config);
    push_span(&mut out, chars_of("\n"), None);
    push_span(&mut out, chars_of("── Agent Commands ──"), Some(Paint::Dimmed));
    push_span(&mut out, chars_of("\n"), None);
    push_span(
        &mut out,
        chars_of("• Update context: konf agents set --context \"...\""),
        Some(Paint::Dimmed),
    );
    push_span(&mut out, chars_of("\n"), None);
    push_span(
        &mut out,
        chars_of("• Update rules:   konf agents set --review-config \"...\""),
        Some(Paint::Dimmed),
    );
    push_span(&mut out, chars_of("\n"), None);
    assert(parts_of(out@) =~= config_parts(*c));
    out
}

} // verus!

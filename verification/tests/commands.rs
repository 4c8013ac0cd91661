use konfctl::commands::messages::{
    InboxAction, InboxEvent, InboxState, InboxView, empty_view_message, format_item,
    sort_by_latest,
};
use konfctl::commands::sponsors::email::{
    EmailSource, PreviewChoice, asks_to_send_anyway, email_source, find_template_by_slug,
    format_template_item, message_subject, picker_default, preview_choice, resolve_template,
    unresolved_in,
};
use konfctl::commands::navigation::{next, prev};
use konfctl::commands::sponsors::{
    find_sponsor_by_name, resolve_by_name, DetailKey, DetailSession, ListStep, Roster,
    RosterEvent,
};
use konfctl::commands::{confirmation, string_source, StringSource};
use konfctl::types::{SponsorForConference, SponsorRef, SponsorStatus};
use konfctl::ui::Key;

fn make_sponsor(id: &str, name: &str) -> SponsorForConference {
    SponsorForConference {
        id: id.to_string(),
        status: SponsorStatus::Prospect,
        contract_status: Some("none".to_string()),
        invoice_status: Some("not-sent".to_string()),
        sponsor: Some(SponsorRef {
            id: "s1".to_string(),
            name: name.to_string(),
            website: None,
            linkedin_url: None,
        }),
        tier: None,
        assigned_to: None,
        contact_persons: vec![],
        billing: None,
        contract_value: None,
        contract_currency: Some("NOK".to_string()),
        notes: None,
        tags: vec![],
        contract_signed_at: None,
        invoice_sent_at: None,
        invoice_paid_at: None,
        activities: vec![],
        last_activity: None,
        activity_count: Some(0),
        next_follow_up_at: None,
        outreach_count: None,
        contact_initiated_at: None,
    }
}

#[test]
fn test_read_string_or_file_literal() {
    let input = "just a normal string".to_string();
    match string_source(input) {
        StringSource::Literal(result) => assert_eq!(result, "just a normal string"),
        other => panic!("expected a literal, got {other:?}"),
    }
}

#[test]
fn string_source_reads_files_and_stdin() {
    assert_eq!(
        string_source("@notes/intro.md".to_string()),
        StringSource::File("notes/intro.md".to_string())
    );
    assert_eq!(string_source("-".to_string()), StringSource::Stdin);
    assert_eq!(
        string_source("--".to_string()),
        StringSource::Literal("--".to_string())
    );
    assert_eq!(string_source("@".to_string()), StringSource::File(String::new()));
}

#[test]
fn test_find_sponsor_by_name() {
    let sponsors = vec![
        make_sponsor("1", "Acme Corp"),
        make_sponsor("2", "Global Tech"),
        make_sponsor("3", "global tech"),
    ];

    let matches = find_sponsor_by_name(&sponsors, "Acme Corp").unwrap();
    assert_eq!(matches.len(), 1);
    assert_eq!(matches[0].id, "1");

    let matches = find_sponsor_by_name(&sponsors, "acme CORP").unwrap();
    assert_eq!(matches.len(), 1);
    assert_eq!(matches[0].id, "1");

    let matches = find_sponsor_by_name(&sponsors, "Global Tech").unwrap();
    assert_eq!(matches.len(), 2);

    let matches = find_sponsor_by_name(&sponsors, "Unknown");
    assert!(matches.is_none());
}

#[test]
fn resolve_by_name_names_each_failure() {
    let sponsors = vec![make_sponsor("1", "Acme"), make_sponsor("2", "acme")];
    let one = vec![&sponsors[0]];
    assert_eq!(resolve_by_name("Acme", &one), Ok("1".to_string()));
    assert_eq!(
        resolve_by_name("Nope", &[]),
        Err("No sponsor found matching 'Nope' (and it is not a valid ID)".to_string())
    );
    let both: Vec<&SponsorForConference> = sponsors.iter().collect();
    assert_eq!(
        resolve_by_name("acme", &both),
        Err("Multiple sponsors found matching 'acme'. Please use exact ID.".to_string())
    );
}

#[test]
fn confirmation_needs_a_terminal_or_yes() {
    assert_eq!(confirmation(true, false), Ok(false));
    assert_eq!(confirmation(false, true), Ok(true));
    assert_eq!(
        confirmation(false, false),
        Err("Confirmation required in non-interactive mode. Pass -y to confirm.".to_string())
    );
}

#[test]
fn roster_write_in_detail_view_forces_refetch() {
    let mut r = Roster::new();
    assert!(r.needs_fetch());
    r.step(RosterEvent::Fetched);
    assert!(!r.needs_fetch());
    r.step(RosterEvent::Chosen(ListStep::Detail(3)));
    assert_eq!(r.cursor, 3);
    r.step(RosterEvent::DetailClosed(4, false));
    assert!(!r.needs_fetch());
    assert_eq!(r.cursor, 4);
    r.step(RosterEvent::DetailClosed(4, true));
    assert!(r.needs_fetch());
    r.step(RosterEvent::Fetched);
    r.step(RosterEvent::Chosen(ListStep::FilterMenu));
    assert!(r.needs_fetch());
    assert_eq!(r.cursor, 0);
}

#[test]
fn detail_session_reuses_held_records_until_a_write() {
    let ids = vec!["a".to_string(), "b".to_string()];
    let mut s = DetailSession::new(ids, 0);
    assert!(s.must_fetch());
    s.fetched();
    assert!(!s.on_key(DetailKey::Next));
    assert_eq!(s.idx, 1);
    assert!(s.must_fetch());
    s.fetched();
    assert!(!s.on_key(DetailKey::Prev));
    assert!(!s.must_fetch());
    assert!(!s.on_key(DetailKey::Changed(true)));
    assert!(s.mutated);
    assert!(s.must_fetch());
    s.fetched();
    assert!(!s.on_key(DetailKey::Changed(false)));
    assert!(!s.must_fetch());
    assert!(!s.on_key(DetailKey::Refresh));
    assert!(s.must_fetch());
    assert!(s.on_key(DetailKey::Back));
}

#[test]
fn navigation_stays_within_the_records() {
    assert_eq!(prev(0), 0);
    assert_eq!(prev(3), 2);
    assert_eq!(next(2, 3), 2);
    assert_eq!(next(0, 3), 1);
    assert_eq!(prev(next(0, 3)), 0);
}

fn inbox(ids: &[&str]) -> InboxState {
    let (s, a) = InboxState::start(ids.iter().map(|s| s.to_string()).collect());
    if ids.is_empty() {
        assert_eq!(a, InboxAction::Nothing);
    } else {
        assert_eq!(a, InboxAction::FetchThread(ids[0].to_string()));
    }
    s
}

#[test]
fn inbox_tabs_round_trip() {
    let mut s = inbox(&["c1", "c2"]);
    assert_eq!(
        s.step(InboxEvent::Key(Key::ArrowRight)),
        InboxAction::FetchList(InboxView::NeedsReply)
    );
    assert_eq!(
        s.step(InboxEvent::Key(Key::ArrowLeft)),
        InboxAction::FetchList(InboxView::Active)
    );
    assert_eq!(s.tab, 0);
    assert_eq!(
        s.step(InboxEvent::Key(Key::BackTab)),
        InboxAction::FetchList(InboxView::Archived)
    );
    assert_eq!(s.tab, 4);
}

#[test]
fn inbox_selection_wraps_and_round_trips() {
    let mut s = inbox(&["c1", "c2", "c3"]);
    assert_eq!(
        s.step(InboxEvent::Key(Key::ArrowUp)),
        InboxAction::FetchThread("c3".to_string())
    );
    assert_eq!(
        s.step(InboxEvent::Key(Key::ArrowDown)),
        InboxAction::FetchThread("c1".to_string())
    );
    assert_eq!(s.selected, Some(0));
    assert_eq!(s.step(InboxEvent::Key(Key::Char('q'))), InboxAction::Quit);
}

#[test]
fn inbox_ignores_stale_results() {
    let mut s = inbox(&["c1"]);
    let before = s.clone();
    assert_eq!(
        s.step(InboxEvent::ListLoaded(InboxView::Mine, Some(vec!["x".to_string()]))),
        InboxAction::Nothing
    );
    assert_eq!(
        s.step(InboxEvent::ThreadLoaded("other".to_string(), None)),
        InboxAction::Nothing
    );
    assert_eq!(s, before);
    assert_eq!(
        s.step(InboxEvent::ThreadLoaded("c1".to_string(), Some("boom".to_string()))),
        InboxAction::ShowThread
    );
    assert!(!s.has_thread);
    assert_eq!(s.thread_error, Some("boom".to_string()));
}

#[test]
fn inbox_replies_only_with_text() {
    let mut s = inbox(&["c1"]);
    assert_eq!(
        s.step(InboxEvent::Key(Key::Char('r'))),
        InboxAction::ComposeReply("c1".to_string())
    );
    assert_eq!(
        s.step(InboxEvent::ReplyWritten("c1".to_string(), Some("  \n".to_string()))),
        InboxAction::Nothing
    );
    assert_eq!(
        s.step(InboxEvent::ReplyWritten("c1".to_string(), Some("Thanks!".to_string()))),
        InboxAction::SendReply("c1".to_string(), "Thanks!".to_string())
    );
}

#[test]
fn inbox_loaded_list_selects_first_row() {
    let mut s = inbox(&[]);
    assert_eq!(
        s.step(InboxEvent::ListLoaded(
            InboxView::Active,
            Some(vec!["n1".to_string(), "n2".to_string()])
        )),
        InboxAction::ShowList(Some("n1".to_string()))
    );
    assert_eq!(s.selected, Some(0));
    assert_eq!(
        s.step(InboxEvent::ListLoaded(InboxView::Active, None)),
        InboxAction::ShowList(None)
    );
    assert!(s.ids.is_empty());
    assert_eq!(s.selected, None);
}

fn row(id: &str, at: &str, status: &str, unread: usize) -> konfctl::types::ConversationRow {
    konfctl::types::ConversationRow {
        id: id.to_string(),
        archived: false,
        assigned_to: None,
        conversation_type: "speaker".to_string(),
        counterpart: None,
        created_at: at.to_string(),
        direct: true,
        last_message: None,
        last_message_at: at.to_string(),
        muted: false,
        needs_reply: false,
        proposal_id: None,
        proposal_title: None,
        status: status.to_string(),
        subject: None,
        unread_count: unread,
    }
}

#[test]
fn inbox_rows_sort_latest_first_and_print() {
    let rows = vec![
        row("a", "2026-01-01", "open", 0),
        row("b", "2026-03-01", "resolved", 2),
        row("c", "2026-01-01", "open", 0),
    ];
    let ids: Vec<String> = sort_by_latest(rows).into_iter().map(|r| r.id).collect();
    assert_eq!(ids, vec!["b", "a", "c"]);
    assert_eq!(
        format_item(&row("b", "2026-03-01", "resolved", 2)),
        format!("{:<25} | {:<50} | {:<20} | {:<12} {}", "b", "No subject", "Unknown", "Resolved", "2 unread")
    );
    assert_eq!(
        empty_view_message(InboxView::NeedsReply),
        "No conversations found in view 'NeedsReply'."
    );
}

fn template(slug: &str, subject: &str, body: Option<&str>) -> konfctl::types::SponsorEmailTemplate {
    konfctl::types::SponsorEmailTemplate {
        id: format!("t-{slug}"),
        title: "Cold outreach to a prospective partner".to_string(),
        slug: konfctl::types::TemplateSlug {
            current: slug.to_string(),
        },
        category: konfctl::types::TemplateCategory::ColdOutreach,
        language: konfctl::types::TemplateLanguage::English,
        subject: subject.to_string(),
        body_markdown: body.map(str::to_string),
        description: None,
        is_default: Some(true),
        sort_order: None,
    }
}

fn email_args(subject: Option<&str>, message: Option<&str>, template: Option<&str>) -> konfctl::commands::sponsors::EmailArgs {
    konfctl::commands::sponsors::EmailArgs {
        id: "sfc-1".to_string(),
        template: template.map(str::to_string),
        subject: subject.map(str::to_string),
        message: message.map(str::to_string),
        edit: false,
        dry_run: false,
        json: false,
    }
}

#[test]
fn email_flow_picks_its_source_and_fills_templates() {
    assert_eq!(email_source(&email_args(None, Some("Hi"), None), true), EmailSource::Message);
    assert_eq!(email_source(&email_args(None, None, None), true), EmailSource::Picker);
    assert_eq!(email_source(&email_args(None, None, None), false), EmailSource::Missing);
    assert_eq!(
        email_source(&email_args(None, None, Some("cold")), false),
        EmailSource::Slug("cold".to_string())
    );
    assert_eq!(message_subject(&email_args(None, Some("Hi"), None), "Acme"), "Message to Acme");
    assert_eq!(message_subject(&email_args(Some("Re: deal"), Some("Hi"), None), "Acme"), "Re: deal");

    let ts = vec![
        template("warm", "Hello again", None),
        template("cold", "Hello {{{SPONSOR_NAME}}}", Some("Dear {{{CONTACT_NAMES}}}, {{{SPONSOR_NAME}}}")),
    ];
    assert_eq!(find_template_by_slug(&ts, "cold"), Some(1));
    assert_eq!(find_template_by_slug(&ts, "none"), None);
    assert_eq!(picker_default(&ts, Some("cold")), 1);
    assert_eq!(picker_default(&ts, Some("none")), 0);
    assert_eq!(picker_default(&ts, None), 0);

    let vars = vec![("SPONSOR_NAME".to_string(), "Acme".to_string())];
    let (subject, body) = resolve_template(&email_args(None, None, None), &ts[1], &vars);
    assert_eq!(subject, "Hello Acme");
    assert_eq!(body, "Dear {{{CONTACT_NAMES}}}, Acme");
    let (subject, body) = resolve_template(&email_args(Some("Fixed"), None, None), &ts[0], &vars);
    assert_eq!((subject.as_str(), body.as_str()), ("Fixed", ""));
    assert_eq!(unresolved_in("{{{A}}} {{{B}}}", "{{{B}}} {{{C}}}"), vec!["A", "B", "B", "C"]);

    assert_eq!(
        format_template_item(&ts[0]),
        format!("{} {:<30} {:<16}{}", "🇬🇧", "Cold outreach to a prospect…", "cold-outreach", " ★")
    );
    assert!(asks_to_send_anyway(false, true));
    assert!(!asks_to_send_anyway(true, true));
    assert_eq!(preview_choice(0), PreviewChoice::Send);
    assert_eq!(preview_choice(1), PreviewChoice::Edit);
    assert_eq!(preview_choice(2), PreviewChoice::Cancel);
}

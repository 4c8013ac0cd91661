use konfctl::commands::messages::{
    ScreenSpan, Tone, list_item_spans, thread_pane_spans, thread_view_spans,
};
use konfctl::style::{Paint, Span};
use konfctl::types::{
    ConversationCounterpart, ConversationMessage, ConversationParticipant, ConversationRow,
    ProposalStatus,
};

fn text_of(spans: &[Span]) -> String {
    spans.iter().flat_map(|s| s.text.iter()).collect()
}

fn line_text(line: &[ScreenSpan]) -> String {
    line.iter().flat_map(|s| s.text.iter()).collect()
}

fn participant(name: Option<&str>, organizer: bool) -> ConversationParticipant {
    ConversationParticipant {
        id: None,
        name: name.map(str::to_string),
        is_organizer: organizer,
    }
}

fn message(author: Option<&str>, body: &str, at: &str) -> ConversationMessage {
    ConversationMessage {
        id: format!("m-{at}"),
        author_id: "a".to_string(),
        author_name: author.map(str::to_string),
        body: body.to_string(),
        created_at: at.to_string(),
    }
}

fn row(unread: usize, needs_reply: bool, status: &str) -> ConversationRow {
    ConversationRow {
        id: "c1".to_string(),
        archived: false,
        assigned_to: None,
        conversation_type: "direct".to_string(),
        counterpart: Some(ConversationCounterpart { name: "Ada".to_string(), image: None }),
        created_at: "2026-01-01".to_string(),
        direct: true,
        last_message: None,
        last_message_at: "2026-01-02".to_string(),
        muted: false,
        needs_reply,
        proposal_id: None,
        proposal_title: None,
        status: status.to_string(),
        subject: Some("A subject that is much longer than thirty characters".to_string()),
        unread_count: unread,
    }
}

#[test]
fn thread_view_lists_participants_then_newest_message_first() {
    let ps = vec![participant(Some("Ada"), true), participant(None, false)];
    let ms = vec![message(Some("Ada"), "first", "d1"), message(None, "second", "d2")];
    let spans = thread_view_spans(None, "c1", &ps, &ms);
    assert_eq!(
        text_of(&spans),
        "Thread: No subject\nID: c1\nParticipants:\n  - Ada (Organizer)\n  - Unknown \n\
         \nMessages:\n\nUnknown [d2]\nsecond\n\nAda [d1]\nfirst\n\n"
    );
    assert_eq!(spans[0].paint, Some(Paint::BoldCyan));
    assert_eq!(spans[2].paint, Some(Paint::Bold));
}

#[test]
fn thread_view_strips_escape_codes() {
    let ps = vec![participant(Some("\u{1b}[31mEve\u{1b}[0m"), false)];
    let ms = vec![message(Some("Eve"), "hi \u{1b}[1mthere\u{1b}[0m", "d1")];
    let spans = thread_view_spans(Some("\u{1b}[2JSubject"), "c9", &ps, &ms);
    let text = text_of(&spans);
    assert!(!text.contains('\u{1b}'));
    assert!(text.starts_with("Thread: Subject\n"));
    assert!(text.contains("  - Eve \n"));
    assert!(text.contains("hi there\n\n"));
}

#[test]
fn list_rows_take_their_tone_from_the_conversation() {
    let lines = list_item_spans(&row(3, true, "open"));
    assert_eq!(lines[0][0].tone, Tone::Alert);
    assert_eq!(line_text(&lines[0]), "A subject that is much longer…");
    assert_eq!(line_text(&lines[1]), "Ada | 3 unread");
    assert_eq!(list_item_spans(&row(0, true, "open"))[0][0].tone, Tone::Notice);
    assert_eq!(list_item_spans(&row(0, false, "resolved"))[0][0].tone, Tone::Muted);
    let plain = list_item_spans(&row(0, false, "open"));
    assert_eq!(plain[0][0].tone, Tone::Plain);
    assert_eq!(line_text(&plain[1]), "Ada | ");
}

#[test]
fn thread_pane_shows_proposal_participants_and_body_lines() {
    let ps = vec![participant(Some("Ada"), true), participant(None, false)];
    let ms = vec![message(Some("Ada"), "one\r\ntwo", "d1"), message(Some("Bob"), "last", "d2")];
    let pane = thread_pane_spans(
        Some("Talk"),
        "c1",
        Some(("My talk", ProposalStatus::Accepted)),
        &ps,
        &ms,
    );
    let texts: Vec<String> = pane.iter().map(|l| line_text(l)).collect();
    assert_eq!(
        texts,
        vec![
            "Talk",
            "ID: c1",
            "",
            "Proposal: My talk [Accepted]",
            "",
            "Participants: Ada, Unknown, ",
            "",
            "",
            "Bob [d2]",
            "last",
            "",
            "Ada [d1]",
            "one",
            "two",
            "",
            "",
            "Press 'r' to reply",
        ]
    );
    assert_eq!(pane[6][0].tone, Tone::Rule);
    assert_eq!(pane[15][0].tone, Tone::Rule);
    assert_eq!(pane[8][0].tone, Tone::Author);
}

use konfctl::commands::speakers::{
    ListArgs, broadcast_plan, conference_speakers, detail_spans, email_looks_valid, format_row,
    listed_statuses, non_empty, search_speakers, talks_for_speaker,
};
use konfctl::style::render;
use konfctl::types::{
    Proposal, ProposalSortBy, ProposalStatus, SortOrder, Speaker, SpeakerBio, SpeakerFlag,
    SpeakerSummary,
};
use konfctl::commands::proposals::speaker_label;
use konfctl::text::utf8_len_at_most;

fn plain(s: &str) -> String {
    let mut out = String::new();
    let mut chars = s.chars();
    while let Some(c) = chars.next() {
        if c == '\u{1b}' {
            for d in chars.by_ref() {
                if d == 'm' {
                    break;
                }
            }
        } else {
            out.push(c);
        }
    }
    out
}

fn speaker(id: &str, name: &str, email: Option<&str>) -> Speaker {
    Speaker {
        id: id.to_string(),
        name: name.to_string(),
        slug: None,
        email: email.map(str::to_string),
        title: Some("Engineer".to_string()),
        company: None,
        image: None,
        bio: SpeakerBio::Text("Likes Rust.".to_string()),
        links: vec!["https://ada.example".to_string()],
        flags: vec![SpeakerFlag::FirstTime, SpeakerFlag::Local],
    }
}

fn talk(id: &str, title: &str, status: ProposalStatus, speakers: Vec<Speaker>) -> Proposal {
    Proposal {
        id: id.to_string(),
        title: title.to_string(),
        status,
        format: None,
        level: None,
        language: None,
        speakers,
        topics: vec![],
        reviews: vec![],
        created_at: None,
        updated_at: None,
        outline: None,
        description: vec![],
    }
}

fn summary(id: &str, name: &str, email: Option<&str>) -> SpeakerSummary {
    SpeakerSummary {
        id: id.to_string(),
        name: name.to_string(),
        email: email.map(str::to_string),
        title: None,
        slug: None,
        image: None,
    }
}

#[test]
fn conference_speakers_are_listed_once_in_first_order() {
    let ada = speaker("s1", "Ada", Some("ada@x.no"));
    let bob = speaker("s2", "Bob", None);
    let talks = vec![
        talk("p1", "One", ProposalStatus::Accepted, vec![ada.clone(), bob.clone()]),
        talk("p2", "Two", ProposalStatus::Confirmed, vec![bob.clone(), ada.clone()]),
    ];
    let listed: Vec<(String, Option<String>)> = conference_speakers(&talks)
        .into_iter()
        .map(|s| (s.id, s.email))
        .collect();
    assert_eq!(
        listed,
        vec![
            ("s1".to_string(), Some("ada@x.no".to_string())),
            ("s2".to_string(), None)
        ]
    );
    let theirs: Vec<&str> = talks_for_speaker(&talks, "s2").iter().map(|p| p.id.as_str()).collect();
    assert_eq!(theirs, vec!["p1", "p2"]);
    assert!(talks_for_speaker(&talks, "s9").is_empty());
}

#[test]
fn search_ignores_case_in_names_and_emails() {
    let all = vec![
        summary("1", "Ada Lovelace", Some("ada@x.no")),
        summary("2", "Bob", Some("BOB@ACME.COM")),
        summary("3", "Cy", None),
    ];
    let ids = |q: Option<&str>| -> Vec<String> {
        search_speakers(&all, q).iter().map(|s| s.id.clone()).collect()
    };
    assert_eq!(ids(Some("LOVE")), vec!["1"]);
    assert_eq!(ids(Some("acme")), vec!["2"]);
    assert_eq!(ids(None), vec!["1", "2", "3"]);
    assert_eq!(
        format_row(&all[2]),
        format!("{:<20} {:<20} {}", "3", "Cy", "")
    );
}

#[test]
fn listed_statuses_default_to_accepted_and_confirmed() {
    let mut args = ListArgs {
        compact: false,
        limit: None,
        json: false,
        query: None,
        all: false,
        status: None,
        sort: ProposalSortBy::Speaker,
        order: SortOrder::Asc,
    };
    assert_eq!(
        listed_statuses(&args),
        vec![ProposalStatus::Accepted, ProposalStatus::Confirmed]
    );
    assert!(!args.has_cli_filters());
    args.status = Some(vec![ProposalStatus::Waitlisted]);
    assert_eq!(listed_statuses(&args), vec![ProposalStatus::Waitlisted]);
    assert!(args.has_cli_filters());
}

#[test]
fn detail_view_lists_contact_flags_links_talks_and_bio() {
    let ada = speaker("s1", "Ada", Some("ada@x.no"));
    let t = talk("p1", "Rust", ProposalStatus::Accepted, vec![]);
    let out = plain(&render(&detail_spans(&ada, &[&t])));
    assert!(out.starts_with("Ada (s1)\n"), "{out}");
    assert!(out.contains("Email:   ada@x.no\n"), "{out}");
    assert!(out.contains("Title:   Engineer\n"), "{out}");
    assert!(out.contains("Flags:   [FirstTime, Local]\n"), "{out}");
    assert!(out.contains("\nLinks:\n  - https://ada.example\n"), "{out}");
    assert!(out.contains("\nTalks:\n  - [Accepted] Rust\n"), "{out}");
    assert!(out.contains("\nBio:\nLikes Rust.\n"), "{out}");
}

#[test]
fn wizard_checks_and_broadcast_plan() {
    assert!(email_looks_valid("a@b.no"));
    assert!(!email_looks_valid("a@bno"));
    assert_eq!(non_empty(String::new()), None);
    assert_eq!(non_empty("x".to_string()), Some("x".to_string()));
    assert_eq!(broadcast_plan(Some("s"), Some("m"), false), (false, true));
    assert_eq!(broadcast_plan(None, None, true), (true, false));
}

#[test]
fn wizard_lists_speakers_with_their_email() {
    let mut s = SpeakerSummary {
        id: "sp1".to_string(),
        name: "Ada Lovelace".to_string(),
        email: Some("ada@example.com".to_string()),
        title: None,
        slug: None,
        image: None,
    };
    assert_eq!(speaker_label(&s), "Ada Lovelace <ada@example.com>");
    s.email = None;
    assert_eq!(speaker_label(&s), "Ada Lovelace <no email>");
}

#[test]
fn byte_length_check_takes_any_limit() {
    let text: Vec<char> = "æøå".chars().collect();
    assert!(utf8_len_at_most(&text, 6));
    assert!(!utf8_len_at_most(&text, 5));
    assert!(utf8_len_at_most(&text, usize::MAX));
    assert!(!utf8_len_at_most(&text, 0));
}

use konfctl::client::{bearer, http_error, parse_error, procedure_url, query_url, truncate_body};
use konfctl::commands::schedule::{format_detail, format_row, header, status_label};
use konfctl::config::{Config, ConfigError, config_path};
use konfctl::display::proposal::{pad_and_colorize_status, render_proposal_detail};
use konfctl::display::sponsor::{format_sponsor_row, render_sponsor_detail};
use konfctl::display::status::{format_map, format_thousands};
use konfctl::types::{
    PortableBlock, Proposal, ProposalFormat, ProposalStatus, Review, ReviewComment, ReviewScore,
    Reviewer, Schedule, ScheduleStatus, Score, Speaker, SpeakerBio, SpeakerFlag,
    SponsorActivitySummary, SponsorForConference, SponsorRef, SponsorStatus, ActivityType, Topic,
};

/// The text without its terminal escape codes.
fn plain(s: &str) -> String {
    let mut out = String::new();
    let mut chars = s.chars().peekable();
    while let Some(c) = chars.next() {
        if c == '\u{1b}' {
            for d in chars.by_ref() {
                if d == 'm' {
                    break;
                }
            }
        } else {
            out.push(c);
        }
    }
    out
}

fn score(whole: u64) -> Score {
    Score {
        thousandths: whole as i64 * 1000,
        whole,
        text: whole.to_string(),
    }
}

fn speaker(name: &str, email: Option<&str>, flags: Vec<SpeakerFlag>) -> Speaker {
    Speaker {
        id: format!("id-{name}"),
        name: name.to_string(),
        slug: None,
        email: email.map(str::to_string),
        title: None,
        company: None,
        image: None,
        bio: SpeakerBio::Null,
        links: vec![],
        flags,
    }
}

fn proposal() -> Proposal {
    Proposal {
        id: "p1".to_string(),
        title: "Rust at Scale".to_string(),
        status: ProposalStatus::Accepted,
        format: Some(ProposalFormat::Presentation40),
        level: Some("intermediate".to_string()),
        language: Some("ørsta-dialect".to_string()),
        speakers: vec![speaker(
            "Ada",
            Some("ada@example.no"),
            vec![SpeakerFlag::Local, SpeakerFlag::Keynote],
        )],
        topics: vec![
            Topic {
                title: Some("Rust".to_string()),
            },
            Topic { title: None },
            Topic {
                title: Some("Cloud".to_string()),
            },
        ],
        reviews: vec![
            Review {
                score: Some(ReviewScore {
                    content: score(4),
                    relevance: score(3),
                    speaker: score(5),
                    total_text: "12".to_string(),
                }),
                comment: ReviewComment::Text("Great talk".to_string()),
                reviewer: Some(Reviewer {
                    name: "Kari".to_string(),
                }),
            },
            Review {
                score: None,
                comment: ReviewComment::Null,
                reviewer: None,
            },
        ],
        created_at: None,
        updated_at: None,
        outline: Some("Intro, demo".to_string()),
        description: vec![PortableBlock {
            block_type: Some("block".to_string()),
            span_texts: vec!["An ".to_string(), "abstract.".to_string()],
            list_item: None,
        }],
    }
}

#[test]
fn proposal_detail_lists_every_section() {
    let out = plain(&render_proposal_detail(&proposal()));
    let expected = [
        "Rust at Scale\n",
        "ID:       p1\n",
        "Status:   Accepted\n",
        "Format:   Talk 40min\n",
        "Level:    Intermediate\n",
        "Language: Ørsta-dialect\n",
        "\nSpeakers:\n",
        "  - Ada <ada@example.no> [local] [keynote]\n",
        "\nTopics: Rust, Cloud\n",
        "\nDescription:\nAn abstract.\n",
        "\nOutline:\nIntro, demo\n",
        "\nReviews (2):\n",
        "  Kari — Content: 4 Relevance: 3 Speaker: 5 (total: 12)\n",
        "    Great talk\n",
        "  Anonymous — (no score)\n",
    ]
    .concat();
    assert_eq!(out, expected);
}

#[test]
fn status_is_padded_before_painting() {
    assert_eq!(plain(&pad_and_colorize_status(ProposalStatus::Draft, 8)), "Draft   ");
    assert_eq!(plain(&pad_and_colorize_status(ProposalStatus::Waitlisted, 4)), "Waitlisted");
}

#[test]
fn thousands_are_grouped_with_no_break_spaces() {
    assert_eq!(format_thousands(0), "0");
    assert_eq!(format_thousands(999), "999");
    assert_eq!(format_thousands(1000), "1\u{a0}000");
    assert_eq!(format_thousands(1234567), "1\u{a0}234\u{a0}567");
    assert_eq!(format_thousands(-1234), "-1\u{a0}234");
    assert_eq!(format_thousands(-123), "-\u{a0}123");
}

#[test]
fn maps_list_positive_counts_largest_first() {
    let es = vec![
        ("prospect".to_string(), 1),
        ("closed-won".to_string(), 3),
        ("contacted".to_string(), 0),
        ("negotiating".to_string(), 1),
    ];
    assert_eq!(format_map(&es), "closed-won: 3 · prospect: 1 · negotiating: 1");
    assert_eq!(format_map(&[("a".to_string(), 0)]), "");
}

fn sponsor(created_at: &str) -> SponsorForConference {
    SponsorForConference {
        id: "sfc-1".to_string(),
        status: SponsorStatus::Negotiating,
        contract_status: Some("sent".to_string()),
        invoice_status: None,
        sponsor: Some(SponsorRef {
            id: "s1".to_string(),
            name: "A Very Long Sponsor Name Indeed".to_string(),
            website: None,
            linkedin_url: None,
        }),
        tier: None,
        assigned_to: None,
        contact_persons: vec![],
        billing: None,
        contract_value: None,
        contract_currency: None,
        notes: None,
        tags: vec![],
        contract_signed_at: None,
        invoice_sent_at: None,
        invoice_paid_at: None,
        activities: vec![],
        last_activity: Some(SponsorActivitySummary {
            kind: ActivityType::Call,
            description: "Called".to_string(),
            created_at: created_at.to_string(),
            created_by: None,
        }),
        activity_count: None,
        next_follow_up_at: None,
        outreach_count: None,
        contact_initiated_at: None,
    }
}

#[test]
fn sponsor_row_truncates_and_pads() {
    let row = plain(&format_sponsor_row(&sponsor("2026-03-01T10:00:00Z")));
    let expected = format!(
        "{:<20} {:<14} {:<15} {:<16} {}",
        "A Very Long Spons…", "negotiating", "2026-03-01", "sent", "-"
    );
    assert_eq!(row, expected);
}

#[test]
fn sponsor_detail_needs_a_full_activity_date() {
    assert!(render_sponsor_detail(&sponsor("2026-03-01T10:00:00Z")).is_some());
    assert!(render_sponsor_detail(&sponsor("2026")).is_none());
}

#[test]
fn schedules_print_as_rows() {
    let s = Schedule {
        id: "sch-1".to_string(),
        rev: None,
        date: "2026-06-11".to_string(),
        status: Some(ScheduleStatus::Official),
        version: Some(-2),
        track_count: Some(3),
    };
    assert_eq!(
        format_row(&s),
        format!("{:<35} | {:<12} | {:<10} | {}", "sch-1", "2026-06-11", "official", -2)
    );
    assert_eq!(status_label(None), "unknown");
    assert_eq!(
        header(),
        format!("{:<35} | {:<12} | {:<10} | {}\n{}", "ID", "DATE", "STATUS", "VERSION", "-".repeat(70))
    );
    assert!(format_detail(&s).contains("Tracks: 3"));
}

#[test]
fn urls_and_headers_follow_trpc_conventions() {
    assert_eq!(
        procedure_url("https://x.no", "proposal.admin.list"),
        "https://x.no/api/trpc/proposal.admin.list"
    );
    assert_eq!(
        query_url("https://x.no", "a.b", Some("{\"id\":\"p 1/ø\"}")),
        "https://x.no/api/trpc/a.b?input=%7B%22id%22%3A%22p+1%2F%C3%B8%22%7D"
    );
    assert_eq!(query_url("https://x.no", "a.b", None), "https://x.no/api/trpc/a.b");
    assert_eq!(bearer("tok"), "Bearer tok");
}

#[test]
fn failed_calls_are_reported_with_their_procedure() {
    assert_eq!(
        http_error("sponsor.crm.list", "401 Unauthorized", "{}", Some("UNAUTHORIZED")),
        "sponsor.crm.list: UNAUTHORIZED"
    );
    assert_eq!(
        http_error("a.b", "500 Internal Server Error", "oops", None),
        "a.b: HTTP 500 Internal Server Error — oops"
    );
    assert_eq!(truncate_body("ååå", 2), "åå…");
    assert_eq!(truncate_body("abc", 3), "abc");
    assert!(parse_error("a.b", "not json").starts_with(
        "Failed to parse response from a.b\n\nResponse body (first 512 bytes):\nnot json"
    ));
}

#[test]
fn config_lives_under_the_config_dir_unless_overridden() {
    assert_eq!(config_path(Some("/tmp/k.toml"), Some("/home/u/.config")), Ok("/tmp/k.toml".to_string()));
    assert_eq!(
        config_path(None, Some("/home/u/.config")),
        Ok("/home/u/.config/konf/config.toml".to_string())
    );
    assert_eq!(
        config_path(None, Some("/home/u/.config/")),
        Ok("/home/u/.config/konf/config.toml".to_string())
    );
    assert_eq!(
        config_path(None, Some("/home/u/what?/cfg")),
        Ok("/home/u/what?/cfg/konf/config.toml".to_string())
    );
    assert_eq!(config_path(None, None), Err(ConfigError::NoConfigDir));
    assert_eq!(
        ConfigError::NoConfigDir.to_string(),
        "Could not determine config directory"
    );
    let _ = Config {
        api_url: String::new(),
        token: String::new(),
        conference_id: String::new(),
        conference_title: String::new(),
        name: None,
    };
}

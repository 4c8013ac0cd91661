use konfctl::commands::proposals::ListArgs;
use konfctl::commands::proposals::{apply_filters, Filters};
use konfctl::types::{
    Proposal, ProposalFormat, ProposalSortBy, ProposalStatus, Review, ReviewComment, ReviewScore,
    ReviewStatus, Reviewer, Score, SortOrder, Speaker, SpeakerBio,
};

fn speaker(name: &str) -> Speaker {
    Speaker {
        id: "s1".to_string(),
        name: name.to_string(),
        slug: None,
        email: None,
        title: None,
        company: None,
        image: None,
        bio: SpeakerBio::Null,
        links: vec![],
        flags: vec![],
    }
}

fn bare(id: &str, title: &str, status: ProposalStatus) -> Proposal {
    Proposal {
        id: id.to_string(),
        title: title.to_string(),
        status,
        format: None,
        level: None,
        language: None,
        speakers: vec![],
        topics: vec![],
        reviews: vec![],
        created_at: None,
        updated_at: None,
        outline: None,
        description: vec![],
    }
}

fn make_proposal(id: &str, title: &str, status: &str, format: &str) -> Proposal {
    let mut p = bare(id, title, ProposalStatus::from_wire(status));
    p.format = Some(ProposalFormat::from_wire(format));
    p
}

fn make_proposal_with_speaker(id: &str, title: &str, status: &str, name: &str) -> Proposal {
    let mut p = bare(id, title, ProposalStatus::from_wire(status));
    p.speakers = vec![speaker(name)];
    p
}

fn score(whole: u64) -> Score {
    Score {
        thousandths: (whole as i64) * 1000,
        whole,
        text: whole.to_string(),
    }
}

fn make_proposal_with_reviews(id: &str, title: &str, scores: &[(u64, u64, u64)]) -> Proposal {
    let mut p = bare(id, title, ProposalStatus::Submitted);
    p.reviews = scores
        .iter()
        .map(|(c, r, s)| Review {
            score: Some(ReviewScore {
                content: score(*c),
                relevance: score(*r),
                speaker: score(*s),
                total_text: (c + r + s).to_string(),
            }),
            comment: ReviewComment::Null,
            reviewer: Some(Reviewer {
                name: "Kari Nordmann".to_string(),
            }),
        })
        .collect();
    p
}

fn test_proposals() -> Vec<Proposal> {
    vec![
        make_proposal("1", "Kubernetes Intro", "submitted", "presentation_40"),
        make_proposal("2", "Service Mesh", "accepted", "presentation_20"),
        make_proposal("3", "Lightning Demo", "submitted", "lightning_10"),
        make_proposal("4", "Workshop K8s", "rejected", "workshop_120"),
        make_proposal("5", "Observability", "confirmed", "presentation_40"),
    ]
}

#[test]
fn filter_by_status_submitted() {
    let proposals = test_proposals();
    let filters = Filters {
        statuses: vec![ProposalStatus::Submitted],
        ..Filters::default()
    };
    let result = apply_filters(&proposals, &filters);
    assert_eq!(result.len(), 2);
    assert!(result.iter().all(|p| p.status == ProposalStatus::Submitted));
}

#[test]
fn filter_by_multiple_statuses() {
    let proposals = test_proposals();
    let filters = Filters {
        statuses: vec![ProposalStatus::Accepted, ProposalStatus::Confirmed],
        ..Filters::default()
    };
    let result = apply_filters(&proposals, &filters);
    assert_eq!(result.len(), 2);
}

#[test]
fn filter_by_format() {
    let proposals = test_proposals();
    let filters = Filters {
        statuses: vec![],
        formats: vec![ProposalFormat::Presentation40],
        ..Filters::default()
    };
    let result = apply_filters(&proposals, &filters);
    assert_eq!(result.len(), 2);
    assert!(result
        .iter()
        .all(|p| p.format == Some(ProposalFormat::Presentation40)));
}

#[test]
fn filter_empty_statuses_shows_all() {
    let proposals = test_proposals();
    let filters = Filters {
        statuses: vec![],
        formats: vec![],
        ..Filters::default()
    };
    let result = apply_filters(&proposals, &filters);
    assert_eq!(result.len(), 5);
}

#[test]
fn filter_no_match_returns_empty() {
    let proposals = test_proposals();
    let filters = Filters {
        statuses: vec![ProposalStatus::Waitlisted],
        ..Filters::default()
    };
    let result = apply_filters(&proposals, &filters);
    assert!(result.is_empty());
}

#[test]
fn sort_by_title_asc() {
    let proposals = test_proposals();
    let filters = Filters {
        statuses: vec![],
        formats: vec![],
        sort_by: ProposalSortBy::Title,
        sort_order: SortOrder::Asc,
        ..Filters::default()
    };
    let result = apply_filters(&proposals, &filters);
    let titles: Vec<&str> = result.iter().map(|p| p.title.as_str()).collect();
    assert_eq!(
        titles,
        vec![
            "Kubernetes Intro",
            "Lightning Demo",
            "Observability",
            "Service Mesh",
            "Workshop K8s"
        ]
    );
}

#[test]
fn sort_by_title_desc() {
    let proposals = test_proposals();
    let filters = Filters {
        statuses: vec![],
        formats: vec![],
        sort_by: ProposalSortBy::Title,
        sort_order: SortOrder::Desc,
        ..Filters::default()
    };
    let result = apply_filters(&proposals, &filters);
    let titles: Vec<&str> = result.iter().map(|p| p.title.as_str()).collect();
    assert_eq!(titles[0], "Workshop K8s");
    assert_eq!(titles[4], "Kubernetes Intro");
}

#[test]
fn sort_by_speaker() {
    let proposals = vec![
        make_proposal_with_speaker("1", "Talk A", "submitted", "Charlie"),
        make_proposal_with_speaker("2", "Talk B", "submitted", "Alice"),
        make_proposal_with_speaker("3", "Talk C", "submitted", "Bob"),
    ];
    let filters = Filters {
        statuses: vec![],
        formats: vec![],
        sort_by: ProposalSortBy::Speaker,
        sort_order: SortOrder::Asc,
        ..Filters::default()
    };
    let result = apply_filters(&proposals, &filters);
    let speakers: Vec<&str> = result.iter().map(|p| p.speakers[0].name.as_str()).collect();
    assert_eq!(speakers, vec!["Alice", "Bob", "Charlie"]);
}

#[test]
fn sort_by_rating_desc() {
    let proposals = vec![
        make_proposal_with_reviews("1", "Low rated", &[(1, 1, 1)]),
        make_proposal_with_reviews("2", "High rated", &[(5, 5, 5)]),
        make_proposal_with_reviews("3", "Medium rated", &[(3, 3, 3)]),
    ];
    let filters = Filters {
        statuses: vec![],
        formats: vec![],
        sort_by: ProposalSortBy::Rating,
        sort_order: SortOrder::Desc,
        ..Filters::default()
    };
    let result = apply_filters(&proposals, &filters);
    let titles: Vec<&str> = result.iter().map(|p| p.title.as_str()).collect();
    assert_eq!(titles, vec!["High rated", "Medium rated", "Low rated"]);
}

#[test]
fn filter_and_sort_combined() {
    let proposals = test_proposals();
    let filters = Filters {
        statuses: vec![ProposalStatus::Submitted],
        formats: vec![],
        sort_by: ProposalSortBy::Title,
        sort_order: SortOrder::Asc,
        ..Filters::default()
    };
    let result = apply_filters(&proposals, &filters);
    assert_eq!(result.len(), 2);
    assert_eq!(result[0].title, "Kubernetes Intro");
    assert_eq!(result[1].title, "Lightning Demo");
}

#[test]
fn search_matches_titles_and_speakers_ignoring_case() {
    let proposals = vec![
        make_proposal_with_speaker("1", "Rust in Production", "submitted", "Ada"),
        make_proposal_with_speaker("2", "Go Routines", "submitted", "Ørjan Rustad"),
        make_proposal_with_speaker("3", "Python", "submitted", "Bob"),
    ];
    let filters = Filters {
        search: Some("RUST".to_string()),
        ..Filters::default()
    };
    let result = apply_filters(&proposals, &filters);
    let ids: Vec<&str> = result.iter().map(|p| p.id.as_str()).collect();
    assert_eq!(ids, vec!["1", "2"]);
}

#[test]
fn equal_keys_keep_their_order_in_both_directions() {
    let proposals = vec![
        make_proposal("1", "Same", "submitted", "lightning_10"),
        make_proposal("2", "Same", "submitted", "lightning_10"),
        make_proposal("3", "Alpha", "submitted", "lightning_10"),
    ];
    for (order, expected) in [(SortOrder::Asc, ["3", "1", "2"]), (SortOrder::Desc, ["1", "2", "3"])] {
        let filters = Filters {
            sort_by: ProposalSortBy::Title,
            sort_order: order,
            ..Filters::default()
        };
        let result = apply_filters(&proposals, &filters);
        let ids: Vec<&str> = result.iter().map(|p| p.id.as_str()).collect();
        assert_eq!(ids, expected.to_vec());
    }
}

#[test]
fn format_filter_drops_proposals_without_a_format() {
    let mut proposals = test_proposals();
    proposals.push(bare("6", "No format", ProposalStatus::Submitted));
    let filters = Filters {
        formats: vec![ProposalFormat::Lightning10],
        ..Filters::default()
    };
    let result = apply_filters(&proposals, &filters);
    let ids: Vec<&str> = result.iter().map(|p| p.id.as_str()).collect();
    assert_eq!(ids, vec!["3"]);
}

#[test]
fn unrated_proposals_sort_as_zero() {
    let proposals = vec![
        make_proposal_with_reviews("1", "Rated", &[(2, 2, 2), (4, 4, 4)]),
        bare("2", "Unrated", ProposalStatus::Submitted),
    ];
    let filters = Filters {
        sort_by: ProposalSortBy::Rating,
        sort_order: SortOrder::Asc,
        ..Filters::default()
    };
    let result = apply_filters(&proposals, &filters);
    let ids: Vec<&str> = result.iter().map(|p| p.id.as_str()).collect();
    assert_eq!(ids, vec!["2", "1"]);
}

#[test]
fn proposal_list_filters_are_detected() {
    let plain = ListArgs {
        status: None,
        format: None,
        search: None,
        review_status: None,
        unreviewed: false,
        sort_by: ProposalSortBy::Created,
        sort_order: SortOrder::Asc,
        compact: true,
        limit: Some(5),
        json: true,
    };
    assert!(!plain.has_cli_filters());
    let mut a = plain.clone();
    a.search = Some("rust".to_string());
    assert!(a.has_cli_filters());
    let mut b = plain.clone();
    b.unreviewed = true;
    assert!(b.has_cli_filters());
    let mut c = plain.clone();
    c.sort_order = SortOrder::Desc;
    assert!(c.has_cli_filters());
    let mut d = plain.clone();
    d.review_status = Some(ReviewStatus::Reviewed);
    assert!(d.has_cli_filters());
}

use konfctl::types::proposal::{portable_text_to_plain, PortableBlock, ProposalFormat, ProposalStatus};
use konfctl::types::tickets::{Count, UnknownTag};
use konfctl::types::{TemplateCategory, TemplateLanguage};

fn block(kind: &str, spans: &[&str], list_item: Option<&str>) -> PortableBlock {
    PortableBlock {
        block_type: Some(kind.to_string()),
        span_texts: spans.iter().map(|s| (*s).to_string()).collect(),
        list_item: list_item.map(str::to_string),
    }
}

#[test]
fn category_display() {
    assert_eq!(TemplateCategory::ColdOutreach.to_string(), "cold-outreach");
    assert_eq!(
        TemplateCategory::ReturningSponsor.to_string(),
        "returning-sponsor"
    );
    assert_eq!(TemplateCategory::FollowUp.to_string(), "follow-up");
}

#[test]
fn language_display() {
    assert!(TemplateLanguage::Norwegian
        .to_string()
        .contains("Norwegian"));
    assert!(TemplateLanguage::English.to_string().contains("English"));
}

#[test]
fn portable_text_paragraphs() {
    let blocks = vec![
        block("block", &["First paragraph."], None),
        block("block", &["Second ", "paragraph."], None),
    ];
    let result = portable_text_to_plain(&blocks);
    assert_eq!(result, "First paragraph.\n\nSecond paragraph.");
}

#[test]
fn portable_text_with_list_items() {
    let blocks = vec![
        block("block", &["Intro"], None),
        block("block", &["Item one"], Some("bullet")),
        block("block", &["Item two"], Some("bullet")),
    ];
    let result = portable_text_to_plain(&blocks);
    assert_eq!(result, "Intro\n\n  • Item one\n\n  • Item two");
}

#[test]
fn portable_text_empty() {
    assert_eq!(portable_text_to_plain(&[]), "");
}

#[test]
fn portable_text_skips_other_blocks_and_numbers_items() {
    let blocks = vec![
        block("image", &["ignored"], None),
        block("block", &[], None),
        block("block", &["Step"], Some("number")),
    ];
    assert_eq!(portable_text_to_plain(&blocks), "  - Step");
}

#[test]
fn unknown_status_and_format_read_as_unknown() {
    assert_eq!(ProposalStatus::from_wire("something_new"), ProposalStatus::Unknown);
    assert_eq!(ProposalStatus::from_wire("accepted"), ProposalStatus::Accepted);
    assert_eq!(ProposalFormat::from_wire("hackathon_999"), ProposalFormat::Unknown);
    assert_eq!(ProposalFormat::from_wire("lightning_10"), ProposalFormat::Lightning10);
}

#[test]
fn format_labels_and_api_names() {
    assert_eq!(ProposalFormat::Presentation40.label(), "Talk 40min");
    assert_eq!(ProposalFormat::Presentation40.api_name(), "presentation_40");
    assert_eq!(ProposalStatus::Confirmed.to_string(), "Confirmed");
}

#[test]
fn unknown_count_is_a_question_mark() {
    let unknown = Count::Unknown(UnknownTag::Unknown);
    assert!(unknown.is_unknown());
    assert_eq!(unknown.label(), "?");
    assert_eq!(Count::Known(0).label(), "0");
    assert!(!Count::Known(12).is_unknown());
    assert_eq!(Count::Known(12).label(), "12");
}

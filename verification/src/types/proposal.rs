use vstd::prelude::*;

use crate::text::{chars_of, join, join_strings, push_str, str_eq, string_of};

verus! {

/// What the proposal list can be sorted by.
#[derive(Debug, Clone, Copy, PartialEq, Eq, Structural)]
pub enum ProposalSortBy {
    Created,
    Title,
    Status,
    Speaker,
    Rating,
}

impl ProposalSortBy {
    /// The variant name, as `{:?}` prints it.
    pub open spec fn spec_debug_name(self) -> Seq<char> {
        match self {
            ProposalSortBy::Created => "Created"@,
            ProposalSortBy::Title => "Title"@,
            ProposalSortBy::Status => "Status"@,
            ProposalSortBy::Speaker => "Speaker"@,
            ProposalSortBy::Rating => "Rating"@,
        }
    }

    /// The variant name, as `{:?}` prints it.
    pub fn debug_name(self) -> (s: &'static str)
        ensures
            s@ == self.spec_debug_name(),
    {
        match self {
            ProposalSortBy::Created => "Created",
            ProposalSortBy::Title => "Title",
            ProposalSortBy::Status => "Status",
            ProposalSortBy::Speaker => "Speaker",
            ProposalSortBy::Rating => "Rating",
        }
    }
}

impl Default for ProposalSortBy {
    fn default() -> (s: Self)
        ensures
            s == ProposalSortBy::Created,
    {
        ProposalSortBy::Created
    }
}

/// Ascending or descending.
#[derive(Debug, Clone, Copy, PartialEq, Eq, Structural)]
pub enum SortOrder {
    Asc,
    Desc,
}

impl Default for SortOrder {
    fn default() -> (s: Self)
        ensures
            s == SortOrder::Asc,
    {
        SortOrder::Asc
    }
}

/// Which proposals by review state.
#[derive(Debug, Clone, Copy, PartialEq, Eq, Structural)]
pub enum ReviewStatus {
    All,
    Reviewed,
    Unreviewed,
}

impl Default for ReviewStatus {
    fn default() -> (s: Self)
        ensures
            s == ReviewStatus::All,
    {
        ReviewStatus::All
    }
}

/// Where a proposal stands.
#[derive(Debug, Clone, Copy, PartialEq, Eq, Structural)]
pub enum ProposalStatus {
    Submitted,
    Accepted,
    Confirmed,
    Waitlisted,
    Rejected,
    Withdrawn,
    Draft,
    Deleted,
    /// Any status this client does not know yet.
    Unknown,
}

impl ProposalStatus {
    /// How the status is printed.
    pub open spec fn spec_label(self) -> Seq<char> {
        match self {
            ProposalStatus::Submitted => "Submitted"@,
            ProposalStatus::Accepted => "Accepted"@,
            ProposalStatus::Confirmed => "Confirmed"@,
            ProposalStatus::Waitlisted => "Waitlisted"@,
            ProposalStatus::Rejected => "Rejected"@,
            ProposalStatus::Withdrawn => "Withdrawn"@,
            ProposalStatus::Draft => "Draft"@,
            ProposalStatus::Deleted => "Deleted"@,
            ProposalStatus::Unknown => "Unknown"@,
        }
    }

    /// The camel-case wire name.
    pub open spec fn spec_wire(self) -> Seq<char> {
        match self {
            ProposalStatus::Submitted => "submitted"@,
            ProposalStatus::Accepted => "accepted"@,
            ProposalStatus::Confirmed => "confirmed"@,
            ProposalStatus::Waitlisted => "waitlisted"@,
            ProposalStatus::Rejected => "rejected"@,
            ProposalStatus::Withdrawn => "withdrawn"@,
            ProposalStatus::Draft => "draft"@,
            ProposalStatus::Deleted => "deleted"@,
            ProposalStatus::Unknown => "unknown"@,
        }
    }

    /// How the status is printed.
    pub fn label(self) -> (s: &'static str)
        ensures
            s@ == self.spec_label(),
    {
        match self {
            ProposalStatus::Submitted => "Submitted",
            ProposalStatus::Accepted => "Accepted",
            ProposalStatus::Confirmed => "Confirmed",
            ProposalStatus::Waitlisted => "Waitlisted",
            ProposalStatus::Rejected => "Rejected",
            ProposalStatus::Withdrawn => "Withdrawn",
            ProposalStatus::Draft => "Draft",
            ProposalStatus::Deleted => "Deleted",
            ProposalStatus::Unknown => "Unknown",
        }
    }

    /// How the status is printed.
    pub fn to_string(&self) -> (s: String)
        ensures
            s@ == self.spec_label(),
    {
        String::from_str(self.label())
    }

    /// The status a wire name stands for; an unknown name gives `Unknown`.
    pub fn from_wire(s: &str) -> (st: Self)
        ensures
            st != ProposalStatus::Unknown ==> st.spec_wire() == s@,
            st == ProposalStatus::Unknown ==> forall|k: ProposalStatus|
                k != ProposalStatus::Unknown ==> k.spec_wire() != s@,
    {
        if str_eq(s, "submitted") {
            ProposalStatus::Submitted
        } else if str_eq(s, "accepted") {
            ProposalStatus::Accepted
        } else if str_eq(s, "confirmed") {
            ProposalStatus::Confirmed
        } else if str_eq(s, "waitlisted") {
            ProposalStatus::Waitlisted
        } else if str_eq(s, "rejected") {
            ProposalStatus::Rejected
        } else if str_eq(s, "withdrawn") {
            ProposalStatus::Withdrawn
        } else if str_eq(s, "draft") {
            ProposalStatus::Draft
        } else if str_eq(s, "deleted") {
            ProposalStatus::Deleted
        } else {
            ProposalStatus::Unknown
        }
    }
}

/// The length and kind of a talk.
#[derive(Debug, Clone, Copy, PartialEq, Eq, Structural)]
pub enum ProposalFormat {
    Lightning10,
    Presentation20,
    Presentation25,
    Presentation40,
    Presentation45,
    Workshop120,
    Workshop240,
    /// Any format this client does not know yet.
    Unknown,
}

impl ProposalFormat {
    /// The human label.
    pub open spec fn spec_label(self) -> Seq<char> {
        match self {
            ProposalFormat::Lightning10 => "Lightning 10min"@,
            ProposalFormat::Presentation20 => "Talk 20min"@,
            ProposalFormat::Presentation25 => "Talk 25min"@,
            ProposalFormat::Presentation40 => "Talk 40min"@,
            ProposalFormat::Presentation45 => "Talk 45min"@,
            ProposalFormat::Workshop120 => "Workshop 2h"@,
            ProposalFormat::Workshop240 => "Workshop 4h"@,
            ProposalFormat::Unknown => "Unknown format"@,
        }
    }

    /// The name the API uses.
    pub open spec fn spec_api_name(self) -> Seq<char> {
        match self {
            ProposalFormat::Lightning10 => "lightning_10"@,
            ProposalFormat::Presentation20 => "presentation_20"@,
            ProposalFormat::Presentation25 => "presentation_25"@,
            ProposalFormat::Presentation40 => "presentation_40"@,
            ProposalFormat::Presentation45 => "presentation_45"@,
            ProposalFormat::Workshop120 => "workshop_120"@,
            ProposalFormat::Workshop240 => "workshop_240"@,
            ProposalFormat::Unknown => "unknown"@,
        }
    }

    /// The human label.
    pub fn label(self) -> (s: &'static str)
        ensures
            s@ == self.spec_label(),
    {
        match self {
            ProposalFormat::Lightning10 => "Lightning 10min",
            ProposalFormat::Presentation20 => "Talk 20min",
            ProposalFormat::Presentation25 => "Talk 25min",
            ProposalFormat::Presentation40 => "Talk 40min",
            ProposalFormat::Presentation45 => "Talk 45min",
            ProposalFormat::Workshop120 => "Workshop 2h",
            ProposalFormat::Workshop240 => "Workshop 4h",
            ProposalFormat::Unknown => "Unknown format",
        }
    }

    /// The name the API uses.
    pub fn api_name(self) -> (s: &'static str)
        ensures
            s@ == self.spec_api_name(),
    {
        match self {
            ProposalFormat::Lightning10 => "lightning_10",
            ProposalFormat::Presentation20 => "presentation_20",
            ProposalFormat::Presentation25 => "presentation_25",
            ProposalFormat::Presentation40 => "presentation_40",
            ProposalFormat::Presentation45 => "presentation_45",
            ProposalFormat::Workshop120 => "workshop_120",
            ProposalFormat::Workshop240 => "workshop_240",
            ProposalFormat::Unknown => "unknown",
        }
    }

    /// How the format is printed: its label.
    pub fn to_string(&self) -> (s: String)
        ensures
            s@ == self.spec_label(),
    {
        String::from_str(self.label())
    }

    /// The format an API name stands for; an unknown name gives `Unknown`.
    pub fn from_wire(s: &str) -> (f: Self)
        ensures
            f != ProposalFormat::Unknown ==> f.spec_api_name() == s@,
            f == ProposalFormat::Unknown ==> forall|k: ProposalFormat|
                k != ProposalFormat::Unknown ==> k.spec_api_name() != s@,
    {
        if str_eq(s, "lightning_10") {
            ProposalFormat::Lightning10
        } else if str_eq(s, "presentation_20") {
            ProposalFormat::Presentation20
        } else if str_eq(s, "presentation_25") {
            ProposalFormat::Presentation25
        } else if str_eq(s, "presentation_40") {
            ProposalFormat::Presentation40
        } else if str_eq(s, "presentation_45") {
            ProposalFormat::Presentation45
        } else if str_eq(s, "workshop_120") {
            ProposalFormat::Workshop120
        } else if str_eq(s, "workshop_240") {
            ProposalFormat::Workshop240
        } else {
            ProposalFormat::Unknown
        }
    }
}

/// One block of Portable Text, as far as plain-text rendering reads it.
#[derive(Debug, Clone, PartialEq)]
pub struct PortableBlock {
    /// The block's `_type`, when it is a string.
    pub block_type: Option<String>,
    /// The `text` of each child span that has one, in order.
    pub span_texts: Vec<String>,
    /// The `listItem` style, when it is a string.
    pub list_item: Option<String>,
}

/// The paragraph a block contributes, possibly empty: its spans' text, with
/// a bullet or dash prefix for list items; nothing for non-`block` blocks.
pub open spec fn block_paragraph(b: PortableBlock) -> Seq<char> {
    if b.block_type matches Some(t) && t@ == "block"@ {
        let text = crate::text::concat(b.span_texts@.map_values(|s: String| s@));
        if b.list_item matches Some(l) && l@ == "bullet"@ {
            "  • "@ + text
        } else if b.list_item matches Some(l) && l@ == "number"@ {
            "  - "@ + text
        } else {
            text
        }
    } else {
        seq![]
    }
}

/// The non-empty paragraphs of `blocks`, in order.
pub open spec fn paragraphs(blocks: Seq<PortableBlock>) -> Seq<Seq<char>>
    decreases blocks.len(),
{
    if blocks.len() == 0 {
        seq![]
    } else {
        let rest = paragraphs(blocks.drop_last());
        let p = block_paragraph(blocks.last());
        if p.len() > 0 { rest.push(p) } else { rest }
    }
}

fn block_paragraph_exec(b: &PortableBlock) -> (r: Vec<char>)
    ensures
        r@ == block_paragraph(*b),
{
    let is_block = match &b.block_type {
        Some(t) => str_eq(t.as_str(), "block"),
        None => false,
    };
    if !is_block {
        return Vec::new();
    }
    let ghost texts = b.span_texts@.map_values(|s: String| s@);
    let mut text: Vec<char> = Vec::new();
    let mut i: usize = 0;
    assert(texts.take(0) =~= Seq::<Seq<char>>::empty());
    while i < b.span_texts.len()
        invariant
            i <= b.span_texts@.len(),
            texts == b.span_texts@.map_values(|s: String| s@),
            text@ == crate::text::concat(texts.take(i as int)),
        decreases b.span_texts@.len() - i,
    {
        push_str(&mut text, b.span_texts[i].as_str());
        i = i + 1;
        assert(texts.take(i as int).drop_last() =~= texts.take(i - 1));
    }
    assert(texts.take(i as int) =~= texts);
    let bullet = match &b.list_item {
        Some(l) => str_eq(l.as_str(), "bullet"),
        None => false,
    };
    let number = match &b.list_item {
        Some(l) => str_eq(l.as_str(), "number"),
        None => false,
    };
    if bullet {
        let mut out = chars_of("  • ");
        crate::text::push_chars(&mut out, &text);
        out
    } else if number {
        let mut out = chars_of("  - ");
        crate::text::push_chars(&mut out, &text);
        out
    } else {
        text
    }
}

/// Portable Text as plain text for the terminal: the non-empty paragraphs
/// separated by blank lines.
pub fn portable_text_to_plain(blocks: &[PortableBlock]) -> (r: String)
    ensures
        r@ == join(paragraphs(blocks@), "\n\n"@),
{
    let mut paras: Vec<String> = Vec::new();
    let mut i: usize = 0;
    assert(blocks@.take(0) =~= Seq::<PortableBlock>::empty());
    assert(paras@.map_values(|s: String| s@) =~= Seq::<Seq<char>>::empty());
    while i < blocks.len()
        invariant
            i <= blocks@.len(),
            paras@.map_values(|s: String| s@) == paragraphs(blocks@.take(i as int)),
        decreases blocks@.len() - i,
    {
        let p = block_paragraph_exec(&blocks[i]);
        let ghost prev = paras@.map_values(|s: String| s@);
        assert(blocks@.take(i + 1).drop_last() =~= blocks@.take(i as int));
        if p.len() > 0 {
            paras.push(string_of(&p));
            assert(paras@.map_values(|s: String| s@) =~= prev.push(p@));
        }
        i = i + 1;
    }
    assert(blocks@.take(i as int) =~= blocks@);
    let out = join_strings(&paras, "\n\n");
    string_of(&out)
}

/// A topic of a proposal.
#[derive(Debug, Clone, PartialEq)]
pub struct Topic {
    /// The topic's `title`, when it is a string.
    pub title: Option<String>,
}

impl Topic {
    /// The topic's title, if it has one.
    pub fn title(&self) -> (t: Option<&str>)
        ensures
            t matches Some(s) ==> self.title matches Some(x) && s@ == x@,
            t is None ==> self.title is None,
    {
        match &self.title {
            Some(s) => Some(s.as_str()),
            None => None,
        }
    }
}

/// One of the three review scores: its value in thousandths, its whole part
/// (the value truncated toward zero, negative values as 0), and how it prints.
#[derive(Debug, Clone, PartialEq)]
pub struct Score {
    pub thousandths: i64,
    pub whole: u64,
    pub text: String,
}

/// The scores of a review.
#[derive(Debug, Clone, PartialEq)]
pub struct ReviewScore {
    pub content: Score,
    pub relevance: Score,
    pub speaker: Score,
    /// The sum of the three, rounded to a whole number as printed.
    pub total_text: String,
}

impl ReviewScore {
    /// The sum of the three scores, in thousandths.
    pub open spec fn spec_total(self) -> int {
        self.content.thousandths + self.relevance.thousandths + self.speaker.thousandths
    }

    /// The sum of the three scores, in thousandths.
    pub fn total(&self) -> (t: i128)
        ensures
            t == self.spec_total(),
    {
        self.content.thousandths as i128 + self.relevance.thousandths as i128
            + self.speaker.thousandths as i128
    }
}

/// The comment of a review: absent, a string, or some other JSON value
/// (kept as its JSON text).
#[derive(Debug, Clone, PartialEq)]
pub enum ReviewComment {
    Null,
    Text(String),
    Other(String),
}

/// Who wrote a review.
#[derive(Debug, Clone, PartialEq)]
pub struct Reviewer {
    pub name: String,
}

/// A review of a proposal.
#[derive(Debug, Clone, PartialEq)]
pub struct Review {
    pub score: Option<ReviewScore>,
    pub comment: ReviewComment,
    pub reviewer: Option<Reviewer>,
}

/// A talk proposal.
#[derive(Debug, Clone, PartialEq)]
pub struct Proposal {
    pub id: String,
    pub title: String,
    pub status: ProposalStatus,
    pub format: Option<ProposalFormat>,
    /// The level, when it is a string.
    pub level: Option<String>,
    /// The language, when it is a string.
    pub language: Option<String>,
    pub speakers: Vec<crate::types::Speaker>,
    pub topics: Vec<Topic>,
    pub reviews: Vec<Review>,
    pub created_at: Option<String>,
    pub updated_at: Option<String>,
    /// The outline, when it is a string.
    pub outline: Option<String>,
    pub description: Vec<PortableBlock>,
}

} // verus!

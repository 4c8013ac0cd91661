use vstd::prelude::*;

use crate::text::str_eq;

verus! {

/// What a sponsor e-mail template is for.
#[derive(Debug, Clone, Copy, PartialEq, Eq, Structural)]
pub enum TemplateCategory {
    ColdOutreach,
    ReturningSponsor,
    International,
    LocalCommunity,
    FollowUp,
    Contract,
    Custom,
    /// Any category this client does not know yet.
    Unknown,
}

impl TemplateCategory {
    /// The kebab-case name, used on the wire and when printed.
    pub open spec fn spec_name(self) -> Seq<char> {
        match self {
            TemplateCategory::ColdOutreach => "cold-outreach"@,
            TemplateCategory::ReturningSponsor => "returning-sponsor"@,
            TemplateCategory::International => "international"@,
            TemplateCategory::LocalCommunity => "local-community"@,
            TemplateCategory::FollowUp => "follow-up"@,
            TemplateCategory::Contract => "contract"@,
            TemplateCategory::Custom => "custom"@,
            TemplateCategory::Unknown => "unknown"@,
        }
    }

    /// The kebab-case name, used on the wire and when printed.
    pub fn name(self) -> (s: &'static str)
        ensures
            s@ == self.spec_name(),
    {
        match self {
            TemplateCategory::ColdOutreach => "cold-outreach",
            TemplateCategory::ReturningSponsor => "returning-sponsor",
            TemplateCategory::International => "international",
            TemplateCategory::LocalCommunity => "local-community",
            TemplateCategory::FollowUp => "follow-up",
            TemplateCategory::Contract => "contract",
            TemplateCategory::Custom => "custom",
            TemplateCategory::Unknown => "unknown",
        }
    }

    /// How the category is printed.
    pub fn to_string(&self) -> (s: String)
        ensures
            s@ == self.spec_name(),
    {
        String::from_str(self.name())
    }

    /// The category a wire name stands for: a known name gives its category,
    /// anything else `Unknown`.
    pub fn from_wire(s: &str) -> (c: Self)
        ensures
            c != TemplateCategory::Unknown ==> c.spec_name() == s@,
            c == TemplateCategory::Unknown ==> forall|k: TemplateCategory|
                k != TemplateCategory::Unknown ==> k.spec_name() != s@,
    {
        if str_eq(s, "cold-outreach") {
            TemplateCategory::ColdOutreach
        } else if str_eq(s, "returning-sponsor") {
            TemplateCategory::ReturningSponsor
        } else if str_eq(s, "international") {
            TemplateCategory::International
        } else if str_eq(s, "local-community") {
            TemplateCategory::LocalCommunity
        } else if str_eq(s, "follow-up") {
            TemplateCategory::FollowUp
        } else if str_eq(s, "contract") {
            TemplateCategory::Contract
        } else if str_eq(s, "custom") {
            TemplateCategory::Custom
        } else {
            TemplateCategory::Unknown
        }
    }
}

/// The language of a sponsor e-mail template.
#[derive(Debug, Clone, Copy, PartialEq, Eq, Structural)]
pub enum TemplateLanguage {
    Norwegian,
    English,
    /// Any language this client does not know yet.
    Unknown,
}

impl TemplateLanguage {
    /// How the language is printed: a flag and its name.
    pub open spec fn spec_label(self) -> Seq<char> {
        match self {
            TemplateLanguage::Norwegian => "🇳🇴 Norwegian"@,
            TemplateLanguage::English => "🇬🇧 English"@,
            TemplateLanguage::Unknown => "unknown"@,
        }
    }

    /// How the language is printed: a flag and its name.
    pub fn label(self) -> (s: &'static str)
        ensures
            s@ == self.spec_label(),
    {
        match self {
            TemplateLanguage::Norwegian => "🇳🇴 Norwegian",
            TemplateLanguage::English => "🇬🇧 English",
            TemplateLanguage::Unknown => "unknown",
        }
    }

    /// How the language is printed.
    pub fn to_string(&self) -> (s: String)
        ensures
            s@ == self.spec_label(),
    {
        String::from_str(self.label())
    }

    /// The language a wire code stands for; an unknown code gives `Unknown`.
    pub fn from_wire(s: &str) -> (l: Self)
        ensures
            l == (if s@ == "no"@ {
                TemplateLanguage::Norwegian
            } else if s@ == "en"@ {
                TemplateLanguage::English
            } else {
                TemplateLanguage::Unknown
            }),
    {
        if str_eq(s, "no") {
            TemplateLanguage::Norwegian
        } else if str_eq(s, "en") {
            TemplateLanguage::English
        } else {
            TemplateLanguage::Unknown
        }
    }
}

/// The slug of a template.
#[derive(Debug, Clone, PartialEq)]
pub struct TemplateSlug {
    pub current: String,
}

/// A sponsor e-mail template.
#[derive(Debug, Clone, PartialEq)]
pub struct SponsorEmailTemplate {
    pub id: String,
    pub title: String,
    pub slug: TemplateSlug,
    pub category: TemplateCategory,
    pub language: TemplateLanguage,
    pub subject: String,
    pub body_markdown: Option<String>,
    pub description: Option<String>,
    pub is_default: Option<bool>,
    pub sort_order: Option<i32>,
}

/// Someone an e-mail goes to.
#[derive(Debug, Clone, PartialEq)]
pub struct EmailRecipient {
    pub name: String,
    pub email: String,
}

/// The templates for a sponsor, with the variables to fill them and the
/// recipients.
#[derive(Debug, Clone, PartialEq)]
pub struct TemplateListResponse {
    pub templates: Vec<SponsorEmailTemplate>,
    /// Variable name and value, in the order they are applied.
    pub variables: Vec<(String, String)>,
    pub recipients: Vec<EmailRecipient>,
    pub sponsor_name: Option<String>,
    pub suggested_category: TemplateCategory,
    pub suggested_language: TemplateLanguage,
}

/// The answer to sending an e-mail.
#[derive(Debug, Clone, PartialEq)]
pub struct SendEmailResponse {
    pub success: bool,
    pub email_id: Option<String>,
    pub recipient_count: Option<u32>,
}

} // verus!

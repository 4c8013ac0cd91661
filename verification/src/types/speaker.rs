use vstd::prelude::*;

use crate::text::str_eq;
use crate::types::proposal::PortableBlock;

verus! {

/// A marker on a speaker.
#[derive(Debug, Clone, Copy, PartialEq, Eq, Structural)]
pub enum SpeakerFlag {
    Local,
    FirstTime,
    Diverse,
    RequiresFunding,
    Keynote,
    Hidden,
    Internal,
    /// Any flag this client does not know yet.
    Unknown,
}

impl SpeakerFlag {
    /// The kebab-case name, used on the wire and when printed.
    pub open spec fn spec_name(self) -> Seq<char> {
        match self {
            SpeakerFlag::Local => "local"@,
            SpeakerFlag::FirstTime => "first-time"@,
            SpeakerFlag::Diverse => "diverse"@,
            SpeakerFlag::RequiresFunding => "requires-funding"@,
            SpeakerFlag::Keynote => "keynote"@,
            SpeakerFlag::Hidden => "hidden"@,
            SpeakerFlag::Internal => "internal"@,
            SpeakerFlag::Unknown => "unknown"@,
        }
    }

    /// The kebab-case name, used on the wire and when printed.
    pub fn name(self) -> (s: &'static str)
        ensures
            s@ == self.spec_name(),
    {
        match self {
            SpeakerFlag::Local => "local",
            SpeakerFlag::FirstTime => "first-time",
            SpeakerFlag::Diverse => "diverse",
            SpeakerFlag::RequiresFunding => "requires-funding",
            SpeakerFlag::Keynote => "keynote",
            SpeakerFlag::Hidden => "hidden",
            SpeakerFlag::Internal => "internal",
            SpeakerFlag::Unknown => "unknown",
        }
    }

    /// How the flag is printed.
    pub fn to_string(&self) -> (s: String)
        ensures
            s@ == self.spec_name(),
    {
        String::from_str(self.name())
    }

    /// The flag a wire name stands for; an unknown name gives `Unknown`.
    pub fn from_wire(s: &str) -> (f: Self)
        ensures
            f != SpeakerFlag::Unknown ==> f.spec_name() == s@,
            f == SpeakerFlag::Unknown ==> forall|k: SpeakerFlag|
                k != SpeakerFlag::Unknown ==> k.spec_name() != s@,
    {
        if str_eq(s, "local") {
            SpeakerFlag::Local
        } else if str_eq(s, "first-time") {
            SpeakerFlag::FirstTime
        } else if str_eq(s, "diverse") {
            SpeakerFlag::Diverse
        } else if str_eq(s, "requires-funding") {
            SpeakerFlag::RequiresFunding
        } else if str_eq(s, "keynote") {
            SpeakerFlag::Keynote
        } else if str_eq(s, "hidden") {
            SpeakerFlag::Hidden
        } else if str_eq(s, "internal") {
            SpeakerFlag::Internal
        } else {
            SpeakerFlag::Unknown
        }
    }
}

/// A speaker's biography: absent, Portable Text, a plain string, or some other
/// JSON value (kept as its JSON text).
#[derive(Debug, Clone, PartialEq)]
pub enum SpeakerBio {
    Null,
    Blocks(Vec<PortableBlock>),
    Text(String),
    Other(String),
}

/// A speaker profile.
#[derive(Debug, Clone, PartialEq)]
pub struct Speaker {
    pub id: String,
    pub name: String,
    /// The slug, when it is a string.
    pub slug: Option<String>,
    /// The e-mail address, when it is a string.
    pub email: Option<String>,
    /// The job title, when it is a string.
    pub title: Option<String>,
    /// The company, when it is a string.
    pub company: Option<String>,
    /// The image URL, when it is a string.
    pub image: Option<String>,
    pub bio: SpeakerBio,
    pub links: Vec<String>,
    pub flags: Vec<SpeakerFlag>,
}

/// A speaker as lists show them.
#[derive(Debug, Clone, PartialEq)]
pub struct SpeakerSummary {
    pub id: String,
    pub name: String,
    pub email: Option<String>,
    pub title: Option<String>,
    pub slug: Option<String>,
    pub image: Option<String>,
}

/// A reference to a speaker (or organizer) by id and name.
#[derive(Debug, Clone, PartialEq)]
pub struct SpeakerRef {
    pub id: String,
    pub name: String,
}

/// What creating a speaker sends.
#[derive(Debug, Clone, PartialEq)]
pub struct SpeakerCreateInput {
    pub name: String,
    pub email: String,
    pub title: Option<String>,
    pub company: Option<String>,
    pub bio: Option<String>,
    pub image: Option<String>,
    pub links: Option<Vec<String>>,
    pub flags: Option<Vec<SpeakerFlag>>,
}

} // verus!

use vstd::prelude::*;

use crate::text::{chars_of, decimal, decimal_exec, pad_right, push_chars, push_padded, push_str, signed_decimal, signed_decimal_exec, string_of};
use crate::types::{Schedule, ScheduleStatus};

verus! {

/// The `konf admin schedule` subcommands.
#[derive(Debug, Clone, PartialEq)]
pub enum ScheduleCommand {
    List(ListArgs),
    Get { id: String, json: bool },
    Promote { id: String },
    Save { payload: String },
    Delete { id: String, yes: bool },
}

/// `konf admin schedule list`.
#[derive(Debug, Clone, PartialEq)]
pub struct ListArgs {
    pub status: Option<ScheduleStatus>,
}

/// How a schedule's status prints in a list: its name, or `unknown`.
pub fn status_label(status: Option<ScheduleStatus>) -> (s: &'static str)
    ensures
        s@ == match status {
            Some(st) => st.spec_name(),
            None => "unknown"@,
        },
{
    match status {
        Some(st) => st.name(),
        None => "unknown",
    }
}

/// A schedule's version as a row shows it, `-` when it has none.
pub open spec fn version_text(v: Option<i32>) -> Seq<char> {
    match v {
        Some(n) => signed_decimal(n as int),
        None => "-"@,
    }
}

/// The status as a schedule shows it.
pub open spec fn status_text(s: Option<ScheduleStatus>) -> Seq<char> {
    match s {
        Some(st) => st.spec_name(),
        None => "unknown"@,
    }
}

/// A schedule as one row: id, date, status, version.
pub open spec fn row_text(s: Schedule) -> Seq<char> {
    pad_right(s.id@, 35) + " | "@ + pad_right(s.date@, 12) + " | "@ + pad_right(
        status_text(s.status),
        10,
    ) + " | "@ + version_text(s.version)
}

/// A schedule as one row of the list.
pub fn format_row(s: &Schedule) -> (r: String)
    ensures
        r@ == row_text(*s),
{
    let mut b: Vec<char> = Vec::new();
    push_padded(&mut b, &chars_of(s.id.as_str()), 35);
    push_str(&mut b, " | ");
    push_padded(&mut b, &chars_of(s.date.as_str()), 12);
    push_str(&mut b, " | ");
    push_padded(&mut b, &chars_of(status_label(s.status)), 10);
    push_str(&mut b, " | ");
    match s.version {
        Some(n) => push_chars(&mut b, &signed_decimal_exec(n as i64)),
        None => push_str(&mut b, "-"),
    }
    assert(b@ =~= row_text(*s));
    string_of(&b)
}

/// The header of the schedule list and its rule.
pub open spec fn header_text() -> Seq<char> {
    pad_right("ID"@, 35) + " | "@ + pad_right("DATE"@, 12) + " | "@ + pad_right("STATUS"@, 10)
        + " | "@ + "VERSION"@ + "\n"@ + Seq::new(70, |i: int| '-')
}

/// The header of the schedule list and its rule.
pub fn header() -> (r: String)
    ensures
        r@ == header_text(),
{
    let mut b: Vec<char> = Vec::new();
    push_padded(&mut b, &chars_of("ID"), 35);
    push_str(&mut b, " | ");
    push_padded(&mut b, &chars_of("DATE"), 12);
    push_str(&mut b, " | ");
    push_padded(&mut b, &chars_of("STATUS"), 10);
    push_str(&mut b, " | ");
    push_str(&mut b, "VERSION");
    push_str(&mut b, "\n");
    let ghost b0 = b@;
    let mut i: usize = 0;
    while i < 70
        invariant
            i <= 70,
            b@ == b0 + Seq::new(i as nat, |k: int| '-'),
        decreases 70 - i,
    {
        b.push('-');
        i = i + 1;
        assert(b@ =~= b0 + Seq::new(i as nat, |k: int| '-'));
    }
    assert(b@ =~= header_text());
    string_of(&b)
}

/// A schedule's details.
pub open spec fn detail_text(s: Schedule) -> Seq<char> {
    "ID: "@ + s.id@ + "\nDate: "@ + s.date@ + "\nStatus: "@ + status_text(s.status) + "\nVersion: "@
        + signed_decimal(
        match s.version {
            Some(n) => n as int,
            None => 0,
        },
    ) + "\nTracks: "@ + decimal(
        match s.track_count {
            Some(n) => n as nat,
            None => 0,
        },
    ) + "\n"@
}

/// A schedule's details.
pub fn format_detail(s: &Schedule) -> (r: String)
    ensures
        r@ == detail_text(*s),
{
    let mut b = chars_of("ID: ");
    push_str(&mut b, s.id.as_str());
    push_str(&mut b, "\nDate: ");
    push_str(&mut b, s.date.as_str());
    push_str(&mut b, "\nStatus: ");
    push_str(&mut b, status_label(s.status));
    push_str(&mut b, "\nVersion: ");
    let v: i64 = match s.version {
        Some(n) => n as i64,
        None => 0,
    };
    push_chars(&mut b, &signed_decimal_exec(v));
    push_str(&mut b, "\nTracks: ");
    let t: u64 = match s.track_count {
        Some(n) => n as u64,
        None => 0,
    };
    push_chars(&mut b, &decimal_exec(t));
    push_str(&mut b, "\n");
    assert(b@ =~= detail_text(*s));
    string_of(&b)
}

} // verus!

//! The commands' decisions: arguments as plain values, and the filtering,
//! matching and navigation each command does around its API calls.
pub mod admin;
pub mod agent_discovery;
pub mod agents;
pub mod featured;
pub mod login;
pub mod messages;
pub mod navigation;
pub mod proposals;
pub mod schedule;
pub mod speakers;
pub mod sponsors;

use vstd::prelude::*;

use crate::text::{chars_of, string_of};

verus! {

/// Where a text argument comes from: `@path` names a file, `-` standard
/// input, anything else is the text itself.
#[derive(Debug, Clone, PartialEq)]
pub enum StringSource {
    File(String),
    Stdin,
    Literal(String),
}

/// Reads a text argument's form.
pub fn string_source(val: String) -> (r: StringSource)
    ensures
        val@.len() > 0 && val@[0] == '@' ==> (r matches StringSource::File(p) && p@
            == val@.drop_first()),
        !(val@.len() > 0 && val@[0] == '@') && val@ == "-"@ ==> r == StringSource::Stdin,
        !(val@.len() > 0 && val@[0] == '@') && val@ != "-"@ ==> r == StringSource::Literal(val),
{
    let cs = chars_of(val.as_str());
    if cs.len() > 0 && cs[0] == '@' {
        let mut rest: Vec<char> = Vec::new();
        let mut i: usize = 1;
        while i < cs.len()
            invariant
                1 <= i <= cs@.len(),
                rest@ == cs@.subrange(1, i as int),
            decreases cs@.len() - i,
        {
            rest.push(cs[i]);
            i = i + 1;
            assert(cs@.subrange(1, i as int) =~= cs@.subrange(1, i - 1) + seq![cs@[i - 1]]);
        }
        assert(rest@ =~= val@.drop_first());
        StringSource::File(string_of(&rest))
    } else if cs.len() == 1 && cs[0] == '-' {
        proof {
            reveal_strlit("-");
        }
        assert(cs@ =~= "-"@);
        StringSource::Stdin
    } else {
        proof {
            reveal_strlit("-");
            if val@ == "-"@ {
                assert(cs@.len() == 1 && cs@[0] == '-');
            }
        }
        StringSource::Literal(val)
    }
}

/// Whether a destructive command may go on: `Ok(false)` when confirmed on
/// the command line, `Ok(true)` when it must ask on the terminal, an error
/// when it cannot ask.
pub fn confirmation(yes: bool, on_terminal: bool) -> (r: Result<bool, String>)
    ensures
        yes ==> r == Ok::<bool, String>(false),
        !yes && on_terminal ==> r == Ok::<bool, String>(true),
        !yes && !on_terminal ==> (r matches Err(m) && m@
            == "Confirmation required in non-interactive mode. Pass -y to confirm."@),
{
    if yes {
        Ok(false)
    } else if on_terminal {
        Ok(true)
    } else {
        Err(string_of(&chars_of("Confirmation required in non-interactive mode. Pass -y to confirm.")))
    }
}

} // verus!

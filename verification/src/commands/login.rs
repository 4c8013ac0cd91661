//! `konf login` and `konf status`: the conferences one can log in to, the
//! login stored afterwards, and what is said about it.
use vstd::prelude::*;

use crate::auth::AuthResult;
use crate::config::Config;
use crate::style::{Paint, Part, Span, parts_of, push_span};
use crate::text::{chars_of, push_str, string_of};

verus! {

/// The conferences offered at login, title and address.
pub open spec fn conferences() -> Seq<(Seq<char>, Seq<char>)> {
    seq![
        ("2026.cloudnativedays.no"@, "https://2026.cloudnativedays.no"@),
        ("2025.cloudnativebergen.dev"@, "https://2025.cloudnativebergen.dev"@),
        ("2024.cloudnativebergen.dev"@, "https://2024.cloudnativebergen.dev"@),
    ]
}

fn pair(a: &str, b: &str) -> (r: (String, String))
    ensures
        r.0@ == a@,
        r.1@ == b@,
{
    (string_of(&chars_of(a)), string_of(&chars_of(b)))
}

/// The conferences offered at login, title and address.
pub fn conference_options() -> (v: Vec<(String, String)>)
    ensures
        v@.map_values(|p: (String, String)| (p.0@, p.1@)) == conferences(),
{
    let mut v: Vec<(String, String)> = Vec::new();
    v.push(pair("2026.cloudnativedays.no", "https://2026.cloudnativedays.no"));
    v.push(pair("2025.cloudnativebergen.dev", "https://2025.cloudnativebergen.dev"));
    v.push(pair("2024.cloudnativebergen.dev", "https://2024.cloudnativebergen.dev"));
    assert(v@.map_values(|p: (String, String)| (p.0@, p.1@)) =~= conferences());
    v
}

/// What is said when a login is already stored.
pub fn already_logged_in(title: &str) -> (r: String)
    ensures
        r@ == "Already logged in to "@ + title@ + ". Run `konf logout` first to switch."@,
{
    let mut b = chars_of("Already logged in to ");
    push_str(&mut b, title);
    push_str(&mut b, ". Run `konf logout` first to switch.");
    string_of(&b)
}

/// The login stored after authenticating against a conference: its
/// address and title, the token, and what the callback said.
pub fn config_after_login(title: &str, url: &str, result: AuthResult) -> (c: Config)
    ensures
        c.api_url@ == url@,
        c.conference_title@ == title@,
        c.token == result.token,
        c.conference_id@ == (match result.conference_id {
            Some(id) => id@,
            None => seq![],
        }),
        c.name == result.name,
{
    let conference_id = match result.conference_id {
        Some(id) => id,
        None => String::new(),
    };
    Config {
        api_url: string_of(&chars_of(url)),
        token: result.token,
        conference_id,
        conference_title: string_of(&chars_of(title)),
        name: result.name,
    }
}

/// The greeting after a login.
pub open spec fn welcome_parts(name: Option<Seq<char>>, title: Seq<char>) -> Seq<Part> {
    seq![("\n"@, None), ("✓"@, Some(Paint::GreenBold))] + match name {
        Some(n) => seq![(" Welcome, "@, None), (n, Some(Paint::Bold)), ("!\n"@, None)],
        None => seq![(" Authenticated successfully!\n"@, None)],
    } + seq![
        ("  Conference: "@, None),
        (title, Some(Paint::Cyan)),
        ("\n\n  Run "@, None),
        ("konf admin --help"@, Some(Paint::Dimmed)),
        (" to see available commands.\n"@, None),
    ]
}

/// The greeting after a login, as spans.
pub fn welcome_spans(name: Option<&str>, title: &str) -> (out: Vec<Span>)
    ensures
        parts_of(out@) == welcome_parts(
            match name {
                Some(n) => Some(n@),
                None => None,
            },
            title@,
        ),
{
    let mut out: Vec<Span> = Vec::new();
    assert(parts_of(out@) =~= Seq::<Part>::empty());
    push_span(&mut out, chars_of("\n"), None);
    push_span(&mut out, chars_of("✓"), Some(Paint::GreenBold));
    match name {
        Some(n) => {
            push_span(&mut out, chars_of(" Welcome, "), None);
            push_span(&mut out, chars_of(n), Some(Paint::Bold));
            push_span(&mut out, chars_of("!\n"), None);
        },
        None => {
            push_span(&mut out, chars_of(" Authenticated successfully!\n"), None);
        },
    }
    push_span(&mut out, chars_of("  Conference: "), None);
    push_span(&mut out, chars_of(title), Some(Paint::Cyan));
    push_span(&mut out, chars_of("\n\n  Run "), None);
    push_span(&mut out, chars_of("konf admin --help"), Some(Paint::Dimmed));
    push_span(&mut out, chars_of(" to see available commands.\n"), None);
    let ghost nv = match name {
        Some(n) => Some(n@),
        None => None,
    };
    assert(parts_of(out@) =~= welcome_parts(nv, title@));
    out
}

/// What `konf status` says of the stored login.
pub open spec fn session_text(cfg: Option<Config>) -> Seq<char> {
    match cfg {
        None => "Not logged in. Run `konf login` to authenticate.\n"@,
        Some(c) => (match c.name {
            Some(n) => "Logged in:  "@ + n@ + "\n"@,
            None => seq![],
        }) + "Conference: "@ + c.conference_title@ + "\nAPI URL:    "@ + c.api_url@ + "\n"@,
    }
}

/// What `konf status` says of the stored login.
pub fn session_status(cfg: Option<&Config>) -> (r: String)
    ensures
        r@ == session_text(
            match cfg {
                Some(c) => Some(*c),
                None => None,
            },
        ),
{
    match cfg {
        None => string_of(&chars_of("Not logged in. Run `konf login` to authenticate.\n")),
        Some(c) => {
            let mut b: Vec<char> = Vec::new();
            match &c.name {
                Some(n) => {
                    push_str(&mut b, "Logged in:  ");
                    push_str(&mut b, n.as_str());
                    push_str(&mut b, "\n");
                },
                None => {},
            }
            push_str(&mut b, "Conference: ");
            push_str(&mut b, c.conference_title.as_str());
            push_str(&mut b, "\nAPI URL:    ");
            push_str(&mut b, c.api_url.as_str());
            push_str(&mut b, "\n");
            assert(b@ =~= session_text(Some(*c)));
            string_of(&b)
        },
    }
}

} // verus!

//! The stored login: what it holds and where it lives. Reading and writing
//! the file is the caller's.
use vstd::prelude::*;

use crate::text::{chars_of, string_of};

verus! {

/// The stored login and conference context.
#[derive(Debug, Clone, PartialEq)]
pub struct Config {
    pub api_url: String,
    pub token: String,
    pub conference_id: String,
    pub conference_title: String,
    pub name: Option<String>,
}

/// Why there is no config location.
#[derive(Debug, Clone, Copy, PartialEq, Eq, Structural)]
pub enum ConfigError {
    /// `KONF_CONFIG` is unset and the platform has no config directory.
    NoConfigDir,
}

impl ConfigError {
    /// The message shown for the error.
    pub fn to_string(&self) -> (s: String)
        ensures
            s@ == "Could not determine config directory"@,
    {
        String::from_str("Could not determine config directory")
    }
}

/// A relative path component: non-empty, with no `/`, `\` or `:`.
pub open spec fn is_plain_part(p: Seq<char>) -> bool {
    p.len() > 0 && forall|i: int| 0 <= i < p.len() ==> {
        let c = #[trigger] p[i];
        c != '/' && c != '\\' && c != ':'
    }
}

/// The base begins with `\\?`: a Windows verbatim prefix `\\?\`, or the
/// whole base is those three characters, which a join turns into one.
pub open spec fn starts_verbatim(b: Seq<char>) -> bool {
    b.len() >= 3 && b[0] == '\\' && b[1] == '\\' && b[2] == '?' && (b.len() == 3 || b[3]
        == '\\')
}

/// A base path that `Path::join` extends as it is: non-empty and without a
/// Windows verbatim prefix.
pub open spec fn is_plain_base(b: Seq<char>) -> bool {
    b.len() > 0 && !starts_verbatim(b)
}

/// `r` is `base` joined with the relative `part` on some target: with a `/`
/// or a `\` between them, or directly after a base that already ends in a
/// separator or a drive colon; always directly after a base ending in `/`.
pub open spec fn is_joined(base: Seq<char>, part: Seq<char>, r: Seq<char>) -> bool {
    &&& (r == base + seq!['/'] + part || r == base + seq!['\\'] + part || (r == base + part && (
        base.last() == '/' || base.last() == '\\' || base.last() == ':')))
    &&& (base.last() == '/' ==> r == base + part)
}

/// `Path::join` of a plain relative part onto a plain base, as text: the
/// two joined by the target's separator (`/` on Unix, `\` on Windows),
/// unless the base already ends in one (on Windows also `/`, or a bare drive
/// such as `C:`). The contract states what holds on every target, not which
/// separator this one uses; of other bases and parts nothing is stated.
#[verifier::external_body]
fn path_join(base: &str, part: &str) -> (r: String)
    ensures
        is_plain_base(base@) && is_plain_part(part@) ==> is_joined(base@, part@, r@),
{
    std::path::Path::new(base).join(part).to_string_lossy().into_owned()
}

/// The config file under the config directory `d`: `konf`, then
/// `config.toml`, each joined as `Path::join` does.
pub open spec fn is_config_file(d: Seq<char>, r: Seq<char>) -> bool {
    exists|mid: Seq<char>| is_joined(d, "konf"@, mid) && #[trigger] is_joined(mid, "config.toml"@, r)
}

/// Where the config file lives: `KONF_CONFIG` when set, else
/// `konf/config.toml` under the platform's config directory.
pub fn config_path(env_override: Option<&str>, config_dir: Option<&str>) -> (r: Result<
    String,
    ConfigError,
>)
    ensures
        env_override matches Some(p) ==> (r matches Ok(s) && s@ == p@),
        env_override is None && config_dir is None ==> r == Err::<String, ConfigError>(
            ConfigError::NoConfigDir,
        ),
        env_override is None ==> match config_dir {
            Some(d) => is_plain_base(d@) ==> (r matches Ok(s) && is_config_file(d@, s@)),
            None => true,
        },
{
    match env_override {
        Some(p) => Ok(string_of(&chars_of(p))),
        None => match config_dir {
            None => Err(ConfigError::NoConfigDir),
            Some(d) => {
                proof {
                    reveal_strlit("konf");
                    reveal_strlit("config.toml");
                    assert(is_plain_part("konf"@));
                    assert(is_plain_part("config.toml"@));
                }
                let dir = path_join(d, "konf");
                proof {
                    if is_plain_base(d@) {
                        let k = "konf"@;
                        assert(k[0] == 'k' && k[1] == 'o' && k.len() == 4);
                        if d@.len() >= 3 {
                            assert(dir@[0] == d@[0] && dir@[1] == d@[1] && dir@[2] == d@[2]);
                            if d@.len() >= 4 {
                                assert(dir@[3] == d@[3]);
                            }
                        } else {
                            assert(dir@[2] != '?');
                        }
                        assert(is_plain_base(dir@));
                    }
                }
                let file = path_join(dir.as_str(), "config.toml");
                Ok(file)
            },
        },
    }
}

} // verus!

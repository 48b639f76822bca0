//! Where the configuration and the saved token live, and what a loaded
//! configuration must hold.

use vstd::prelude::*;
use crate::text::push_str;

verus! {

/// The OAuth credentials of the FreshBooks application.
pub struct Config {
    pub client_id: String,
    pub client_secret: String,
    pub redirect_uri: String,
    pub account_id: Option<String>,
}

/// The redirect URI used when the configuration names none.
pub fn default_redirect_uri() -> (r: String)
    ensures
        r@ == "https://localhost/callback"@,
{
    "https://localhost/callback".to_owned()
}

/// `dir` joined with the relative component `name`: a `/` separates them
/// unless `dir` is empty or already ends with one.
pub open spec fn joined(dir: Seq<char>, name: Seq<char>) -> Seq<char> {
    if dir.len() == 0 || dir.last() == '/' {
        dir + name
    } else {
        dir + seq!['/'] + name
    }
}

/// A joined path keeps the directory, then a single `/` unless the
/// directory is empty or already ends with one, then the name.
pub proof fn law_joined_path(dir: Seq<char>, name: Seq<char>)
    ensures
        joined(dir, name).subrange(0, dir.len() as int) == dir,
        joined(dir, name).subrange(joined(dir, name).len() - name.len(), joined(dir, name).len() as int)
            == name,
        joined(dir, name).len() == dir.len() + name.len() + if dir.len() > 0 && dir.last() != '/' {
            1int
        } else {
            0int
        },
        dir.len() > 0 && dir.last() != '/' ==> joined(dir, name)[dir.len() as int] == '/',
{
    assert(joined(dir, name).subrange(0, dir.len() as int) =~= dir);
    assert(joined(dir, name).subrange(
        joined(dir, name).len() - name.len(),
        joined(dir, name).len() as int,
    ) =~= name);
}

fn join(dir: &str, name: &str) -> (r: String)
    ensures
        r@ == joined(dir@, name@),
{
    let mut out = dir.to_owned();
    let n = dir.unicode_len();
    if n > 0 && dir.get_char(n - 1) != '/' {
        crate::text::push_char(&mut out, '/');
    }
    push_str(&mut out, name);
    out
}

/// The directory of this server's files inside the user's configuration
/// directory `base`.
pub fn config_dir(base: &str) -> (r: String)
    ensures
        r@ == joined(base@, "mcp-server-freshbooks"@),
{
    join(base, "mcp-server-freshbooks")
}

/// The configuration file inside the directory `dir`.
pub fn config_path(dir: &str) -> (r: String)
    ensures
        r@ == joined(dir@, "config.toml"@),
{
    join(dir, "config.toml")
}

/// The saved token file inside the directory `dir`.
pub fn token_path(dir: &str) -> (r: String)
    ensures
        r@ == joined(dir@, "token.json"@),
{
    join(dir, "token.json")
}

/// The characters with the Unicode `White_Space` property.
pub open spec fn is_white_space(c: char) -> bool {
    ||| '\u{9}' <= c <= '\u{d}'
    ||| c == ' '
    ||| c == '\u{85}'
    ||| c == '\u{a0}'
    ||| c == '\u{1680}'
    ||| '\u{2000}' <= c <= '\u{200a}'
    ||| c == '\u{2028}'
    ||| c == '\u{2029}'
    ||| c == '\u{202f}'
    ||| c == '\u{205f}'
    ||| c == '\u{3000}'
}

/// A text that is empty once surrounding white space is trimmed.
pub open spec fn is_blank(s: Seq<char>) -> bool {
    forall|i: int| 0 <= i < s.len() ==> is_white_space(#[trigger] s[i])
}

fn white_space(c: char) -> (r: bool)
    ensures
        r == is_white_space(c),
{
    ('\u{9}' <= c && c <= '\u{d}') || c == ' ' || c == '\u{85}' || c == '\u{a0}' || c == '\u{1680}'
        || ('\u{2000}' <= c && c <= '\u{200a}') || c == '\u{2028}' || c == '\u{2029}' || c
        == '\u{202f}' || c == '\u{205f}' || c == '\u{3000}'
}

/// Whether `s` holds nothing but white space.
pub fn blank(s: &str) -> (r: bool)
    ensures
        r == is_blank(s@),
{
    let n = s.unicode_len();
    let mut i: usize = 0;
    while i < n
        invariant
            n == s@.len(),
            i <= n,
            forall|k: int| 0 <= k < i ==> is_white_space(#[trigger] s@[k]),
        decreases n - i,
    {
        if !white_space(s.get_char(i)) {
            return false;
        }
        i = i + 1;
    }
    true
}

/// A credential that a configuration must not leave blank.
pub enum ConfigError {
    EmptyClientId,
    EmptyClientSecret,
}

impl ConfigError {
    /// The message of the error, for the configuration file at `path`.
    pub fn message(&self, path: &str) -> (r: String)
        ensures
            r@ == match self {
                ConfigError::EmptyClientId => "client_id in "@ + path@ + " is empty"@,
                ConfigError::EmptyClientSecret => "client_secret in "@ + path@ + " is empty"@,
            },
    {
        let mut out = match self {
            ConfigError::EmptyClientId => "client_id in ".to_owned(),
            ConfigError::EmptyClientSecret => "client_secret in ".to_owned(),
        };
        push_str(&mut out, path);
        push_str(&mut out, " is empty");
        out
    }
}

/// Checks a loaded configuration: its client id, then its client secret,
/// must hold more than white space.
pub fn validate(config: &Config) -> (r: Result<(), ConfigError>)
    ensures
        r == if is_blank(config.client_id@) {
            Err(ConfigError::EmptyClientId)
        } else if is_blank(config.client_secret@) {
            Err(ConfigError::EmptyClientSecret)
        } else {
            Ok(())
        },
{
    if blank(config.client_id.as_str()) {
        Err(ConfigError::EmptyClientId)
    } else if blank(config.client_secret.as_str()) {
        Err(ConfigError::EmptyClientSecret)
    } else {
        Ok(())
    }
}

} // verus!

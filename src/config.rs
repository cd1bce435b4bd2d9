use vstd::prelude::*;
use crate::text::same_text;

verus! {

/// Stored settings: the API key used for every remote call.
#[derive(Debug, PartialEq, Eq)]
pub struct Config {
    pub todoist_key: String,
}

impl Default for Config {
    /// A configuration with no key yet.
    fn default() -> (r: Config)
        ensures
            r.todoist_key@ == Seq::<char>::empty(),
    {
        Config { todoist_key: String::new() }
    }
}

/// The text the remote service answers with when it refuses a key.
pub open spec fn refusal_text() -> Seq<char> {
    seq!['F', 'o', 'r', 'b', 'i', 'd', 'd', 'e', 'n']
}

/// A typed line without its line ending ("\n" or "\r\n").
pub open spec fn line_content(s: Seq<char>) -> Seq<char> {
    if s.len() >= 2 && s[s.len() - 2] == '\r' && s[s.len() - 1] == '\n' {
        s.subrange(0, s.len() - 2)
    } else if s.len() >= 1 && s[s.len() - 1] == '\n' {
        s.subrange(0, s.len() - 1)
    } else {
        s
    }
}

impl Config {
    /// Settings holding the given key.
    pub fn with_key(key: String) -> (r: Config)
        ensures
            r.todoist_key == key,
    {
        Config { todoist_key: key }
    }

    /// Whether a key must still be asked for: none is stored.
    pub fn needs_key(&self) -> (r: bool)
        ensures
            r == (self.todoist_key@.len() == 0),
    {
        self.todoist_key.unicode_len() == 0
    }
}

/// Whether the service accepted a key, judged by the body of its answer to a
/// project listing made with it.
pub fn key_accepted(response: &str) -> (r: bool)
    ensures
        r == (response@ != refusal_text()),
{
    proof { reveal_strlit("Forbidden"); }
    assert("Forbidden"@ =~= refusal_text());
    !same_text(response, "Forbidden")
}

/// Removes the line ending from a line read from the terminal.
pub fn strip_line_end(s: &str) -> (r: String)
    ensures
        r@ == line_content(s@),
{
    let n = s.unicode_len();
    if n >= 2 && s.get_char(n - 2) == '\r' && s.get_char(n - 1) == '\n' {
        String::from_str(s.substring_char(0, n - 2))
    } else if n >= 1 && s.get_char(n - 1) == '\n' {
        String::from_str(s.substring_char(0, n - 1))
    } else {
        String::from_str(s)
    }
}

} // verus!

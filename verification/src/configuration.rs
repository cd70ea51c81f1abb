//! Process configuration values that the core logic reads.
//!
//! Loading configuration from files or the process environment is the
//! surrounding application's concern; the core only fixes the shape of the
//! values and how an environment name is recognised.

use vstd::prelude::*;
use vstd::string::StrSliceExecFns;
use vstd::string::StringExecFns;
use crate::text::{push_char, str_eq, lemma_subrange_push};

verus! {

/// Settings of the HTTP layer: where the application listens.
pub struct ApplicationSettings {
    pub port: u16,
    pub host: String,
}

/// The public base URL under which the application is reachable; confirmation
/// links are formed against it.
pub struct ApplicationBaseUrl(pub String);

/// Which configuration profile the process runs under.
#[derive(Clone, Copy, PartialEq, Eq, Structural, Debug)]
pub enum Environment {
    Local,
    Production,
}

/// ASCII lowercasing of one character; other characters are unchanged.
pub open spec fn ascii_lower_char(c: char) -> char {
    if 'A' <= c && c <= 'Z' {
        (((c as u8) + 32) as char)
    } else {
        c
    }
}

/// ASCII lowercasing of a whole character sequence.
pub open spec fn ascii_lower(s: Seq<char>) -> Seq<char> {
    s.map_values(|c: char| ascii_lower_char(c))
}

/// How an environment name is read: ASCII case-insensitively, with the
/// error message carrying the lowercased name that was not recognised.
pub open spec fn spec_environment_name(s: Seq<char>) -> Result<Environment, Seq<char>> {
    let low = ascii_lower(s);
    if low == "local"@ {
        Ok(Environment::Local)
    } else if low == "production"@ {
        Ok(Environment::Production)
    } else {
        Err(low + " is not a supported environment"@)
    }
}

fn lower_char(c: char) -> (r: char)
    ensures
        r == ascii_lower_char(c),
{
    match c {
        'A' => 'a',
        'B' => 'b',
        'C' => 'c',
        'D' => 'd',
        'E' => 'e',
        'F' => 'f',
        'G' => 'g',
        'H' => 'h',
        'I' => 'i',
        'J' => 'j',
        'K' => 'k',
        'L' => 'l',
        'M' => 'm',
        'N' => 'n',
        'O' => 'o',
        'P' => 'p',
        'Q' => 'q',
        'R' => 'r',
        'S' => 's',
        'T' => 't',
        'U' => 'u',
        'V' => 'v',
        'W' => 'w',
        'X' => 'x',
        'Y' => 'y',
        'Z' => 'z',
        _ => c,
    }
}

fn ascii_lower_string(s: &str) -> (r: String)
    ensures
        r@ == ascii_lower(s@),
{
    let len = s.unicode_len();
    let mut out = String::new();
    let mut i: usize = 0;
    while i < len
        invariant
            i <= len,
            len == s@.len(),
            out@ == ascii_lower(s@.subrange(0, i as int)),
        decreases len - i,
    {
        let c = s.get_char(i);
        push_char(&mut out, lower_char(c));
        proof {
            lemma_subrange_push(s@, i as int);
            assert(ascii_lower(s@.subrange(0, i + 1)) =~= ascii_lower(
                s@.subrange(0, i as int),
            ).push(ascii_lower_char(s@[i as int])));
        }
        i += 1;
    }
    proof {
        assert(s@.subrange(0, len as int) =~= s@);
    }
    out
}

impl Environment {
    /// The canonical name of the environment.
    pub fn as_str(&self) -> (r: &'static str)
        ensures
            self is Local ==> r@ == "local"@,
            self is Production ==> r@ == "production"@,
    {
        match self {
            Environment::Local => "local",
            Environment::Production => "production",
        }
    }

    /// Reads an environment name, ASCII case-insensitively.
    pub fn try_from(value: String) -> (r: Result<Environment, String>)
        ensures
            match r {
                Ok(e) => spec_environment_name(value@) == Ok::<Environment, Seq<char>>(e),
                Err(m) => spec_environment_name(value@) == Err::<Environment, Seq<char>>(m@),
            },
    {
        let low = ascii_lower_string(value.as_str());
        if str_eq(low.as_str(), "local") {
            Ok(Environment::Local)
        } else if str_eq(low.as_str(), "production") {
            Ok(Environment::Production)
        } else {
            Err(low.concat(" is not a supported environment"))
        }
    }
}

} // verus!

//! Validated domain values: subscriber names and email addresses.
//!
//! Construction is the only validation point: a [`SubscriberName`] or
//! [`SubscriberEmail`] exists only if its text passed the corresponding
//! grammar, and downstream code trusts that unconditionally.

use vstd::prelude::*;
use vstd::string::StrSliceExecFns;
use vstd::string::StringExecFns;

verus! {

/// Unicode white space, the set that `char::is_whitespace` recognises.
pub open spec fn is_whitespace_char(c: char) -> bool {
    let u = c as u32;
    (0x09 <= u && u <= 0x0D) || u == 0x20 || u == 0x85 || u == 0xA0 || u == 0x1680 || (0x2000 <= u
        && u <= 0x200A) || u == 0x2028 || u == 0x2029 || u == 0x202F || u == 0x205F || u == 0x3000
}

/// Unicode control characters.
pub open spec fn is_control_char(c: char) -> bool {
    let u = c as u32;
    u < 0x20 || (0x7F <= u && u <= 0x9F)
}

/// Characters a subscriber name may not contain.
pub open spec fn is_forbidden_name_char(c: char) -> bool {
    c == '/' || c == '(' || c == ')' || c == '"' || c == '<' || c == '>' || c == '\\' || c == '{'
        || c == '}'
}

/// Number of extended grapheme clusters in a character sequence.
pub uninterp spec fn grapheme_count(s: Seq<char>) -> nat;

/// Relies on unicode_segmentation's `UnicodeSegmentation::graphemes` with
/// extended grapheme clusters: the segmentation, and so the count, is a
/// function of the characters alone.
#[verifier::external_body]
fn count_graphemes(s: &str) -> (n: usize)
    ensures
        n == grapheme_count(s@),
{
    unicode_segmentation::UnicodeSegmentation::graphemes(s, true).count()
}

/// A valid subscriber name: not empty or white space only, at most 256
/// graphemes, and free of control characters and the forbidden set.
pub open spec fn is_valid_subscriber_name(s: Seq<char>) -> bool {
    &&& (exists|i: int| 0 <= i < s.len() && !is_whitespace_char(s[i]))
    &&& grapheme_count(s) <= 256
    &&& (forall|i: int|
        0 <= i < s.len() ==> !is_forbidden_name_char(s[i]) && !is_control_char(s[i]))
}

/// A valid split of an email address at the `@` in position `i`: the `@` is
/// unique, the local part is not empty, the domain has an interior dot, and
/// no character is white space or a control character.
pub open spec fn is_email_at_split(s: Seq<char>, i: int) -> bool {
    &&& 1 <= i < s.len()
    &&& s[i] == '@'
    &&& (forall|j: int| 0 <= j < s.len() && j != i ==> s[j] != '@')
    &&& (exists|d: int| i + 1 < d < s.len() - 1 && s[d] == '.')
    &&& (forall|j: int| 0 <= j < s.len() ==> !is_whitespace_char(s[j]) && !is_control_char(s[j]))
}

/// A valid email address: some position splits it as local `@` domain.
pub open spec fn is_valid_email(s: Seq<char>) -> bool {
    exists|i: int| is_email_at_split(s, i)
}

fn whitespace_char(c: char) -> (r: bool)
    ensures
        r == is_whitespace_char(c),
{
    let u = c as u32;
    (0x09 <= u && u <= 0x0D) || u == 0x20 || u == 0x85 || u == 0xA0 || u == 0x1680 || (0x2000 <= u
        && u <= 0x200A) || u == 0x2028 || u == 0x2029 || u == 0x202F || u == 0x205F || u == 0x3000
}

fn control_char(c: char) -> (r: bool)
    ensures
        r == is_control_char(c),
{
    let u = c as u32;
    u < 0x20 || (0x7F <= u && u <= 0x9F)
}

fn forbidden_name_char(c: char) -> (r: bool)
    ensures
        r == is_forbidden_name_char(c),
{
    c == '/' || c == '(' || c == ')' || c == '"' || c == '<' || c == '>' || c == '\\' || c == '{'
        || c == '}'
}

/// The name of a subscriber, validated at construction.
#[derive(Debug)]
pub struct SubscriberName {
    name: String,
}

impl View for SubscriberName {
    type V = Seq<char>;

    closed spec fn view(&self) -> Seq<char> {
        self.name@
    }
}

impl SubscriberName {
    /// Every value of the type satisfies the name grammar.
    pub open spec fn valid(&self) -> bool {
        is_valid_subscriber_name(self@)
    }

    /// Accepts exactly the strings that satisfy the name grammar.
    pub fn parse(s: String) -> (r: Result<SubscriberName, String>)
        ensures
            r is Ok <==> is_valid_subscriber_name(s@),
            (match r {
                Ok(name) => name@ == s@ && name.valid(),
                Err(m) => m@ == s@ + " is not a valid subscriber name."@,
            }),
    {
        let len = s.as_str().unicode_len();
        let mut has_visible = false;
        let mut all_allowed = true;
        let mut i: usize = 0;
        while i < len
            invariant
                i <= len,
                len == s@.len(),
                has_visible <==> (exists|j: int| 0 <= j < i && !is_whitespace_char(s@[j])),
                all_allowed <==> (forall|j: int|
                    0 <= j < i ==> !is_forbidden_name_char(s@[j]) && !is_control_char(s@[j])),
            decreases len - i,
        {
            let c = s.as_str().get_char(i);
            if !whitespace_char(c) {
                has_visible = true;
            }
            if forbidden_name_char(c) || control_char(c) {
                all_allowed = false;
            }
            i += 1;
        }
        let graphemes = count_graphemes(s.as_str());
        if has_visible && all_allowed && graphemes <= 256 {
            Ok(SubscriberName { name: s })
        } else {
            Err(s.concat(" is not a valid subscriber name."))
        }
    }

    /// The validated text.
    pub fn as_ref(&self) -> (r: &str)
        ensures
            r@ == self@,
    {
        self.name.as_str()
    }
}

/// The email address of a subscriber, validated at construction.
#[derive(Debug)]
pub struct SubscriberEmail {
    email: String,
}

impl View for SubscriberEmail {
    type V = Seq<char>;

    closed spec fn view(&self) -> Seq<char> {
        self.email@
    }
}

impl SubscriberEmail {
    /// Every value of the type satisfies the email grammar.
    pub open spec fn valid(&self) -> bool {
        is_valid_email(self@)
    }

    /// Accepts exactly the strings that satisfy the email grammar.
    pub fn parse(s: String) -> (r: Result<SubscriberEmail, String>)
        ensures
            r is Ok <==> is_valid_email(s@),
            (match r {
                Ok(email) => email@ == s@ && email.valid(),
                Err(m) => m@ == s@ + " is not a valid subscriber email."@,
            }),
    {
        let len = s.as_str().unicode_len();
        let mut at_count: usize = 0;
        let mut at_pos: usize = 0;
        let ghost mut at_first: int = 0;
        let ghost mut at_second: int = 0;
        let mut clean = true;
        let mut i: usize = 0;
        while i < len
            invariant
                i <= len,
                len == s@.len(),
                at_count == 0 ==> (forall|j: int| 0 <= j < i ==> s@[j] != '@'),
                at_count == 1 ==> 0 <= at_pos < i && s@[at_pos as int] == '@' && (forall|j: int|
                    0 <= j < i && j != at_pos ==> s@[j] != '@'),
                at_count >= 2 ==> 0 <= at_first < at_second < i && s@[at_first] == '@'
                    && s@[at_second] == '@',
                clean <==> (forall|j: int|
                    0 <= j < i ==> !is_whitespace_char(s@[j]) && !is_control_char(s@[j])),
            decreases len - i,
        {
            let c = s.as_str().get_char(i);
            if c == '@' {
                if at_count == 0 {
                    at_pos = i;
                } else if at_count == 1 {
                    proof {
                        at_first = at_pos as int;
                        at_second = i as int;
                    }
                }
                if at_count < 2 {
                    at_count += 1;
                }
            }
            if whitespace_char(c) || control_char(c) {
                clean = false;
            }
            i += 1;
        }
        let mut dot_ok = false;
        if at_count == 1 {
            let mut d: usize = 0;
            while d < len
                invariant
                    d <= len,
                    len == s@.len(),
                    at_pos < len,
                    dot_ok <==> (exists|e: int| at_pos + 1 < e < d && e < s@.len() - 1 && s@[e]
                        == '.'),
                decreases len - d,
            {
                if d > at_pos + 1 && d + 1 < len && s.as_str().get_char(d) == '.' {
                    dot_ok = true;
                }
                d += 1;
            }
        }
        if at_count == 1 && at_pos >= 1 && clean && dot_ok {
            proof {
                assert(is_email_at_split(s@, at_pos as int));
            }
            Ok(SubscriberEmail { email: s })
        } else {
            proof {
                assert(!is_valid_email(s@)) by {
                    if exists|k: int| is_email_at_split(s@, k) {
                        let k = choose|k: int| is_email_at_split(s@, k);
                        assert(s@[k] == '@');
                        if at_count == 0 {
                            assert(false);
                        } else if at_count >= 2 {
                            assert(at_first != k || at_second != k);
                            assert(false);
                        } else {
                            assert(k == at_pos as int);
                            if !clean {
                                assert(false);
                            } else if !(at_pos >= 1) {
                                assert(false);
                            } else {
                                let e = choose|e: int|
                                    k + 1 < e < s@.len() - 1 && s@[e] == '.';
                                assert(false);
                            }
                        }
                    }
                }
            }
            Err(s.concat(" is not a valid subscriber email."))
        }
    }

    /// The validated text.
    pub fn as_ref(&self) -> (r: &str)
        ensures
            r@ == self@,
    {
        self.email.as_str()
    }
}

/// A validated registration: the only way a subscriber enters the write path.
#[derive(Debug)]
pub struct NewSubscriber {
    pub email: SubscriberEmail,
    pub name: SubscriberName,
}

} // verus!

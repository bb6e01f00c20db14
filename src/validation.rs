use vstd::prelude::*;
use vstd::string::StrSliceExecFns;
use vstd::string::StringExecFns;

verus! {

/// Which input of a registration was rejected.
#[derive(Clone, Copy, Debug, PartialEq, Eq, Structural)]
pub enum Field {
    Email,
    Username,
}

/// Why an input was rejected.
#[derive(Clone, Copy, Debug, PartialEq, Eq, Structural)]
pub enum Reason {
    Empty,
    MissingAt,
    MissingDomainDot,
    Whitespace,
    Malformed,
    NotAlphanumeric,
}

/// A rejected input, with the field it came from and the reason.
#[derive(Clone, Copy, Debug, PartialEq, Eq, Structural)]
pub struct ValidationFailure {
    pub field: Field,
    pub reason: Reason,
}

/// Verdict of garde's mailbox grammar on a text.
pub uninterp spec fn mailbox_accepted(s: Seq<char>) -> bool;

/// Unicode's verdict (`char::is_alphanumeric`) on a character outside ASCII.
pub uninterp spec fn non_ascii_alphanumeric(c: char) -> bool;

/// An ASCII letter or digit.
pub open spec fn ascii_alphanumeric(c: char) -> bool {
    let u = c as u32;
    (48 <= u && u <= 57) || (65 <= u && u <= 90) || (97 <= u && u <= 122)
}

/// `char::is_alphanumeric`: within ASCII exactly the letters and digits.
pub open spec fn is_alphanumeric_char(c: char) -> bool {
    if (c as u32) < 128 {
        ascii_alphanumeric(c)
    } else {
        non_ascii_alphanumeric(c)
    }
}

/// Every character of the text is alphanumeric.
pub open spec fn all_alphanumeric(s: Seq<char>) -> bool {
    forall|i: int| 0 <= i < s.len() ==> is_alphanumeric_char(#[trigger] s[i])
}

/// Relies on `garde::rules::email::parse_email` to judge a text against the
/// mailbox-address grammar: its verdict depends on the text alone.
#[verifier::external_body]
fn mailbox_grammar_ok(s: &str) -> (r: bool)
    ensures
        r == mailbox_accepted(s@),
{
    garde::rules::email::parse_email(s).is_ok()
}

/// Relies on garde's `Alphanumeric::validate_alphanumeric` for `&str`, which
/// holds when every character passes `char::is_alphanumeric`; within ASCII
/// that is exactly the letters and digits.
#[verifier::external_body]
fn alphanumeric_ok(s: &str) -> (r: bool)
    ensures
        r == (forall|i: int|
            0 <= i < s@.len() ==> if (#[trigger] s@[i] as u32) < 128 {
                ascii_alphanumeric(s@[i])
            } else {
                non_ascii_alphanumeric(s@[i])
            }),
{
    garde::rules::alphanumeric::Alphanumeric::validate_alphanumeric(&s)
}

pub open spec fn is_space(c: char) -> bool {
    c == ' ' || c == '\t' || c == '\n' || c == '\r' || c == '\x0B' || c == '\x0C'
}

pub open spec fn has_at(s: Seq<char>) -> bool {
    exists|i: int| 0 <= i < s.len() && s[i] == '@'
}

/// Some '.' stands after some '@' (so after the first one too).
pub open spec fn dot_after_at(s: Seq<char>) -> bool {
    exists|i: int, j: int| 0 <= i < j < s.len() && s[i] == '@' && s[j] == '.'
}

pub open spec fn has_space(s: Seq<char>) -> bool {
    exists|i: int| 0 <= i < s.len() && is_space(s[i])
}

/// The first rule that a candidate email breaks, if any.
pub open spec fn email_fault(s: Seq<char>) -> Option<Reason> {
    if s.len() == 0 {
        Some(Reason::Empty)
    } else if !has_at(s) {
        Some(Reason::MissingAt)
    } else if !dot_after_at(s) {
        Some(Reason::MissingDomainDot)
    } else if has_space(s) {
        Some(Reason::Whitespace)
    } else if !mailbox_accepted(s) {
        Some(Reason::Malformed)
    } else {
        None
    }
}

pub open spec fn is_valid_email(s: Seq<char>) -> bool {
    email_fault(s) is None
}

/// The first rule that a candidate display name breaks, if any.
pub open spec fn username_fault(s: Seq<char>) -> Option<Reason> {
    if s.len() == 0 {
        Some(Reason::Empty)
    } else if !all_alphanumeric(s) {
        Some(Reason::NotAlphanumeric)
    } else {
        None
    }
}

pub open spec fn is_valid_username(s: Seq<char>) -> bool {
    username_fault(s) is None
}

/// Scans the text once for the shape of a mailbox: whether it holds an '@',
/// a '.' after an '@', and a whitespace character.
fn scan_shape(s: &str) -> (r: (bool, bool, bool))
    ensures
        r.0 == has_at(s@),
        r.1 == dot_after_at(s@),
        r.2 == has_space(s@),
{
    let n = s.unicode_len();
    let mut i: usize = 0;
    let mut at: bool = false;
    let mut dot: bool = false;
    let mut space: bool = false;
    let ghost mut first_at: int = -1;
    while i < n
        invariant
            n == s@.len(),
            i <= n,
            at == has_at(s@.take(i as int)),
            at ==> 0 <= first_at < i && s@[first_at] == '@',
            dot == dot_after_at(s@.take(i as int)),
            space == has_space(s@.take(i as int)),
        decreases n - i,
    {
        let c = s.get_char(i);
        let ghost t = s@.take(i as int);
        let ghost t1 = s@.take(i + 1);
        assert(t1 == t.push(c));
        if c == '.' && at {
            assert(0 <= first_at < i as int && t1[first_at] == '@' && t1[i as int] == '.');
        }
        assert(has_at(t1) == (has_at(t) || c == '@')) by {
            if has_at(t1) && !has_at(t) {
                let k = choose|k: int| 0 <= k < t1.len() && t1[k] == '@';
                if k < i {
                    assert(t[k] == '@');
                }
            }
            if has_at(t) {
                let k = choose|k: int| 0 <= k < t.len() && t[k] == '@';
                assert(t1[k] == '@');
            }
            if c == '@' {
                assert(t1[i as int] == '@');
            }
        }
        assert(dot_after_at(t1) == (dot_after_at(t) || (c == '.' && has_at(t)))) by {
            if dot_after_at(t1) && !dot_after_at(t) {
                let (a, b) = choose|a: int, b: int|
                    0 <= a < b < t1.len() && t1[a] == '@' && t1[b] == '.';
                if b < i {
                    assert(t[a] == '@' && t[b] == '.');
                } else {
                    assert(t[a] == '@');
                }
            }
            if dot_after_at(t) {
                let (a, b) = choose|a: int, b: int|
                    0 <= a < b < t.len() && t[a] == '@' && t[b] == '.';
                assert(t1[a] == '@' && t1[b] == '.');
            }
        }
        assert(has_space(t1) == (has_space(t) || is_space(c))) by {
            if has_space(t1) && !has_space(t) {
                let k = choose|k: int| 0 <= k < t1.len() && is_space(t1[k]);
                if k < i {
                    assert(is_space(t[k]));
                }
            }
            if has_space(t) {
                let k = choose|k: int| 0 <= k < t.len() && is_space(t[k]);
                assert(is_space(t1[k]));
            }
            if is_space(c) {
                assert(is_space(t1[i as int]));
            }
        }
        if c == '.' && at {
            dot = true;
        }
        if c == '@' && !at {
            at = true;
            proof {
                first_at = i as int;
            }
        }
        if c == ' ' || c == '\t' || c == '\n' || c == '\r' || c == '\x0B' || c == '\x0C' {
            space = true;
        }
        i = i + 1;
    }
    assert(s@.take(n as int) == s@);
    (at, dot, space)
}

/// Checks a candidate email: non-empty, an '@' with a '.' after it, no
/// whitespace, and accepted by the mailbox grammar. Returns the first rule
/// broken.
pub fn check_email(s: &str) -> (r: Result<(), ValidationFailure>)
    ensures
        r is Ok <==> is_valid_email(s@),
        r matches Err(f) ==> f.field == Field::Email && Some(f.reason) == email_fault(s@),
{
    let n = s.unicode_len();
    if n == 0 {
        return Err(ValidationFailure { field: Field::Email, reason: Reason::Empty });
    }
    let (at, dot, space) = scan_shape(s);
    if !at {
        return Err(ValidationFailure { field: Field::Email, reason: Reason::MissingAt });
    }
    if !dot {
        return Err(ValidationFailure { field: Field::Email, reason: Reason::MissingDomainDot });
    }
    if space {
        return Err(ValidationFailure { field: Field::Email, reason: Reason::Whitespace });
    }
    if !mailbox_grammar_ok(s) {
        return Err(ValidationFailure { field: Field::Email, reason: Reason::Malformed });
    }
    Ok(())
}

/// Checks a candidate display name: non-empty and made of alphanumeric
/// characters only.
pub fn check_username(s: &str) -> (r: Result<(), ValidationFailure>)
    ensures
        r is Ok <==> is_valid_username(s@),
        r matches Err(f) ==> f.field == Field::Username && Some(f.reason) == username_fault(s@),
{
    let n = s.unicode_len();
    if n == 0 {
        return Err(ValidationFailure { field: Field::Username, reason: Reason::Empty });
    }
    if !alphanumeric_ok(s) {
        return Err(ValidationFailure { field: Field::Username, reason: Reason::NotAlphanumeric });
    }
    Ok(())
}

/// Checks an email and a display name, the email first.
pub fn validate(email: &str, username: &str) -> (r: Result<(), ValidationFailure>)
    ensures
        r is Ok <==> is_valid_email(email@) && is_valid_username(username@),
        r matches Err(f) ==> if !is_valid_email(email@) {
            f.field == Field::Email && Some(f.reason) == email_fault(email@)
        } else {
            f.field == Field::Username && Some(f.reason) == username_fault(username@)
        },
{
    match check_email(email) {
        Err(f) => Err(f),
        Ok(()) => check_username(username),
    }
}

/// An email address that passed `check_email`.
#[derive(Clone, Debug)]
pub struct ValidatedEmail(pub String);

impl ValidatedEmail {
    pub open spec fn view(&self) -> Seq<char> {
        self.0@
    }

    pub fn parse(s: &str) -> (r: Result<ValidatedEmail, ValidationFailure>)
        ensures
            r is Ok <==> is_valid_email(s@),
            r matches Ok(e) ==> e.view() == s@,
            r matches Err(f) ==> f.field == Field::Email && Some(f.reason) == email_fault(s@),
    {
        match check_email(s) {
            Err(f) => Err(f),
            Ok(()) => Ok(ValidatedEmail(String::from_str(s))),
        }
    }

    pub fn as_str(&self) -> (r: &str)
        ensures
            r@ == self.view(),
    {
        self.0.as_str()
    }
}

} // verus!

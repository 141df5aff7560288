//! Validated profile strings. Each wrapper type can only be constructed
//! from text that passed its validation rules, so a value of the type is
//! evidence that the rules hold.

use vstd::prelude::*;
use vstd::string::*;
use vstd::utf8::encode_utf8;

use crate::errors::Error;

verus! {

/// Rule: the text is not empty.
pub open spec fn spec_not_empty(s: Seq<char>) -> bool {
    s.len() > 0
}

/// Rule: the text does not start with a space.
pub open spec fn spec_not_malformed(s: Seq<char>) -> bool {
    s.len() > 0 ==> s[0] != ' '
}

/// Rule: the UTF-8 encoding of the text is at most 128 bytes long.
pub open spec fn spec_len_ok(s: Seq<char>) -> bool {
    encode_utf8(s).len() <= 128
}

/// The three rules every free-form profile string must satisfy.
pub open spec fn spec_valid_string(s: Seq<char>) -> bool {
    spec_not_empty(s) && spec_not_malformed(s) && spec_len_ok(s)
}

/// A username additionally contains no space anywhere.
pub open spec fn spec_valid_username(s: Seq<char>) -> bool {
    spec_valid_string(s) && (forall|i: int| 0 <= i < s.len() ==> s[i] != ' ')
}

/// Rejects the empty string.
pub fn not_empty(s: &str) -> (r: Result<(), &'static str>)
    ensures
        r is Ok <==> spec_not_empty(s@),
        r matches Err(m) ==> m@ == "empty string"@,
{
    if s.is_empty() {
        Err("empty string")
    } else {
        Ok(())
    }
}

/// Rejects a string that starts with a space.
pub fn malformed(s: &str) -> (r: Result<(), &'static str>)
    ensures
        r is Ok <==> spec_not_malformed(s@),
        r matches Err(m) ==> m@ == "malformed string"@,
{
    if !s.is_empty() && s.get_char(0) == ' ' {
        Err("malformed string")
    } else {
        Ok(())
    }
}

/// Rejects a string longer than 128 bytes.
pub fn len(s: &str) -> (r: Result<(), &'static str>)
    ensures
        r is Ok <==> spec_len_ok(s@),
        r matches Err(m) ==> m@ == "string too long"@,
{
    let bytes = s.as_bytes();
    proof {
        assert(bytes@ == encode_utf8(s@));
    }
    if bytes.len() > 128 {
        Err("string too long")
    } else {
        Ok(())
    }
}

/// Checks that no character of `s` is a space.
fn no_space(s: &str) -> (r: bool)
    ensures
        r == (forall|i: int| 0 <= i < s@.len() ==> s@[i] != ' '),
{
    let n = s.unicode_len();
    let mut i: usize = 0;
    while i < n
        invariant
            i <= n,
            n == s@.len(),
            forall|j: int| 0 <= j < i ==> s@[j] != ' ',
        decreases n - i,
    {
        if s.get_char(i) == ' ' {
            return false;
        }
        i += 1;
    }
    true
}

/// What `regex::Regex::is_match` returns for the e-mail pattern used by
/// [`Email::new`]: a function of the checked text alone.
pub uninterp spec fn email_pattern_match(s: Seq<char>) -> bool;

/// Relies on `regex::Regex::is_match` with the fixed e-mail pattern below.
/// The pattern is a valid expression, so `Regex::new` cannot fail, and the
/// match result depends on the checked text alone.
#[verifier::external_body]
fn email_matches(s: &str) -> (r: bool)
    ensures
        r == email_pattern_match(s@),
{
    regex::Regex::new(
        r#"(?:[a-z0-9!#$%&'*+/=?^_`{|}~-]+(?:\.[a-z0-9!#$%&'*+/=?^_`{|}~-]+)*|"(?:[\x01-\x08\x0b\x0c\x0e-\x1f\x21\x23-\x5b\x5d-\x7f]|\\[\x01-\x09\x0b\x0c\x0e-\x7f])*")@(?:(?:[a-z0-9](?:[a-z0-9-]*[a-z0-9])?\.)+[a-z0-9](?:[a-z0-9-]*[a-z0-9])?|\[(?:(?:25[0-5]|2[0-4][0-9]|[01]?[0-9][0-9]?)\.){3}(?:25[0-5]|2[0-4][0-9]|[01]?[0-9][0-9]?|[a-z0-9-]*[a-z0-9]:(?:[\x01-\x08\x0b\x0c\x0e-\x1f\x21-\x5a\x53-\x7f]|\\[\x01-\x09\x0b\x0c\x0e-\x7f])+)\])"#,
    )
    .unwrap()
    .is_match(s)
}

/// What `regex::Regex::is_match` returns for the phone pattern used by
/// [`Phone::new`]: a function of the checked text alone.
pub uninterp spec fn phone_pattern_match(s: Seq<char>) -> bool;

/// Relies on `regex::Regex::is_match` with the fixed phone pattern below.
/// The pattern is a valid expression, so `Regex::new` cannot fail, and the
/// match result depends on the checked text alone.
#[verifier::external_body]
fn phone_matches(s: &str) -> (r: bool)
    ensures
        r == phone_pattern_match(s@),
{
    regex::Regex::new(
        r#"0[67][\s.]?\d{2}[\s.]?\d{2}[\s.]?\d{2}[\s.]?\d{2}|\+33[\s.]?[67][\s.]?\d{2}[\s.]?\d{2}[\s.]?\d{2}[\s.]?\d{2}"#,
    )
    .unwrap()
    .is_match(s)
}

/// A free-form profile string that passed the three validation rules.
#[derive(Clone, Debug)]
pub struct ValidString(String);

impl View for ValidString {
    type V = Seq<char>;

    closed spec fn view(&self) -> Seq<char> {
        self.0@
    }
}

impl ValidString {
    /// Accepts exactly the strings that satisfy all three profile rules.
    pub fn new(s: String) -> (r: Result<ValidString, Error>)
        ensures
            r is Ok <==> spec_valid_string(s@),
            r matches Ok(v) ==> v@ == s@,
            r matches Err(e) ==> e is ValidationError,
    {
        if not_empty(s.as_str()).is_err() || malformed(s.as_str()).is_err() || len(
            s.as_str(),
        ).is_err() {
            Err(Error::ValidationError)
        } else {
            Ok(ValidString(s))
        }
    }

    /// The validated text.
    pub fn get(&self) -> (r: &String)
        ensures
            r@ == self@,
    {
        &self.0
    }

    /// Gives the validated text up.
    pub fn into_string(self) -> (r: String)
        ensures
            r@ == self@,
    {
        self.0
    }
}

/// A username: a valid profile string without any space.
#[derive(Clone, Debug)]
pub struct Username(String);

impl View for Username {
    type V = Seq<char>;

    closed spec fn view(&self) -> Seq<char> {
        self.0@
    }
}

impl Username {
    /// Accepts exactly the valid profile strings that contain no space.
    pub fn new(s: String) -> (r: Result<Username, Error>)
        ensures
            r is Ok <==> spec_valid_username(s@),
            r matches Ok(v) ==> v@ == s@,
            r matches Err(e) ==> e is ValidationError,
    {
        if not_empty(s.as_str()).is_err() || malformed(s.as_str()).is_err() || len(
            s.as_str(),
        ).is_err() || !no_space(s.as_str()) {
            Err(Error::ValidationError)
        } else {
            Ok(Username(s))
        }
    }

    /// The validated text.
    pub fn get(&self) -> (r: &String)
        ensures
            r@ == self@,
    {
        &self.0
    }

    /// Gives the validated text up.
    pub fn into_string(self) -> (r: String)
        ensures
            r@ == self@,
    {
        self.0
    }
}

/// An e-mail address accepted by the e-mail pattern.
#[derive(Clone, Debug)]
pub struct Email(String);

impl View for Email {
    type V = Seq<char>;

    closed spec fn view(&self) -> Seq<char> {
        self.0@
    }
}

impl Email {
    /// Accepts exactly the strings matched by the e-mail pattern.
    pub fn new(s: String) -> (r: Result<Email, Error>)
        ensures
            r is Ok <==> email_pattern_match(s@),
            r matches Ok(v) ==> v@ == s@,
            r matches Err(e) ==> e is ValidationError,
    {
        if email_matches(s.as_str()) {
            Ok(Email(s))
        } else {
            Err(Error::ValidationError)
        }
    }

    /// The validated text.
    pub fn get(&self) -> (r: &String)
        ensures
            r@ == self@,
    {
        &self.0
    }

    /// Gives the validated text up.
    pub fn into_string(self) -> (r: String)
        ensures
            r@ == self@,
    {
        self.0
    }
}

/// A phone number accepted by the phone pattern.
#[derive(Clone, Debug)]
pub struct Phone(String);

impl View for Phone {
    type V = Seq<char>;

    closed spec fn view(&self) -> Seq<char> {
        self.0@
    }
}

impl Phone {
    /// Accepts exactly the strings matched by the phone pattern.
    pub fn new(s: String) -> (r: Result<Phone, Error>)
        ensures
            r is Ok <==> phone_pattern_match(s@),
            r matches Ok(v) ==> v@ == s@,
            r matches Err(e) ==> e is ValidationError,
    {
        if phone_matches(s.as_str()) {
            Ok(Phone(s))
        } else {
            Err(Error::ValidationError)
        }
    }

    /// The validated text.
    pub fn get(&self) -> (r: &String)
        ensures
            r@ == self@,
    {
        &self.0
    }

    /// Gives the validated text up.
    pub fn into_string(self) -> (r: String)
        ensures
            r@ == self@,
    {
        self.0
    }
}

} // verus!

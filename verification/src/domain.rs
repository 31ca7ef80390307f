//! Subscriber input validation: display names and email addresses.
//!
//! A display name is accepted when it is not blank, spans at most 256
//! grapheme clusters, and contains none of a small forbidden character set.
//! An email address is accepted when the `validator` crate accepts it.

use vstd::prelude::*;
#[allow(unused_imports)]
use vstd::string::StrSliceExecFns;
#[allow(unused_imports)]
use vstd::string::StringExecFns;
use unicode_segmentation::UnicodeSegmentation;
use validator::ValidateEmail;

verus! {

/// Whether `char::is_whitespace` holds of `c` (a fixed Unicode property).
pub uninterp spec fn is_whitespace_char(c: char) -> bool;

pub assume_specification[ char::is_whitespace ](c: char) -> (r: bool)
    ensures
        r == is_whitespace_char(c),
;

/// The number of extended grapheme clusters that a string splits into
/// (a fixed function of the characters alone).
pub uninterp spec fn grapheme_count(s: Seq<char>) -> nat;

/// Relies on unicode_segmentation's `graphemes(true)`: iterates the extended
/// grapheme clusters of the string; counting them depends on the characters
/// alone.
#[verifier::external_body]
fn count_graphemes(s: &str) -> (r: usize)
    ensures
        r as nat == grapheme_count(s@),
{
    s.graphemes(true).count()
}

/// Whether the `validator` crate accepts a string as an email address
/// (its HTML5-style check; a fixed function of the characters alone).
pub uninterp spec fn is_valid_email(s: Seq<char>) -> bool;

/// Relies on validator's `ValidateEmail::validate_email` for `&str`: the
/// verdict depends on the characters alone; its source rejects the empty
/// string and any string without an `@` before all other checks.
#[verifier::external_body]
fn check_email(s: &str) -> (r: bool)
    ensures
        r == is_valid_email(s@),
        s@.len() == 0 ==> !r,
        (forall|i: int| 0 <= i < s@.len() ==> s@[i] != '@') ==> !r,
{
    s.validate_email()
}

/// The characters a display name must not contain.
pub open spec fn is_forbidden_char(c: char) -> bool {
    c == '/' || c == '(' || c == ')' || c == '{' || c == '}' || c == '%' || c == '\\' || c == '"'
        || c == '[' || c == ']' || c == '<' || c == '>'
}

/// A string is blank when every character is whitespace (so in particular
/// when it is empty): trimming it would leave nothing.
pub open spec fn is_blank(s: Seq<char>) -> bool {
    forall|i: int| 0 <= i < s.len() ==> is_whitespace_char(s[i])
}

pub open spec fn has_forbidden_char(s: Seq<char>) -> bool {
    exists|i: int| 0 <= i < s.len() && is_forbidden_char(s[i])
}

/// The acceptance condition for a subscriber display name.
pub open spec fn is_valid_subscriber_name(s: Seq<char>) -> bool {
    &&& !is_blank(s)
    &&& grapheme_count(s) <= 256
    &&& !has_forbidden_char(s)
}

/// A validated subscriber display name.
#[derive(Debug)]
pub struct SuscriberName(String);

impl View for SuscriberName {
    type V = Seq<char>;

    closed spec fn view(&self) -> Seq<char> {
        self.0@
    }
}

impl SuscriberName {
    /// Accepts exactly the strings that are not blank, span at most 256
    /// grapheme clusters and hold no forbidden character.
    pub fn parse(s: String) -> (r: Result<SuscriberName, String>)
        ensures
            r is Ok <==> is_valid_subscriber_name(s@),
            r matches Ok(name) ==> name@ == s@,
            r matches Err(msg) ==> msg@ == "The name input is ill formed "@,
    {
        let n = s.as_str().unicode_len();
        let mut blank = true;
        let mut forbidden = false;
        for i in 0..n
            invariant
                n == s@.len(),
                blank == (forall|j: int| 0 <= j < i ==> is_whitespace_char(s@[j])),
                forbidden == (exists|j: int| 0 <= j < i && is_forbidden_char(s@[j])),
        {
            let c = s.as_str().get_char(i);
            let c_ws = c.is_whitespace();
            let c_forbidden = c == '/' || c == '(' || c == ')' || c == '{' || c == '}' || c == '%'
                || c == '\\' || c == '"' || c == '[' || c == ']' || c == '<' || c == '>';
            blank = blank && c_ws;
            forbidden = forbidden || c_forbidden;
        }
        let too_long = count_graphemes(s.as_str()) > 256;
        if blank || too_long || forbidden {
            Err(String::from_str("The name input is ill formed "))
        } else {
            Ok(SuscriberName(s))
        }
    }

    /// The underlying string.
    pub fn as_ref(&self) -> (r: &str)
        ensures
            r@ == self@,
    {
        self.0.as_str()
    }
}

/// A validated subscriber email address.
#[derive(Debug, Clone)]
pub struct SubscriberEmail(String);

impl View for SubscriberEmail {
    type V = Seq<char>;

    closed spec fn view(&self) -> Seq<char> {
        self.0@
    }
}

impl SubscriberEmail {
    /// Accepts exactly the strings that the email check accepts.
    pub fn parse(s: String) -> (r: Result<SubscriberEmail, String>)
        ensures
            r is Ok <==> is_valid_email(s@),
            r matches Ok(email) ==> email@ == s@,
            r matches Err(msg) ==> msg@ == s@ + " is not a valid subscriber email."@,
    {
        if check_email(s.as_str()) {
            Ok(SubscriberEmail(s))
        } else {
            Err(s.concat(" is not a valid subscriber email."))
        }
    }

    /// The underlying string.
    pub fn as_ref(&self) -> (r: &str)
        ensures
            r@ == self@,
    {
        self.0.as_str()
    }
}

/// A fully validated subscription request.
pub struct NewSubscriber {
    pub email: SubscriberEmail,
    pub name: SuscriberName,
}

} // verus!

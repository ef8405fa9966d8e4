//! A subscriber's email address.

use crate::domain::error::ValidationError;
use vstd::prelude::*;

verus! {

/// The longest local part, in characters, that the address grammar admits.
pub const MAX_LOCAL_PART: usize = 64;

/// The longest domain, in characters, that the address grammar admits.
pub const MAX_DOMAIN: usize = 255;

/// Whether the address grammar of HTML5's `input type=email`, extended by
/// address literals in brackets and internationalised domains, accepts `s`.
pub uninterp spec fn email_grammar_accepts(s: Seq<char>) -> bool;

/// Whether `s` has an `@` at `at` and nowhere else.
pub open spec fn sole_at_sign(s: Seq<char>, at: int) -> bool {
    &&& 0 <= at < s.len()
    &&& s[at] == '@'
    &&& forall|j: int| 0 <= j < s.len() && j != at ==> s[j] != '@'
}

/// The outline of an address: exactly one `@`, before it a local part of 1
/// to [`MAX_LOCAL_PART`] characters, after it a domain of 1 to [`MAX_DOMAIN`]
/// characters.
pub open spec fn has_address_shape(s: Seq<char>) -> bool {
    exists|at: int|
        #[trigger] sole_at_sign(s, at) && 1 <= at <= MAX_LOCAL_PART && 1 <= s.len() - 1 - at
            <= MAX_DOMAIN
}

/// Whether `s` is an acceptable email address: the grammar accepts it, and
/// so it has the outline of an address.
pub open spec fn is_valid_email(s: Seq<char>) -> bool {
    email_grammar_accepts(s) && has_address_shape(s)
}

/// A text that lacks an `@`, or begins or ends with its only candidate for
/// one, has no address outline and is therefore no valid email address. This
/// covers the empty text, a missing `@`, an empty local part and an empty
/// domain.
pub proof fn lemma_malformed_address_is_invalid(s: Seq<char>)
    requires
        s.len() == 0 || !s.contains('@') || s[0] == '@' || s.last() == '@',
    ensures
        !has_address_shape(s),
        !is_valid_email(s),
{
    if has_address_shape(s) {
        let at = choose|at: int|
            #[trigger] sole_at_sign(s, at) && 1 <= at <= MAX_LOCAL_PART && 1 <= s.len() - 1 - at
                <= MAX_DOMAIN;
        assert(s.contains('@'));
        assert(s[0] != '@');
        assert(s[s.len() - 1] != '@');
    }
}

/// Asks `validator::validate_email` whether `s` is an email address. The
/// verdict is a function of the text alone and goes by the name
/// [`email_grammar_accepts`]. Of an accepted text the contract claims the
/// outline that the validator checks before and while it matches the two
/// parts: an `@` is present, the part before the last `@` has 1 to 64
/// characters none of which is `@`, and the part after it has 1 to 255
/// characters.
#[verifier::external_body]
fn grammar_accepts(s: &str) -> (accepted: bool)
    ensures
        accepted == email_grammar_accepts(s@),
        accepted ==> has_address_shape(s@),
{
    validator::validate_email(s)
}

/// A subscriber's email address. A value of this type holds a text that the
/// address grammar accepted when it was parsed; the text is kept as given,
/// without normalisation, and never changes afterwards.
#[derive(Debug)]
pub struct SubscriberEmail(String);

impl View for SubscriberEmail {
    type V = Seq<char>;

    closed spec fn view(&self) -> Seq<char> {
        self.0@
    }
}

impl Clone for SubscriberEmail {
    fn clone(&self) -> (copy: SubscriberEmail)
        ensures
            copy == *self,
    {
        proof {
            use_type_invariant(self);
        }
        SubscriberEmail(self.0.clone())
    }
}

impl SubscriberEmail {
    #[verifier::type_invariant]
    spec fn well_formed(self) -> bool {
        is_valid_email(self.0@)
    }

    /// What [`SubscriberEmail::parse`] returns for `raw`.
    pub closed spec fn parsed(raw: String) -> Result<SubscriberEmail, ValidationError> {
        if is_valid_email(raw@) {
            Ok(SubscriberEmail(raw))
        } else {
            Err(ValidationError::InvalidEmail(raw))
        }
    }

    /// What [`SubscriberEmail::parsed`] yields: the address with the text of
    /// `raw` if that is valid, else the error that carries `raw`.
    pub proof fn lemma_parsed(raw: String)
        ensures
            SubscriberEmail::parsed(raw) is Ok <==> is_valid_email(raw@),
            SubscriberEmail::parsed(raw) matches Ok(email) ==> email@ == raw@,
            SubscriberEmail::parsed(raw) matches Err(e) ==> e == ValidationError::InvalidEmail(
                raw,
            ),
    {
    }

    /// Turns the grammar's verdict on `raw` into an address or an error. An
    /// acceptance must be the grammar's own; a refusal needs no evidence.
    pub fn from_verdict(raw: String, accepted: bool) -> (res: Result<
        SubscriberEmail,
        ValidationError,
    >)
        requires
            accepted ==> is_valid_email(raw@),
        ensures
            res is Ok <==> accepted,
            res matches Ok(email) ==> email@ == raw@,
            res matches Err(e) ==> e is InvalidEmail && e.input() == raw@,
            accepted == is_valid_email(raw@) ==> res == SubscriberEmail::parsed(raw),
    {
        if !accepted {
            return Err(ValidationError::InvalidEmail(raw));
        }
        Ok(SubscriberEmail(raw))
    }

    /// Accepts `raw` as an email address if the address grammar accepts it;
    /// refuses it otherwise, handing the input back in the error. A text
    /// without the outline of an address is always refused.
    pub fn parse(raw: String) -> (res: Result<SubscriberEmail, ValidationError>)
        ensures
            res is Ok <==> is_valid_email(raw@),
            !has_address_shape(raw@) ==> res is Err,
            res matches Ok(email) ==> email@ == raw@,
            res matches Err(e) ==> e is InvalidEmail && e.input() == raw@,
            res == SubscriberEmail::parsed(raw),
    {
        let accepted = grammar_accepts(raw.as_str());
        SubscriberEmail::from_verdict(raw, accepted)
    }

    /// The address, which is a valid one.
    pub fn as_ref(&self) -> (text: &str)
        ensures
            text@ == self@,
            is_valid_email(text@),
            has_address_shape(text@),
    {
        proof {
            use_type_invariant(self);
        }
        self.0.as_str()
    }
}

impl TryFrom<String> for SubscriberEmail {
    type Error = ValidationError;

    /// [`SubscriberEmail::parse`] under the name the standard library gives it.
    fn try_from(value: String) -> (res: Result<SubscriberEmail, ValidationError>)
        ensures
            res is Ok <==> is_valid_email(value@),
            !has_address_shape(value@) ==> res is Err,
            res matches Ok(email) ==> email@ == value@,
            res matches Err(e) ==> e is InvalidEmail && e.input() == value@,
    {
        SubscriberEmail::parse(value)
    }
}

impl vstd::std_specs::convert::TryFromSpecImpl<String> for SubscriberEmail {
    open spec fn obeys_try_from_spec() -> bool {
        true
    }

    open spec fn try_from_spec(value: String) -> Result<SubscriberEmail, ValidationError> {
        SubscriberEmail::parsed(value)
    }
}

impl std::str::FromStr for SubscriberEmail {
    type Err = ValidationError;

    /// [`SubscriberEmail::parse`] on a copy of `s`.
    fn from_str(s: &str) -> (res: Result<SubscriberEmail, ValidationError>)
        ensures
            res is Ok <==> is_valid_email(s@),
            !has_address_shape(s@) ==> res is Err,
            res matches Ok(email) ==> email@ == s@,
            res matches Err(e) ==> e is InvalidEmail && e.input() == s@,
    {
        SubscriberEmail::parse(s.to_owned())
    }
}

impl AsRef<str> for SubscriberEmail {
    fn as_ref(&self) -> (text: &str)
        ensures
            text@ == self@,
    {
        self.0.as_str()
    }
}

} // verus!

//! A subscriber's name.

use crate::domain::error::ValidationError;
use crate::text::{is_blank, lemma_trimmed_empty_iff_blank, str_is_blank, trimmed};
use unicode_segmentation::UnicodeSegmentation;
use vstd::prelude::*;

verus! {

/// The largest number of grapheme clusters a name may have.
pub const MAX_NAME_GRAPHEMES: usize = 256;

/// Whether `c` is one of the characters a name must not contain:
/// `/ ( ) " < > \ { }`.
pub open spec fn is_forbidden(c: char) -> bool {
    c == '/' || c == '(' || c == ')' || c == '"' || c == '<' || c == '>' || c == '\\' || c == '{'
        || c == '}'
}

/// Whether some character of `s` is forbidden.
pub open spec fn contains_forbidden(s: Seq<char>) -> bool {
    exists|i: int| 0 <= i < s.len() && is_forbidden(#[trigger] s[i])
}

/// The number of extended grapheme clusters of `s`, as Unicode's text
/// segmentation rules divide it.
pub uninterp spec fn grapheme_count(s: Seq<char>) -> nat;

/// The rules of a name, given the number of its grapheme clusters: not blank
/// (something is left of it after trimming), at most [`MAX_NAME_GRAPHEMES`]
/// clusters, no forbidden character.
pub open spec fn name_rules_hold(s: Seq<char>, graphemes: nat) -> bool {
    !is_blank(s) && graphemes <= MAX_NAME_GRAPHEMES && !contains_forbidden(s)
}

/// Whether `s` is an acceptable subscriber name.
pub open spec fn is_valid_name(s: Seq<char>) -> bool {
    name_rules_hold(s, grapheme_count(s))
}

/// The limit is inclusive: of a text that is not blank and holds no
/// forbidden character, [`MAX_NAME_GRAPHEMES`] clusters are accepted and one
/// more is not.
pub proof fn lemma_limit_is_inclusive(s: Seq<char>)
    requires
        !is_blank(s),
        !contains_forbidden(s),
    ensures
        is_valid_name(s) <==> grapheme_count(s) <= 256,
        grapheme_count(s) == 256 ==> is_valid_name(s),
        grapheme_count(s) == 257 ==> !is_valid_name(s),
{
}

/// Counts the extended grapheme clusters of `s` with
/// `unicode_segmentation::UnicodeSegmentation::graphemes`. The count is a
/// function of the text alone; the contract gives it the name
/// [`grapheme_count`] and claims nothing else of it.
#[verifier::external_body]
fn count_graphemes(s: &str) -> (n: usize)
    ensures
        n == grapheme_count(s@),
{
    s.graphemes(true).count()
}

/// Executable form of [`is_forbidden`].
pub fn char_is_forbidden(c: char) -> (b: bool)
    ensures
        b == is_forbidden(c),
{
    c == '/' || c == '(' || c == ')' || c == '"' || c == '<' || c == '>' || c == '\\' || c == '{'
        || c == '}'
}

/// Appending a character adds a forbidden one exactly when that character is
/// forbidden.
pub proof fn lemma_forbidden_push(s: Seq<char>, c: char)
    ensures
        contains_forbidden(s.push(c)) == (contains_forbidden(s) || is_forbidden(c)),
{
    let t = s.push(c);
    if contains_forbidden(t) {
        let i = choose|i: int| 0 <= i < t.len() && is_forbidden(#[trigger] t[i]);
        if i < s.len() {
            assert(s[i] == t[i]);
        }
    }
    if contains_forbidden(s) {
        let i = choose|i: int| 0 <= i < s.len() && is_forbidden(#[trigger] s[i]);
        assert(t[i] == s[i]);
    }
    if is_forbidden(c) {
        assert(t[s.len() as int] == c);
    }
}

/// Whether some character of `s` is forbidden.
pub fn str_contains_forbidden(s: &str) -> (found: bool)
    ensures
        found == contains_forbidden(s@),
{
    let mut found = false;
    for c in it: s.chars()
        invariant
            found == contains_forbidden(s@.take(it.index() as int)),
            it.seq() == s@,
    {
        proof {
            assert(s@.take(it.index() + 1) =~= s@.take(it.index() as int).push(c));
            lemma_forbidden_push(s@.take(it.index() as int), c);
        }
        found = found || char_is_forbidden(c);
    }
    assert(s@.take(s@.len() as int) =~= s@);
    found
}

/// Decides the rules of a name for a text whose number of grapheme clusters
/// the caller has counted. All three rules are evaluated.
pub fn satisfies_name_rules(raw: &str, graphemes: usize) -> (ok: bool)
    ensures
        ok == name_rules_hold(raw@, graphemes as nat),
{
    let is_empty_or_whitespace = str_is_blank(raw);
    let is_too_long = graphemes > MAX_NAME_GRAPHEMES;
    let contains_forbidden_characters = str_contains_forbidden(raw);
    !(is_empty_or_whitespace || is_too_long || contains_forbidden_characters)
}

/// A subscriber's name. A value of this type holds a text that met the rules
/// of a name when it was parsed, and the text never changes afterwards.
#[derive(Debug)]
pub struct SubscriberName(String);

impl View for SubscriberName {
    type V = Seq<char>;

    closed spec fn view(&self) -> Seq<char> {
        self.0@
    }
}

impl SubscriberName {
    #[verifier::type_invariant]
    spec fn well_formed(self) -> bool {
        is_valid_name(self.0@)
    }

    /// What [`SubscriberName::parse`] returns for `raw`.
    pub closed spec fn parsed(raw: String) -> Result<SubscriberName, ValidationError> {
        if is_valid_name(raw@) {
            Ok(SubscriberName(raw))
        } else {
            Err(ValidationError::InvalidName(raw))
        }
    }

    /// What [`SubscriberName::parsed`] yields: the name with the text of
    /// `raw` if that is valid, else the error that carries `raw`.
    pub proof fn lemma_parsed(raw: String)
        ensures
            SubscriberName::parsed(raw) is Ok <==> is_valid_name(raw@),
            SubscriberName::parsed(raw) matches Ok(name) ==> name@ == raw@,
            SubscriberName::parsed(raw) matches Err(e) ==> e == ValidationError::InvalidName(raw),
    {
    }

    /// Accepts `raw` as a name unless trimming leaves nothing of it, it has
    /// more than [`MAX_NAME_GRAPHEMES`] grapheme clusters, or it holds a
    /// forbidden character; a refusal hands the input back in the error.
    pub fn parse(raw: String) -> (res: Result<SubscriberName, ValidationError>)
        ensures
            res is Err <==> trimmed(raw@).len() == 0 || grapheme_count(raw@) > MAX_NAME_GRAPHEMES
                || contains_forbidden(raw@),
            res is Ok <==> is_valid_name(raw@),
            res matches Ok(name) ==> name@ == raw@,
            res matches Err(e) ==> e is InvalidName && e.input() == raw@,
            res == SubscriberName::parsed(raw),
    {
        proof {
            lemma_trimmed_empty_iff_blank(raw@);
        }
        let graphemes = count_graphemes(raw.as_str());
        if satisfies_name_rules(raw.as_str(), graphemes) {
            Ok(SubscriberName(raw))
        } else {
            Err(ValidationError::InvalidName(raw))
        }
    }

    /// The name's text, which is a valid name.
    pub fn as_ref(&self) -> (text: &str)
        ensures
            text@ == self@,
            is_valid_name(text@),
    {
        proof {
            use_type_invariant(self);
        }
        self.0.as_str()
    }
}

impl TryFrom<String> for SubscriberName {
    type Error = ValidationError;

    /// [`SubscriberName::parse`] under the name the standard library gives it.
    fn try_from(value: String) -> (res: Result<SubscriberName, ValidationError>)
        ensures
            res is Ok <==> is_valid_name(value@),
            res matches Ok(name) ==> name@ == value@,
            res matches Err(e) ==> e is InvalidName && e.input() == value@,
    {
        SubscriberName::parse(value)
    }
}

impl vstd::std_specs::convert::TryFromSpecImpl<String> for SubscriberName {
    open spec fn obeys_try_from_spec() -> bool {
        true
    }

    open spec fn try_from_spec(value: String) -> Result<SubscriberName, ValidationError> {
        SubscriberName::parsed(value)
    }
}

impl std::str::FromStr for SubscriberName {
    type Err = ValidationError;

    /// [`SubscriberName::parse`] on a copy of `s`.
    fn from_str(s: &str) -> (res: Result<SubscriberName, ValidationError>)
        ensures
            res is Ok <==> is_valid_name(s@),
            res matches Ok(name) ==> name@ == s@,
            res matches Err(e) ==> e is InvalidName && e.input() == s@,
    {
        SubscriberName::parse(s.to_owned())
    }
}

impl AsRef<str> for SubscriberName {
    fn as_ref(&self) -> (text: &str)
        ensures
            text@ == self@,
    {
        self.0.as_str()
    }
}

} // verus!

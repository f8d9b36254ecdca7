use unicode_segmentation::UnicodeSegmentation;
use vstd::prelude::*;

verus! {

/// The number of extended grapheme clusters in a string, as
/// `unicode_segmentation::UnicodeSegmentation::graphemes(s, true).count()`
/// gives it.
pub uninterp spec fn grapheme_count(s: Seq<char>) -> nat;

/// Whether a character has the Unicode `White_Space` property, which
/// `char::is_whitespace` reports: the controls U+0009 to U+000D, the space,
/// U+0085, U+00A0, U+1680, U+2000 to U+200A, U+2028, U+2029, U+202F, U+205F and
/// U+3000.
pub open spec fn is_white_space(c: char) -> bool {
    ||| ('\u{9}' <= c <= '\u{d}')
    ||| c == ' '
    ||| c == '\u{85}'
    ||| c == '\u{a0}'
    ||| c == '\u{1680}'
    ||| ('\u{2000}' <= c <= '\u{200a}')
    ||| c == '\u{2028}'
    ||| c == '\u{2029}'
    ||| c == '\u{202f}'
    ||| c == '\u{205f}'
    ||| c == '\u{3000}'
}

/// Whether a string is an email address by the HTML5 rule that
/// `validator::validate_email` checks.
pub uninterp spec fn is_valid_email(s: Seq<char>) -> bool;

/// Counts the extended grapheme clusters of `s` with
/// `UnicodeSegmentation::graphemes(s, true).count()`; the count is taken to be
/// `grapheme_count(s@)`, a function of the text alone. Every cluster holds at
/// least one character, so there are no more clusters than characters.
#[verifier::external_body]
fn count_graphemes(s: &str) -> (n: usize)
    ensures
        n == grapheme_count(s@),
        n <= s@.len(),
{
    s.graphemes(true).count()
}

/// Whether a character is white space, by the Unicode `White_Space` property.
pub fn char_is_whitespace(c: char) -> (b: bool)
    ensures
        b == is_white_space(c),
{
    ('\u{9}' <= c && c <= '\u{d}') || c == ' ' || c == '\u{85}' || c == '\u{a0}' || c == '\u{1680}'
        || ('\u{2000}' <= c && c <= '\u{200a}') || c == '\u{2028}' || c == '\u{2029}'
        || c == '\u{202f}' || c == '\u{205f}' || c == '\u{3000}'
}

/// Calls `validator::validate_email`. Its result is taken to be
/// `is_valid_email(s@)`; the source returns `false` at once for an empty string
/// and for one without an `@`, which the second clause states.
#[verifier::external_body]
fn validate_email(s: &str) -> (b: bool)
    ensures
        b == is_valid_email(s@),
        b ==> s@.len() > 0 && s@.contains('@'),
{
    validator::validate_email(s)
}

/// The characters that a subscriber name may not hold.
pub open spec fn is_forbidden_name_char(c: char) -> bool {
    c == '/' || c == '(' || c == ')' || c == '"' || c == '<' || c == '>' || c == '\\'
        || c == '{' || c == '}'
}

/// Whether a string is empty or holds only white space.
pub open spec fn is_empty_or_whitespace(s: Seq<char>) -> bool {
    forall|i: int| 0 <= i < s.len() ==> is_white_space(#[trigger] s[i])
}

/// The longest name, in grapheme clusters, that a subscriber may give.
pub const MAX_NAME_GRAPHEMES: usize = 256;

/// A subscriber name is accepted when it holds something other than white
/// space, has at most 256 grapheme clusters and holds no forbidden character.
pub open spec fn is_valid_subscriber_name(s: Seq<char>) -> bool {
    &&& !is_empty_or_whitespace(s)
    &&& grapheme_count(s) <= MAX_NAME_GRAPHEMES
    &&& forall|i: int| 0 <= i < s.len() ==> !is_forbidden_name_char(#[trigger] s[i])
}

/// The message with which an invalid name is refused.
pub open spec fn invalid_name_message(s: Seq<char>) -> Seq<char> {
    s + " is not a valid subscriber name."@
}

/// The message with which an invalid email address is refused.
pub open spec fn invalid_email_message(s: Seq<char>) -> Seq<char> {
    s + " is not a valid subscriber email."@
}

/// A subscriber name that passed validation.
#[derive(Debug)]
pub struct SubscriberName(String);

impl View for SubscriberName {
    type V = Seq<char>;

    closed spec fn view(&self) -> Seq<char> {
        self.0@
    }
}

fn has_only_whitespace(s: &str) -> (r: bool)
    ensures
        r == is_empty_or_whitespace(s@),
{
    let n = s.unicode_len();
    let mut i: usize = 0;
    while i < n
        invariant
            n == s@.len(),
            i <= n,
            forall|j: int| 0 <= j < i ==> is_white_space(#[trigger] s@[j]),
        decreases n - i,
    {
        let c = s.get_char(i);
        if !char_is_whitespace(c) {
            return false;
        }
        i = i + 1;
    }
    true
}

fn has_forbidden_char(s: &str) -> (r: bool)
    ensures
        r == exists|i: int| 0 <= i < s@.len() && is_forbidden_name_char(#[trigger] s@[i]),
{
    let n = s.unicode_len();
    let mut i: usize = 0;
    while i < n
        invariant
            n == s@.len(),
            i <= n,
            forall|j: int| 0 <= j < i ==> !is_forbidden_name_char(#[trigger] s@[j]),
        decreases n - i,
    {
        let c = s.get_char(i);
        if c == '/' || c == '(' || c == ')' || c == '"' || c == '<' || c == '>' || c == '\\'
            || c == '{' || c == '}' {
            assert(is_forbidden_name_char(s@[i as int]));
            return true;
        }
        i = i + 1;
    }
    false
}

impl SubscriberName {
    #[verifier::type_invariant]
    spec fn well_formed(self) -> bool {
        is_valid_subscriber_name(self.0@)
    }

    /// Accepts `s` as a name exactly when it is valid; the name keeps the text
    /// unchanged. A refused name is answered with a message that quotes it.
    pub fn parse(s: String) -> (r: Result<SubscriberName, String>)
        ensures
            r is Ok <==> is_valid_subscriber_name(s@),
            r is Ok <==> {
                &&& !is_empty_or_whitespace(s@)
                &&& grapheme_count(s@) <= 256
                &&& forall|i: int| #![trigger s@[i]] 0 <= i < s@.len() ==> {
                    let c = s@[i];
                    !(c == '/' || c == '(' || c == ')' || c == '"' || c == '<' || c == '>'
                        || c == '\\' || c == '{' || c == '}')
                }
            },
            r matches Ok(name) ==> name@ == s@,
            r matches Err(msg) ==> msg@ == invalid_name_message(s@),
    {
        let is_blank = has_only_whitespace(s.as_str());
        let is_too_long = count_graphemes(s.as_str()) > MAX_NAME_GRAPHEMES;
        let is_forbidden = has_forbidden_char(s.as_str());
        if is_blank || is_too_long || is_forbidden {
            Err(s.concat(" is not a valid subscriber name."))
        } else {
            Ok(SubscriberName(s))
        }
    }

    /// The text of the name.
    pub fn as_ref(&self) -> (r: &str)
        ensures
            r@ == self@,
            is_valid_subscriber_name(r@),
    {
        proof {
            use_type_invariant(self);
        }
        self.0.as_str()
    }
}

/// An email address that passed validation.
#[derive(Debug)]
pub struct SubscriberEmail(String);

impl View for SubscriberEmail {
    type V = Seq<char>;

    closed spec fn view(&self) -> Seq<char> {
        self.0@
    }
}

impl SubscriberEmail {
    #[verifier::type_invariant]
    spec fn well_formed(self) -> bool {
        is_valid_email(self.0@)
    }

    /// Accepts `s` as an address exactly when it is a valid email address; the
    /// address keeps the text unchanged. A refused address is answered with a
    /// message that quotes it.
    pub fn parse(s: String) -> (r: Result<SubscriberEmail, String>)
        ensures
            r is Ok <==> is_valid_email(s@),
            r is Ok ==> s@.len() > 0 && s@.contains('@'),
            r matches Ok(email) ==> email@ == s@,
            r matches Err(msg) ==> msg@ == invalid_email_message(s@),
    {
        if validate_email(s.as_str()) {
            Ok(SubscriberEmail(s))
        } else {
            Err(s.concat(" is not a valid subscriber email."))
        }
    }

    /// The text of the address.
    pub fn as_ref(&self) -> (r: &str)
        ensures
            r@ == self@,
            is_valid_email(r@),
    {
        proof {
            use_type_invariant(self);
        }
        self.0.as_str()
    }

    /// A copy of the address.
    pub fn clone(&self) -> (r: SubscriberEmail)
        ensures
            r@ == self@,
    {
        proof {
            use_type_invariant(self);
        }
        SubscriberEmail(self.0.clone())
    }
}

/// A new subscriber: a valid address and a valid name.
pub struct NewSubscriber {
    pub email: SubscriberEmail,
    pub name: SubscriberName,
}

/// The characters of a plain name: ASCII letters and digits, the space, the
/// hyphen, the apostrophe and the full stop.
pub open spec fn is_plain_name_char(c: char) -> bool {
    ('a' <= c <= 'z') || ('A' <= c <= 'Z') || ('0' <= c <= '9') || c == ' ' || c == '-'
        || c == '\'' || c == '.'
}

/// A name made of plain characters, with at least one letter and at most 256
/// grapheme clusters, is accepted: hyphens and apostrophes, as in "Mary-Jane
/// Watson" or "Conan O'Brien", do not make a name invalid.
pub proof fn lemma_plain_names_are_accepted(s: Seq<char>, letter: int)
    requires
        0 <= letter < s.len(),
        ('a' <= s[letter] <= 'z') || ('A' <= s[letter] <= 'Z'),
        forall|i: int| 0 <= i < s.len() ==> is_plain_name_char(#[trigger] s[i]),
        grapheme_count(s) <= 256,
    ensures
        is_valid_subscriber_name(s),
{
    assert(!is_white_space(s[letter]));
    assert forall|i: int| 0 <= i < s.len() implies !is_forbidden_name_char(#[trigger] s[i]) by {
        assert(is_plain_name_char(s[i]));
    }
}

/// The forbidden characters of a name are exactly the nine characters
/// `/ ( ) " < > \ { }`; any other character, such as a hyphen or an
/// apostrophe, is allowed.
pub proof fn lemma_forbidden_name_chars(c: char)
    ensures
        is_forbidden_name_char(c) <==> (c == '/' || c == '(' || c == ')' || c == '"' || c == '<'
            || c == '>' || c == '\\' || c == '{' || c == '}'),
        !is_forbidden_name_char('-'),
        !is_forbidden_name_char('\''),
{
}

} // verus!

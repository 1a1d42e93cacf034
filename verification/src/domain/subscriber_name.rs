use unicode_segmentation::UnicodeSegmentation;
use vstd::prelude::*;

verus! {

/// The most extended grapheme clusters a subscriber name may have.
pub const MAX_NAME_GRAPHEMES: usize = 256;

/// A character that a subscriber name may not contain.
pub open spec fn is_forbidden_name_char(c: char) -> bool {
    ||| c == '/'
    ||| c == '('
    ||| c == ')'
    ||| c == '"'
    ||| c == '<'
    ||| c == '>'
    ||| c == '\\'
    ||| c == '{'
    ||| c == '}'
}

/// A character with the Unicode `White_Space` property.
pub open spec fn is_unicode_whitespace(c: char) -> bool {
    ||| '\u{9}' <= c <= '\u{d}'
    ||| c == ' '
    ||| c == '\u{85}'
    ||| c == '\u{a0}'
    ||| c == '\u{1680}'
    ||| '\u{2000}' <= c <= '\u{200a}'
    ||| c == '\u{2028}'
    ||| c == '\u{2029}'
    ||| c == '\u{202f}'
    ||| c == '\u{205f}'
    ||| c == '\u{3000}'
}

/// The text is empty or made of whitespace alone.
pub open spec fn is_blank(s: Seq<char>) -> bool {
    forall|i: int| 0 <= i < s.len() ==> #[trigger] is_unicode_whitespace(s[i])
}

/// The text holds at least one forbidden character.
pub open spec fn has_forbidden_char(s: Seq<char>) -> bool {
    exists|i: int| 0 <= i < s.len() && #[trigger] is_forbidden_name_char(s[i])
}

/// The rules on a subscriber name, given the number of its grapheme clusters.
pub open spec fn is_valid_name(s: Seq<char>, graphemes: nat) -> bool {
    &&& !is_blank(s)
    &&& graphemes <= MAX_NAME_GRAPHEMES
    &&& !has_forbidden_char(s)
}

/// What a rejected name is answered with.
pub open spec fn invalid_name_message(s: Seq<char>) -> Seq<char> {
    s + " is not a valid subscriber name."@
}

/// The number of extended grapheme clusters of a text, as the
/// `unicode-segmentation` crate splits it.
pub uninterp spec fn extended_grapheme_count(s: Seq<char>) -> nat;

/// Counts the extended grapheme clusters of `s` with
/// `UnicodeSegmentation::graphemes(s, true)` of the `unicode-segmentation`
/// crate. Trusted to return that crate's count for the text, named
/// `extended_grapheme_count`; nothing more is claimed of it.
#[verifier::external_body]
fn grapheme_count(s: &str) -> (n: usize)
    ensures
        n as nat == extended_grapheme_count(s@),
{
    s.graphemes(true).count()
}

/// Whether `c` has the Unicode `White_Space` property.
pub fn is_whitespace_char(c: char) -> (r: bool)
    ensures
        r == is_unicode_whitespace(c),
{
    ('\u{9}' <= c && c <= '\u{d}') || c == ' ' || c == '\u{85}' || c == '\u{a0}' || c == '\u{1680}'
        || ('\u{2000}' <= c && c <= '\u{200a}') || c == '\u{2028}' || c == '\u{2029}' || c
        == '\u{202f}' || c == '\u{205f}' || c == '\u{3000}'
}

/// Whether `c` is one of the characters a name may not hold.
pub fn is_forbidden_char(c: char) -> (r: bool)
    ensures
        r == is_forbidden_name_char(c),
{
    c == '/' || c == '(' || c == ')' || c == '"' || c == '<' || c == '>' || c == '\\' || c == '{'
        || c == '}'
}

/// Whether `s` passes the name rules, given its number of grapheme clusters.
pub fn name_is_acceptable(s: &str, graphemes: usize) -> (ok: bool)
    ensures
        ok == is_valid_name(s@, graphemes as nat),
{
    let mut blank = true;
    let mut forbidden = false;
    for c in it: s.chars()
        invariant
            it.seq() == s@,
            blank == (forall|j: int| 0 <= j < it.index() ==> #[trigger] is_unicode_whitespace(s@[j])),
            forbidden == (exists|j: int| 0 <= j < it.index() && #[trigger] is_forbidden_name_char(s@[j])),
    {
        if !is_whitespace_char(c) {
            blank = false;
        }
        if is_forbidden_char(c) {
            forbidden = true;
        }
    }
    !blank && graphemes <= MAX_NAME_GRAPHEMES && !forbidden
}

/// Law: a name is accepted exactly when it holds at least one character
/// outside the Unicode `White_Space` set, has at most 256 extended grapheme
/// clusters, and holds none of the nine characters `/ ( ) " < > \ { }`; no
/// other character and no other condition refuses a name.
pub proof fn lemma_name_rules(s: Seq<char>, graphemes: nat)
    ensures
        is_valid_name(s, graphemes) <==> {
            &&& exists|i: int|
                0 <= i < s.len() && !(('\u{9}' <= #[trigger] s[i] && s[i] <= '\u{d}') || s[i]
                    == ' ' || s[i] == '\u{85}' || s[i] == '\u{a0}' || s[i] == '\u{1680}' || (
                '\u{2000}' <= s[i] && s[i] <= '\u{200a}') || s[i] == '\u{2028}' || s[i]
                    == '\u{2029}' || s[i] == '\u{202f}' || s[i] == '\u{205f}' || s[i]
                    == '\u{3000}')
            &&& graphemes <= 256
            &&& forall|i: int|
                0 <= i < s.len() ==> #[trigger] s[i] != '/' && s[i] != '(' && s[i] != ')' && s[i]
                    != '"' && s[i] != '<' && s[i] != '>' && s[i] != '\\' && s[i] != '{' && s[i]
                    != '}'
        },
{
    if !is_blank(s) {
        let i = choose|i: int| 0 <= i < s.len() && !#[trigger] is_unicode_whitespace(s[i]);
        assert(!is_unicode_whitespace(s[i]));
    }
    if has_forbidden_char(s) {
        let i = choose|i: int| 0 <= i < s.len() && #[trigger] is_forbidden_name_char(s[i]);
        assert(is_forbidden_name_char(s[i]));
    } else {
        assert forall|i: int| 0 <= i < s.len() implies #[trigger] s[i] != '/' && s[i] != '('
            && s[i] != ')' && s[i] != '"' && s[i] != '<' && s[i] != '>' && s[i] != '\\' && s[i]
            != '{' && s[i] != '}' by {
            assert(!is_forbidden_name_char(s[i]));
        }
    }
    if is_blank(s) {
        assert forall|i: int| 0 <= i < s.len() implies (('\u{9}' <= #[trigger] s[i] && s[i] <= '\u{d}') || s[i]
                    == ' ' || s[i] == '\u{85}' || s[i] == '\u{a0}' || s[i] == '\u{1680}' || (
                '\u{2000}' <= s[i] && s[i] <= '\u{200a}') || s[i] == '\u{2028}' || s[i]
                    == '\u{2029}' || s[i] == '\u{202f}' || s[i] == '\u{205f}' || s[i]
                    == '\u{3000}') by {
            assert(is_unicode_whitespace(s[i]));
        }
    }
}

/// Law: the characters `is_whitespace_char` reports are exactly those with
/// the Unicode `White_Space` property, and `is_forbidden_char` reports
/// exactly the nine characters `/ ( ) " < > \ { }`.
pub proof fn lemma_char_classes(c: char)
    ensures
        is_unicode_whitespace(c) <==> (c == '\u{9}' || c == '\u{a}' || c == '\u{b}' || c
            == '\u{c}' || c == '\u{d}' || c == ' ' || c == '\u{85}' || c == '\u{a0}' || c
            == '\u{1680}' || ('\u{2000}' <= c && c <= '\u{200a}') || c == '\u{2028}' || c
            == '\u{2029}' || c == '\u{202f}' || c == '\u{205f}' || c == '\u{3000}'),
        is_forbidden_name_char(c) <==> (c == '/' || c == '(' || c == ')' || c == '"' || c == '<'
            || c == '>' || c == '\\' || c == '{' || c == '}'),
{
}

/// Law: a rejected name is answered with the name itself followed by
/// " is not a valid subscriber name.".
pub proof fn lemma_invalid_name_message(s: Seq<char>)
    ensures
        invalid_name_message(s).len() == s.len() + " is not a valid subscriber name."@.len(),
        invalid_name_message(s).subrange(0, s.len() as int) == s,
        invalid_name_message(s).subrange(s.len() as int, invalid_name_message(s).len() as int)
            == " is not a valid subscriber name."@,
{
    assert(invalid_name_message(s).subrange(0, s.len() as int) =~= s);
    assert(invalid_name_message(s).subrange(s.len() as int, invalid_name_message(s).len() as int)
        =~= " is not a valid subscriber name."@);
}

/// A subscriber name that passed the name rules.
pub struct SubscriberName {
    name: String,
}

impl View for SubscriberName {
    type V = Seq<char>;

    closed spec fn view(&self) -> Seq<char> {
        self.name@
    }
}

impl SubscriberName {
    /// Every subscriber name passes the name rules.
    #[verifier::type_invariant]
    closed spec fn passes_rules(self) -> bool {
        is_valid_name(self.name@, extended_grapheme_count(self.name@))
    }

    /// Checks `s` against the name rules and keeps it unchanged when it passes.
    pub fn parse(s: String) -> (res: Result<SubscriberName, String>)
        ensures
            is_valid_name(s@, extended_grapheme_count(s@)) ==> res is Ok && res->Ok_0@ == s@,
            !is_valid_name(s@, extended_grapheme_count(s@)) ==> res is Err && res->Err_0@
                == invalid_name_message(s@),
    {
        let graphemes = grapheme_count(s.as_str());
        if name_is_acceptable(s.as_str(), graphemes) {
            Ok(SubscriberName { name: s })
        } else {
            Err(s.concat(" is not a valid subscriber name."))
        }
    }

    /// The name as text; it passes the name rules.
    pub fn as_ref(&self) -> (r: &str)
        ensures
            r@ == self@,
            is_valid_name(self@, extended_grapheme_count(self@)),
    {
        proof {
            use_type_invariant(self);
        }
        self.name.as_str()
    }
}

} // verus!

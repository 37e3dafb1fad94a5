//! The name a subscriber gives.
use vstd::prelude::*;

verus! {

/// Whether a character has the Unicode `White_Space` property, which is what
/// `char::is_whitespace` (and so `str::trim`) tests.
pub open spec fn is_white_space(c: char) -> bool {
    ||| '\u{9}' <= c <= '\u{d}'
    ||| c == ' '
    ||| c == '\u{85}'
    ||| c == '\u{a0}'
    ||| c == '\u{1680}'
    ||| '\u{2000}' <= c <= '\u{200a}'
    ||| c == '\u{2028}'
    ||| c == '\u{2029}'
    ||| c == '\u{202f}'
    ||| c == '\u{205f}'
    ||| c == '\u{3000}'
}

/// Characters that a name must not hold.
pub open spec fn is_forbidden_name_char(c: char) -> bool {
    ||| c == '/'
    ||| c == '('
    ||| c == ')'
    ||| c == '"'
    ||| c == '<'
    ||| c == '>'
    ||| c == '\\'
    ||| c == '{'
    ||| c == '}'
}

/// The longest name accepted, in characters.
pub const MAX_NAME_LENGTH: usize = 256;

/// A name is accepted when it holds some character that is not white space, has
/// at most `MAX_NAME_LENGTH` characters and holds no forbidden character.
pub open spec fn is_valid_name(s: Seq<char>) -> bool {
    &&& exists|i: int| 0 <= i < s.len() && !is_white_space(#[trigger] s[i])
    &&& s.len() <= MAX_NAME_LENGTH
    &&& forall|i: int| 0 <= i < s.len() ==> !is_forbidden_name_char(#[trigger] s[i])
}

/// A name made of white space only, the empty name included, is refused.
pub proof fn lemma_blank_name_refused(s: Seq<char>)
    requires
        forall|i: int| 0 <= i < s.len() ==> is_white_space(#[trigger] s[i]),
    ensures
        !is_valid_name(s),
{
}

/// The forbidden characters are exactly `/ ( ) " < > \ { }`: every other character,
/// an apostrophe, a hyphen or a dot among them, is allowed in a name.
pub proof fn lemma_forbidden_name_chars_exact(c: char)
    ensures
        is_forbidden_name_char(c) <==> (c == '/' || c == '(' || c == ')' || c == '"' || c == '<'
            || c == '>' || c == '\\' || c == '{' || c == '}'),
{
}

/// The white space that makes a name blank is exactly the Unicode `White_Space`
/// set: U+0009..U+000D, U+0020, U+0085, U+00A0, U+1680, U+2000..U+200A, U+2028,
/// U+2029, U+202F, U+205F and U+3000.
pub proof fn lemma_white_space_exact(c: char)
    ensures
        is_white_space(c) <==> ((9 <= (c as u32) && (c as u32) <= 13) || (c as u32) == 32 || (c
            as u32) == 0x85 || (c as u32) == 0xa0 || (c as u32) == 0x1680 || (0x2000 <= (c as u32)
            && (c as u32) <= 0x200a) || (c as u32) == 0x2028 || (c as u32) == 0x2029 || (c as u32)
            == 0x202f || (c as u32) == 0x205f || (c as u32) == 0x3000),
{
}

/// A name is accepted exactly when it holds a character that is not white space,
/// has at most 256 characters, and holds none of `/ ( ) " < > \ { }`.
pub proof fn lemma_name_acceptance(s: Seq<char>)
    ensures
        is_valid_name(s) <==> {
            &&& exists|i: int| 0 <= i < s.len() && !is_white_space(#[trigger] s[i])
            &&& s.len() <= 256
            &&& forall|i: int|
                0 <= i < s.len() ==> {
                    let c = #[trigger] s[i];
                    c != '/' && c != '(' && c != ')' && c != '"' && c != '<' && c != '>' && c
                        != '\\' && c != '{' && c != '}'
                }
        },
{
    assert forall|i: int| 0 <= i < s.len() implies (!is_forbidden_name_char(#[trigger] s[i]) <==> {
        let c = s[i];
        c != '/' && c != '(' && c != ')' && c != '"' && c != '<' && c != '>' && c != '\\' && c
            != '{' && c != '}'
    }) by {
        lemma_forbidden_name_chars_exact(s[i]);
    }
}

/// Putting a character that is neither white space nor one of `/ ( ) " < > \ { }`
/// in the place of any character of an accepted name gives an accepted name.
pub proof fn lemma_name_update_keeps_valid(s: Seq<char>, i: int, c: char)
    requires
        is_valid_name(s),
        0 <= i < s.len(),
        !is_white_space(c),
        c != '/' && c != '(' && c != ')' && c != '"' && c != '<' && c != '>' && c != '\\' && c
            != '{' && c != '}',
    ensures
        is_valid_name(s.update(i, c)),
{
    let t = s.update(i, c);
    assert(t[i] == c);
    assert(!is_white_space(t[i]));
    assert forall|j: int| 0 <= j < t.len() implies !is_forbidden_name_char(#[trigger] t[j]) by {
        if j != i {
            assert(t[j] == s[j]);
        }
    }
}

/// The message that refuses a name.
pub open spec fn name_error(s: Seq<char>) -> Seq<char> {
    s + " is not a valid subscriber name."@
}

fn white_space(c: char) -> (r: bool)
    ensures
        r == is_white_space(c),
{
    ('\u{9}' <= c && c <= '\u{d}') || c == ' ' || c == '\u{85}' || c == '\u{a0}' || c
        == '\u{1680}' || ('\u{2000}' <= c && c <= '\u{200a}') || c == '\u{2028}' || c
        == '\u{2029}' || c == '\u{202f}' || c == '\u{205f}' || c == '\u{3000}'
}

fn forbidden_name_char(c: char) -> (r: bool)
    ensures
        r == is_forbidden_name_char(c),
{
    c == '/' || c == '(' || c == ')' || c == '"' || c == '<' || c == '>' || c == '\\' || c
        == '{' || c == '}'
}

/// A subscriber name that has passed validation.
pub struct SubscriberName {
    name: String,
}

impl View for SubscriberName {
    type V = Seq<char>;

    closed spec fn view(&self) -> Seq<char> {
        self.name@
    }
}

impl SubscriberName {
    #[verifier::type_invariant]
    spec fn inv(self) -> bool {
        is_valid_name(self.name@)
    }

    /// Accepts a name exactly when `is_valid_name` holds of it, and then keeps it
    /// unchanged; otherwise gives the message that names it.
    pub fn parse(s: String) -> (r: Result<SubscriberName, String>)
        ensures
            r is Ok <==> is_valid_name(s@),
            r matches Ok(n) ==> n@ == s@,
            r matches Err(m) ==> m@ == name_error(s@),
    {
        let n = s.as_str().unicode_len();
        let mut i: usize = 0;
        let mut has_visible = false;
        let mut has_forbidden = false;
        while i < n
            invariant
                n == s@.len(),
                i <= n,
                has_visible == exists|j: int| 0 <= j < i && !is_white_space(#[trigger] s@[j]),
                has_forbidden == exists|j: int| 0 <= j < i && is_forbidden_name_char(#[trigger] s@[j]),
            decreases n - i,
        {
            let c = s.as_str().get_char(i);
            if !white_space(c) {
                has_visible = true;
            }
            if forbidden_name_char(c) {
                has_forbidden = true;
            }
            i = i + 1;
        }
        if has_visible && n <= MAX_NAME_LENGTH && !has_forbidden {
            Ok(SubscriberName { name: s })
        } else {
            Err(s.concat(" is not a valid subscriber name."))
        }
    }

    /// The name, which is valid.
    pub fn as_ref(&self) -> (r: &str)
        ensures
            r@ == self@,
            is_valid_name(self@),
    {
        proof {
            use_type_invariant(self);
        }
        self.name.as_str()
    }
}

} // verus!

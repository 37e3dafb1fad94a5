//! The e-mail address a subscriber gives.
use vstd::prelude::*;

verus! {

/// An address is accepted when it holds exactly one `@`, with at least one
/// character before it and at least one after it.
pub open spec fn is_valid_email(s: Seq<char>) -> bool {
    exists|k: int|
        0 < k < s.len() - 1 && #[trigger] s[k] == '@' && forall|j: int|
            0 <= j < s.len() && j != k ==> s[j] != '@'
}

/// Whether an address is accepted depends only on where its `@` characters stand:
/// two addresses of one length with `@` at the same places are both accepted or
/// both refused, whatever their other characters (letters, digits, dots, ...).
pub proof fn lemma_email_depends_only_on_at(s: Seq<char>, t: Seq<char>)
    requires
        s.len() == t.len(),
        forall|i: int| 0 <= i < s.len() ==> (s[i] == '@' <==> t[i] == '@'),
    ensures
        is_valid_email(s) == is_valid_email(t),
{
    if is_valid_email(s) {
        let k = choose|k: int|
            0 < k < s.len() - 1 && #[trigger] s[k] == '@' && forall|j: int|
                0 <= j < s.len() && j != k ==> s[j] != '@';
        assert(t[k] == '@');
    }
    if is_valid_email(t) {
        let k = choose|k: int|
            0 < k < t.len() - 1 && #[trigger] t[k] == '@' && forall|j: int|
                0 <= j < t.len() && j != k ==> t[j] != '@';
        assert(s[k] == '@');
    }
}

/// An address with exactly one `@`, neither first nor last, is accepted.
pub proof fn lemma_email_single_at_accepted(s: Seq<char>, k: int)
    requires
        0 < k < s.len() - 1,
        s[k] == '@',
        forall|j: int| 0 <= j < s.len() && j != k ==> s[j] != '@',
    ensures
        is_valid_email(s),
{
}

/// An accepted address has an `@` that is neither first nor last, and no other `@`.
pub proof fn lemma_email_accepted_has_single_at(s: Seq<char>)
    requires
        is_valid_email(s),
    ensures
        exists|k: int| 0 < k < s.len() - 1 && #[trigger] s[k] == '@' && forall|j: int|
            0 <= j < s.len() && j != k ==> s[j] != '@',
{
}

/// An address without an `@`, the empty address included, is refused.
pub proof fn lemma_email_without_at_refused(s: Seq<char>)
    requires
        !s.contains('@'),
    ensures
        !is_valid_email(s),
{
    if is_valid_email(s) {
        let k = choose|k: int|
            0 < k < s.len() - 1 && #[trigger] s[k] == '@' && forall|j: int|
                0 <= j < s.len() && j != k ==> s[j] != '@';
        assert(s.contains(s[k]));
    }
}

/// The message that refuses an address.
pub open spec fn email_error(s: Seq<char>) -> Seq<char> {
    s + " is not a valid subscriber email."@
}

/// A subscriber e-mail address that has passed validation.
pub struct Email {
    email: String,
}

impl View for Email {
    type V = Seq<char>;

    closed spec fn view(&self) -> Seq<char> {
        self.email@
    }
}

impl Email {
    #[verifier::type_invariant]
    spec fn inv(self) -> bool {
        is_valid_email(self.email@)
    }

    /// Accepts an address exactly when `is_valid_email` holds of it, and then keeps
    /// it unchanged; otherwise gives the message that names it.
    pub fn parse(s: String) -> (r: Result<Email, String>)
        ensures
            r is Ok <==> is_valid_email(s@),
            r matches Ok(e) ==> e@ == s@,
            r matches Err(m) ==> m@ == email_error(s@),
    {
        let n = s.as_str().unicode_len();
        let mut i: usize = 0;
        let mut count: usize = 0;
        let mut at: usize = 0;
        while i < n
            invariant
                n == s@.len(),
                i <= n,
                count <= i,
                count == 0 ==> forall|j: int| 0 <= j < i ==> s@[j] != '@',
                count >= 1 ==> at < i && s@[at as int] == '@',
                count == 1 ==> forall|j: int| 0 <= j < i && j != at ==> s@[j] != '@',
                count >= 2 ==> exists|j: int| 0 <= j < i && j != at && #[trigger] s@[j] == '@',
            decreases n - i,
        {
            if s.as_str().get_char(i) == '@' {
                if count == 0 {
                    at = i;
                }
                count = count + 1;
            }
            i = i + 1;
        }
        if count == 1 && 0 < at && at + 1 < n {
            Ok(Email { email: s })
        } else {
            proof {
                if is_valid_email(s@) {
                    let k = choose|k: int|
                        0 < k < s@.len() - 1 && #[trigger] s@[k] == '@' && forall|j: int|
                            0 <= j < s@.len() && j != k ==> s@[j] != '@';
                    if count >= 2 {
                        let j = choose|j: int| 0 <= j < n && j != at && #[trigger] s@[j] == '@';
                        assert(j == k);
                        assert(at == k);
                    }
                }
            }
            Err(s.concat(" is not a valid subscriber email."))
        }
    }

    /// The address, which is valid.
    pub fn as_ref(&self) -> (r: &str)
        ensures
            r@ == self@,
            is_valid_email(self@),
    {
        proof {
            use_type_invariant(self);
        }
        self.email.as_str()
    }
}

} // verus!

//! Trimmed, non-empty text: the validated form every user-entered name
//! takes before an operation may use it.

use vstd::prelude::*;

verus! {

/// The characters stripped from either end of user input: the Unicode
/// White_Space set, the same characters `str::trim` strips.
pub open spec fn is_space(c: char) -> bool {
    ||| c == ' '
    ||| c == '\t'
    ||| c == '\n'
    ||| c == '\u{000B}'
    ||| c == '\u{000C}'
    ||| c == '\r'
    ||| c == '\u{0085}'
    ||| c == '\u{00A0}'
    ||| c == '\u{1680}'
    ||| c == '\u{2000}'
    ||| c == '\u{2001}'
    ||| c == '\u{2002}'
    ||| c == '\u{2003}'
    ||| c == '\u{2004}'
    ||| c == '\u{2005}'
    ||| c == '\u{2006}'
    ||| c == '\u{2007}'
    ||| c == '\u{2008}'
    ||| c == '\u{2009}'
    ||| c == '\u{200A}'
    ||| c == '\u{2028}'
    ||| c == '\u{2029}'
    ||| c == '\u{202F}'
    ||| c == '\u{205F}'
    ||| c == '\u{3000}'
}

/// `s` without its leading spaces.
pub open spec fn trim_front(s: Seq<char>) -> Seq<char>
    decreases s.len(),
{
    if s.len() > 0 && is_space(s[0]) {
        trim_front(s.drop_first())
    } else {
        s
    }
}

/// `s` without its trailing spaces.
pub open spec fn trim_back(s: Seq<char>) -> Seq<char>
    decreases s.len(),
{
    if s.len() > 0 && is_space(s[s.len() - 1]) {
        trim_back(s.drop_last())
    } else {
        s
    }
}

/// `s` without leading or trailing spaces.
pub open spec fn trim_spec(s: Seq<char>) -> Seq<char> {
    trim_back(trim_front(s))
}

proof fn lemma_trim_front_no_leading(s: Seq<char>)
    ensures
        trim_front(s).len() > 0 ==> !is_space(trim_front(s)[0]),
    decreases s.len(),
{
    if s.len() > 0 && is_space(s[0]) {
        lemma_trim_front_no_leading(s.drop_first());
    }
}

proof fn lemma_trim_back_no_trailing(s: Seq<char>)
    ensures
        trim_back(s).len() > 0 ==> !is_space(trim_back(s)[trim_back(s).len() - 1]),
    decreases s.len(),
{
    if s.len() > 0 && is_space(s[s.len() - 1]) {
        lemma_trim_back_no_trailing(s.drop_last());
    }
}

proof fn lemma_trim_back_keeps_first(s: Seq<char>)
    ensures
        trim_back(s).len() > 0 ==> s.len() > 0 && trim_back(s)[0] == s[0],
    decreases s.len(),
{
    if s.len() > 0 && is_space(s[s.len() - 1]) {
        lemma_trim_back_keeps_first(s.drop_last());
    }
}

/// Trimming is idempotent: a trimmed text is left unchanged by trimming.
pub proof fn lemma_trim_spec_idempotent(s: Seq<char>)
    ensures
        trim_spec(trim_spec(s)) == trim_spec(s),
{
    let t = trim_spec(s);
    if t.len() > 0 {
        lemma_trim_front_no_leading(s);
        lemma_trim_back_keeps_first(trim_front(s));
        lemma_trim_back_no_trailing(trim_front(s));
        assert(!is_space(t[0]));
        assert(trim_front(t) == t);
        assert(!is_space(t[t.len() - 1]));
        assert(trim_back(t) == t);
    }
}

/// Returns `s` without leading or trailing spaces.
pub fn trimmed(s: &str) -> (r: &str)
    ensures
        r@ == trim_spec(s@),
{
    let n = s.unicode_len();
    proof {
        assert(s@.subrange(0, n as int) =~= s@);
    }
    let mut i: usize = 0;
    while i < n && is_space_char(s.get_char(i))
        invariant
            0 <= i <= n == s@.len(),
            trim_front(s@) == trim_front(s@.subrange(i as int, n as int)),
        decreases n - i,
    {
        proof {
            assert(s@.subrange(i as int, n as int).drop_first() =~= s@.subrange(
                i + 1,
                n as int,
            ));
        }
        i = i + 1;
    }
    proof {
        if i < n {
            assert(trim_front(s@.subrange(i as int, n as int)) == s@.subrange(
                i as int,
                n as int,
            ));
        } else {
            assert(s@.subrange(i as int, n as int).len() == 0);
        }
        assert(trim_front(s@) == s@.subrange(i as int, n as int));
    }
    let mut j: usize = n;
    while j > i && is_space_char(s.get_char(j - 1))
        invariant
            0 <= i <= j <= n == s@.len(),
            trim_front(s@) == s@.subrange(i as int, n as int),
            trim_back(s@.subrange(i as int, n as int)) == trim_back(
                s@.subrange(i as int, j as int),
            ),
        decreases j,
    {
        proof {
            assert(s@.subrange(i as int, j as int).drop_last() =~= s@.subrange(
                i as int,
                j - 1,
            ));
        }
        j = j - 1;
    }
    proof {
        if j > i {
            assert(trim_back(s@.subrange(i as int, j as int)) == s@.subrange(
                i as int,
                j as int,
            ));
        } else {
            assert(s@.subrange(i as int, j as int).len() == 0);
        }
    }
    s.substring_char(i, j)
}

/// Whether `s` still holds anything once trimmed.
pub fn is_non_blank(s: &str) -> (r: bool)
    ensures
        r == (trim_spec(s@).len() > 0),
{
    trimmed(s).unicode_len() > 0
}

/// Character-wise string equality.
pub fn str_eq(a: &str, b: &str) -> (r: bool)
    ensures
        r == (a@ == b@),
{
    let n = a.unicode_len();
    if n != b.unicode_len() {
        return false;
    }
    let mut i: usize = 0;
    while i < n
        invariant
            0 <= i <= n == a@.len(),
            a@.len() == b@.len(),
            forall|k: int| 0 <= k < i ==> a@[k] == b@[k],
        decreases n - i,
    {
        if a.get_char(i) != b.get_char(i) {
            return false;
        }
        i = i + 1;
    }
    proof {
        assert(a@ =~= b@);
    }
    true
}

fn is_space_char(c: char) -> (r: bool)
    ensures
        r == is_space(c),
{
    c == ' ' || c == '\t' || c == '\n' || c == '\u{000B}' || c == '\u{000C}' || c == '\r'
        || c == '\u{0085}' || c == '\u{00A0}' || c == '\u{1680}'
        || (c >= '\u{2000}' && c <= '\u{200A}') || c == '\u{2028}' || c == '\u{2029}'
        || c == '\u{202F}' || c == '\u{205F}' || c == '\u{3000}'
}

/// The error of `TrimmedNonEmptyText::try_new`: the input held nothing but
/// spaces.
#[derive(Clone, Copy, Debug, PartialEq, Eq, Structural)]
pub struct EmptyTextError;

/// A text that is non-empty and carries no leading or trailing spaces.
///
/// Usernames, group names and the like are validated into this form once,
/// at the edge, so that the operations behind never see blank input.
#[derive(Clone, Debug)]
pub struct TrimmedNonEmptyText {
    text: String,
}

impl View for TrimmedNonEmptyText {
    type V = Seq<char>;

    closed spec fn view(&self) -> Seq<char> {
        self.text@
    }
}

impl TrimmedNonEmptyText {
    /// Non-empty, and unchanged by trimming.
    pub open spec fn wf(&self) -> bool {
        self@.len() > 0 && self@ == trim_spec(self@)
    }

    /// Trims `s` and accepts the result exactly when something is left.
    pub fn try_new(s: &str) -> (r: Result<TrimmedNonEmptyText, EmptyTextError>)
        ensures
            r is Ok <==> trim_spec(s@).len() > 0,
            r matches Ok(t) ==> t@ == trim_spec(s@) && t.wf(),
    {
        let t = trimmed(s);
        if t.unicode_len() == 0 {
            Err(EmptyTextError)
        } else {
            proof {
                lemma_trim_spec_idempotent(s@);
            }
            Ok(TrimmedNonEmptyText { text: String::from_str(t) })
        }
    }

    /// The validated text.
    pub fn as_str(&self) -> (r: &str)
        ensures
            r@ == self@,
    {
        self.text.as_str()
    }
}

} // verus!

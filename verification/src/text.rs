//! Text-field editing and input hygiene for the interactive screens: a
//! character is appended or removed as the user types, and a submitted field
//! is trimmed of surrounding whitespace before it is sent.

use vstd::prelude::*;
use vstd::string::StrSliceExecFns;

verus! {

/// The whitespace characters trimmed from a submitted field, by code point:
/// the characters with the Unicode `White_Space` property.
pub open spec fn is_space_char(c: char) -> bool {
    ||| (9 <= c as int && c as int <= 13)
    ||| c as int == 32
    ||| c as int == 0x85
    ||| c as int == 0xA0
    ||| c as int == 0x1680
    ||| (0x2000 <= c as int && c as int <= 0x200A)
    ||| c as int == 0x2028
    ||| c as int == 0x2029
    ||| c as int == 0x202F
    ||| c as int == 0x205F
    ||| c as int == 0x3000
}

/// `s` without its leading whitespace.
pub open spec fn trim_start_spec(s: Seq<char>) -> Seq<char>
    decreases s.len(),
{
    if s.len() > 0 && is_space_char(s[0]) {
        trim_start_spec(s.drop_first())
    } else {
        s
    }
}

/// `s` without its trailing whitespace.
pub open spec fn trim_end_spec(s: Seq<char>) -> Seq<char>
    decreases s.len(),
{
    if s.len() > 0 && is_space_char(s.last()) {
        trim_end_spec(s.drop_last())
    } else {
        s
    }
}

/// `s` without leading and trailing whitespace.
pub open spec fn trim_spec(s: Seq<char>) -> Seq<char> {
    trim_end_spec(trim_start_spec(s))
}

pub fn char_is_space(c: char) -> (r: bool)
    ensures
        r == is_space_char(c),
{
    let u = c as u32;
    (9 <= u && u <= 13) || u == 32 || u == 0x85 || u == 0xA0 || u == 0x1680 || (0x2000 <= u
        && u <= 0x200A) || u == 0x2028 || u == 0x2029 || u == 0x202F || u == 0x205F || u == 0x3000
}

/// Trimming the front is taking the suffix from the first non-space index.
proof fn lemma_trim_start_at(s: Seq<char>, k: int)
    requires
        0 <= k <= s.len(),
        forall|j: int| 0 <= j < k ==> is_space_char(#[trigger] s[j]),
        k < s.len() ==> !is_space_char(s[k]),
    ensures
        trim_start_spec(s) == s.subrange(k, s.len() as int),
    decreases k,
{
    if k == 0 {
        assert(s.subrange(0, s.len() as int) =~= s);
    } else {
        let rest = s.drop_first();
        assert(forall|j: int| 0 <= j < k - 1 ==> is_space_char(#[trigger] rest[j]));
        lemma_trim_start_at(rest, k - 1);
        assert(rest.subrange(k - 1, rest.len() as int) =~= s.subrange(k, s.len() as int));
    }
}

/// Trimming the back is taking the prefix up to one past the last non-space
/// index.
proof fn lemma_trim_end_at(s: Seq<char>, h: int)
    requires
        0 <= h <= s.len(),
        forall|j: int| h <= j < s.len() ==> is_space_char(#[trigger] s[j]),
        h > 0 ==> !is_space_char(s[h - 1]),
    ensures
        trim_end_spec(s) == s.subrange(0, h),
    decreases s.len(),
{
    if h == s.len() {
        if s.len() > 0 && is_space_char(s.last()) {
            assert(false);
        } else {
            assert(s.subrange(0, s.len() as int) =~= s);
        }
    } else {
        let rest = s.drop_last();
        lemma_trim_end_at(rest, h);
        assert(rest.subrange(0, h) =~= s.subrange(0, h));
    }
}

/// The index of the first non-whitespace character, or the length when the
/// whole string is whitespace.
fn first_non_space(s: &str) -> (lo: usize)
    ensures
        0 <= lo <= s@.len(),
        forall|j: int| 0 <= j < lo ==> is_space_char(#[trigger] s@[j]),
        lo < s@.len() ==> !is_space_char(s@[lo as int]),
{
    let n = s.unicode_len();
    let mut i: usize = 0;
    while i < n
        invariant
            n == s@.len(),
            0 <= i <= n,
            forall|j: int| 0 <= j < i ==> is_space_char(#[trigger] s@[j]),
        decreases n - i,
    {
        if !char_is_space(s.get_char(i)) {
            return i;
        }
        i = i + 1;
    }
    n
}

/// One past the index of the last non-whitespace character at or after `lo`,
/// or `lo` when everything from `lo` on is whitespace.
fn last_non_space_end(s: &str, lo: usize) -> (hi: usize)
    requires
        lo <= s@.len(),
    ensures
        lo <= hi <= s@.len(),
        forall|j: int| hi <= j < s@.len() ==> is_space_char(#[trigger] s@[j]),
        hi > lo ==> !is_space_char(s@[hi - 1]),

{
    let n = s.unicode_len();
    let mut i: usize = n;
    while i > lo
        invariant
            n == s@.len(),
            lo <= i <= n,
            forall|j: int| i <= j < n ==> is_space_char(#[trigger] s@[j]),
        decreases i,
    {
        if !char_is_space(s.get_char(i - 1)) {
            return i;
        }
        i = i - 1;
    }
    lo
}

/// `s` without leading and trailing whitespace, as submitted fields are
/// normalized before a remote call.
pub fn trim_spaces(s: &str) -> (r: String)
    ensures
        r@ == trim_spec(s@),
{
    let n = s.unicode_len();
    let lo = first_non_space(s);
    proof {
        lemma_trim_start_at(s@, lo as int);
    }
    if lo == n {
        proof {
            assert(trim_start_spec(s@) =~= Seq::<char>::empty());
            assert(trim_spec(s@) =~= Seq::<char>::empty());
        }
        return String::new();
    }
    let hi = last_non_space_end(s, lo);
    proof {
        let t = s@.subrange(lo as int, n as int);
        assert(forall|j: int| hi - lo <= j < t.len() ==> is_space_char(#[trigger] t[j]));
        assert(hi > lo ==> t[hi - lo - 1] == s@[hi - 1]);
        assert(hi > lo);
        lemma_trim_end_at(t, hi - lo);
        assert(t.subrange(0, hi - lo) =~= s@.subrange(lo as int, hi as int));
    }
    let sub = s.substring_char(lo, hi);
    sub.to_owned()
}

/// What lowercasing a sequence of characters yields; the case-insensitive
/// command matching below compares against it.
pub uninterp spec fn lower_of(s: Seq<char>) -> Seq<char>;

/// Lowercase a string for case-insensitive matching.
///
/// Relies on `str::to_lowercase`: the result depends on the characters
/// alone, and an empty string stays empty.
#[verifier::external_body]
pub fn lowercase(s: &str) -> (r: String)
    ensures
        r@ == lower_of(s@),
        s@.len() == 0 ==> r@.len() == 0,
{
    s.to_lowercase()
}

/// Append one typed character to a field.
///
/// Relies on `String::push`: appends the given character to the end of the
/// string.
#[verifier::external_body]
pub fn push_char(s: &mut String, c: char)
    ensures
        final(s)@ == old(s)@.push(c),
{
    s.push(c);
}

/// Remove the last character of a field, as a backspace does.
///
/// Relies on `String::pop`: removes the last character from the string and
/// returns it, or returns `None` when the string is empty.
#[verifier::external_body]
pub fn pop_char(s: &mut String) -> (r: Option<char>)
    ensures
        old(s)@.len() == 0 ==> r is None && final(s)@ == old(s)@,
        old(s)@.len() > 0 ==> r == Some(old(s)@.last()) && final(s)@ == old(s)@.drop_last(),
{
    s.pop()
}

} // verus!

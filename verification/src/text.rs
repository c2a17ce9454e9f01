//! Plain text as sequences of characters: a string and its characters,
//! finding a pattern, and replacing every occurrence of it.

use vstd::prelude::*;
use vstd::string::StringExecFns;

verus! {

/// Whether `pattern` stands in `text` at position `at`.
pub open spec fn occurs_at(text: Seq<char>, at: int, pattern: Seq<char>) -> bool {
    &&& 0 <= at
    &&& at + pattern.len() <= text.len()
    &&& text.subrange(at, at + pattern.len()) == pattern
}

/// Whether `pattern` stands anywhere in `text`.
pub open spec fn occurs(text: Seq<char>, pattern: Seq<char>) -> bool {
    exists|at: int| occurs_at(text, at, pattern)
}

/// `text` with every occurrence of `pattern` replaced by `with`.
///
/// The text is read from the left. Where the pattern stands, `with` is put in
/// its place and reading goes on behind the occurrence: occurrences do not
/// overlap, and what was put in is never read again. With an empty pattern
/// the text is left as it is.
pub open spec fn replace_all(text: Seq<char>, pattern: Seq<char>, with: Seq<char>) -> Seq<char>
    decreases text.len(),
{
    if text.len() == 0 || pattern.len() == 0 {
        text
    } else if occurs_at(text, 0, pattern) {
        with + replace_all(text.skip(pattern.len() as int), pattern, with)
    } else {
        seq![text[0]] + replace_all(text.skip(1), pattern, with)
    }
}

/// A text in which the pattern does not occur is left as it is.
pub proof fn lemma_replace_all_without_occurrence(
    text: Seq<char>,
    pattern: Seq<char>,
    with: Seq<char>,
)
    requires
        !occurs(text, pattern),
    ensures
        replace_all(text, pattern, with) == text,
    decreases text.len(),
{
    if text.len() > 0 && pattern.len() > 0 {
        let rest = text.skip(1);
        assert forall|at: int| !occurs_at(rest, at, pattern) by {
            if occurs_at(rest, at, pattern) {
                assert(rest.subrange(at, at + pattern.len()) == text.subrange(
                    at + 1,
                    at + 1 + pattern.len(),
                ));
                assert(occurs_at(text, at + 1, pattern));
            }
        }
        lemma_replace_all_without_occurrence(rest, pattern, with);
    }
}

/// What the replacement does up to the first occurrence: the text before it
/// is kept, `with` takes the place of the occurrence, and the replacement
/// goes on in what stood behind the occurrence.
pub proof fn lemma_replace_all_first_occurrence(
    text: Seq<char>,
    pattern: Seq<char>,
    with: Seq<char>,
    at: int,
)
    requires
        pattern.len() > 0,
        occurs_at(text, at, pattern),
        forall|earlier: int| 0 <= earlier < at ==> !occurs_at(text, earlier, pattern),
    ensures
        replace_all(text, pattern, with) == text.take(at) + with + replace_all(
            text.skip(at + pattern.len()),
            pattern,
            with,
        ),
    decreases at,
{
    if at > 0 {
        let rest = text.skip(1);
        assert(rest.subrange(at - 1, at - 1 + pattern.len()) == text.subrange(
            at,
            at + pattern.len(),
        ));
        assert forall|earlier: int| 0 <= earlier < at - 1 implies !occurs_at(
            rest,
            earlier,
            pattern,
        ) by {
            if occurs_at(rest, earlier, pattern) {
                assert(rest.subrange(earlier, earlier + pattern.len()) == text.subrange(
                    earlier + 1,
                    earlier + 1 + pattern.len(),
                ));
                assert(occurs_at(text, earlier + 1, pattern));
            }
        }
        lemma_replace_all_first_occurrence(rest, pattern, with, at - 1);
        assert(rest.skip(at - 1 + pattern.len()) == text.skip(at + pattern.len()));
        assert(seq![text[0]] + (rest.take(at - 1) + with + replace_all(
            text.skip(at + pattern.len()),
            pattern,
            with,
        )) == text.take(at) + with + replace_all(text.skip(at + pattern.len()), pattern, with));
    }
}

/// What was put in is not read again: a text that is one occurrence becomes
/// `with`, also where `with` holds the pattern.
pub proof fn lemma_replace_all_does_not_read_what_it_put_in(pattern: Seq<char>, with: Seq<char>)
    requires
        pattern.len() > 0,
    ensures
        replace_all(pattern, pattern, with) == with,
{
    assert(pattern.subrange(0, pattern.len() as int) == pattern);
    assert(pattern.skip(pattern.len() as int) == Seq::<char>::empty());
    assert(replace_all(Seq::<char>::empty(), pattern, with) == Seq::<char>::empty());
}

/// The characters of `s`, in order.
pub fn chars_of(s: &str) -> (v: Vec<char>)
    ensures
        v@ == s@,
{
    let mut v: Vec<char> = Vec::new();
    for c in it: s.chars()
        invariant
            it.seq() == s@,
            v@ == s@.take(it.index()),
    {
        v.push(c);
    }
    v
}

/// Whether two texts are the same.
pub fn same_text(a: &str, b: &str) -> (same: bool)
    ensures
        same == (a@ == b@),
{
    let left = String::from_str(a);
    let right = String::from_str(b);
    left == right
}

/// Whether `pattern` stands in `text` at position `at`.
pub fn stands_at(text: &Vec<char>, at: usize, pattern: &Vec<char>) -> (found: bool)
    ensures
        found == occurs_at(text@, at as int, pattern@),
{
    let n: usize = text.len();
    let m: usize = pattern.len();
    if at > n || m > n - at {
        return false;
    }
    let mut k: usize = 0;
    while k < m
        invariant
            k <= m,
            m == pattern@.len(),
            n == text@.len(),
            at + m <= n,
            forall|j: int| 0 <= j < k ==> text@[at + j] == pattern@[j],
        decreases m - k,
    {
        if text[at + k] != pattern[k] {
            return false;
        }
        k = k + 1;
    }
    assert(text@.subrange(at as int, at + m) =~= pattern@);
    true
}

/// Appends a character to a string.
///
/// Trusted: the body is `String::push` of std, which appends the character
/// to the end of the string.
#[verifier::external_body]
fn push_char(s: &mut String, c: char)
    ensures
        final(s)@ == old(s)@.push(c),
{
    s.push(c);
}

/// The string of the characters of `chars`, in order.
pub fn text_of(chars: &Vec<char>) -> (s: String)
    ensures
        s@ == chars@,
{
    let mut s = String::new();
    let mut i: usize = 0;
    while i < chars.len()
        invariant
            i <= chars.len(),
            s@ == chars@.take(i as int),
        decreases chars.len() - i,
    {
        push_char(&mut s, chars[i]);
        i = i + 1;
    }
    s
}

/// `text` with every occurrence of `pattern` replaced by `with`.
pub fn replace(text: &Vec<char>, pattern: &Vec<char>, with: &Vec<char>) -> (out: Vec<char>)
    ensures
        out@ == replace_all(text@, pattern@, with@),
{
    let n: usize = text.len();
    let m: usize = pattern.len();
    let mut out: Vec<char> = Vec::new();
    let mut at: usize = 0;
    assert(text@.skip(0) == text@);
    while at < n
        invariant
            at <= n,
            n == text@.len(),
            m == pattern@.len(),
            out@ + replace_all(text@.skip(at as int), pattern@, with@) == replace_all(
                text@,
                pattern@,
                with@,
            ),
        decreases n - at,
    {
        let ghost rest = text@.skip(at as int);
        assert(occurs_at(rest, 0, pattern@) == occurs_at(text@, at as int, pattern@)) by {
            if at + m <= n {
                assert(rest.subrange(0, m as int) == text@.subrange(at as int, at + m));
            }
        }
        if m > 0 && stands_at(text, at, pattern) {
            assert(rest.skip(m as int) == text@.skip(at + m));
            let ghost before = out@;
            let mut k: usize = 0;
            while k < with.len()
                invariant
                    k <= with.len(),
                    out@ == before + with@.take(k as int),
                decreases with.len() - k,
            {
                out.push(with[k]);
                k = k + 1;
            }
            at = at + m;
        } else {
            assert(rest.skip(1) == text@.skip(at + 1));
            out.push(text[at]);
            at = at + 1;
        }
    }
    out
}

} // verus!

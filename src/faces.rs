//! Line checks over the raw text of a Wavefront `.obj` file, made before
//! the text goes to the `.obj` reader.
//!
//! Only triangles are accepted by the viewer, but the reader fans polygons
//! into triangles on its own, so a face or line statement that lists more
//! than three vertex references has to be caught on the text. Negative
//! (relative) indices are accepted, but not one written in a word of
//! `LONG_WORD` bytes or more: the reader adds the vertex count to such an
//! index in `isize`, which a number of 19 digits or more can overflow. A
//! shorter word holds at most 18 digits.
//!
//! Lines are separated by `\n`; inside a line, words are separated by
//! spaces, tabs and carriage returns, and a `#` starts a comment that runs
//! to the end of the line. A face or line statement is a line whose first
//! word is `f` or `l`.

use vstd::prelude::*;

verus! {

/// A byte that separates words inside a line: space, tab or carriage return.
pub open spec fn is_blank(b: u8) -> bool {
    b == 32u8 || b == 9u8 || b == 13u8
}

/// Index of the first `#` in `s[i..hi)`, or `hi` where there is none.
pub open spec fn comment_start(s: Seq<u8>, i: int, hi: int) -> int
    decreases hi - i,
{
    if i >= hi {
        hi
    } else if s[i] == 35u8 {
        i
    } else {
        comment_start(s, i + 1, hi)
    }
}

/// Index of the first non-blank byte in `s[i..hi)`, or `hi` where there is none.
pub open spec fn first_nonblank(s: Seq<u8>, i: int, hi: int) -> int
    decreases hi - i,
{
    if i >= hi {
        hi
    } else if !is_blank(s[i]) {
        i
    } else {
        first_nonblank(s, i + 1, hi)
    }
}

/// Whether a word of the span that starts at `lo` begins at index `i`.
pub open spec fn starts_word(s: Seq<u8>, lo: int, i: int) -> bool {
    !is_blank(s[i]) && (i == lo || is_blank(s[i - 1]))
}

/// Number of words of the span `s[lo..hi)` that begin in `s[i..hi)`.
pub open spec fn words_from(s: Seq<u8>, lo: int, i: int, hi: int) -> nat
    decreases hi - i,
{
    if i >= hi {
        0
    } else {
        (if starts_word(s, lo, i) { 1nat } else { 0nat }) + words_from(s, lo, i + 1, hi)
    }
}

/// Whether the first word of `s[lo..hi)` is exactly `f` or `l`.
pub open spec fn is_statement(s: Seq<u8>, lo: int, hi: int) -> bool {
    let k = first_nonblank(s, lo, hi);
    k < hi && (s[k] == 102u8 || s[k] == 108u8) && (k + 1 == hi || is_blank(s[k + 1]))
}

/// Whether the line `s[lo..hi)` is a face or line statement with more than
/// three vertex references, that is more than four words before its comment.
pub open spec fn oversized_face(s: Seq<u8>, lo: int, hi: int) -> bool {
    let c = comment_start(s, lo, hi);
    is_statement(s, lo, c) && words_from(s, lo, lo, c) > 4
}

/// The length, in bytes, from which a word holding a minus sign is refused.
pub const LONG_WORD: usize = 20;

/// Index of the first blank byte in `s[i..hi)`, or `hi` where there is none:
/// the end of a word that starts at `i`.
pub open spec fn word_end(s: Seq<u8>, i: int, hi: int) -> int
    decreases hi - i,
{
    if i >= hi {
        hi
    } else if is_blank(s[i]) {
        i
    } else {
        word_end(s, i + 1, hi)
    }
}

/// Whether the word of `s[..hi)` that starts at `a` is `LONG_WORD` bytes or
/// longer and holds a minus sign.
pub open spec fn long_minus_word(s: Seq<u8>, a: int, hi: int) -> bool {
    let e = word_end(s, a, hi);
    e - a >= LONG_WORD && exists|j: int| a <= j < e && s[j] == 45u8
}

/// Whether the line `s[lo..hi)` is a face or line statement with a word,
/// before its comment, that holds a minus sign and is `LONG_WORD` bytes or
/// longer: a negative index too long for the reader.
pub open spec fn long_negative_index(s: Seq<u8>, lo: int, hi: int) -> bool {
    let c = comment_start(s, lo, hi);
    is_statement(s, lo, c) && exists|a: int|
        lo <= a < c && #[trigger] starts_word(s, lo, a) && long_minus_word(s, a, c)
}

/// A rule that a line of the text can break.
#[derive(Clone, Copy, Debug, PartialEq, Eq, Structural)]
pub enum LineRule {
    /// A statement lists more than three vertex references.
    TooManyReferences,
    /// A statement holds a negative index in a word that is too long.
    LongNegativeIndex,
}

/// Whether the line `s[lo..hi)` breaks `rule`.
pub open spec fn breaks(rule: LineRule, s: Seq<u8>, lo: int, hi: int) -> bool {
    match rule {
        LineRule::TooManyReferences => oversized_face(s, lo, hi),
        LineRule::LongNegativeIndex => long_negative_index(s, lo, hi),
    }
}

/// Scanning `s` from index `i`, inside the line that began at `lo` and has
/// number `line`: the number of the first line that breaks `rule`, if any.
pub open spec fn first_breaking_from(rule: LineRule, s: Seq<u8>, lo: int, i: int, line: nat) -> Option<nat>
    decreases s.len() - i,
{
    if i >= s.len() {
        if breaks(rule, s, lo, s.len() as int) {
            Some(line)
        } else {
            None
        }
    } else if s[i] == 10u8 {
        if breaks(rule, s, lo, i) {
            Some(line)
        } else {
            first_breaking_from(rule, s, i + 1, i + 1, line + 1)
        }
    } else {
        first_breaking_from(rule, s, lo, i + 1, line)
    }
}

/// The number (counting from 1) of the first line of `s` that breaks `rule`.
pub open spec fn first_breaking(rule: LineRule, s: Seq<u8>) -> Option<nat> {
    first_breaking_from(rule, s, 0, 0, 1)
}

/// The number of the first face or line statement of `s` that lists more
/// than three vertex references, if there is one.
pub open spec fn first_oversized_face(s: Seq<u8>) -> Option<nat> {
    first_breaking(LineRule::TooManyReferences, s)
}

/// The number of the first face or line statement of `s` that holds a
/// negative index in a word of `LONG_WORD` bytes or more, if there is one.
pub open spec fn first_long_negative_index(s: Seq<u8>) -> Option<nat> {
    first_breaking(LineRule::LongNegativeIndex, s)
}

fn find_comment(text: &[u8], lo: usize, hi: usize) -> (k: usize)
    requires
        lo <= hi <= text@.len(),
    ensures
        k == comment_start(text@, lo as int, hi as int),
        lo <= k <= hi,
{
    let mut i: usize = lo;
    while i < hi
        invariant
            lo <= i <= hi <= text@.len(),
            comment_start(text@, lo as int, hi as int) == comment_start(text@, i as int, hi as int),
        decreases hi - i,
    {
        if text[i] == 35u8 {
            return i;
        }
        i = i + 1;
    }
    i
}

fn skip_blanks(text: &[u8], lo: usize, hi: usize) -> (k: usize)
    requires
        lo <= hi <= text@.len(),
    ensures
        k == first_nonblank(text@, lo as int, hi as int),
        lo <= k <= hi,
{
    let mut i: usize = lo;
    while i < hi
        invariant
            lo <= i <= hi <= text@.len(),
            first_nonblank(text@, lo as int, hi as int) == first_nonblank(text@, i as int, hi as int),
        decreases hi - i,
    {
        let b = text[i];
        if !(b == 32u8 || b == 9u8 || b == 13u8) {
            return i;
        }
        i = i + 1;
    }
    i
}

fn count_words(text: &[u8], lo: usize, hi: usize) -> (n: usize)
    requires
        lo <= hi <= text@.len(),
    ensures
        n == words_from(text@, lo as int, lo as int, hi as int),
{
    let mut i: usize = lo;
    let mut n: usize = 0;
    while i < hi
        invariant
            lo <= i <= hi <= text@.len(),
            n <= i - lo,
            n + words_from(text@, lo as int, i as int, hi as int) == words_from(
                text@,
                lo as int,
                lo as int,
                hi as int,
            ),
        decreases hi - i,
    {
        let b = text[i];
        let blank = b == 32u8 || b == 9u8 || b == 13u8;
        if !blank && (i == lo || {
            let p = text[i - 1];
            p == 32u8 || p == 9u8 || p == 13u8
        }) {
            n = n + 1;
        }
        i = i + 1;
    }
    n
}

fn has_minus(text: &[u8], lo: usize, hi: usize) -> (r: bool)
    requires
        lo <= hi <= text@.len(),
    ensures
        r == exists|j: int| lo <= j < hi && text@[j] == 45u8,
{
    let mut i: usize = lo;
    while i < hi
        invariant
            lo <= i <= hi <= text@.len(),
            forall|j: int| lo <= j < i ==> text@[j] != 45u8,
        decreases hi - i,
    {
        if text[i] == 45u8 {
            return true;
        }
        i = i + 1;
    }
    false
}

fn statement_in(text: &[u8], lo: usize, c: usize) -> (r: bool)
    requires
        lo <= c <= text@.len(),
    ensures
        r == is_statement(text@, lo as int, c as int),
        r ==> lo < c,
{
    let k = skip_blanks(text, lo, c);
    k < c && (text[k] == 102u8 || text[k] == 108u8) && (k + 1 == c || {
        let b = text[k + 1];
        b == 32u8 || b == 9u8 || b == 13u8
    })
}

/// Whether the line `text[lo..hi)` is a face or line statement with more
/// than three vertex references.
pub fn is_oversized_face(text: &[u8], lo: usize, hi: usize) -> (r: bool)
    requires
        lo <= hi <= text@.len(),
    ensures
        r == oversized_face(text@, lo as int, hi as int),
        r ==> lo < hi,
{
    let c = find_comment(text, lo, hi);
    statement_in(text, lo, c) && count_words(text, lo, c) > 4
}

fn find_word_end(text: &[u8], a: usize, hi: usize) -> (e: usize)
    requires
        a <= hi <= text@.len(),
    ensures
        e == word_end(text@, a as int, hi as int),
        a <= e <= hi,
        forall|k: int| a <= k < e ==> !is_blank(text@[k]),
{
    let mut i: usize = a;
    while i < hi
        invariant
            a <= i <= hi <= text@.len(),
            word_end(text@, a as int, hi as int) == word_end(text@, i as int, hi as int),
            forall|k: int| a <= k < i ==> !is_blank(text@[k]),
        decreases hi - i,
    {
        let b = text[i];
        if b == 32u8 || b == 9u8 || b == 13u8 {
            return i;
        }
        i = i + 1;
    }
    i
}

fn has_long_minus_word(text: &[u8], lo: usize, c: usize) -> (r: bool)
    requires
        lo <= c <= text@.len(),
    ensures
        r == exists|a: int|
            lo <= a < c && #[trigger] starts_word(text@, lo as int, a) && long_minus_word(
                text@,
                a,
                c as int,
            ),
{
    let mut i: usize = lo;
    while i < c
        invariant
            lo <= i <= c <= text@.len(),
            forall|a: int|
                lo <= a < i && #[trigger] starts_word(text@, lo as int, a) ==> !long_minus_word(
                    text@,
                    a,
                    c as int,
                ),
        decreases c - i,
    {
        let b = text[i];
        let blank = b == 32u8 || b == 9u8 || b == 13u8;
        if !blank && (i == lo || {
            let p = text[i - 1];
            p == 32u8 || p == 9u8 || p == 13u8
        }) {
            assert(starts_word(text@, lo as int, i as int));
            let e = find_word_end(text, i, c);
            if e - i >= LONG_WORD && has_minus(text, i, e) {
                return true;
            }
            let next = if e > i { e } else { i + 1 };
            assert forall|a: int|
                lo <= a < next && #[trigger] starts_word(text@, lo as int, a) implies !long_minus_word(
                text@,
                a,
                c as int,
            ) by {
                if i < a {
                    assert(!is_blank(text@[a - 1]));
                }
            }
            i = next;
        } else {
            assert(!starts_word(text@, lo as int, i as int));
            i = i + 1;
        }
    }
    false
}

/// Whether the line `text[lo..hi)` is a face or line statement with a
/// negative index written in a word of `LONG_WORD` bytes or more.
pub fn has_long_negative_index(text: &[u8], lo: usize, hi: usize) -> (r: bool)
    requires
        lo <= hi <= text@.len(),
    ensures
        r == long_negative_index(text@, lo as int, hi as int),
        r ==> lo < hi,
{
    let c = find_comment(text, lo, hi);
    statement_in(text, lo, c) && has_long_minus_word(text, lo, c)
}

fn line_breaks(rule: LineRule, text: &[u8], lo: usize, hi: usize) -> (r: bool)
    requires
        lo <= hi <= text@.len(),
    ensures
        r == breaks(rule, text@, lo as int, hi as int),
        r ==> lo < hi,
{
    match rule {
        LineRule::TooManyReferences => is_oversized_face(text, lo, hi),
        LineRule::LongNegativeIndex => has_long_negative_index(text, lo, hi),
    }
}

/// The number (counting from 1) of the first line of `text` that breaks
/// `rule`, if there is one.
pub fn find_breaking_line(rule: LineRule, text: &[u8]) -> (r: Option<usize>)
    ensures
        r matches Some(line) ==> first_breaking(rule, text@) == Some(line as nat),
        r is None ==> first_breaking(rule, text@) is None,
{
    let mut lo: usize = 0;
    let mut i: usize = 0;
    // newlines before `lo`: the current line's number less one
    let mut newlines: usize = 0;
    while i < text.len()
        invariant
            newlines <= lo <= i <= text@.len(),
            first_breaking(rule, text@) == first_breaking_from(
                rule,
                text@,
                lo as int,
                i as int,
                newlines as nat + 1,
            ),
        decreases text@.len() - i,
    {
        if text[i] == 10u8 {
            if line_breaks(rule, text, lo, i) {
                return Some(newlines + 1);
            }
            lo = i + 1;
            newlines = newlines + 1;
        }
        i = i + 1;
    }
    if line_breaks(rule, text, lo, i) {
        Some(newlines + 1)
    } else {
        None
    }
}

/// The number (counting from 1) of the first face or line statement of
/// `text` that lists more than three vertex references, if there is one.
pub fn find_oversized_face(text: &[u8]) -> (r: Option<usize>)
    ensures
        r matches Some(line) ==> first_oversized_face(text@) == Some(line as nat),
        r is None ==> first_oversized_face(text@) is None,
{
    find_breaking_line(LineRule::TooManyReferences, text)
}

/// The number (counting from 1) of the first face or line statement of
/// `text` that holds a negative index in a word of `LONG_WORD` bytes or more,
/// if there is one.
pub fn find_long_negative_index(text: &[u8]) -> (r: Option<usize>)
    ensures
        r matches Some(line) ==> first_long_negative_index(text@) == Some(line as nat),
        r is None ==> first_long_negative_index(text@) is None,
{
    find_breaking_line(LineRule::LongNegativeIndex, text)
}

proof fn lemma_found_within_line(rule: LineRule, s: Seq<u8>, lo: int, i: int, hi: int, line: nat)
    requires
        0 <= lo <= i <= hi <= s.len(),
        hi == s.len() || s[hi] == 10u8,
        forall|j: int| lo <= j < hi ==> s[j] != 10u8,
        breaks(rule, s, lo, hi),
    ensures
        first_breaking_from(rule, s, lo, i, line) is Some,
    decreases hi - i,
{
    if i < hi {
        lemma_found_within_line(rule, s, lo, i + 1, hi, line);
    }
}

proof fn lemma_found_from(rule: LineRule, s: Seq<u8>, cur: int, i: int, lo: int, hi: int, line: nat)
    requires
        0 <= cur <= i <= lo <= hi <= s.len(),
        i == lo ==> cur == lo,
        lo == 0 || s[lo - 1] == 10u8,
        hi == s.len() || s[hi] == 10u8,
        forall|j: int| lo <= j < hi ==> s[j] != 10u8,
        breaks(rule, s, lo, hi),
    ensures
        first_breaking_from(rule, s, cur, i, line) is Some,
    decreases lo - i,
{
    if i == lo {
        lemma_found_within_line(rule, s, lo, i, hi, line);
    } else if s[i] == 10u8 {
        if !breaks(rule, s, cur, i) {
            lemma_found_from(rule, s, i + 1, i + 1, lo, hi, line + 1);
        }
    } else {
        lemma_found_from(rule, s, cur, i + 1, lo, hi, line);
    }
}

/// Any face or line statement that lists four or more vertex references is
/// found by the check, so loading a text that holds one is refused.
pub proof fn lemma_oversized_face_is_found(s: Seq<u8>, lo: int, hi: int)
    requires
        0 <= lo <= hi <= s.len(),
        lo == 0 || s[lo - 1] == 10u8,
        hi == s.len() || s[hi] == 10u8,
        forall|j: int| lo <= j < hi ==> s[j] != 10u8,
        oversized_face(s, lo, hi),
    ensures
        first_oversized_face(s) is Some,
{
    lemma_found_from(LineRule::TooManyReferences, s, 0, 0, lo, hi, 1);
}

} // verus!

//! The mathematical model of lines in a text.
//!
//! A text is a sequence of chars. The line breaks are LF, VT, FF, CR, NEL,
//! LINE SEPARATOR and PARAGRAPH SEPARATOR, and the pair CR LF counts as one
//! break. A break belongs to the line that it ends; a new line starts at the
//! start of the text and right after each break.
use vstd::prelude::*;

verus! {

/// A char that is a line break on its own (or the first half of CR LF).
pub open spec fn is_line_break_char(c: char) -> bool {
    c == '\n' || c == '\u{b}' || c == '\u{c}' || c == '\r' || c == '\u{85}' || c == '\u{2028}'
        || c == '\u{2029}'
}

/// Index `j` of `s` holds the last char of a line break.
pub open spec fn ends_line_break(s: Seq<char>, j: int) -> bool {
    &&& 0 <= j < s.len()
    &&& is_line_break_char(s[j])
    &&& !(s[j] == '\r' && j + 1 < s.len() && s[j + 1] == '\n')
}

/// The number of line breaks that end strictly before index `i`: the index of
/// the line that holds char index `i`.
pub open spec fn breaks_before(s: Seq<char>, i: int) -> nat
    decreases i,
{
    if i <= 0 {
        0
    } else {
        breaks_before(s, i - 1) + if ends_line_break(s, i - 1) {
            1nat
        } else {
            0nat
        }
    }
}

/// The number of lines of `s`: one more than the number of its breaks.
pub open spec fn line_count(s: Seq<char>) -> nat {
    breaks_before(s, s.len() as int) + 1
}

/// Index `r` (which may be one past the end) is where a line of `s` starts.
pub open spec fn is_line_start(s: Seq<char>, r: int) -> bool {
    r == 0 || (0 < r <= s.len() && ends_line_break(s, r - 1))
}

/// The char index where line `l` starts; `s.len()` for `l == line_count(s)`.
pub open spec fn line_start(s: Seq<char>, l: int) -> int {
    if 0 <= l < line_count(s) {
        choose|r: int| 0 <= r <= s.len() && is_line_start(s, r) && breaks_before(s, r) == l
    } else {
        s.len() as int
    }
}

/// The chars of line `l`, its line break included.
pub open spec fn line_chars(s: Seq<char>, l: int) -> Seq<char> {
    s.subrange(line_start(s, l), line_start(s, l + 1))
}

/// The number of chars of a line without a final LF.
pub open spec fn len_without_lf(line: Seq<char>) -> nat {
    if line.len() > 0 && line.last() == '\n' {
        (line.len() - 1) as nat
    } else {
        line.len()
    }
}

/// A line whose break is neither LF nor CR LF (a lone CR, VT, FF, NEL, LS or PS).
pub open spec fn ends_with_other_break(line: Seq<char>) -> bool {
    line.len() > 0 && is_line_break_char(line.last()) && line.last() != '\n'
}

pub proof fn lemma_breaks_before_monotonic(s: Seq<char>, i: int, j: int)
    requires
        i <= j,
    ensures
        breaks_before(s, i) <= breaks_before(s, j),
    decreases j - i,
{
    if i < j {
        lemma_breaks_before_monotonic(s, i, j - 1);
    }
}

/// Between two line starts lie as many breaks as lines.
pub proof fn lemma_line_starts_strictly_ordered(s: Seq<char>, r1: int, r2: int)
    requires
        0 <= r1 < r2,
        is_line_start(s, r2),
    ensures
        breaks_before(s, r1) < breaks_before(s, r2),
{
    lemma_breaks_before_monotonic(s, r1, r2 - 1);
    assert(breaks_before(s, r2) == breaks_before(s, r2 - 1) + 1);
}

proof fn lemma_line_start_exists_up_to(s: Seq<char>, n: int, l: int)
    requires
        0 <= n <= s.len(),
        0 <= l <= breaks_before(s, n),
    ensures
        exists|r: int| 0 <= r <= n && is_line_start(s, r) && breaks_before(s, r) == l,
    decreases n,
{
    if n == 0 {
        assert(is_line_start(s, 0) && breaks_before(s, 0) == l);
    } else if l <= breaks_before(s, n - 1) {
        lemma_line_start_exists_up_to(s, n - 1, l);
        let r = choose|r: int| 0 <= r <= n - 1 && is_line_start(s, r) && breaks_before(s, r) == l;
        assert(0 <= r <= n && is_line_start(s, r) && breaks_before(s, r) == l);
    } else {
        assert(is_line_start(s, n) && breaks_before(s, n) == l);
    }
}

/// What `line_start` gives for a line that exists: the unique line start that
/// has exactly `l` breaks before it.
pub proof fn lemma_line_start(s: Seq<char>, l: int)
    requires
        0 <= l < line_count(s),
    ensures
        0 <= line_start(s, l) <= s.len(),
        is_line_start(s, line_start(s, l)),
        breaks_before(s, line_start(s, l)) == l,
        forall|r: int|
            0 <= r <= s.len() && is_line_start(s, r) && breaks_before(s, r) == l ==> r
                == line_start(s, l),
{
    lemma_line_start_exists_up_to(s, s.len() as int, l);
    let r0 = line_start(s, l);
    assert forall|r: int|
        0 <= r <= s.len() && is_line_start(s, r) && breaks_before(s, r) == l implies r == r0 by {
        if r < r0 {
            lemma_line_starts_strictly_ordered(s, r, r0);
        } else if r0 < r {
            lemma_line_starts_strictly_ordered(s, r0, r);
        }
    }
}

/// Any line start is the start of the line whose index is its break count.
pub proof fn lemma_is_line_start_is_line_start_of(s: Seq<char>, r: int)
    requires
        0 <= r <= s.len(),
        is_line_start(s, r),
    ensures
        breaks_before(s, r) < line_count(s),
        line_start(s, breaks_before(s, r) as int) == r,
{
    lemma_breaks_before_monotonic(s, r, s.len() as int);
    lemma_line_start(s, breaks_before(s, r) as int);
}

/// The chars from the start of line `l` up to (but not including) its last
/// char all lie on line `l`; so does the end of the last line.
pub proof fn lemma_positions_on_line(s: Seq<char>, l: int, p: int)
    requires
        0 <= l < line_count(s),
        line_start(s, l) <= p,
        p < line_start(s, l + 1) || (l + 1 == line_count(s) && p <= s.len()),
    ensures
        breaks_before(s, p) == l,
{
    lemma_line_start(s, l);
    lemma_breaks_before_monotonic(s, line_start(s, l), p);
    if l + 1 < line_count(s) {
        lemma_line_start(s, l + 1);
        let n = line_start(s, l + 1);
        lemma_breaks_before_monotonic(s, p, n - 1);
    } else {
        lemma_breaks_before_monotonic(s, p, s.len() as int);
    }
}

/// Line starts grow with the line index; line `l` ends where line `l + 1` starts.
pub proof fn lemma_line_start_ordered(s: Seq<char>, l: int)
    requires
        0 <= l < line_count(s),
    ensures
        line_start(s, l) <= line_start(s, l + 1) <= s.len(),
        l + 1 < line_count(s) ==> line_start(s, l) < line_start(s, l + 1),
{
    lemma_line_start(s, l);
    if l + 1 < line_count(s) {
        lemma_line_start(s, l + 1);
        if line_start(s, l + 1) <= line_start(s, l) {
            lemma_breaks_before_monotonic(s, line_start(s, l + 1), line_start(s, l));
        }
    }
}

/// The line that holds index `i` starts at or before `i`.
pub proof fn lemma_line_of_index(s: Seq<char>, i: int)
    requires
        0 <= i <= s.len(),
    ensures
        breaks_before(s, i) < line_count(s),
        line_start(s, breaks_before(s, i) as int) <= i,
        i < line_start(s, breaks_before(s, i) + 1int) || (breaks_before(s, i) + 1 == line_count(s)),
{
    let l = breaks_before(s, i) as int;
    lemma_breaks_before_monotonic(s, i, s.len() as int);
    lemma_line_start(s, l);
    if line_start(s, l) > i {
        lemma_line_starts_strictly_ordered(s, i, line_start(s, l));
    }
    if l + 1 < line_count(s) {
        lemma_line_start(s, l + 1);
        if line_start(s, l + 1) <= i {
            lemma_breaks_before_monotonic(s, line_start(s, l + 1), i);
        }
    }
}


/// Which chars break lines: after LF, VT, FF, NEL, LINE SEPARATOR, PARAGRAPH
/// SEPARATOR, and a CR not followed by LF, a new line starts; after a CR
/// followed by LF (the LF ends that break) and after any other char, none
/// does.
pub proof fn law_line_breaks(s: Seq<char>, j: int)
    requires
        0 <= j < s.len(),
    ensures
        s[j] == '\n' || s[j] == '\u{b}' || s[j] == '\u{c}' || s[j] == '\u{85}' || s[j]
            == '\u{2028}' || s[j] == '\u{2029}' ==> is_line_start(s, j + 1),
        s[j] == '\r' && !(j + 1 < s.len() && s[j + 1] == '\n') ==> is_line_start(s, j + 1),
        s[j] == '\r' && j + 1 < s.len() && s[j + 1] == '\n' ==> !is_line_start(s, j + 1),
        !(s[j] == '\n' || s[j] == '\u{b}' || s[j] == '\u{c}' || s[j] == '\r' || s[j] == '\u{85}'
            || s[j] == '\u{2028}' || s[j] == '\u{2029}') ==> !is_line_start(s, j + 1),
        line_count(s) == breaks_before(s, s.len() as int) + 1,
{
}

} // verus!

//! What holds of every line that is split.

use crate::splitted::args_of;
use crate::splitted::args_upto;
use crate::splitted::is_sep;
use crate::splitted::is_whitespace;
use crate::splitted::kept;
use crate::splitted::open_at;
use crate::splitted::split;
use crate::splitted::split_upto;
use crate::splitted::trim;
use crate::splitted::trim_end;
use crate::splitted::trim_start;
use vstd::prelude::*;

verus! {

/// Where the run of like characters begins that ends in front of index `n`:
/// the characters from there to `n` are all separators, or none of them is.
pub open spec fn run_start(line: Seq<char>, n: int) -> int
    decreases n,
{
    if n <= 1 {
        0
    } else if is_sep(line, n - 1) == is_sep(line, n - 2) {
        run_start(line, n - 1)
    } else {
        n - 1
    }
}

/// Whether `c` is a quote or a backslash.
pub open spec fn is_special(c: char) -> bool {
    c == '\'' || c == '"' || c == '\\'
}

/// Whether `line` holds neither quote nor backslash.
pub open spec fn is_plain(line: Seq<char>) -> bool {
    forall|i: int| 0 <= i < line.len() ==> !is_special(#[trigger] line[i])
}

/// The words of the first `n` characters of `line`, split at whitespace:
/// the maximal runs of characters that are not whitespace, in order.
pub open spec fn words_upto(line: Seq<char>, n: int) -> Seq<Seq<char>>
    decreases n,
{
    if n <= 0 {
        Seq::empty()
    } else {
        let before = words_upto(line, n - 1);
        if is_whitespace(line[n - 1]) {
            before
        } else if n >= 2 && !is_whitespace(line[n - 2]) {
            before.drop_last().push(before.last().push(line[n - 1]))
        } else {
            before.push(seq![line[n - 1]])
        }
    }
}

/// The words of `line`, split at whitespace.
pub open spec fn words(line: Seq<char>) -> Seq<Seq<char>> {
    words_upto(line, line.len() as int)
}

/// The last slice of a prefix is the run that ends there, and the slices
/// before it are the slices of what stands before that run.
pub proof fn lemma_split_last(line: Seq<char>, n: int)
    requires
        1 <= n <= line.len(),
    ensures
        0 <= run_start(line, n) < n,
        split_upto(line, n).len() >= 1,
        split_upto(line, n).last() == line.subrange(run_start(line, n), n),
        split_upto(line, n).drop_last() == split_upto(line, run_start(line, n)),
        forall|i: int|
            run_start(line, n) <= i < n ==> #[trigger] is_sep(line, i) == is_sep(line, n - 1),
        run_start(line, n) > 0 ==> is_sep(line, run_start(line, n) - 1) != is_sep(
            line,
            run_start(line, n),
        ),
    decreases n,
{
    if n > 1 {
        lemma_split_last(line, n - 1);
    }
}

/// The slices of a prefix, one after the other, make up the prefix, and
/// none of them is empty.
pub proof fn lemma_split_upto_covers(line: Seq<char>, n: int)
    requires
        0 <= n <= line.len(),
    ensures
        split_upto(line, n).flatten() == line.take(n),
        forall|k: int| 0 <= k < split_upto(line, n).len() ==> (#[trigger] split_upto(line, n)[k]).len() > 0,
    decreases n,
{
    if n > 0 {
        let s = split_upto(line, n);
        lemma_split_last(line, n);
        let r = run_start(line, n);
        lemma_split_upto_covers(line, r);
        let head = split_upto(line, r);
        assert(s =~= head.push(s.last()));
        head.lemma_flatten_push(s.last());
    }
}

/// The slices of a line, one after the other, make up the line, and none
/// of them is empty: nothing of the line is lost and nothing is added.
pub proof fn lemma_split_covers(line: Seq<char>)
    ensures
        split(line).flatten() == line,
        forall|k: int| 0 <= k < split(line).len() ==> (#[trigger] split(line)[k]).len() > 0,
{
    lemma_split_upto_covers(line, line.len() as int);
}

/// In a line without quotes and backslashes nothing is ever open.
pub proof fn lemma_plain_nothing_open(line: Seq<char>, i: int)
    requires
        is_plain(line),
        0 <= i <= line.len(),
    ensures
        open_at(line, i).len() == 0,
    decreases i,
{
    if i > 0 {
        lemma_plain_nothing_open(line, i - 1);
    }
}

/// Text that is all whitespace trims to nothing.
pub proof fn lemma_trim_blank(s: Seq<char>)
    requires
        forall|i: int| 0 <= i < s.len() ==> is_whitespace(#[trigger] s[i]),
    ensures
        trim(s).len() == 0,
    decreases s.len(),
{
    if s.len() > 0 {
        let t = s.drop_first();
        assert forall|i: int| 0 <= i < t.len() implies is_whitespace(#[trigger] t[i]) by {}
        lemma_trim_blank(t);
    }
}

/// Text that neither begins nor ends with whitespace trims to itself.
pub proof fn lemma_trim_tight(s: Seq<char>)
    requires
        s.len() > 0,
        !is_whitespace(s.first()),
        !is_whitespace(s.last()),
    ensures
        trim(s) == s,
{
}

/// The arguments of the first `n` slices depend on those slices alone.
pub proof fn lemma_args_agree(a: Seq<Seq<char>>, b: Seq<Seq<char>>, pos: Option<int>, n: int)
    requires
        n <= a.len(),
        n <= b.len(),
        forall|k: int| 0 <= k < n ==> a[k] == b[k],
    ensures
        args_upto(a, pos, n) == args_upto(b, pos, n),
    decreases n,
{
    if n > 0 {
        lemma_args_agree(a, b, pos, n - 1);
    }
}

/// The arguments of slices with one more slice behind them.
pub proof fn lemma_args_push(parts: Seq<Seq<char>>, last: Seq<char>)
    ensures
        args_of(parts.push(last), None) == (if trim(last).len() > 0 {
            args_of(parts, None).push(trim(last))
        } else {
            args_of(parts, None)
        }),
{
    lemma_args_agree(parts.push(last), parts, None, parts.len() as int);
}

/// In a line without quotes and backslashes, the arguments of every prefix
/// are its words split at whitespace.
pub proof fn lemma_plain_prefix_splits_at_whitespace(line: Seq<char>, n: int)
    requires
        is_plain(line),
        0 <= n <= line.len(),
    ensures
        args_of(split_upto(line, n), None) == words_upto(line, n),
        n > 0 && !is_whitespace(line[n - 1]) ==> {
            &&& words_upto(line, n).len() > 0
            &&& words_upto(line, n).last() == split_upto(line, n).last()
            &&& args_of(split_upto(line, n).drop_last(), None) == words_upto(line, n).drop_last()
        },
        n > 0 && is_whitespace(line[n - 1]) ==> args_of(split_upto(line, n).drop_last(), None)
            == words_upto(line, n),
    decreases n,
{
    if n > 0 {
        let s = split_upto(line, n);
        lemma_plain_prefix_splits_at_whitespace(line, n - 1);
        lemma_split_last(line, n);
        let r = run_start(line, n);
        let last = s.last();
        assert forall|i: int| 0 <= i <= n implies open_at(line, i).len() == 0 by {
            lemma_plain_nothing_open(line, i);
        }
        assert forall|i: int| 0 <= i < last.len() implies is_whitespace(#[trigger] last[i])
            == is_whitespace(line[n - 1]) by {
            assert(is_sep(line, r + i) == is_sep(line, n - 1));
        }
        lemma_args_push(s.drop_last(), last);
        if is_whitespace(line[n - 1]) {
            lemma_trim_blank(last);
        }
        if n >= 2 && is_sep(line, n - 1) == is_sep(line, n - 2) {
            assert(s.drop_last() =~= split_upto(line, n - 1).drop_last());
        }
    }
}

/// A line without quotes and backslashes has as its arguments its words
/// split at whitespace.
pub proof fn lemma_plain_line_splits_at_whitespace(line: Seq<char>)
    requires
        is_plain(line),
    ensures
        args_of(split(line), None) == words(line),
{
    lemma_plain_prefix_splits_at_whitespace(line, line.len() as int);
}

/// Number of characters in the first `k` of `parts`.
pub open spec fn char_offset(parts: Seq<Seq<char>>, k: int) -> int
    decreases k,
{
    if k <= 0 {
        0
    } else {
        char_offset(parts, k - 1) + parts[k - 1].len()
    }
}

/// Whether `parts` cut the first `n` characters of `line` into runs: one
/// after the other they make up those characters, none is empty, each
/// holds separators only or none at all, and of two neighbours one holds
/// separators and the other does not.
pub open spec fn cuts_into_runs(line: Seq<char>, parts: Seq<Seq<char>>, n: int) -> bool {
    &&& char_offset(parts, parts.len() as int) == n
    &&& forall|k: int|
        0 <= k < parts.len() ==> {
            &&& (#[trigger] parts[k]).len() > 0
            &&& parts[k] == line.subrange(char_offset(parts, k), char_offset(parts, k + 1))
            &&& forall|i: int|
                char_offset(parts, k) <= i < char_offset(parts, k + 1) ==> #[trigger] is_sep(
                    line,
                    i,
                ) == is_sep(line, char_offset(parts, k))
            &&& k > 0 ==> is_sep(line, char_offset(parts, k) - 1) != is_sep(
                line,
                char_offset(parts, k),
            )
        }
}

/// The number of characters in the first `k` parts depends on those parts alone.
pub proof fn lemma_char_offset_agree(a: Seq<Seq<char>>, b: Seq<Seq<char>>, k: int)
    requires
        k <= a.len(),
        k <= b.len(),
        forall|j: int| 0 <= j < k ==> a[j] == b[j],
    ensures
        char_offset(a, k) == char_offset(b, k),
    decreases k,
{
    if k > 0 {
        lemma_char_offset_agree(a, b, k - 1);
    }
}

/// The number of characters does not decrease from part to part.
pub proof fn lemma_char_offset_monotonic(parts: Seq<Seq<char>>, j: int, k: int)
    requires
        0 <= j <= k,
    ensures
        0 <= char_offset(parts, j) <= char_offset(parts, k),
    decreases k,
{
    if j < k {
        lemma_char_offset_monotonic(parts, j, k - 1);
    } else if k > 0 {
        lemma_char_offset_monotonic(parts, j - 1, k - 1);
    }
}

/// The slices of every prefix cut it into runs.
pub proof fn lemma_split_upto_cuts_into_runs(line: Seq<char>, n: int)
    requires
        0 <= n <= line.len(),
    ensures
        cuts_into_runs(line, split_upto(line, n), n),
    decreases n,
{
    if n > 0 {
        lemma_split_last(line, n);
        let r = run_start(line, n);
        let parts = split_upto(line, n);
        let head = split_upto(line, r);
        let m = head.len() as int;
        lemma_split_upto_cuts_into_runs(line, r);
        assert(parts =~= head.push(parts.last()));
        assert forall|k: int| 0 <= k <= m implies char_offset(parts, k) == char_offset(head, k) by {
            lemma_char_offset_agree(parts, head, k);
        }
        assert(char_offset(parts, m + 1) == n);
        assert forall|k: int| 0 <= k < parts.len() implies {
            &&& (#[trigger] parts[k]).len() > 0
            &&& parts[k] == line.subrange(char_offset(parts, k), char_offset(parts, k + 1))
            &&& forall|i: int|
                char_offset(parts, k) <= i < char_offset(parts, k + 1) ==> #[trigger] is_sep(
                    line,
                    i,
                ) == is_sep(line, char_offset(parts, k))
            &&& k > 0 ==> is_sep(line, char_offset(parts, k) - 1) != is_sep(
                line,
                char_offset(parts, k),
            )
        } by {
            if k < m {
                assert(parts[k] == head[k]);
            }
        }
    }
}

/// The slices of a line cut it into runs.
pub proof fn lemma_split_cuts_into_runs(line: Seq<char>)
    ensures
        cuts_into_runs(line, split(line), line.len() as int),
{
    lemma_split_upto_cuts_into_runs(line, line.len() as int);
}

/// What cuts a prefix into runs is, part for part, what the prefix is split into.
pub proof fn lemma_runs_are_split_upto(line: Seq<char>, parts: Seq<Seq<char>>, n: int, k: int)
    requires
        0 <= n <= line.len(),
        cuts_into_runs(line, parts, n),
        0 <= k <= parts.len(),
    ensures
        split_upto(line, char_offset(parts, k)) == parts.take(k),
    decreases k,
{
    if k > 0 {
        lemma_runs_are_split_upto(line, parts, n, k - 1);
        lemma_char_offset_monotonic(parts, k, parts.len() as int);
        lemma_char_offset_monotonic(parts, k - 1, k);
        let from = char_offset(parts, k - 1);
        let to = char_offset(parts, k);
        assert(parts[k - 1].len() > 0);
        lemma_split_run(line, from, to);
        assert(parts.take(k) =~= parts.take(k - 1).push(parts[k - 1]));
    } else {
        assert(parts.take(0) =~= Seq::<Seq<char>>::empty());
    }
}

/// There is one way only to cut a line into runs: the way it is split.
pub proof fn lemma_runs_are_split(line: Seq<char>, parts: Seq<Seq<char>>)
    requires
        cuts_into_runs(line, parts, line.len() as int),
    ensures
        parts == split(line),
{
    lemma_runs_are_split_upto(line, parts, line.len() as int, parts.len() as int);
    assert(parts.take(parts.len() as int) =~= parts);
}

/// The first `n` of `words`, joined by single spaces.
pub open spec fn join_upto(words: Seq<Seq<char>>, n: int) -> Seq<char>
    decreases n,
{
    if n <= 0 {
        Seq::empty()
    } else if n == 1 {
        words[0]
    } else {
        join_upto(words, n - 1) + seq![' '] + words[n - 1]
    }
}

/// `words` joined by single spaces.
pub open spec fn join(words: Seq<Seq<char>>) -> Seq<char> {
    join_upto(words, words.len() as int)
}

/// The first `n` of `words` with a slice of one space between each two.
pub open spec fn spaced_upto(words: Seq<Seq<char>>, n: int) -> Seq<Seq<char>>
    decreases n,
{
    if n <= 0 {
        Seq::empty()
    } else if n == 1 {
        seq![words[0]]
    } else {
        spaced_upto(words, n - 1).push(seq![' ']).push(words[n - 1])
    }
}

/// Whether splitting leaves `w` whole when it stands alone: it is not
/// empty, nothing in it separates, and nothing is open at its end.
pub open spec fn is_whole(w: Seq<char>) -> bool {
    &&& w.len() > 0
    &&& open_at(w, w.len() as int).len() == 0
    &&& forall|i: int| 0 <= i < w.len() ==> !#[trigger] is_sep(w, i)
}

/// Whether `w` neither begins nor ends with whitespace.
pub open spec fn is_tight(w: Seq<char>) -> bool {
    w.len() > 0 && !is_whitespace(w.first()) && !is_whitespace(w.last())
}

/// Whether nothing is open at the end of `line`: every quote is closed and
/// no backslash stands last.
pub open spec fn is_closed(line: Seq<char>) -> bool {
    open_at(line, line.len() as int).len() == 0
}

/// Whether no word of `line` ends in whitespace: whitespace that does not
/// separate, being quoted or escaped, is followed by more of its word.
pub open spec fn no_word_ends_blank(line: Seq<char>) -> bool {
    forall|i: int|
        0 <= i < line.len() && is_whitespace(line[i]) && !#[trigger] is_sep(line, i) ==> i + 1
            < line.len() && !is_sep(line, i + 1)
}

/// What is open at an index depends on the characters before it alone.
pub proof fn lemma_open_prefix(a: Seq<char>, b: Seq<char>, n: int)
    requires
        n <= a.len(),
        n <= b.len(),
        forall|i: int| 0 <= i < n ==> a[i] == b[i],
    ensures
        open_at(a, n) == open_at(b, n),
    decreases n,
{
    if n > 0 {
        lemma_open_prefix(a, b, n - 1);
    }
}

/// The slices of a prefix depend on the prefix alone.
pub proof fn lemma_split_prefix(a: Seq<char>, b: Seq<char>, n: int)
    requires
        n <= a.len(),
        n <= b.len(),
        forall|i: int| 0 <= i < n ==> a[i] == b[i],
    ensures
        split_upto(a, n) == split_upto(b, n),
    decreases n,
{
    if n > 0 {
        lemma_split_prefix(a, b, n - 1);
        if n >= 2 {
            lemma_open_prefix(a, b, n - 2);
        }
    }
}

/// From an index at which nothing is open, a word is read as it is read
/// when it stands alone.
pub proof fn lemma_open_shift(x: Seq<char>, a: int, w: Seq<char>, j: int)
    requires
        0 <= a,
        a + w.len() <= x.len(),
        open_at(x, a).len() == 0,
        forall|i: int| 0 <= i < w.len() ==> x[a + i] == w[i],
        0 <= j <= w.len(),
    ensures
        open_at(x, a + j) == open_at(w, j),
    decreases j,
{
    if j > 0 {
        lemma_open_shift(x, a, w, j - 1);
    }
}

/// A run of like characters that begins where the kind changes is one slice.
pub proof fn lemma_split_run(line: Seq<char>, n: int, m: int)
    requires
        0 <= n < m <= line.len(),
        forall|i: int| n <= i < m ==> #[trigger] is_sep(line, i) == is_sep(line, n),
        n > 0 ==> is_sep(line, n - 1) != is_sep(line, n),
    ensures
        split_upto(line, m) == split_upto(line, n).push(line.subrange(n, m)),
    decreases m,
{
    if m == n + 1 {
        assert(seq![line[n]] =~= line.subrange(n, m));
    } else {
        lemma_split_run(line, n, m - 1);
        let before = split_upto(line, m - 1);
        assert(before.last().push(line[m - 1]) =~= line.subrange(n, m));
    }
}

/// Whole words joined by single spaces split into those words with a
/// slice of one space between each two.
pub proof fn lemma_split_join(words: Seq<Seq<char>>, n: int)
    requires
        1 <= n <= words.len(),
        forall|k: int| 0 <= k < words.len() ==> is_whole(#[trigger] words[k]),
    ensures
        split(join_upto(words, n)) == spaced_upto(words, n),
        join_upto(words, n).len() > 0,
        is_closed(join_upto(words, n)),
        !is_sep(join_upto(words, n), join_upto(words, n).len() - 1),
    decreases n,
{
    let joined = join_upto(words, n);
    let w = words[n - 1];
    if n == 1 {
        lemma_split_run(joined, 0, joined.len() as int);
        assert(joined.subrange(0, joined.len() as int) =~= joined);
    } else {
        // The text is what was joined before, a space at `a`, and the
        // word from `b` to `e`.
        lemma_split_join(words, n - 1);
        let head = join_upto(words, n - 1);
        let a = head.len() as int;
        let b = a + 1;
        let e = b + w.len();
        assert forall|i: int| 0 <= i < a implies joined[i] == head[i] by {}
        assert forall|i: int| 0 <= i < w.len() implies joined[b + i] == w[i] by {}
        // Up to `a` the text splits as before, and nothing is open there.
        lemma_split_prefix(joined, head, a);
        lemma_open_prefix(joined, head, a - 1);
        // So the space separates, and is a slice of its own.
        lemma_split_run(joined, a, b);
        // Behind it the word is read as when it stands alone.
        assert forall|i: int| b <= i < e implies !#[trigger] is_sep(joined, i) by {
            lemma_open_shift(joined, b, w, i - b);
            assert(!is_sep(w, i - b));
        }
        lemma_split_run(joined, b, e);
        assert(joined.subrange(b, e) =~= w);
        lemma_open_shift(joined, b, w, w.len() as int);
    }
}

/// Tight words with slices of one space between them have themselves as
/// their arguments.
pub proof fn lemma_args_spaced(words: Seq<Seq<char>>, n: int)
    requires
        0 <= n <= words.len(),
        forall|k: int| 0 <= k < words.len() ==> is_tight(#[trigger] words[k]),
    ensures
        args_of(spaced_upto(words, n), None) == words.take(n),
    decreases n,
{
    if n > 0 {
        let w = words[n - 1];
        if n == 1 {
            lemma_args_push(Seq::empty(), w);
        } else {
            lemma_args_spaced(words, n - 1);
            let blank = seq![' '];
            lemma_trim_blank(blank);
            lemma_args_push(spaced_upto(words, n - 1), blank);
            lemma_args_push(spaced_upto(words, n - 1).push(blank), w);
        }
    }
}

/// In a closed line of which no word ends in whitespace, every argument
/// is a word that splitting leaves whole, and is tight.
pub proof fn lemma_args_whole(line: Seq<char>, n: int)
    requires
        is_closed(line),
        no_word_ends_blank(line),
        0 <= n <= line.len(),
        n == 0 || n == line.len() || is_sep(line, n) != is_sep(line, n - 1),
    ensures
        forall|k: int|
            0 <= k < args_of(split_upto(line, n), None).len() ==> is_whole(
                #[trigger] args_of(split_upto(line, n), None)[k],
            ) && is_tight(args_of(split_upto(line, n), None)[k]),
    decreases n,
{
    if n > 0 {
        lemma_split_last(line, n);
        let r = run_start(line, n);
        let s = split_upto(line, n);
        let last = s.last();
        let head = split_upto(line, r);
        lemma_args_whole(line, r);
        assert(s =~= head.push(last));
        lemma_args_push(head, last);
        assert forall|i: int| 0 <= i < last.len() implies last[i] == line[r + i] by {}
        if is_sep(line, n - 1) {
            // A run of separators is blank and gives no argument.
            assert forall|i: int| 0 <= i < last.len() implies is_whitespace(#[trigger] last[i]) by {
                assert(is_sep(line, r + i));
            }
            lemma_trim_blank(last);
        } else {
            // A word begins behind a separator or at the start, so nothing
            // is open where it begins, and it is read as when it stands
            // alone. It ends at the end of the line or in front of a
            // separator, so nothing is open where it ends.
            assert(!is_sep(line, r));
            assert forall|i: int| 0 <= i < last.len() implies !#[trigger] is_sep(last, i) by {
                lemma_open_shift(line, r, last, i);
                assert(!is_sep(line, r + i));
            }
            lemma_open_shift(line, r, last, last.len() as int);
        }
    }
}

/// In a line in which every quote is closed, no backslash stands last and
/// no word ends in whitespace, the arguments joined by single spaces split
/// into the same arguments again.
pub proof fn lemma_rejoined_arguments_split_alike(line: Seq<char>)
    requires
        is_closed(line),
        no_word_ends_blank(line),
    ensures
        args_of(split(join(args_of(split(line), None))), None) == args_of(split(line), None),
{
    let args = args_of(split(line), None);
    lemma_args_whole(line, line.len() as int);
    let n = args.len() as int;
    if n > 0 {
        lemma_split_join(args, n);
        lemma_args_spaced(args, n);
    }
}

} // verus!

//! Shell-style splitting of an input line into slices.
//!
//! A line is cut into consecutive slices that together cover it: runs of
//! separating whitespace alternate with runs of everything else. Whitespace
//! separates only while no quote is open and it is not escaped by a backslash.

use crate::text::chars_of;
use vstd::prelude::*;
use vstd::std_specs::iter::IteratorSpec;
use vstd::utf8::encode_utf8;

verus! {

/// Whether `c` has the Unicode `White_Space` property.
pub open spec fn is_whitespace(c: char) -> bool {
    let u = c as u32;
    ||| 0x09 <= u <= 0x0d
    ||| u == 0x20
    ||| u == 0x85
    ||| u == 0xa0
    ||| u == 0x1680
    ||| 0x2000 <= u <= 0x200a
    ||| u == 0x2028
    ||| u == 0x2029
    ||| u == 0x202f
    ||| u == 0x205f
    ||| u == 0x3000
}

/// Executable test for the `White_Space` property.
pub fn char_is_whitespace(c: char) -> (b: bool)
    ensures
        b == is_whitespace(c),
{
    let u: u32 = c as u32;
    (0x09 <= u && u <= 0x0d) || u == 0x20 || u == 0x85 || u == 0xa0 || u == 0x1680 || (0x2000 <= u
        && u <= 0x200a) || u == 0x2028 || u == 0x2029 || u == 0x202f || u == 0x205f || u == 0x3000
}

/// A special character that is still in effect.
#[derive(Clone, Copy, Debug, PartialEq, Eq, Structural)]
pub enum Mark {
    /// A backslash: the next character is taken verbatim.
    Escape,
    /// An open `'`.
    SingleQuote,
    /// An open `"`.
    DoubleQuote,
}

/// A quote character met while `open` is in effect: if a quote of the same
/// kind is open, it is closed together with everything opened after it;
/// otherwise the quote is opened.
pub open spec fn toggle(open: Seq<Mark>, m: Mark) -> Seq<Mark> {
    match open.index_of_first(m) {
        Some(i) => open.take(i),
        None => open.push(m),
    }
}

/// The marks in effect after reading `c` while `open` was in effect.
pub open spec fn step(open: Seq<Mark>, c: char) -> Seq<Mark> {
    if open.len() > 0 && open.last() == Mark::Escape {
        open.drop_last()
    } else if c == '\'' {
        toggle(open, Mark::SingleQuote)
    } else if c == '"' {
        toggle(open, Mark::DoubleQuote)
    } else if c == '\\' {
        open.push(Mark::Escape)
    } else {
        open
    }
}

/// The marks in effect just before the character at index `i` of `line` is read.
pub open spec fn open_at(line: Seq<char>, i: int) -> Seq<Mark>
    decreases i,
{
    if i <= 0 {
        Seq::empty()
    } else {
        step(open_at(line, i - 1), line[i - 1])
    }
}

/// Whether the character at index `i` of `line` separates words: it is
/// whitespace, no quote is open and it is not escaped.
pub open spec fn is_sep(line: Seq<char>, i: int) -> bool {
    is_whitespace(line[i]) && open_at(line, i).len() == 0
}

/// The slices of the first `n` characters of `line`: a new slice starts at
/// the first character and wherever a separator follows a non-separator or
/// the other way round.
pub open spec fn split_upto(line: Seq<char>, n: int) -> Seq<Seq<char>>
    decreases n,
{
    if n <= 0 {
        Seq::empty()
    } else {
        let before = split_upto(line, n - 1);
        if n >= 2 && is_sep(line, n - 1) == is_sep(line, n - 2) {
            before.drop_last().push(before.last().push(line[n - 1]))
        } else {
            before.push(seq![line[n - 1]])
        }
    }
}

/// The slices of `line`.
pub open spec fn split(line: Seq<char>) -> Seq<Seq<char>> {
    split_upto(line, line.len() as int)
}

/// `s` without its leading whitespace.
pub open spec fn trim_start(s: Seq<char>) -> Seq<char>
    decreases s.len(),
{
    if s.len() > 0 && is_whitespace(s.first()) {
        trim_start(s.drop_first())
    } else {
        s
    }
}

/// `s` without its trailing whitespace.
pub open spec fn trim_end(s: Seq<char>) -> Seq<char>
    decreases s.len(),
{
    if s.len() > 0 && is_whitespace(s.last()) {
        trim_end(s.drop_last())
    } else {
        s
    }
}

/// `s` without its leading and trailing whitespace.
pub open spec fn trim(s: Seq<char>) -> Seq<char> {
    trim_end(trim_start(s))
}

/// Whether slice `k` is kept as an argument: it is the designated current
/// slice, or something is left of it after trimming.
pub open spec fn kept(parts: Seq<Seq<char>>, pos: Option<int>, k: int) -> bool {
    pos == Some(k) || trim(parts[k]).len() > 0
}

/// The arguments made of the first `n` slices: each slice trimmed, the empty
/// ones dropped except the one at `pos`.
pub open spec fn args_upto(parts: Seq<Seq<char>>, pos: Option<int>, n: int) -> Seq<Seq<char>>
    decreases n,
{
    if n <= 0 {
        Seq::empty()
    } else if kept(parts, pos, n - 1) {
        args_upto(parts, pos, n - 1).push(trim(parts[n - 1]))
    } else {
        args_upto(parts, pos, n - 1)
    }
}

/// The arguments made of `parts`.
pub open spec fn args_of(parts: Seq<Seq<char>>, pos: Option<int>) -> Seq<Seq<char>> {
    args_upto(parts, pos, parts.len() as int)
}

/// Where the slice at `pos` lands among the arguments, if there is such a slice.
pub open spec fn cword_of(parts: Seq<Seq<char>>, pos: Option<int>) -> Option<int> {
    match pos {
        Some(p) if 0 <= p < parts.len() => Some(args_upto(parts, pos, p).len() as int),
        _ => None,
    }
}

/// Number of bytes that the first `k` of `parts` take in UTF-8.
pub open spec fn byte_offset(parts: Seq<Seq<char>>, k: int) -> int
    decreases k,
{
    if k <= 0 {
        0
    } else {
        byte_offset(parts, k - 1) + encode_utf8(parts[k - 1]).len()
    }
}

/// The first slice from `k` on that ends behind byte `cursor`, or the number
/// of slices if none does.
pub open spec fn first_behind(parts: Seq<Seq<char>>, cursor: int, k: int) -> int
    decreases parts.len() - k,
{
    if k < 0 || k >= parts.len() {
        parts.len() as int
    } else if cursor < byte_offset(parts, k + 1) {
        k
    } else {
        first_behind(parts, cursor, k + 1)
    }
}

/// The slice that a cursor at byte `cursor` belongs to: the slice that holds
/// that byte, so that a cursor between two slices belongs to the second; the
/// last slice where the cursor stands right behind it; and the number of
/// slices where the cursor is beyond the text or there is no text.
pub open spec fn locate_in(parts: Seq<Seq<char>>, cursor: int) -> int {
    let k = first_behind(parts, cursor, 0);
    if k == parts.len() && parts.len() > 0 && cursor == byte_offset(parts, parts.len() as int) {
        parts.len() - 1
    } else {
        k
    }
}

/// An optional index as a mathematical integer.
pub open spec fn as_int(pos: Option<usize>) -> Option<int> {
    match pos {
        Some(p) => Some(p as int),
        None => None,
    }
}

/// One slice of a line.
#[derive(Debug)]
pub struct Slice<'a> {
    /// Byte offset of the slice in the line.
    pub beg: usize,
    /// The text of the slice as it stands in the line, quotes and backslashes included.
    pub dat: &'a str,
}

/// The texts of `slices`.
pub open spec fn texts(slices: Seq<Slice>) -> Seq<Seq<char>> {
    Seq::new(slices.len(), |k: int| slices[k].dat@)
}

/// The texts of `words`.
pub open spec fn words_text(words: Seq<&str>) -> Seq<Seq<char>> {
    Seq::new(words.len(), |k: int| words[k]@)
}

/// A line cut into slices.
pub struct Splitted<'a> {
    slices: Vec<Slice<'a>>,
}

/// The arguments of a line.
pub struct Args<'a> {
    /// Index in `args` of the word under the cursor.
    pub cword: Option<usize>,
    /// The trimmed slices.
    pub args: Vec<&'a str>,
}

impl<'a> View for Splitted<'a> {
    type V = Seq<Seq<char>>;

    open spec fn view(&self) -> Seq<Seq<char>> {
        texts(self.slices())
    }
}

/// UTF-8 encodes a concatenation piece by piece.
pub proof fn lemma_encode_concat(a: Seq<char>, b: Seq<char>)
    ensures
        encode_utf8(a + b) == encode_utf8(a) + encode_utf8(b),
    decreases a.len(),
{
    if a.len() > 0 {
        assert((a + b).drop_first() =~= a.drop_first() + b);
        lemma_encode_concat(a.drop_first(), b);
    }
}

/// Dropping leading whitespace keeps what follows the first `a` characters,
/// where these are whitespace and the next one is not.
pub proof fn lemma_trim_start(s: Seq<char>, a: int)
    requires
        0 <= a <= s.len(),
        forall|i: int| 0 <= i < a ==> is_whitespace(#[trigger] s[i]),
        a < s.len() ==> !is_whitespace(s[a]),
    ensures
        trim_start(s) == s.skip(a),
    decreases a,
{
    if a > 0 {
        let t = s.drop_first();
        assert forall|i: int| 0 <= i < a - 1 implies is_whitespace(#[trigger] t[i]) by {}
        lemma_trim_start(t, a - 1);
    }
}

/// Dropping trailing whitespace keeps the first `b` characters, where what
/// follows them is whitespace and the last of them is not.
pub proof fn lemma_trim_end(s: Seq<char>, b: int)
    requires
        0 <= b <= s.len(),
        forall|i: int| b <= i < s.len() ==> is_whitespace(#[trigger] s[i]),
        b > 0 ==> !is_whitespace(s[b - 1]),
    ensures
        trim_end(s) == s.take(b),
    decreases s.len() - b,
{
    if b < s.len() {
        lemma_trim_end(s.drop_last(), b);
    }
}

/// `s` without its leading and trailing whitespace.
pub fn trim_str<'a>(s: &'a str) -> (r: &'a str)
    ensures
        r@ == trim(s@),
{
    let chars = chars_of(s);
    let n = chars.len();
    let mut a: usize = 0;
    while a < n && char_is_whitespace(chars[a])
        invariant
            a <= n,
            n == chars@.len(),
            forall|i: int| 0 <= i < a ==> is_whitespace(#[trigger] chars@[i]),
        decreases n - a,
    {
        a += 1;
    }
    let mut b: usize = n;
    while b > a && char_is_whitespace(chars[b - 1])
        invariant
            a <= b <= n,
            n == chars@.len(),
            forall|i: int| b <= i < n ==> is_whitespace(#[trigger] chars@[i]),
        decreases b,
    {
        b -= 1;
    }
    proof {
        lemma_trim_start(s@, a as int);
        let t = s@.skip(a as int);
        assert forall|i: int| b - a <= i < t.len() implies is_whitespace(#[trigger] t[i]) by {}
        lemma_trim_end(t, b - a);
    }
    s.substring_char(a, b)
}

/// The byte offset of slice `k` depends on the slices before it alone.
pub proof fn lemma_byte_offset_agree(a: Seq<Seq<char>>, b: Seq<Seq<char>>, k: int)
    requires
        k <= a.len(),
        k <= b.len(),
        forall|j: int| 0 <= j < k ==> a[j] == b[j],
    ensures
        byte_offset(a, k) == byte_offset(b, k),
    decreases k,
{
    if k > 0 {
        lemma_byte_offset_agree(a, b, k - 1);
    }
}

/// Byte offsets do not decrease from one slice to the next.
pub proof fn lemma_byte_offset_monotonic(parts: Seq<Seq<char>>, j: int, k: int)
    requires
        j <= k,
    ensures
        byte_offset(parts, j) <= byte_offset(parts, k),
        0 <= byte_offset(parts, j),
    decreases k - j,
{
    if j < k {
        lemma_byte_offset_monotonic(parts, j, k - 1);
    } else {
        lemma_byte_offset_nonnegative(parts, j);
    }
}

/// Byte offsets are not negative.
pub proof fn lemma_byte_offset_nonnegative(parts: Seq<Seq<char>>, k: int)
    ensures
        0 <= byte_offset(parts, k),
    decreases k,
{
    if k > 0 {
        lemma_byte_offset_nonnegative(parts, k - 1);
    }
}

/// The search for the first slice that ends behind the cursor stays within
/// the slices.
pub proof fn lemma_first_behind_bounds(parts: Seq<Seq<char>>, cursor: int, k: int)
    requires
        0 <= k <= parts.len(),
    ensures
        k <= first_behind(parts, cursor, k) <= parts.len(),
    decreases parts.len() - k,
{
    if k < parts.len() && cursor >= byte_offset(parts, k + 1) {
        lemma_first_behind_bounds(parts, cursor, k + 1);
    }
}

/// A cursor belongs to one of the slices or to the place behind the last.
pub proof fn lemma_locate_bounds(parts: Seq<Seq<char>>, cursor: int)
    ensures
        0 <= locate_in(parts, cursor) <= parts.len(),
{
    lemma_first_behind_bounds(parts, cursor, 0);
}

/// The first slice that ends behind the cursor begins at or in front of it.
pub proof fn lemma_first_behind_holds(parts: Seq<Seq<char>>, cursor: int, k: int)
    requires
        0 <= k <= parts.len(),
        byte_offset(parts, k) <= cursor,
    ensures
        first_behind(parts, cursor, k) < parts.len() ==> byte_offset(
            parts,
            first_behind(parts, cursor, k),
        ) <= cursor < byte_offset(parts, first_behind(parts, cursor, k) + 1),
        first_behind(parts, cursor, k) == parts.len() ==> byte_offset(parts, parts.len() as int)
            <= cursor,
    decreases parts.len() - k,
{
    if k < parts.len() && cursor >= byte_offset(parts, k + 1) {
        lemma_first_behind_holds(parts, cursor, k + 1);
    }
}

/// A cursor within the text belongs to the slice that holds its byte.
pub proof fn lemma_locate_within(parts: Seq<Seq<char>>, cursor: int)
    requires
        0 <= cursor < byte_offset(parts, parts.len() as int),
    ensures
        0 <= locate_in(parts, cursor) < parts.len(),
        byte_offset(parts, locate_in(parts, cursor)) <= cursor < byte_offset(
            parts,
            locate_in(parts, cursor) + 1,
        ),
{
    lemma_first_behind_bounds(parts, cursor, 0);
    lemma_first_behind_holds(parts, cursor, 0);
}

/// A cursor right behind the text belongs to the last slice, and a cursor
/// further behind to none.
pub proof fn lemma_locate_behind(parts: Seq<Seq<char>>, cursor: int)
    requires
        0 <= cursor,
        byte_offset(parts, parts.len() as int) <= cursor,
    ensures
        locate_in(parts, cursor) == (if parts.len() > 0 && cursor == byte_offset(
            parts,
            parts.len() as int,
        ) {
            parts.len() - 1
        } else {
            parts.len() as int
        }),
{
    lemma_first_behind_bounds(parts, cursor, 0);
    lemma_first_behind_holds(parts, cursor, 0);
    let k = first_behind(parts, cursor, 0);
    if k < parts.len() {
        lemma_byte_offset_monotonic(parts, k + 1, parts.len() as int);
    }
}

/// Whether the scanner is between words or inside one.
enum State {
    Space,
    Normal,
}

/// Applies a quote character to the stack of open marks.
fn toggle_mark(open: &mut Vec<Mark>, m: Mark)
    ensures
        final(open)@ == toggle(old(open)@, m),
{
    let mut i: usize = 0;
    while i < open.len() && !(open[i] == m)
        invariant
            i <= open.len(),
            *open == *old(open),
            forall|j: int| 0 <= j < i ==> open@[j] != m,
        decreases open.len() - i,
    {
        i += 1;
    }
    proof {
        open@.index_of_first_ensures(m);
    }
    if i < open.len() {
        open.truncate(i);
    } else {
        open.push(m);
    }
}

impl<'a> Splitted<'a> {
    /// The slices, in the order of the line.
    pub closed spec fn slices(&self) -> Seq<Slice<'a>> {
        self.slices@
    }

    /// Each slice records the byte at which it starts, and the text fits a `usize`.
    #[verifier::type_invariant]
    pub open spec fn wf(&self) -> bool {
        &&& forall|k: int|
            0 <= k < self.slices().len() ==> (#[trigger] self.slices()[k]).beg == byte_offset(
                self@,
                k,
            )
        &&& byte_offset(self@, self@.len() as int) <= usize::MAX
    }

    /// Cuts `line` into slices.
    pub fn new(line: &'a str) -> (s: Self)
        ensures
            s@ == split(line@),
            s.wf(),
    {
        Self { slices: Self::inner_split(line) }
    }

    /// Number of slices.
    pub fn len(&self) -> (n: usize)
        ensures
            n == self@.len(),
    {
        self.slices.len()
    }

    /// Whether the line had no character.
    pub fn is_empty(&self) -> (b: bool)
        ensures
            b == (self@.len() == 0),
    {
        self.len() == 0
    }

    /// The slices in the order of the line.
    pub fn iter(&self) -> (it: std::slice::Iter<'_, Slice<'a>>)
        ensures
            it.remaining() == self.slices().as_ref(),
    {
        self.slices.iter()
    }

    /// The arguments of the line: each slice trimmed, the empty ones dropped
    /// but for the slice at `pos`, which is kept and reported as the current word.
    pub fn split_args(&self, pos: Option<usize>) -> (r: Args<'a>)
        ensures
            words_text(r.args@) == args_of(self@, as_int(pos)),
            as_int(r.cword) == cword_of(self@, as_int(pos)),
            r.cword is Some ==> r.cword->0 < r.args@.len(),
    {
        let mut args: Vec<&'a str> = Vec::new();
        let mut cword: Option<usize> = None;
        let n = self.slices.len();
        let mut index: usize = 0;
        while index < n
            invariant
                index <= n,
                n == self.slices@.len(),
                words_text(args@) == args_upto(self@, as_int(pos), index as int),
                as_int(cword) == (match pos {
                    Some(p) if p < index => Some(
                        args_upto(self@, as_int(pos), p as int).len() as int,
                    ),
                    _ => None,
                }),
                cword is Some ==> cword->0 < args@.len(),
            decreases n - index,
        {
            let dat = trim_str(self.slices[index].dat);
            let current = match pos {
                Some(p) => p == index,
                None => false,
            };
            if current {
                cword = Some(args.len());
                args.push(dat);
            } else if !dat.is_empty() {
                args.push(dat);
            }
            index += 1;
        }
        Args { cword, args }
    }

    /// The byte at which slice `k` starts; for `k` past the last slice, the
    /// length of the line in bytes.
    pub fn offset(&self, k: usize) -> (at: usize)
        ensures
            at == byte_offset(self@, if k <= self@.len() { k as int } else { self@.len() as int }),
    {
        proof {
            use_type_invariant(self);
        }
        let n = self.slices.len();
        if k < n {
            self.slices[k].beg
        } else if n == 0 {
            0
        } else {
            self.slices[n - 1].beg + self.slices[n - 1].dat.as_bytes().len()
        }
    }

    /// The slice that a cursor at byte `cursor` of the line belongs to.
    pub fn locate(&self, cursor: usize) -> (k: usize)
        ensures
            k == locate_in(self@, cursor as int),
    {
        proof {
            use_type_invariant(self);
        }
        let n = self.slices.len();
        let mut k: usize = 0;
        while k < n
            invariant
                k <= n,
                n == self.slices@.len(),
                self.wf(),
                first_behind(self@, cursor as int, 0) == first_behind(self@, cursor as int, k as int),
                k > 0 ==> byte_offset(self@, k as int) <= cursor,
            decreases n - k,
        {
            proof {
                lemma_byte_offset_monotonic(self@, k + 1, n as int);
            }
            let end = self.slices[k].beg + self.slices[k].dat.as_bytes().len();
            if cursor < end {
                return k;
            }
            k += 1;
        }
        if n > 0 && cursor == self.offset(n) {
            n - 1
        } else {
            n
        }
    }

    fn inner_split(line: &'a str) -> (words: Vec<Slice<'a>>)
        ensures
            texts(words@) == split(line@),
            forall|k: int|
                0 <= k < words@.len() ==> (#[trigger] words@[k]).beg == byte_offset(
                    texts(words@),
                    k,
                ),
            byte_offset(texts(words@), words@.len() as int) <= usize::MAX,
    {
        let chars = chars_of(line);
        let n = chars.len();
        let total = line.as_bytes().len();
        let mut beg: usize = 0;
        let mut at: usize = 0;
        let mut state = State::Space;
        let mut spec: Vec<Mark> = Vec::new();
        let mut words: Vec<Slice<'a>> = Vec::new();
        let mut pos: usize = 0;
        while pos < n
            invariant
                chars@ == line@,
                n == line@.len(),
                total == encode_utf8(line@).len(),
                beg <= pos <= n,
                (beg == pos) == (pos == 0),
                spec@ == open_at(line@, pos as int),
                state is Space ==> spec@.len() == 0,
                pos > 0 ==> (state is Space) == is_sep(line@, pos - 1),
                pos == 0 ==> state is Space && words@.len() == 0,
                pos > 0 ==> texts(words@).push(line@.subrange(beg as int, pos as int))
                    == split_upto(line@, pos as int),
                at == encode_utf8(line@.subrange(0, beg as int)).len(),
                at == byte_offset(texts(words@), words@.len() as int),
                forall|k: int|
                    0 <= k < words@.len() ==> (#[trigger] words@[k]).beg == byte_offset(
                        texts(words@),
                        k,
                    ),
            decreases n - pos,
        {
            let c = chars[pos];
            let ghost before = split_upto(line@, pos as int);
            let ghost old_words = words@;
            let escaped = spec.len() > 0 && spec[spec.len() - 1] == Mark::Escape;
            if escaped {
                spec.pop();
            } else {
                let blank = char_is_whitespace(c);
                let turn = match state {
                    State::Space => !blank,
                    State::Normal => blank && spec.len() == 0,
                };
                if turn {
                    if pos - beg > 0 {
                        let dat = line.substring_char(beg, pos);
                        let len = dat.as_bytes().len();
                        proof {
                            let head = line@.subrange(0, beg as int);
                            let body = line@.subrange(beg as int, pos as int);
                            let tail = line@.subrange(pos as int, n as int);
                            lemma_encode_concat(head, body);
                            lemma_encode_concat(head + body, tail);
                            assert(head + body =~= line@.subrange(0, pos as int));
                            assert(head + body + tail =~= line@);
                            lemma_byte_offset_agree(
                                texts(words@),
                                texts(words@.push(Slice { beg: at, dat })),
                                words@.len() as int,
                            );
                            assert forall|k: int| 0 <= k < words@.len() implies byte_offset(
                                texts(words@),
                                k,
                            ) == byte_offset(texts(words@.push(Slice { beg: at, dat })), k) by {
                                lemma_byte_offset_agree(
                                    texts(words@),
                                    texts(words@.push(Slice { beg: at, dat })),
                                    k,
                                );
                            }
                        }
                        words.push(Slice { beg: at, dat });
                        at = at + len;
                    }
                    state =
                    match state {
                        State::Space => State::Normal,
                        State::Normal => State::Space,
                    };
                    beg = pos;
                }
                if c == '\'' {
                    toggle_mark(&mut spec, Mark::SingleQuote);
                } else if c == '"' {
                    toggle_mark(&mut spec, Mark::DoubleQuote);
                } else if c == '\\' {
                    spec.push(Mark::Escape);
                }
            }
            proof {
                let p = pos as int;
                if p > 0 {
                    if is_sep(line@, p) == is_sep(line@, p - 1) {
                        assert(before.last().push(line@[p]) =~= line@.subrange(
                            beg as int,
                            p + 1,
                        ));
                    } else {
                        assert(seq![line@[p]] =~= line@.subrange(beg as int, p + 1));
                    }
                } else {
                    assert(seq![line@[p]] =~= line@.subrange(beg as int, p + 1));
                }
            }
            pos += 1;
        }
        if n - beg >= 1 {
            let dat = line.substring_char(beg, n);
            let len = dat.as_bytes().len();
            proof {
                let head = line@.subrange(0, beg as int);
                let body = line@.subrange(beg as int, n as int);
                lemma_encode_concat(head, body);
                assert(head + body =~= line@);
                assert forall|k: int| 0 <= k <= words@.len() implies byte_offset(texts(words@), k)
                    == byte_offset(texts(words@.push(Slice { beg: at, dat })), k) by {
                    lemma_byte_offset_agree(
                        texts(words@),
                        texts(words@.push(Slice { beg: at, dat })),
                        k,
                    );
                }
            }
            words.push(Slice { beg: at, dat });
        }
        words
    }
}

impl<'a> IntoIterator for Splitted<'a> {
    type Item = Slice<'a>;

    type IntoIter = std::vec::IntoIter<Slice<'a>>;

    /// The slices in the order of the line.
    fn into_iter(self) -> (it: Self::IntoIter)
        ensures
            it.remaining() == self.slices(),
    {
        self.slices.into_iter()
    }
}

} // verus!

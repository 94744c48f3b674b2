//! What the completion engine needs to know of a line and a cursor, and the
//! buffer that collects its candidates.

use crate::error::BridgeError;
use crate::manager::Reply;
use crate::manager::Request;
use crate::splitted::args_of;
use crate::splitted::byte_offset;
use crate::splitted::cword_of;
use crate::splitted::lemma_locate_bounds;
use crate::splitted::locate_in;
use crate::splitted::split;
use crate::splitted::words_text;
use crate::splitted::Splitted;
use crate::text::decimal;
use crate::text::decimal_string;
use crate::text::has_prefix;
use crate::text::starts_with;
use crate::text::str_eq;
use crate::text::strings_view;
use std::marker::PhantomData;
use vstd::prelude::*;

verus! {

/// Name that stands in front of the arguments as the program's own.
pub const PROGRAM: &'static str = "rssdeploy";

/// A line and a cursor as the completion engine sees them.
#[derive(Debug)]
pub struct Completion {
    /// The program's name, then the arguments of the line.
    pub args: Vec<String>,
    /// Index in `args` of the word to complete.
    pub cword: usize,
    /// The word to complete; empty where a new word begins.
    pub curr: String,
    /// The word in front of it.
    pub prev: String,
    /// Byte of the line from which the candidates replace the text.
    pub start: usize,
}

/// The words that the completion engine is given for `line`: the program's
/// name, then the arguments of the line with the slice under the cursor kept.
pub open spec fn completion_args(line: Seq<char>, pos: int) -> Seq<Seq<char>> {
    seq![PROGRAM@] + args_of(split(line), Some(locate_in(split(line), pos)))
}

/// Index among `completion_args` of the word to complete: that of the slice
/// under the cursor, or the end where the cursor is under no slice.
pub open spec fn completion_cword(line: Seq<char>, pos: int) -> int {
    match cword_of(split(line), Some(locate_in(split(line), pos))) {
        Some(c) => c + 1,
        None => completion_args(line, pos).len() as int,
    }
}

/// The word at `k`, or the empty word where there is none.
pub open spec fn word_at(words: Seq<Seq<char>>, k: int) -> Seq<char> {
    if 0 <= k < words.len() {
        words[k]
    } else {
        Seq::empty()
    }
}

/// Byte from which the candidates replace the text: where the slice under
/// the cursor begins, one further where the word to complete is empty, and
/// never behind the cursor.
pub open spec fn completion_start(line: Seq<char>, pos: int) -> int {
    let parts = split(line);
    let at = byte_offset(parts, locate_in(parts, pos));
    let from = if word_at(completion_args(line, pos), completion_cword(line, pos)).len() == 0 {
        at + 1
    } else {
        at
    };
    if from < pos {
        from
    } else {
        pos
    }
}

/// The decimal numerals of `ids`, in order.
pub open spec fn numerals(ids: Seq<usize>) -> Seq<Seq<char>> {
    Seq::new(ids.len(), |k: int| decimal(ids[k] as nat))
}

/// The candidates that a reply to `asked` gives: the numerals of the ids in
/// a reply of the matching kind, and none for any other reply or a failure.
pub open spec fn candidates_of(asked: Request, reply: Result<Reply, BridgeError>) -> Seq<
    Seq<char>,
> {
    match (asked, reply) {
        (Request::FetchInstanceId, Ok(Reply::InstanceId(ids))) => numerals(ids@),
        (Request::FetchTaskIndex, Ok(Reply::TaskIndex(ids))) => numerals(ids@),
        _ => Seq::empty(),
    }
}

/// The program's name, then `words`.
fn program_args(words: &Vec<&str>) -> (args: Vec<String>)
    ensures
        strings_view(args@) == seq![PROGRAM@] + words_text(words@),
        args@.len() == words@.len() + 1,
{
    let mut args: Vec<String> = Vec::new();
    args.push(PROGRAM.to_owned());
    let n = words.len();
    let mut k: usize = 0;
    while k < n
        invariant
            k <= n,
            n == words@.len(),
            args@.len() == k + 1,
            args@[0]@ == PROGRAM@,
            forall|j: int| 0 <= j < k ==> args@[j + 1]@ == words@[j]@,
        decreases n - k,
    {
        args.push(words[k].to_owned());
        k += 1;
    }
    args
}

/// The word at `k`, or the empty word where there is none.
fn word(args: &Vec<String>, k: usize) -> (w: String)
    ensures
        w@ == word_at(strings_view(args@), k as int),
{
    if k < args.len() {
        args[k].clone()
    } else {
        String::new()
    }
}

/// Reads `line` with the cursor at byte `pos` for the completion engine.
pub fn completion(line: &str, pos: usize) -> (c: Completion)
    ensures
        strings_view(c.args@) == completion_args(line@, pos as int),
        c.cword == completion_cword(line@, pos as int),
        c.curr@ == word_at(completion_args(line@, pos as int), c.cword as int),
        c.prev@ == word_at(completion_args(line@, pos as int), c.cword - 1),
        c.start == completion_start(line@, pos as int),
{
    let splitted = Splitted::new(line);
    let index = splitted.locate(pos);
    proof {
        lemma_locate_bounds(split(line@), pos as int);
    }
    let at = splitted.offset(index);
    let found = splitted.split_args(Some(index));
    let args = program_args(&found.args);
    let total = args.len();
    let cword = match found.cword {
        Some(c) => c + 1,
        None => total,
    };
    let curr = word(&args, cword);
    let prev = word(&args, cword - 1);
    let start = if curr.as_str().is_empty() && at < pos {
        at + 1
    } else if at < pos {
        at
    } else {
        pos
    };
    Completion { args, cword, curr, prev, start }
}

/// The decimal numerals of `ids`, in order.
pub fn id_values(ids: &Vec<usize>) -> (values: Vec<String>)
    ensures
        strings_view(values@) == numerals(ids@),
{
    let mut values: Vec<String> = Vec::new();
    let n = ids.len();
    let mut k: usize = 0;
    while k < n
        invariant
            k <= n,
            n == ids@.len(),
            values@.len() == k,
            forall|j: int| 0 <= j < k ==> values@[j]@ == decimal(ids@[j] as nat),
        decreases n - k,
    {
        values.push(decimal_string(ids[k] as u64));
        k += 1;
    }
    values
}

/// The candidates that `reply` gives to the request `asked`. A request that
/// was not answered gives no candidates rather than an error.
pub fn candidates(asked: Request, reply: &Result<Reply, BridgeError>) -> (values: Vec<String>)
    ensures
        strings_view(values@) == candidates_of(asked, *reply),
{
    let values = match (asked, reply) {
        (Request::FetchInstanceId, Ok(Reply::InstanceId(ids))) => id_values(ids),
        (Request::FetchTaskIndex, Ok(Reply::TaskIndex(ids))) => id_values(ids),
        _ => Vec::new(),
    };
    values
}

/// Whether `n` begins with `prefix`.
pub open spec fn begins_with(prefix: Seq<char>) -> spec_fn(Seq<char>) -> bool {
    |n: Seq<char>| has_prefix(n, prefix)
}

/// `vals`, then each of the first `n` of `names` that was not yet there.
pub open spec fn merged(vals: Seq<Seq<char>>, names: Seq<Seq<char>>, n: int) -> Seq<Seq<char>>
    decreases n,
{
    if n <= 0 {
        vals
    } else {
        let before = merged(vals, names, n - 1);
        if before.contains(names[n - 1]) {
            before
        } else {
            before.push(names[n - 1])
        }
    }
}

/// Those of `names` that begin with `prefix`, in their order.
pub fn with_prefix(names: &Vec<String>, prefix: &str) -> (found: Vec<String>)
    ensures
        strings_view(found@) == strings_view(names@).filter(begins_with(prefix@)),
{
    let mut found: Vec<String> = Vec::new();
    let n = names.len();
    let mut k: usize = 0;
    while k < n
        invariant
            k <= n,
            n == names@.len(),
            strings_view(found@) == strings_view(names@).take(k as int).filter(
                begins_with(prefix@),
            ),
        decreases n - k,
    {
        proof {
            let all = strings_view(names@);
            reveal(Seq::filter);
            assert(all.take(k + 1).drop_last() =~= all.take(k as int));
        }
        if starts_with(names[k].as_str(), prefix) {
            assert(strings_view(found@.push(names@[k as int])) =~= strings_view(found@).push(
                names@[k as int]@,
            ));
            found.push(names[k].clone());
        }
        k += 1;
    }
    assert(strings_view(names@).take(n as int) =~= strings_view(names@));
    found
}

/// Whether `name` is among `vals`.
pub fn holds(vals: &Vec<String>, name: &str) -> (b: bool)
    ensures
        b == strings_view(vals@).contains(name@),
{
    let n = vals.len();
    let mut k: usize = 0;
    while k < n
        invariant
            k <= n,
            n == vals@.len(),
            forall|j: int| 0 <= j < k ==> strings_view(vals@)[j] != name@,
        decreases n - k,
    {
        if str_eq(vals[k].as_str(), name) {
            assert(strings_view(vals@)[k as int] == name@);
            return true;
        }
        k += 1;
    }
    false
}

/// Adds to `vals` each of `names` that is not yet there, in their order.
pub fn add_unique(vals: &mut Vec<String>, names: Vec<String>)
    ensures
        strings_view(final(vals)@) == merged(
            strings_view(old(vals)@),
            strings_view(names@),
            names@.len() as int,
        ),
{
    let ghost all = names@;
    for name in it: names
        invariant
            it.seq() == all,
            strings_view(vals@) == merged(strings_view(old(vals)@), strings_view(all), it.index()),
    {
        if !holds(vals, name.as_str()) {
            vals.push(name);
        }
    }
}

/// The buffer into which the completion engine writes its candidates.
pub struct DeployShell<O> {
    w: Vec<String>,
    marker: PhantomData<O>,
}

impl<O> DeployShell<O> {
    /// The candidates written so far.
    pub closed spec fn words(&self) -> Seq<String> {
        self.w@
    }

    /// An empty buffer.
    pub fn new() -> (s: Self)
        ensures
            s.words().len() == 0,
    {
        Self { w: Vec::new(), marker: PhantomData }
    }

    /// Every kind of shell is served.
    pub fn is_avail(&self, name: &str) -> (b: bool)
        ensures
            b,
    {
        true
    }

    /// Replaces the candidates by `w`.
    pub fn set_buff(&mut self, w: Vec<String>)
        ensures
            final(self).words() == w@,
    {
        self.w = w;
    }

    /// Adds the name of a command.
    pub fn write_cmd(&mut self, name: &str)
        ensures
            strings_view(final(self).words()) == strings_view(old(self).words()).push(name@),
    {
        self.put(name);
    }

    /// Adds the name of an option.
    pub fn write_opt(&mut self, name: &str)
        ensures
            strings_view(final(self).words()) == strings_view(old(self).words()).push(name@),
    {
        self.put(name);
    }

    /// Adds the name of a positional.
    pub fn write_pos(&mut self, name: &str)
        ensures
            strings_view(final(self).words()) == strings_view(old(self).words()).push(name@),
    {
        self.put(name);
    }

    /// Adds a value.
    pub fn write_val(&mut self, val: &str)
        ensures
            strings_view(final(self).words()) == strings_view(old(self).words()).push(val@),
    {
        self.put(val);
    }

    /// Adds the value of an option written as `name=val`: the value alone.
    pub fn write_eq(&mut self, name: &str, val: &str)
        ensures
            strings_view(final(self).words()) == strings_view(old(self).words()).push(val@),
    {
        self.put(val);
    }

    /// Nothing is left to do at the end.
    pub fn finish(&mut self)
        ensures
            final(self).words() == old(self).words(),
    {
    }

    /// Hands the candidates out and leaves the buffer empty.
    pub fn take_buff(&mut self) -> (w: Option<Vec<String>>)
        ensures
            w matches Some(v) && v@ == old(self).words(),
            final(self).words().len() == 0,
    {
        let mut w: Vec<String> = Vec::new();
        std::mem::swap(&mut self.w, &mut w);
        Some(w)
    }

    fn put(&mut self, word: &str)
        ensures
            strings_view(final(self).words()) == strings_view(old(self).words()).push(word@),
    {
        self.w.push(word.to_owned());
    }
}

impl<O> Default for DeployShell<O> {
    fn default() -> (s: Self)
        ensures
            s.words().len() == 0,
    {
        Self::new()
    }
}

} // verus!

//! Listing the profiles and the instances.

use crate::manager::AppContext;
use crate::manager::SsInstance;
use crate::text::concat_str;
use crate::text::decimal;
use crate::text::decimal_string;
use crate::text::lemma_decimal_plain;
use crate::text::no_escape;
use crate::text::strings_view;
use vstd::prelude::*;

verus! {

/// `list`: show the running instances, or the loaded profiles.
#[derive(Debug)]
pub struct List {
    /// Show the loaded profiles instead of the instances.
    pub local: bool,
}

/// What a listing shows.
#[derive(Debug)]
pub struct Listing {
    /// The rows of the table of instances, the head row first; empty for a
    /// listing of profiles.
    pub rows: Vec<Vec<String>>,
    /// The text to print.
    pub text: String,
}

/// The cells of each row.
pub open spec fn rows_view(rows: Seq<Vec<String>>) -> Seq<Seq<Seq<char>>> {
    Seq::new(rows.len(), |k: int| strings_view(rows[k]@))
}

/// The text that `prettytable` draws for a table of these rows, drawn in its
/// default format and without titles.
pub uninterp spec fn table_text(rows: Seq<Seq<Seq<char>>>) -> Seq<char>;

/// Whether no cell of `rows` holds the character that starts a terminal
/// escape sequence.
pub open spec fn plain_rows(rows: Seq<Seq<Seq<char>>>) -> bool {
    forall|i: int, j: int|
        0 <= i < rows.len() && 0 <= j < rows[i].len() ==> no_escape(#[trigger] rows[i][j])
}

/// Draws a table with `prettytable`: `Table::new`, one `add_row` of
/// `Row::from` for each of `rows`, then the table's `to_string`. The text is
/// a function of the cells alone; line ends are `\n`. Cells with a terminal
/// escape character are left out, since the crate's width computation is
/// not total on them.
#[verifier::external_body]
fn draw_table(rows: &Vec<Vec<String>>) -> (text: String)
    requires
        plain_rows(rows_view(rows@)),
    ensures
        text@ == table_text(rows_view(rows@)),
{
    let mut table = prettytable::Table::new();
    for row in rows {
        table.add_row(prettytable::Row::from(row));
    }
    table.to_string()
}

/// The head row of the table of instances.
pub open spec fn head_row() -> Seq<Seq<char>> {
    seq!["Config"@, "Shadowsock"@, "Kcptun"@]
}

/// How the id of a process is shown: the number, or nothing where the
/// process has none.
pub open spec fn shown_pid(pid: Option<u32>) -> Seq<char> {
    match pid {
        Some(p) => decimal(p as nat),
        None => Seq::empty(),
    }
}

/// How the secondary process is shown: whether there is one, and if so,
/// whether it has a process id, and which.
pub open spec fn shown_kcp(kcp: Option<Option<u32>>) -> Seq<char> {
    match kcp {
        None => "None"@,
        Some(None) => "Some(None)"@,
        Some(Some(p)) => "Some(Some("@ + decimal(p as nat) + "))"@,
    }
}

/// The row of an instance: its id, the process id of its primary process
/// and that of its secondary process.
pub open spec fn row_of(id: usize, ss: Option<u32>, kcp: Option<Option<u32>>) -> Seq<Seq<char>> {
    seq![decimal(id as nat), shown_pid(ss), shown_kcp(kcp)]
}

/// Whether `row` is the row of `inst`, with the process ids that `pid_of`
/// gives for its handles.
pub open spec fn is_row_of<H, F: Fn(&H) -> Option<u32>>(
    pid_of: F,
    inst: SsInstance<H>,
    row: Seq<Seq<char>>,
) -> bool {
    exists|ss: Option<u32>, kcp: Option<Option<u32>>|
        {
            &&& call_ensures(pid_of, (&inst.ss,), ss)
            &&& match inst.kcp {
                Some(h) => kcp is Some && call_ensures(pid_of, (&h,), kcp->0),
                None => kcp is None,
            }
            &&& row == #[trigger] row_of(inst.id, ss, kcp)
        }
}

/// The text of a listing of profiles: a head line, then for each block, in
/// order, a line with its index, the block and a rule, each line ended by a
/// line feed.
pub open spec fn profiles_text(blocks: Seq<String>, n: int) -> Seq<char>
    decreases n,
{
    if n <= 0 {
        "-------------------CONFIG------------------------\n"@
    } else {
        profiles_text(blocks, n - 1) + "INDEX: "@ + decimal((n - 1) as nat) + "\n"@ + blocks[n
            - 1]@ + "\n-----------------------------------------------\n"@
    }
}

/// The row of an instance with these process ids.
pub fn instance_row(id: usize, ss: Option<u32>, kcp: Option<Option<u32>>) -> (row: Vec<String>)
    ensures
        strings_view(row@) == row_of(id, ss, kcp),
        forall|j: int| 0 <= j < row@.len() ==> no_escape(#[trigger] row@[j]@),
{
    proof {
        reveal_strlit("None");
        reveal_strlit("Some(None)");
        reveal_strlit("Some(Some(");
        reveal_strlit("))");
        lemma_decimal_plain(id as nat);
    }
    let mut row: Vec<String> = Vec::new();
    row.push(decimal_string(id as u64));
    row.push(
        match ss {
            Some(p) => {
                proof {
                    lemma_decimal_plain(p as nat);
                }
                decimal_string(p as u64)
            },
            None => String::new(),
        },
    );
    row.push(
        match kcp {
            None => "None".to_owned(),
            Some(None) => "Some(None)".to_owned(),
            Some(Some(p)) => {
                proof {
                    lemma_decimal_plain(p as nat);
                }
                let head = concat_str("Some(Some(", decimal_string(p as u64).as_str());
                concat_str(head.as_str(), "))")
            },
        },
    );
    row
}

/// The text of a listing of profiles, one rendered block for each.
pub fn profile_listing(blocks: &Vec<String>) -> (text: String)
    ensures
        text@ == profiles_text(blocks@, blocks@.len() as int),
{
    let mut text = "-------------------CONFIG------------------------\n".to_owned();
    let n = blocks.len();
    let mut k: usize = 0;
    while k < n
        invariant
            k <= n,
            n == blocks@.len(),
            text@ == profiles_text(blocks@, k as int),
        decreases n - k,
    {
        text.append("INDEX: ");
        text.append(decimal_string(k as u64).as_str());
        text.append("\n");
        text.append(blocks[k].as_str());
        text.append("\n-----------------------------------------------\n");
        k += 1;
    }
    text
}

impl<H> AppContext<H> {
    /// The rows of the table of instances: the head row, then one row for
    /// each instance, in the order of the registry. `pid_of` gives the
    /// process id of a handle.
    pub fn instance_rows<F: Fn(&H) -> Option<u32>>(&self, pid_of: F) -> (rows: Vec<Vec<String>>)
        requires
            forall|h: &H| call_requires(pid_of, (h,)),
        ensures
            rows@.len() == self.insts@.len() + 1,
            strings_view(rows@[0]@) == head_row(),
            forall|k: int|
                0 <= k < self.insts@.len() ==> is_row_of(
                    pid_of,
                    self.insts@[k],
                    #[trigger] strings_view(rows@[k + 1]@),
                ),
            plain_rows(rows_view(rows@)),
    {
        let mut head: Vec<String> = Vec::new();
        head.push("Config".to_owned());
        head.push("Shadowsock".to_owned());
        head.push("Kcptun".to_owned());
        proof {
            reveal_strlit("Config");
            reveal_strlit("Shadowsock");
            reveal_strlit("Kcptun");
        }
        let mut rows: Vec<Vec<String>> = Vec::new();
        rows.push(head);
        let n = self.insts.len();
        let mut k: usize = 0;
        while k < n
            invariant
                k <= n,
                n == self.insts@.len(),
                rows@.len() == k + 1,
                strings_view(rows@[0]@) == head_row(),
                forall|h: &H| call_requires(pid_of, (h,)),
                forall|j: int|
                    0 <= j < k ==> is_row_of(
                        pid_of,
                        self.insts@[j],
                        #[trigger] strings_view(rows@[j + 1]@),
                    ),
                forall|i: int, j: int|
                    0 <= i < rows@.len() && 0 <= j < rows@[i]@.len() ==> no_escape(
                        #[trigger] rows@[i]@[j]@,
                    ),
            decreases n - k,
        {
            let inst = &self.insts[k];
            let ss = pid_of(&inst.ss);
            let kcp = match &inst.kcp {
                Some(h) => Some(pid_of(h)),
                None => None,
            };
            let row = instance_row(inst.id, ss, kcp);
            assert(is_row_of(pid_of, self.insts@[k as int], strings_view(row@)));
            rows.push(row);
            k += 1;
        }
        assert(plain_rows(rows_view(rows@))) by {
            assert forall|i: int, j: int|
                0 <= i < rows_view(rows@).len() && 0 <= j < rows_view(rows@)[i].len() implies no_escape(
                #[trigger] rows_view(rows@)[i][j],
            ) by {}
        }
        rows
    }
}

impl List {
    /// Renders what the command shows; printing it is left to the caller.
    ///
    /// With `local`, the listing of the profiles, made of `blocks`, the
    /// rendered profiles in load order. Otherwise the table of the running
    /// instances, one row for each, in the order of the registry.
    pub fn invoke_cmd<H, F: Fn(&H) -> Option<u32>>(
        &self,
        ac: &AppContext<H>,
        pid_of: F,
        blocks: &Vec<String>,
    ) -> (l: Listing)
        requires
            forall|h: &H| call_requires(pid_of, (h,)),
        ensures
            self.local ==> l.rows@.len() == 0 && l.text@ == profiles_text(
                blocks@,
                blocks@.len() as int,
            ),
            !self.local ==> {
                &&& l.rows@.len() == ac.insts@.len() + 1
                &&& strings_view(l.rows@[0]@) == head_row()
                &&& forall|k: int|
                    0 <= k < ac.insts@.len() ==> is_row_of(
                        pid_of,
                        ac.insts@[k],
                        #[trigger] strings_view(l.rows@[k + 1]@),
                    )
                &&& l.text@ == table_text(rows_view(l.rows@))
            },
    {
        if self.local {
            Listing { rows: Vec::new(), text: profile_listing(blocks) }
        } else {
            let rows = ac.instance_rows(pid_of);
            let text = draw_table(&rows);
            Listing { rows, text }
        }
    }
}

} // verus!

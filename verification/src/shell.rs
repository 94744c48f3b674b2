//! The command loop, one message at a time.
//!
//! Two sources feed the loop: the line editor, which is armed for one line
//! at a time, and the completion engine. A line is worked off before the
//! editor is armed again, so that commands never overlap.

use crate::manager::ids_of;
use crate::manager::indices;
use crate::manager::AppContext;
use crate::manager::Reply;
use crate::manager::Request;
use crate::splitted::args_of;
use crate::splitted::split;
use crate::splitted::Splitted;
use crate::text::strings_view;
use vstd::prelude::*;

verus! {

/// What reaches the command loop.
#[derive(Debug)]
pub enum Message {
    /// The operator interrupted the line editor.
    Interrupted,
    /// A line was entered.
    Line(String),
    /// The line editor failed; the text says how.
    Report(String),
    /// The completion engine asks for live state.
    Request(Request),
}

/// What the command loop does about a message.
#[derive(Debug)]
pub enum Step {
    /// Run the command with these arguments.
    Run(Vec<String>),
    /// Leave the loop.
    Stop,
    /// Show the text to the operator.
    Show(String),
    /// Send the reply to the completion engine.
    Answer(Reply),
}

/// The command loop's own state.
#[derive(Debug)]
pub struct Shell {
    /// Whether the line editor is to be armed before the next message is awaited.
    pub ready_readline: bool,
}

impl Shell {
    /// The loop before its first message: the line editor is to be armed.
    pub fn new() -> (s: Self)
        ensures
            s.ready_readline,
    {
        Shell { ready_readline: true }
    }

    /// Whether the line editor is to be armed now. It is armed at most once
    /// until a line or a report has come back from it.
    pub fn arm(&mut self) -> (armed: bool)
        ensures
            armed == old(self).ready_readline,
            !final(self).ready_readline,
    {
        let armed = self.ready_readline;
        self.ready_readline = false;
        armed
    }

    /// What to do about `msg`. A line is cut into its arguments, and the
    /// line editor is due again once the step is done; so it is after a
    /// report. A request is answered from the state as it is, and an
    /// interrupt ends the loop; neither arms the line editor.
    pub fn on_message<H>(&mut self, ctx: &AppContext<H>, msg: Message) -> (step: Step)
        ensures
            match msg {
                Message::Line(line) => {
                    &&& step matches Step::Run(args) && strings_view(args@) == args_of(
                        split(line@),
                        None,
                    )
                    &&& final(self).ready_readline
                },
                Message::Interrupted => {
                    &&& step is Stop
                    &&& final(self).ready_readline == old(self).ready_readline
                },
                Message::Report(text) => {
                    &&& step == Step::Show(text)
                    &&& final(self).ready_readline
                },
                Message::Request(req) => {
                    &&& final(self).ready_readline == old(self).ready_readline
                    &&& match req {
                        Request::FetchInstanceId => step matches Step::Answer(Reply::InstanceId(ids))
                            && ids@ == ids_of(ctx.insts@),
                        Request::FetchTaskIndex => step matches Step::Answer(Reply::TaskIndex(ids))
                            && ids@ == indices(ctx.cfgs@.len()),
                    }
                },
            },
    {
        match msg {
            Message::Line(line) => {
                let words = Splitted::new(line.as_str()).split_args(None).args;
                let mut args: Vec<String> = Vec::new();
                let n = words.len();
                let mut k: usize = 0;
                while k < n
                    invariant
                        k <= n,
                        n == words@.len(),
                        args@.len() == k,
                        forall|j: int| 0 <= j < k ==> args@[j]@ == words@[j]@,
                    decreases n - k,
                {
                    args.push(words[k].to_owned());
                    k += 1;
                }
                self.ready_readline = true;
                Step::Run(args)
            },
            Message::Interrupted => Step::Stop,
            Message::Report(text) => {
                self.ready_readline = true;
                Step::Show(text)
            },
            Message::Request(req) => Step::Answer(ctx.reply(req)),
        }
    }
}

} // verus!

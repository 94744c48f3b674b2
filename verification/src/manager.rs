//! The session's state and the commands that act on it.
//!
//! The state owns the loaded profiles and the registry of running instances.
//! Each command decides here what has to happen; starting and stopping the
//! processes themselves is left to the caller, who owns the operating system.

pub mod help;
pub mod kill;
pub mod list;
pub mod load;
pub mod start;

use crate::config::DeployConfig;
use crate::manager::help::Help;
use crate::manager::kill::Kill;
use crate::manager::list::List;
use crate::manager::load::Load;
use crate::manager::start::Start;
use vstd::prelude::*;

verus! {

/// A running pair of processes. `H` is the handle by which the caller
/// reaches a process; an instance owns its handles.
#[derive(Debug)]
pub struct SsInstance<H> {
    /// Index of the profile that the instance was started from.
    pub id: usize,
    /// The primary process.
    pub ss: H,
    /// The secondary process, if one was started.
    pub kcp: Option<H>,
}

/// The state of a session: the loaded profiles and the running instances,
/// in the order in which they were started.
#[derive(Debug)]
pub struct AppContext<H> {
    pub cfgs: Vec<DeployConfig>,
    pub insts: Vec<SsInstance<H>>,
}

/// What the completion engine asks of the session.
#[derive(Clone, Copy, Debug, PartialEq, Eq, Structural)]
pub enum Request {
    /// The ids of the running instances.
    FetchInstanceId,
    /// The indices of the loaded profiles.
    FetchTaskIndex,
}

/// What the session answers.
#[derive(Debug)]
pub enum Reply {
    InstanceId(Vec<usize>),
    TaskIndex(Vec<usize>),
}

/// A parsed command line: at most one of the commands is present.
#[derive(Debug)]
pub struct Manager {
    pub list: Option<List>,
    pub kill: Option<Kill>,
    pub load: Option<Load>,
    pub start: Option<Start>,
    pub help: Option<Help>,
}

/// The command that a line asks for.
#[derive(Debug)]
pub enum Command {
    List(List),
    Kill(Kill),
    Load(Load),
    Start(Start),
    Help(Help),
    /// The line named no command.
    Nothing,
}

/// The ids of `insts`, in order.
pub open spec fn ids_of<H>(insts: Seq<SsInstance<H>>) -> Seq<usize> {
    Seq::new(insts.len(), |k: int| insts[k].id)
}

/// The indices `0, 1, ..` below `n`.
pub open spec fn indices(n: nat) -> Seq<usize> {
    Seq::new(n, |k: int| k as usize)
}

impl<H> AppContext<H> {
    /// A session with no profile and no instance.
    pub fn new() -> (ac: Self)
        ensures
            ac.cfgs@.len() == 0,
            ac.insts@.len() == 0,
    {
        AppContext { cfgs: Vec::new(), insts: Vec::new() }
    }

    /// Enters a started pair into the registry, behind the instances that
    /// are already there; several instances may run under one id. Profiles
    /// and the other instances stay as they are.
    pub fn register(&mut self, id: usize, ss: H, kcp: Option<H>)
        ensures
            final(self).insts@ == old(self).insts@.push(SsInstance { id, ss, kcp }),
            final(self).cfgs == old(self).cfgs,
    {
        self.insts.push(SsInstance { id, ss, kcp });
    }

    /// Takes in what came of starting a pair under `id`. A pair that was
    /// started is entered into the registry; a failure is handed on and
    /// leaves the registry as it is. The profiles stay as they are.
    pub fn started<E>(&mut self, id: usize, spawned: Result<(H, Option<H>), E>) -> (r: Result<
        (),
        E,
    >)
        ensures
            final(self).cfgs == old(self).cfgs,
            match spawned {
                Ok((ss, kcp)) => r is Ok && final(self).insts@ == old(self).insts@.push(
                    SsInstance { id, ss, kcp },
                ),
                Err(e) => r == Err::<(), E>(e) && final(self).insts == old(self).insts,
            },
    {
        match spawned {
            Ok((ss, kcp)) => {
                self.register(id, ss, kcp);
                Ok(())
            },
            Err(e) => Err(e),
        }
    }

    /// The ids of the running instances, in the order of the registry.
    pub fn instance_ids(&self) -> (ids: Vec<usize>)
        ensures
            ids@ == ids_of(self.insts@),
    {
        let mut ids: Vec<usize> = Vec::new();
        let n = self.insts.len();
        let mut k: usize = 0;
        while k < n
            invariant
                k <= n,
                n == self.insts@.len(),
                ids@ == ids_of(self.insts@.take(k as int)),
            decreases n - k,
        {
            ids.push(self.insts[k].id);
            k += 1;
        }
        ids
    }

    /// The indices of the loaded profiles: `0` up to their number.
    pub fn task_indices(&self) -> (ids: Vec<usize>)
        ensures
            ids@ == indices(self.cfgs@.len()),
    {
        let mut ids: Vec<usize> = Vec::new();
        let n = self.cfgs.len();
        let mut k: usize = 0;
        while k < n
            invariant
                k <= n,
                n == self.cfgs@.len(),
                ids@ == indices(k as nat),
            decreases n - k,
        {
            ids.push(k);
            k += 1;
        }
        ids
    }

    /// Answers a request of the completion engine from the state as it is now.
    pub fn reply(&self, req: Request) -> (r: Reply)
        ensures
            match req {
                Request::FetchInstanceId => r matches Reply::InstanceId(ids) && ids@ == ids_of(
                    self.insts@,
                ),
                Request::FetchTaskIndex => r matches Reply::TaskIndex(ids) && ids@ == indices(
                    self.cfgs@.len(),
                ),
            },
    {
        match req {
            Request::FetchInstanceId => Reply::InstanceId(self.instance_ids()),
            Request::FetchTaskIndex => Reply::TaskIndex(self.task_indices()),
        }
    }
}

impl<H> Default for AppContext<H> {
    fn default() -> (ac: Self)
        ensures
            ac.cfgs@.len() == 0,
            ac.insts@.len() == 0,
    {
        Self::new()
    }
}

impl Manager {
    /// The command of the line. Where several are present, `list` goes
    /// before `kill`, then `load`, `start` and `help`.
    pub fn invoke_cmd(self) -> (c: Command)
        ensures
            c == (match (self.list, self.kill, self.load, self.start, self.help) {
                (Some(list), _, _, _, _) => Command::List(list),
                (None, Some(kill), _, _, _) => Command::Kill(kill),
                (None, None, Some(load), _, _) => Command::Load(load),
                (None, None, None, Some(start), _) => Command::Start(start),
                (None, None, None, None, Some(help)) => Command::Help(help),
                (None, None, None, None, None) => Command::Nothing,
            }),
    {
        if let Some(list) = self.list {
            Command::List(list)
        } else if let Some(kill) = self.kill {
            Command::Kill(kill)
        } else if let Some(load) = self.load {
            Command::Load(load)
        } else if let Some(start) = self.start {
            Command::Start(start)
        } else if let Some(help) = self.help {
            Command::Help(help)
        } else {
            Command::Nothing
        }
    }
}

} // verus!

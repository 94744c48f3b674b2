//! Help on a command.

use crate::text::str_eq;
use vstd::prelude::*;

verus! {

/// `help`: show how a command is used.
#[derive(Debug)]
pub struct Help {
    /// Name of the command.
    pub name: String,
}

/// A command that help can be shown of.
#[derive(Clone, Copy, Debug, PartialEq, Eq, Structural)]
pub enum Topic {
    Kill,
    List,
    Load,
    Start,
}

/// The name is that of no command.
#[derive(Debug)]
pub struct UnknownCommand {}

/// The command of this name, if there is one.
pub open spec fn topic_of(name: Seq<char>) -> Option<Topic> {
    if name == "kill"@ {
        Some(Topic::Kill)
    } else if name == "list"@ {
        Some(Topic::List)
    } else if name == "load"@ {
        Some(Topic::Load)
    } else if name == "start"@ {
        Some(Topic::Start)
    } else {
        None
    }
}

impl UnknownCommand {
    /// The message shown to the operator.
    pub fn message(&self) -> (s: String)
        ensures
            s@ == "Available commands are: kill, list, load, start"@,
    {
        "Available commands are: kill, list, load, start".to_owned()
    }
}

impl Help {
    /// The command whose help is to be shown; a name of no command is an error.
    pub fn invoke_cmd(&self) -> (r: Result<Topic, UnknownCommand>)
        ensures
            match r {
                Ok(t) => topic_of(self.name@) == Some(t),
                Err(_) => topic_of(self.name@) is None,
            },
    {
        let name = self.name.as_str();
        if str_eq(name, "kill") {
            Ok(Topic::Kill)
        } else if str_eq(name, "list") {
            Ok(Topic::List)
        } else if str_eq(name, "load") {
            Ok(Topic::Load)
        } else if str_eq(name, "start") {
            Ok(Topic::Start)
        } else {
            Err(UnknownCommand {  })
        }
    }
}

} // verus!

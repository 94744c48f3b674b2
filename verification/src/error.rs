//! What can go wrong in the library.

use crate::text::concat_str;
use crate::text::decimal;
use crate::text::decimal_string;
use vstd::prelude::*;

verus! {

/// A configuration could not be resolved.
#[derive(Debug)]
pub enum ConfigError {
    /// The text names no cipher method.
    UnknownMethod(String),
    /// No profile is loaded under this index.
    NoProfile(usize),
    /// A configuration file was given, but no port could be read from it.
    UnreadableConfig(String),
    /// A path names a variable that cannot be looked up.
    UnknownVariable(String),
}

/// No running instance has this id.
#[derive(Debug)]
pub struct NotFoundError {
    pub id: usize,
}

/// A request over the bridge was not answered.
#[derive(Clone, Copy, Debug, PartialEq, Eq, Structural)]
pub enum BridgeError {
    /// The request could not be handed over: the other side is gone.
    SendFailed,
    /// The other side went away before it answered.
    Closed,
}

/// What the message of `e` says.
pub open spec fn config_message(e: ConfigError) -> Seq<char> {
    match e {
        ConfigError::UnknownMethod(val) => "Unknown crypt method: "@ + val@,
        ConfigError::NoProfile(_) =>
            "Index out of bound, load the configurations using command `load`"@,
        ConfigError::UnreadableConfig(path) => "Can not read the port from `"@ + path@ + "`"@,
        ConfigError::UnknownVariable(name) => "Can not look up the variable `"@ + name@ + "`"@,
    }
}

impl ConfigError {
    /// The message shown to the operator.
    pub fn message(&self) -> (s: String)
        ensures
            s@ == config_message(*self),
    {
        match self {
            ConfigError::UnknownMethod(val) => concat_str("Unknown crypt method: ", val.as_str()),
            ConfigError::NoProfile(_) => {
                "Index out of bound, load the configurations using command `load`".to_owned()
            },
            ConfigError::UnreadableConfig(path) => {
                let head = concat_str("Can not read the port from `", path.as_str());
                concat_str(head.as_str(), "`")
            },
            ConfigError::UnknownVariable(name) => {
                let head = concat_str("Can not look up the variable `", name.as_str());
                concat_str(head.as_str(), "`")
            },
        }
    }
}

impl NotFoundError {
    /// The message shown to the operator.
    pub fn message(&self) -> (s: String)
        ensures
            s@ == "Invalid id `"@ + decimal(self.id as nat) + "`, no instance found"@,
    {
        let id = decimal_string(self.id as u64);
        let head = concat_str("Invalid id `", id.as_str());
        concat_str(head.as_str(), "`, no instance found")
    }
}

impl BridgeError {
    /// The message kept for diagnostics.
    pub fn message(&self) -> (s: String)
        ensures
            s@ == (match *self {
                BridgeError::SendFailed => "send msg failed"@,
                BridgeError::Closed => "can not receive msg "@,
            }),
    {
        match self {
            BridgeError::SendFailed => "send msg failed".to_owned(),
            BridgeError::Closed => "can not receive msg ".to_owned(),
        }
    }
}

} // verus!

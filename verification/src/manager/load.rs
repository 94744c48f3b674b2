//! Loading the profiles.

use crate::config::DeployConfig;
use crate::error::ConfigError;
use crate::expand::expand;
use crate::expand::kept_as_written;
use crate::manager::AppContext;
use vstd::prelude::*;

verus! {

/// The profile file that is read where none is named.
pub const DEFAULT_CONFIG: &'static str = "~/shadowsocks.json";

/// `load`: read the profiles from a file.
#[derive(Debug)]
pub struct Load {
    /// Path of the profile file.
    pub config: Option<String>,
}

impl Load {
    /// The path as it is written: the one given, or else the default.
    pub open spec fn written(self) -> Seq<char> {
        match self.config {
            Some(c) => c@,
            None => DEFAULT_CONFIG@,
        }
    }

    /// The path as it is written: the one given, or else the default.
    pub fn path(&self) -> (p: &str)
        ensures
            p@ == self.written(),
    {
        match &self.config {
            Some(c) => c.as_str(),
            None => DEFAULT_CONFIG,
        }
    }

    /// The file to read the profiles from: the written path, expanded. A
    /// variable in it that cannot be looked up is an error; a path with
    /// nothing to expand is kept.
    pub fn invoke_cmd(&self) -> (r: Result<String, ConfigError>)
        ensures
            match r {
                Ok(path) => kept_as_written(self.written()) ==> path@ == self.written(),
                Err(e) => e is UnknownVariable && !kept_as_written(self.written()),
            },
    {
        match expand(self.path()) {
            Ok(path) => Ok(path),
            Err(name) => Err(ConfigError::UnknownVariable(name)),
        }
    }
}

impl<H> AppContext<H> {
    /// Replaces the loaded profiles by `cfgs`. The instances stay as they are.
    pub fn load(&mut self, cfgs: Vec<DeployConfig>)
        ensures
            final(self).cfgs == cfgs,
            final(self).insts == old(self).insts,
    {
        self.cfgs = cfgs;
    }
}

} // verus!

//! Starting an instance: from a profile and the overrides of one call to
//! what the two processes are launched with.
//!
//! A value given with the call goes before the value stored in the profile.
//! A configuration file given with the call goes before both: it is handed
//! to the primary process as it is, and the port is read back from it.

use crate::config::crypt_name;
use crate::config::mode_name;
use crate::config::DeployConfig;
use crate::config::KcpConfig;
use crate::config::KcpMode;
use crate::config::Method;
use crate::config::SsConfig;
use crate::error::ConfigError;
use crate::expand::expand;
use crate::expand::kept_as_written;
use crate::manager::AppContext;
use crate::text::concat_str;
use crate::text::decimal;
use crate::text::decimal_string;
use crate::text::strings_view;
use vstd::prelude::*;

verus! {

/// `start`: launch the processes of a profile.
#[derive(Debug)]
pub struct Start {
    /// Path of the primary binary.
    pub bin: Option<String>,
    /// Path of a configuration file for the primary process.
    pub config: Option<String>,
    /// Port of the primary process.
    pub port: Option<u32>,
    /// Shared secret of the primary process.
    pub password: Option<String>,
    /// Timeout of the primary process.
    pub timeout: Option<u32>,
    /// Cipher of the primary process.
    pub method: Option<Method>,
    /// Switch fast open on.
    pub fast_open: bool,
    /// Where the output of the primary process goes.
    pub out_log: Option<String>,
    /// Where the errors of the primary process go.
    pub err_log: Option<String>,
    /// Path of the secondary binary.
    pub kcp: Option<String>,
    /// Start the secondary process too.
    pub enable_kcp: bool,
    /// Port on which the secondary process listens.
    pub listen: Option<u32>,
    /// Send window of the secondary process.
    pub send_wnd: Option<u32>,
    /// Receive window of the secondary process.
    pub recv_wnd: Option<u32>,
    /// MTU of the secondary process.
    pub mtu: Option<u32>,
    /// DSCP marking of the secondary process.
    pub dscp: Option<u32>,
    /// Data shards of the secondary process.
    pub data_shard: Option<u32>,
    /// Parity shards of the secondary process.
    pub parity_shard: Option<u32>,
    /// Congestion mode of the secondary process.
    pub mode: Option<KcpMode>,
    /// Switch compression on.
    pub compress: bool,
    /// Where the errors of the secondary process go.
    pub kcp_log: Option<String>,
    /// Index of the profile.
    pub index: usize,
}

/// Where the primary process takes its configuration from.
#[derive(Debug)]
pub enum ConfigSource {
    /// A file given with the call, handed on as it is. Nothing is written.
    External { path: String },
    /// The resolved configuration, to be written under this name into the
    /// directory for temporary files.
    Resolved { file_name: String, cfg: SsConfig },
}

/// How the primary process is launched.
#[derive(Debug)]
pub struct Launch {
    /// The binary.
    pub bin: String,
    /// Its configuration.
    pub config: ConfigSource,
    /// File that takes its output, if any.
    pub out_log: Option<String>,
    /// File that takes its errors, if any.
    pub err_log: Option<String>,
}

/// How the secondary process is launched.
#[derive(Debug)]
pub struct KcpLaunch {
    /// The binary.
    pub bin: String,
    /// Its arguments.
    pub args: Vec<String>,
    /// File that takes its errors, if any.
    pub log: Option<String>,
}

/// The value given with the call, or else the stored one.
pub open spec fn or_stored<T>(given: Option<T>, stored: T) -> T {
    match given {
        Some(v) => v,
        None => stored,
    }
}

/// The path of a log as it is written: the one given with the call, or else
/// the stored one.
pub open spec fn log_written(given: Option<String>, stored: Option<String>) -> Option<String> {
    match given {
        Some(p) => Some(p),
        None => stored,
    }
}

/// Name of the file that holds the resolved configuration of profile
/// `index`. Starting a profile again writes the same file again.
pub open spec fn config_file_name(index: usize) -> Seq<char> {
    "ss_config_"@ + decimal(index as nat) + ".json"@
}

/// The arguments of the primary process: the path of its configuration file.
pub open spec fn primary_args_of(config_path: Seq<char>) -> Seq<Seq<char>> {
    seq!["-c"@, config_path]
}

/// The arguments of the primary process for the configuration at `config_path`.
pub fn primary_args(config_path: &str) -> (args: Vec<String>)
    ensures
        strings_view(args@) == primary_args_of(config_path@),
{
    let mut args: Vec<String> = Vec::new();
    args.push("-c".to_owned());
    args.push(config_path.to_owned());
    args
}

/// The value given with the call, or else the stored one.
fn text_or(given: &Option<String>, stored: &String) -> (r: String)
    ensures
        r == or_stored(*given, *stored),
{
    match given {
        Some(v) => v.clone(),
        None => stored.clone(),
    }
}

/// The value given with the call, or else the stored one.
fn number_or(given: Option<u32>, stored: u32) -> (r: u32)
    ensures
        r == or_stored(given, stored),
{
    match given {
        Some(v) => v,
        None => stored,
    }
}

/// Whether `log` is what the path of a log was expanded to: there is a log
/// only where a path is written, and a path with nothing to expand is kept.
pub open spec fn log_of(written: Option<String>, log: Option<String>) -> bool {
    match written {
        Some(p) => kept_as_written(p@) ==> (log matches Some(l) && l@ == p@),
        None => log is None,
    }
}

/// Expands a log path; a path that cannot be expanded counts as none.
fn expand_log(path: Option<&String>) -> (r: Option<String>)
    ensures
        log_of(
            match path {
                Some(p) => Some(*p),
                None => None,
            },
            r,
        ),
{
    match path {
        Some(p) => match expand(p.as_str()) {
            Ok(expanded) => Some(expanded),
            Err(_) => None,
        },
        None => None,
    }
}

impl Launch {
    /// The port of the primary process. A resolved configuration knows its
    /// port. With a file given by the caller the port is the one read back
    /// from that file, and a file from which none could be read is an error.
    pub fn port(&self, read_back: Option<u32>) -> (r: Result<u32, ConfigError>)
        ensures
            match self.config {
                ConfigSource::Resolved { file_name, cfg } => r == Ok::<u32, ConfigError>(
                    cfg.server_port,
                ),
                ConfigSource::External { path } => match read_back {
                    Some(port) => r == Ok::<u32, ConfigError>(port),
                    None => r matches Err(ConfigError::UnreadableConfig(p)) && p == path,
                },
            },
    {
        match &self.config {
            ConfigSource::Resolved { file_name, cfg } => Ok(cfg.server_port),
            ConfigSource::External { path } => match read_back {
                Some(port) => Ok(port),
                None => Err(ConfigError::UnreadableConfig(path.clone())),
            },
        }
    }
}

impl Start {
    /// The configuration of the primary process: each value given with the
    /// call, or else the stored one; fast open if either asks for it.
    pub open spec fn resolved(self, stored: SsConfig) -> SsConfig {
        SsConfig {
            server: stored.server,
            server_port: or_stored(self.port, stored.server_port),
            password: or_stored(self.password, stored.password),
            timeout: or_stored(self.timeout, stored.timeout),
            method: or_stored(self.method, stored.method),
            fast_open: self.fast_open || stored.fast_open,
        }
    }

    /// The port on which the secondary process listens: the one given with
    /// the call, or else the port after that of the primary process.
    pub open spec fn listen_port(self, server_port: u32) -> nat {
        match self.listen {
            Some(port) => port as nat,
            None => (server_port + 1) as nat,
        }
    }

    /// Whether the secondary process is told not to compress.
    pub open spec fn no_comp(self, stored: KcpConfig) -> bool {
        !self.compress || stored.comp
    }

    /// The arguments of the secondary process in front of a primary process
    /// on `server_port`.
    pub open spec fn kcp_args_of(self, stored: KcpConfig, server_port: u32) -> Seq<Seq<char>> {
        seq![
            "-l"@,
            ":"@ + decimal(self.listen_port(server_port)),
            "-t"@,
            stored.server@ + ":"@ + decimal(server_port as nat),
            "-crypt"@,
            crypt_name(stored.crypt),
            "-key"@,
            stored.key@,
            "-sndwnd"@,
            decimal(or_stored(self.send_wnd, stored.send_wnd) as nat),
            "-rcvwnd"@,
            decimal(or_stored(self.recv_wnd, stored.recv_wnd) as nat),
            "-dscp"@,
            decimal(or_stored(self.dscp, stored.dscp) as nat),
            "-datashard"@,
            decimal(or_stored(self.data_shard, stored.data_shard) as nat),
            "-parityshard"@,
            decimal(or_stored(self.parity_shard, stored.parity_shard) as nat),
            "-mode"@,
            mode_name(or_stored(self.mode, stored.mode)),
            "-mtu"@,
            decimal(or_stored(self.mtu, stored.mtu) as nat),
        ] + (if self.no_comp(stored) {
            seq!["-nocomp"@]
        } else {
            Seq::<Seq<char>>::empty()
        })
    }

    /// Whether `l` launches the primary process of `profile` under this
    /// call from these expanded paths: `config` is the expanded path of the
    /// configuration file given with the call, if one was given.
    pub open spec fn launches(
        self,
        profile: DeployConfig,
        bin: String,
        config: Option<String>,
        out_log: Option<String>,
        err_log: Option<String>,
        l: Launch,
    ) -> bool {
        &&& l.bin == bin
        &&& match config {
            Some(path) => l.config == (ConfigSource::External { path }),
            None => l.config matches ConfigSource::Resolved { file_name, cfg } && file_name@
                == config_file_name(self.index) && cfg == self.resolved(profile.ss_cfg),
        }
        &&& l.out_log == out_log
        &&& l.err_log == err_log
    }

    /// Whether `l` is a launch of the primary process of `profile` under
    /// this call, whatever its paths were expanded to: the configuration
    /// file is handed on if one was given, else the configuration is the
    /// resolved one under the name of the index; a log is set only where
    /// the call or the profile names one; and a path that holds nothing to
    /// expand stands as it is written.
    pub open spec fn plans(self, profile: DeployConfig, l: Launch) -> bool {
        &&& kept_as_written(or_stored(self.bin, profile.bin)@) ==> l.bin@ == or_stored(
            self.bin,
            profile.bin,
        )@
        &&& match self.config {
            Some(c) => l.config matches ConfigSource::External { path } && (kept_as_written(c@)
                ==> path@ == c@),
            None => l.config matches ConfigSource::Resolved { file_name, cfg } && file_name@
                == config_file_name(self.index) && cfg == self.resolved(profile.ss_cfg),
        }
        &&& log_of(log_written(self.out_log, profile.out_log), l.out_log)
        &&& log_of(log_written(self.err_log, profile.err_log), l.err_log)
    }

    /// Whether nothing in the paths of the primary binary and of the
    /// configuration file has to be expanded.
    pub open spec fn written_out(self, profile: DeployConfig) -> bool {
        &&& kept_as_written(or_stored(self.bin, profile.bin)@)
        &&& self.config matches Some(c) ==> kept_as_written(c@)
    }

    /// The path of the primary binary as it is written: the one given with
    /// the call, or else the stored one.
    pub fn bin_path<'a>(&'a self, profile: &'a DeployConfig) -> (r: &'a str)
        ensures
            r@ == or_stored(self.bin, profile.bin)@,
    {
        match &self.bin {
            Some(b) => b.as_str(),
            None => profile.bin.as_str(),
        }
    }

    /// The path of the secondary binary as it is written: the one given
    /// with the call, or else the stored one.
    pub fn kcp_path<'a>(&'a self, profile: &'a DeployConfig) -> (r: &'a str)
        ensures
            r@ == or_stored(self.kcp, profile.kcp)@,
    {
        match &self.kcp {
            Some(b) => b.as_str(),
            None => profile.kcp.as_str(),
        }
    }

    /// The path of a log as it is written: the one given with the call, or
    /// else the stored one.
    pub fn log_path<'a>(given: &'a Option<String>, stored: &'a Option<String>) -> (r: Option<
        &'a String,
    >)
        ensures
            match r {
                Some(p) => log_written(*given, *stored) == Some(*p),
                None => log_written(*given, *stored) is None,
            },
    {
        match given {
            Some(p) => Some(p),
            None => stored.as_ref(),
        }
    }

    /// How the primary process of `profile` is launched under this call,
    /// from the paths as they were expanded. With a configuration file the
    /// file is handed on; without one the configuration is resolved and
    /// named after the index.
    pub fn launch(
        &self,
        profile: &DeployConfig,
        bin: String,
        config: Option<String>,
        out_log: Option<String>,
        err_log: Option<String>,
    ) -> (l: Launch)
        ensures
            self.launches(*profile, bin, config, out_log, err_log, l),
    {
        let config = match config {
            Some(path) => ConfigSource::External { path },
            None => ConfigSource::Resolved {
                file_name: self.file_name(),
                cfg: self.resolve(&profile.ss_cfg),
            },
        };
        Launch { bin, config, out_log, err_log }
    }

    /// The configuration of the primary process.
    pub fn resolve(&self, stored: &SsConfig) -> (cfg: SsConfig)
        ensures
            cfg == self.resolved(*stored),
    {
        SsConfig {
            server: stored.server.clone(),
            server_port: number_or(self.port, stored.server_port),
            password: text_or(&self.password, &stored.password),
            timeout: number_or(self.timeout, stored.timeout),
            method: match self.method {
                Some(m) => m,
                None => stored.method,
            },
            fast_open: self.fast_open || stored.fast_open,
        }
    }

    /// Name of the file that the resolved configuration is written to.
    pub fn file_name(&self) -> (name: String)
        ensures
            name@ == config_file_name(self.index),
    {
        let number = decimal_string(self.index as u64);
        let head = concat_str("ss_config_", number.as_str());
        concat_str(head.as_str(), ".json")
    }

    /// The arguments of the secondary process in front of a primary process
    /// on `server_port`.
    pub fn kcp_args(&self, stored: &KcpConfig, server_port: u32) -> (args: Vec<String>)
        ensures
            strings_view(args@) == self.kcp_args_of(*stored, server_port),
    {
        let listen: u64 = match self.listen {
            Some(port) => port as u64,
            None => server_port as u64 + 1,
        };
        let mode = match self.mode {
            Some(m) => m,
            None => stored.mode,
        };
        let target = concat_str(stored.server.as_str(), ":");
        let mut args: Vec<String> = Vec::new();
        args.push("-l".to_owned());
        args.push(concat_str(":", decimal_string(listen).as_str()));
        args.push("-t".to_owned());
        args.push(concat_str(target.as_str(), decimal_string(server_port as u64).as_str()));
        args.push("-crypt".to_owned());
        args.push(stored.crypt.to_string());
        args.push("-key".to_owned());
        args.push(stored.key.clone());
        args.push("-sndwnd".to_owned());
        args.push(decimal_string(number_or(self.send_wnd, stored.send_wnd) as u64));
        args.push("-rcvwnd".to_owned());
        args.push(decimal_string(number_or(self.recv_wnd, stored.recv_wnd) as u64));
        args.push("-dscp".to_owned());
        args.push(decimal_string(number_or(self.dscp, stored.dscp) as u64));
        args.push("-datashard".to_owned());
        args.push(decimal_string(number_or(self.data_shard, stored.data_shard) as u64));
        args.push("-parityshard".to_owned());
        args.push(decimal_string(number_or(self.parity_shard, stored.parity_shard) as u64));
        args.push("-mode".to_owned());
        args.push(mode.to_string());
        args.push("-mtu".to_owned());
        args.push(decimal_string(number_or(self.mtu, stored.mtu) as u64));
        if !self.compress || stored.comp {
            args.push("-nocomp".to_owned());
        }
        args
    }

    /// Resolves how the primary process of profile `index` is launched.
    ///
    /// An index under which no profile is loaded is an error. Otherwise the
    /// paths are expanded, and a variable in the binary's or the
    /// configuration file's path that cannot be looked up is an error; a log
    /// path that cannot be expanded is left out. Where these two paths hold
    /// nothing to expand, the launch is resolved. The state is not changed.
    pub fn invoke_cmd<H>(&self, ac: &AppContext<H>) -> (r: Result<Launch, ConfigError>)
        ensures
            self.index >= ac.cfgs@.len() ==> (r matches Err(ConfigError::NoProfile(i)) && i
                == self.index),
            self.index < ac.cfgs@.len() ==> match r {
                Ok(l) => self.plans(ac.cfgs@[self.index as int], l),
                Err(e) => e is UnknownVariable && !self.written_out(ac.cfgs@[self.index as int]),
            },
    {
        if self.index >= ac.cfgs.len() {
            return Err(ConfigError::NoProfile(self.index));
        }
        let profile = &ac.cfgs[self.index];
        let bin = match expand(self.bin_path(profile)) {
            Ok(b) => b,
            Err(name) => {
                return Err(ConfigError::UnknownVariable(name));
            },
        };
        let config = match &self.config {
            Some(c) => match expand(c.as_str()) {
                Ok(path) => Some(path),
                Err(name) => {
                    return Err(ConfigError::UnknownVariable(name));
                },
            },
            None => None,
        };
        let out_log = expand_log(Self::log_path(&self.out_log, &profile.out_log));
        let err_log = expand_log(Self::log_path(&self.err_log, &profile.err_log));
        let l = self.launch(profile, bin, config, out_log, err_log);
        Ok(l)
    }

    /// Resolves how the secondary process is launched in front of a primary
    /// process on `server_port`.
    ///
    /// There is one only if the call asks for it and the profile holds a
    /// configuration for it. A variable in the binary's path that cannot be
    /// looked up is an error; a log path that cannot be expanded is left out.
    pub fn kcp_launch(&self, profile: &DeployConfig, server_port: u32) -> (r: Result<
        Option<KcpLaunch>,
        ConfigError,
    >)
        ensures
            !self.enable_kcp || profile.kcp_cfg is None ==> (r matches Ok(None)),
            self.enable_kcp && profile.kcp_cfg is Some ==> match r {
                Ok(Some(l)) => {
                    &&& kept_as_written(or_stored(self.kcp, profile.kcp)@) ==> l.bin@ == or_stored(
                        self.kcp,
                        profile.kcp,
                    )@
                    &&& strings_view(l.args@) == self.kcp_args_of(profile.kcp_cfg->0, server_port)
                    &&& log_of(log_written(self.kcp_log, profile.kcp_log), l.log)
                },
                Ok(None) => false,
                Err(e) => e is UnknownVariable && !kept_as_written(
                    or_stored(self.kcp, profile.kcp)@,
                ),
            },
    {
        if !self.enable_kcp {
            return Ok(None);
        }
        let stored = match &profile.kcp_cfg {
            Some(cfg) => cfg,
            None => {
                return Ok(None);
            },
        };
        let bin = match expand(self.kcp_path(profile)) {
            Ok(b) => b,
            Err(name) => {
                return Err(ConfigError::UnknownVariable(name));
            },
        };
        let log = expand_log(Self::log_path(&self.kcp_log, &profile.kcp_log));
        Ok(Some(KcpLaunch { bin, args: self.kcp_args(stored, server_port), log }))
    }
}

} // verus!

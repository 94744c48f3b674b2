//! The two servers of a pair, each with the arguments it is started with.

use crate::text::concat_str;
use crate::text::decimal;
use crate::text::decimal_string;
use crate::text::signed_decimal;
use crate::text::signed_decimal_string;
use crate::text::strings_view;
use vstd::prelude::*;

verus! {

/// Configuration of the primary server.
#[derive(Debug)]
pub struct Config {
    pub server: String,
    pub port: String,
    pub password: String,
    pub timeout: i32,
    pub method: String,
    pub fast_open: bool,
}

/// The process was not started.
#[derive(Debug)]
pub struct NotStarted {}

/// The primary server.
#[derive(Debug)]
pub struct Shadowsocks {
    /// The binary.
    pub binary: String,
    /// The configuration.
    pub config: Config,
    /// The id of the process, once it is started.
    pub proc: Option<u32>,
}

/// The secondary server.
#[derive(Debug)]
pub struct Kcptun {
    pub binary: String,
    pub dscp: u32,
    pub datashard: u32,
    pub parityshard: u32,
    pub sndwnd: u32,
    pub rcvwnd: u32,
    pub mode: String,
    pub mtu: u32,
    pub server: String,
    pub port: String,
    pub crypt: String,
    pub listen: String,
    pub password: String,
    /// The id of the process, once it is started.
    pub proc: Option<u32>,
}

/// The arguments of a primary server with this configuration.
pub open spec fn server_args(config: Config) -> Seq<Seq<char>> {
    seq![
        "-s"@,
        config.server@ + ":"@ + config.port@,
        "-k"@,
        config.password@,
        "-m"@,
        config.method@,
        "--timeout"@,
        signed_decimal(config.timeout as int),
    ] + (if config.fast_open {
        seq!["--tcp-fast-open"@]
    } else {
        Seq::<Seq<char>>::empty()
    })
}

impl Shadowsocks {
    /// A server that is not yet started.
    pub fn new(binary: String, config: Config) -> (s: Self)
        ensures
            s.binary == binary,
            s.config == config,
            s.proc is None,
    {
        Self { binary, config, proc: None }
    }

    /// The binary.
    pub fn binary(&self) -> (r: &String)
        ensures
            *r == self.binary,
    {
        &self.binary
    }

    /// The id of the process, once it is started.
    pub fn proc(&self) -> (r: Option<u32>)
        ensures
            r == self.proc,
    {
        self.proc
    }

    /// The configuration.
    pub fn config(&self) -> (r: &Config)
        ensures
            *r == self.config,
    {
        &self.config
    }

    /// The id of the process, or 0 while it is not started.
    pub fn id(&self) -> (r: u32)
        ensures
            r == (match self.proc {
                Some(id) => id,
                None => 0,
            }),
    {
        match self.proc {
            Some(id) => id,
            None => 0,
        }
    }

    /// The same server at another address.
    pub fn with_server(self, server: String) -> (s: Self)
        ensures
            s == (Shadowsocks { config: Config { server, ..self.config }, ..self }),
    {
        let mut s = self;
        s.config.server = server;
        s
    }

    /// The same server on another port.
    pub fn with_port(self, port: String) -> (s: Self)
        ensures
            s == (Shadowsocks { config: Config { port, ..self.config }, ..self }),
    {
        let mut s = self;
        s.config.port = port;
        s
    }

    /// The same server with another secret.
    pub fn with_password(self, password: String) -> (s: Self)
        ensures
            s == (Shadowsocks { config: Config { password, ..self.config }, ..self }),
    {
        let mut s = self;
        s.config.password = password;
        s
    }

    /// The same server with another timeout.
    pub fn with_timeout(self, timeout: i32) -> (s: Self)
        ensures
            s == (Shadowsocks { config: Config { timeout, ..self.config }, ..self }),
    {
        let mut s = self;
        s.config.timeout = timeout;
        s
    }

    /// The same server with another cipher.
    pub fn with_method(self, method: String) -> (s: Self)
        ensures
            s == (Shadowsocks { config: Config { method, ..self.config }, ..self }),
    {
        let mut s = self;
        s.config.method = method;
        s
    }

    /// The same server with fast open switched.
    pub fn with_fast_open(self, fast_open: bool) -> (s: Self)
        ensures
            s == (Shadowsocks { config: Config { fast_open, ..self.config }, ..self }),
    {
        let mut s = self;
        s.config.fast_open = fast_open;
        s
    }

    /// The arguments that the server is started with.
    pub fn start(&self) -> (args: Vec<String>)
        ensures
            strings_view(args@) == server_args(self.config),
    {
        let address = concat_str(self.config.server.as_str(), ":");
        let mut args: Vec<String> = Vec::new();
        args.push("-s".to_owned());
        args.push(concat_str(address.as_str(), self.config.port.as_str()));
        args.push("-k".to_owned());
        args.push(self.config.password.clone());
        args.push("-m".to_owned());
        args.push(self.config.method.clone());
        args.push("--timeout".to_owned());
        args.push(signed_decimal_string(self.config.timeout));
        if self.config.fast_open {
            args.push("--tcp-fast-open".to_owned());
        }
        args
    }

    /// Records the process that was started with the arguments of `start`.
    pub fn started(&mut self, id: u32)
        ensures
            *final(self) == (Shadowsocks { proc: Some(id), ..*old(self) }),
    {
        self.proc = Some(id);
    }

    /// The process to stop; an error while none is started.
    pub fn kill(&mut self) -> (r: Result<u32, NotStarted>)
        ensures
            *final(self) == *old(self),
            match r {
                Ok(id) => old(self).proc == Some(id),
                Err(_) => old(self).proc is None,
            },
    {
        match self.proc {
            Some(id) => Ok(id),
            None => Err(NotStarted {  }),
        }
    }
}

/// The arguments of a secondary server with these settings.
pub open spec fn tunnel_args(k: Kcptun) -> Seq<Seq<char>> {
    seq![
        "-l"@,
        ":"@ + k.listen@,
        "-t"@,
        k.server@ + ":"@ + k.port@,
        "-crypt"@,
        k.crypt@,
        "-key"@,
        k.password@,
        "-nocomp"@,
        "-dscp"@,
        decimal(k.dscp as nat),
        "-datashard"@,
        decimal(k.datashard as nat),
        "-parityshard"@,
        decimal(k.parityshard as nat),
        "-sndwnd"@,
        decimal(k.sndwnd as nat),
        "-rcvwnd"@,
        decimal(k.rcvwnd as nat),
        "-mode"@,
        k.mode@,
        "-mtu"@,
        decimal(k.mtu as nat),
    ]
}

impl Kcptun {
    /// The binary.
    pub fn binary(&self) -> (r: &String)
        ensures
            *r == self.binary,
    {
        &self.binary
    }

    /// The DSCP marking.
    pub fn dscp(&self) -> (r: u32)
        ensures
            r == self.dscp,
    {
        self.dscp
    }

    /// The number of data shards.
    pub fn datashard(&self) -> (r: u32)
        ensures
            r == self.datashard,
    {
        self.datashard
    }

    /// The number of parity shards.
    pub fn parityshard(&self) -> (r: u32)
        ensures
            r == self.parityshard,
    {
        self.parityshard
    }

    /// The send window.
    pub fn sndwnd(&self) -> (r: u32)
        ensures
            r == self.sndwnd,
    {
        self.sndwnd
    }

    /// The receive window.
    pub fn rcvwnd(&self) -> (r: u32)
        ensures
            r == self.rcvwnd,
    {
        self.rcvwnd
    }

    /// The congestion mode.
    pub fn mode(&self) -> (r: &String)
        ensures
            *r == self.mode,
    {
        &self.mode
    }

    /// The MTU.
    pub fn mtu(&self) -> (r: u32)
        ensures
            r == self.mtu,
    {
        self.mtu
    }

    /// The address of the primary server.
    pub fn server(&self) -> (r: &String)
        ensures
            *r == self.server,
    {
        &self.server
    }

    /// The port of the primary server.
    pub fn port(&self) -> (r: &String)
        ensures
            *r == self.port,
    {
        &self.port
    }

    /// The cipher.
    pub fn crypt(&self) -> (r: &String)
        ensures
            *r == self.crypt,
    {
        &self.crypt
    }

    /// The port to listen on.
    pub fn listen(&self) -> (r: &String)
        ensures
            *r == self.listen,
    {
        &self.listen
    }

    /// The shared key.
    pub fn password(&self) -> (r: &String)
        ensures
            *r == self.password,
    {
        &self.password
    }

    /// The same server, but for `binary`.
    pub fn with_binary(self, binary: String) -> (k: Self)
        ensures
            k == (Kcptun { binary, ..self }),
    {
        let mut k = self;
        k.binary = binary;
        k
    }

    /// The same server, but for `dscp`.
    pub fn with_dscp(self, dscp: u32) -> (k: Self)
        ensures
            k == (Kcptun { dscp, ..self }),
    {
        let mut k = self;
        k.dscp = dscp;
        k
    }

    /// The same server, but for `datashard`.
    pub fn with_datashard(self, datashard: u32) -> (k: Self)
        ensures
            k == (Kcptun { datashard, ..self }),
    {
        let mut k = self;
        k.datashard = datashard;
        k
    }

    /// The same server, but for `parityshard`.
    pub fn with_parityshard(self, parityshard: u32) -> (k: Self)
        ensures
            k == (Kcptun { parityshard, ..self }),
    {
        let mut k = self;
        k.parityshard = parityshard;
        k
    }

    /// The same server, but for `sndwnd`.
    pub fn with_sndwnd(self, sndwnd: u32) -> (k: Self)
        ensures
            k == (Kcptun { sndwnd, ..self }),
    {
        let mut k = self;
        k.sndwnd = sndwnd;
        k
    }

    /// The same server, but for `rcvwnd`.
    pub fn with_rcvwnd(self, rcvwnd: u32) -> (k: Self)
        ensures
            k == (Kcptun { rcvwnd, ..self }),
    {
        let mut k = self;
        k.rcvwnd = rcvwnd;
        k
    }

    /// The same server, but for `mode`.
    pub fn with_mode(self, mode: String) -> (k: Self)
        ensures
            k == (Kcptun { mode, ..self }),
    {
        let mut k = self;
        k.mode = mode;
        k
    }

    /// The same server, but for `mtu`.
    pub fn with_mtu(self, mtu: u32) -> (k: Self)
        ensures
            k == (Kcptun { mtu, ..self }),
    {
        let mut k = self;
        k.mtu = mtu;
        k
    }

    /// The same server, but for `server`.
    pub fn with_server(self, server: String) -> (k: Self)
        ensures
            k == (Kcptun { server, ..self }),
    {
        let mut k = self;
        k.server = server;
        k
    }

    /// The same server, but for `port`.
    pub fn with_port(self, port: String) -> (k: Self)
        ensures
            k == (Kcptun { port, ..self }),
    {
        let mut k = self;
        k.port = port;
        k
    }

    /// The same server, but for `crypt`.
    pub fn with_crypt(self, crypt: String) -> (k: Self)
        ensures
            k == (Kcptun { crypt, ..self }),
    {
        let mut k = self;
        k.crypt = crypt;
        k
    }

    /// The same server, but for `listen`.
    pub fn with_listen(self, listen: String) -> (k: Self)
        ensures
            k == (Kcptun { listen, ..self }),
    {
        let mut k = self;
        k.listen = listen;
        k
    }

    /// The same server, but for `password`.
    pub fn with_password(self, password: String) -> (k: Self)
        ensures
            k == (Kcptun { password, ..self }),
    {
        let mut k = self;
        k.password = password;
        k
    }

    /// The arguments that the server is started with.
    pub fn start(&self) -> (args: Vec<String>)
        ensures
            strings_view(args@) == tunnel_args(*self),
    {
        let target = concat_str(self.server.as_str(), ":");
        let mut args: Vec<String> = Vec::new();
        args.push("-l".to_owned());
        args.push(concat_str(":", self.listen.as_str()));
        args.push("-t".to_owned());
        args.push(concat_str(target.as_str(), self.port.as_str()));
        args.push("-crypt".to_owned());
        args.push(self.crypt.clone());
        args.push("-key".to_owned());
        args.push(self.password.clone());
        args.push("-nocomp".to_owned());
        args.push("-dscp".to_owned());
        args.push(decimal_string(self.dscp as u64));
        args.push("-datashard".to_owned());
        args.push(decimal_string(self.datashard as u64));
        args.push("-parityshard".to_owned());
        args.push(decimal_string(self.parityshard as u64));
        args.push("-sndwnd".to_owned());
        args.push(decimal_string(self.sndwnd as u64));
        args.push("-rcvwnd".to_owned());
        args.push(decimal_string(self.rcvwnd as u64));
        args.push("-mode".to_owned());
        args.push(self.mode.clone());
        args.push("-mtu".to_owned());
        args.push(decimal_string(self.mtu as u64));
        args
    }

    /// Records the process that was started with the arguments of `start`.
    pub fn started(&mut self, id: u32)
        ensures
            *final(self) == (Kcptun { proc: Some(id), ..*old(self) }),
    {
        self.proc = Some(id);
    }
}

} // verus!

//! A deployment kept in a directory of its own: the two binaries, their
//! configurations and their logs.

use vstd::prelude::*;

verus! {

/// Configuration of the primary process as it is stored in the directory.
#[derive(Debug)]
pub struct Config {
    pub server: String,
    pub port: String,
    pub password: String,
    pub timeout: i32,
    pub method: String,
    pub fast_open: bool,
}

/// Congestion mode of the secondary process.
#[derive(Clone, Copy, Debug, PartialEq, Eq, Structural)]
pub enum KcpMode {
    Fast3,
    Fast2,
    Fast,
    Normal,
    Manual,
}

/// Cipher of the secondary process.
#[derive(Clone, Copy, Debug, PartialEq, Eq, Structural)]
pub enum Crypt {
    Aes,
    Aes128,
    Aes192,
    Salsa20,
    BlowFish,
    TwoFish,
    Cast5,
    Des3,
    Tea,
    XTea,
    Xor,
    Sm4,
    /// No cipher.
    NoCipher,
}

/// Configuration of the secondary process as it is stored in the directory.
#[derive(Debug)]
pub struct KcpConfig {
    pub listen: String,
    pub local: String,
    pub crypt: Crypt,
    pub key: String,
    pub send: i32,
    pub recv: i32,
    pub mtu: i32,
    pub mode: KcpMode,
    pub dscp: i32,
    pub data_shard: i32,
    pub parity_shard: i32,
    pub comp: bool,
}

/// A deployment and the directory that holds it.
#[derive(Debug)]
pub struct ShadowSocks {
    pub path: String,
    pub bin: String,
    pub kcp: Option<String>,
    pub err_log: String,
    pub out_log: String,
    pub kcp_log: String,
    pub cfg: Config,
    pub kcp_cfg: Option<KcpConfig>,
}

/// Name of the primary binary in the directory.
pub const BIN: &'static str = "server";

/// Name of the secondary binary in the directory.
pub const KCP: &'static str = "kcp";

/// Name of the primary configuration in the directory.
pub const CFG: &'static str = "config.json";

/// Name of the secondary configuration in the directory.
pub const KCP_CFG: &'static str = "kcp.json";

/// Name of the error log in the directory.
pub const ERR_LOG: &'static str = "stderr.log";

/// Name of the output log in the directory.
pub const OUT_LOG: &'static str = "stdout.log";

/// Name of the secondary log in the directory.
pub const KCP_LOG: &'static str = "kcp.log";

/// The binary that an entry of the directory stands for: none where the
/// entry is missing, the target where the entry is a link, and the entry
/// itself otherwise.
pub fn located(entry: String, exists: bool, target: Option<String>) -> (r: Option<String>)
    ensures
        r == (if !exists {
            None
        } else {
            match target {
                Some(t) => Some(t),
                None => Some(entry),
            }
        }),
{
    if !exists {
        None
    } else {
        match target {
            Some(t) => Some(t),
            None => Some(entry),
        }
    }
}

impl ShadowSocks {
    /// Sets the directory and leaves the rest as it is.
    pub fn set_path(&mut self, path: String) -> (r: &mut Self)
        ensures
            *final(self) == *final(r),
            *r == (ShadowSocks { path, ..*old(self) }),
    {
        self.path = path;
        self
    }

    /// Sets the primary binary and leaves the rest as it is.
    pub fn set_bin(&mut self, path: String) -> (r: &mut Self)
        ensures
            *final(self) == *final(r),
            *r == (ShadowSocks { bin: path, ..*old(self) }),
    {
        self.bin = path;
        self
    }

    /// Sets the secondary binary and leaves the rest as it is.
    pub fn set_kcp(&mut self, kcp: String) -> (r: &mut Self)
        ensures
            *final(self) == *final(r),
            *r == (ShadowSocks { kcp: Some(kcp), ..*old(self) }),
    {
        self.kcp = Some(kcp);
        self
    }

    /// Sets the primary configuration and leaves the rest as it is.
    pub fn set_cfg(&mut self, cfg: Config) -> (r: &mut Self)
        ensures
            *final(self) == *final(r),
            *r == (ShadowSocks { cfg, ..*old(self) }),
    {
        self.cfg = cfg;
        self
    }

    /// Sets the secondary configuration and leaves the rest as it is.
    pub fn set_kcp_cfg(&mut self, kcp: KcpConfig) -> (r: &mut Self)
        ensures
            *final(self) == *final(r),
            *r == (ShadowSocks { kcp_cfg: Some(kcp), ..*old(self) }),
    {
        self.kcp_cfg = Some(kcp);
        self
    }
}

} // verus!

//! Deploy profiles as they are stored, and the names of their ciphers and modes.

use crate::error::ConfigError;
use crate::text::str_eq;
use vstd::prelude::*;

verus! {

/// Configuration of the primary process.
#[derive(Debug)]
pub struct SsConfig {
    pub server: String,
    pub server_port: u32,
    pub password: String,
    pub timeout: u32,
    pub method: Method,
    pub fast_open: bool,
}

/// Configuration of the secondary process.
#[derive(Debug)]
pub struct KcpConfig {
    pub server: String,
    pub crypt: Crypt,
    pub key: String,
    pub send_wnd: u32,
    pub recv_wnd: u32,
    pub mtu: u32,
    pub mode: KcpMode,
    pub dscp: u32,
    pub data_shard: u32,
    pub parity_shard: u32,
    pub comp: bool,
}

/// One stored deployment: the two binaries, their log files and configurations.
#[derive(Debug)]
pub struct DeployConfig {
    pub bin: String,
    pub kcp: String,
    pub err_log: Option<String>,
    pub out_log: Option<String>,
    pub kcp_log: Option<String>,
    pub ss_cfg: SsConfig,
    pub kcp_cfg: Option<KcpConfig>,
}

/// Cipher of the primary process.
#[allow(non_camel_case_types)]
#[derive(Clone, Copy, Debug, PartialEq, Eq, Structural)]
pub enum Method {
    Blake3ChaCha20Poly1305_2022,
    Aes128,
    Aes256,
    ChaCha20IetfFPoly1305,
    Blake3Aes128_2022,
    Blake3Aes256_2022,
    Plain,
    /// No cipher; written `none`.
    NoCipher,
}

/// Congestion mode of the secondary process.
#[derive(Clone, Copy, Debug, PartialEq, Eq, Structural)]
pub enum KcpMode {
    Fast3,
    Fast2,
    Fast,
    Normal,
    Manual,
}

/// Cipher of the secondary process.
#[derive(Clone, Copy, Debug, PartialEq, Eq, Structural)]
pub enum Crypt {
    Aes,
    Aes128,
    Aes192,
    Salsa20,
    BlowFish,
    TwoFish,
    Cast5,
    /// Triple DES; written `3Des`.
    Des3,
    Tea,
    XTea,
    Xor,
    Sm4,
    /// No cipher; written `None`.
    NoCipher,
}

/// The name under which a method is written out.
pub open spec fn method_name(m: Method) -> Seq<char> {
    match m {
        Method::Blake3ChaCha20Poly1305_2022 => "2022-blake3-chacha20-poly1305"@,
        Method::Aes128 => "aes-128-gcm"@,
        Method::Aes256 => "aes-256-gcm"@,
        Method::ChaCha20IetfFPoly1305 => "chacha20-ietf-poly1305"@,
        Method::Blake3Aes128_2022 => "2022-blake3-aes-128-gcm"@,
        Method::Blake3Aes256_2022 => "2022-blake3-aes-256-gcm"@,
        Method::Plain => "plain"@,
        Method::NoCipher => "none"@,
    }
}

/// The method that a text names: its written name or the name of its variant.
pub open spec fn method_of(val: Seq<char>) -> Option<Method> {
    if val == "2022-blake3-chacha20-poly1305"@ || val == "Blake3ChaCha20Poly1305_2022"@ {
        Some(Method::Blake3ChaCha20Poly1305_2022)
    } else if val == "aes-128-gcm"@ || val == "Aes128"@ {
        Some(Method::Aes128)
    } else if val == "aes-256-gcm"@ || val == "Aes256"@ {
        Some(Method::Aes256)
    } else if val == "chacha20-ietf-poly1305"@ || val == "ChaCha20IetfFPoly1305"@ {
        Some(Method::ChaCha20IetfFPoly1305)
    } else if val == "2022-blake3-aes-128-gcm"@ || val == "Blake3Aes128_2022"@ {
        Some(Method::Blake3Aes128_2022)
    } else if val == "2022-blake3-aes-256-gcm"@ || val == "Blake3Aes256_2022"@ {
        Some(Method::Blake3Aes256_2022)
    } else if val == "plain"@ || val == "Plain"@ {
        Some(Method::Plain)
    } else {
        None
    }
}

/// The name under which a mode is written out.
pub open spec fn mode_name(m: KcpMode) -> Seq<char> {
    match m {
        KcpMode::Fast3 => "fast3"@,
        KcpMode::Fast2 => "fast2"@,
        KcpMode::Fast => "fast"@,
        KcpMode::Normal => "normal"@,
        KcpMode::Manual => "manual"@,
    }
}

/// The name under which a cipher is written out.
pub open spec fn crypt_name(c: Crypt) -> Seq<char> {
    match c {
        Crypt::Aes => "Aes"@,
        Crypt::Aes128 => "Aes128"@,
        Crypt::Aes192 => "Aes192"@,
        Crypt::Salsa20 => "Salsa20"@,
        Crypt::BlowFish => "BlowFish"@,
        Crypt::TwoFish => "TwoFish"@,
        Crypt::Cast5 => "Cast5"@,
        Crypt::Des3 => "3Des"@,
        Crypt::Tea => "Tea"@,
        Crypt::XTea => "XTea"@,
        Crypt::Xor => "Xor"@,
        Crypt::Sm4 => "Sm4"@,
        Crypt::NoCipher => "None"@,
    }
}

impl Method {
    /// Reads a method from its written name or from the name of its variant.
    /// Any other text is an error.
    pub fn try_from(val: &str) -> (r: Result<Method, ConfigError>)
        ensures
            match r {
                Ok(m) => method_of(val@) == Some(m),
                Err(e) => method_of(val@) is None && (e matches ConfigError::UnknownMethod(v)
                    && v@ == val@),
            },
    {
        if str_eq(val, "2022-blake3-chacha20-poly1305") || str_eq(
            val,
            "Blake3ChaCha20Poly1305_2022",
        ) {
            Ok(Method::Blake3ChaCha20Poly1305_2022)
        } else if str_eq(val, "aes-128-gcm") || str_eq(val, "Aes128") {
            Ok(Method::Aes128)
        } else if str_eq(val, "aes-256-gcm") || str_eq(val, "Aes256") {
            Ok(Method::Aes256)
        } else if str_eq(val, "chacha20-ietf-poly1305") || str_eq(val, "ChaCha20IetfFPoly1305") {
            Ok(Method::ChaCha20IetfFPoly1305)
        } else if str_eq(val, "2022-blake3-aes-128-gcm") || str_eq(val, "Blake3Aes128_2022") {
            Ok(Method::Blake3Aes128_2022)
        } else if str_eq(val, "2022-blake3-aes-256-gcm") || str_eq(val, "Blake3Aes256_2022") {
            Ok(Method::Blake3Aes256_2022)
        } else if str_eq(val, "plain") || str_eq(val, "Plain") {
            Ok(Method::Plain)
        } else {
            Err(ConfigError::UnknownMethod(val.to_owned()))
        }
    }

    /// The written name of the method.
    pub fn to_string(&self) -> (s: String)
        ensures
            s@ == method_name(*self),
    {
        match self {
            Method::Blake3ChaCha20Poly1305_2022 => "2022-blake3-chacha20-poly1305".to_owned(),
            Method::Aes128 => "aes-128-gcm".to_owned(),
            Method::Aes256 => "aes-256-gcm".to_owned(),
            Method::ChaCha20IetfFPoly1305 => "chacha20-ietf-poly1305".to_owned(),
            Method::Blake3Aes128_2022 => "2022-blake3-aes-128-gcm".to_owned(),
            Method::Blake3Aes256_2022 => "2022-blake3-aes-256-gcm".to_owned(),
            Method::Plain => "plain".to_owned(),
            Method::NoCipher => "none".to_owned(),
        }
    }
}

impl KcpMode {
    /// The written name of the mode.
    pub fn to_string(&self) -> (s: String)
        ensures
            s@ == mode_name(*self),
    {
        match self {
            KcpMode::Fast3 => "fast3".to_owned(),
            KcpMode::Fast2 => "fast2".to_owned(),
            KcpMode::Fast => "fast".to_owned(),
            KcpMode::Normal => "normal".to_owned(),
            KcpMode::Manual => "manual".to_owned(),
        }
    }
}

impl Crypt {
    /// The written name of the cipher.
    pub fn to_string(&self) -> (s: String)
        ensures
            s@ == crypt_name(*self),
    {
        match self {
            Crypt::Aes => "Aes".to_owned(),
            Crypt::Aes128 => "Aes128".to_owned(),
            Crypt::Aes192 => "Aes192".to_owned(),
            Crypt::Salsa20 => "Salsa20".to_owned(),
            Crypt::BlowFish => "BlowFish".to_owned(),
            Crypt::TwoFish => "TwoFish".to_owned(),
            Crypt::Cast5 => "Cast5".to_owned(),
            Crypt::Des3 => "3Des".to_owned(),
            Crypt::Tea => "Tea".to_owned(),
            Crypt::XTea => "XTea".to_owned(),
            Crypt::Xor => "Xor".to_owned(),
            Crypt::Sm4 => "Sm4".to_owned(),
            Crypt::NoCipher => "None".to_owned(),
        }
    }
}

impl Default for Method {
    fn default() -> (m: Self)
        ensures
            m == Method::Blake3ChaCha20Poly1305_2022,
    {
        Method::Blake3ChaCha20Poly1305_2022
    }
}

impl Default for KcpMode {
    fn default() -> (m: Self)
        ensures
            m == KcpMode::Fast,
    {
        KcpMode::Fast
    }
}

impl Default for Crypt {
    fn default() -> (c: Self)
        ensures
            c == Crypt::Aes,
    {
        Crypt::Aes
    }
}

impl Clone for SsConfig {
    fn clone(&self) -> (r: Self)
        ensures
            r == *self,
    {
        SsConfig {
            server: self.server.clone(),
            server_port: self.server_port,
            password: self.password.clone(),
            timeout: self.timeout,
            method: self.method,
            fast_open: self.fast_open,
        }
    }
}

impl Clone for KcpConfig {
    fn clone(&self) -> (r: Self)
        ensures
            r == *self,
    {
        KcpConfig {
            server: self.server.clone(),
            crypt: self.crypt,
            key: self.key.clone(),
            send_wnd: self.send_wnd,
            recv_wnd: self.recv_wnd,
            mtu: self.mtu,
            mode: self.mode,
            dscp: self.dscp,
            data_shard: self.data_shard,
            parity_shard: self.parity_shard,
            comp: self.comp,
        }
    }
}

impl Clone for DeployConfig {
    fn clone(&self) -> (r: Self)
        ensures
            r == *self,
    {
        DeployConfig {
            bin: self.bin.clone(),
            kcp: self.kcp.clone(),
            err_log: copy_of(&self.err_log),
            out_log: copy_of(&self.out_log),
            kcp_log: copy_of(&self.kcp_log),
            ss_cfg: self.ss_cfg.clone(),
            kcp_cfg: match &self.kcp_cfg {
                Some(cfg) => Some(cfg.clone()),
                None => None,
            },
        }
    }
}

impl Default for SsConfig {
    fn default() -> (c: Self)
        ensures
            c.server@.len() == 0,
            c.server_port == 0,
            c.password@.len() == 0,
            c.timeout == 0,
            c.method == Method::Blake3ChaCha20Poly1305_2022,
            !c.fast_open,
    {
        SsConfig {
            server: String::new(),
            server_port: 0,
            password: String::new(),
            timeout: 0,
            method: Method::Blake3ChaCha20Poly1305_2022,
            fast_open: false,
        }
    }
}

impl Default for KcpConfig {
    fn default() -> (c: Self)
        ensures
            c.server@.len() == 0,
            c.crypt == Crypt::Aes,
            c.key@.len() == 0,
            c.send_wnd == 0,
            c.recv_wnd == 0,
            c.mtu == 0,
            c.mode == KcpMode::Fast,
            c.dscp == 0,
            c.data_shard == 0,
            c.parity_shard == 0,
            !c.comp,
    {
        KcpConfig {
            server: String::new(),
            crypt: Crypt::Aes,
            key: String::new(),
            send_wnd: 0,
            recv_wnd: 0,
            mtu: 0,
            mode: KcpMode::Fast,
            dscp: 0,
            data_shard: 0,
            parity_shard: 0,
            comp: false,
        }
    }
}

impl Default for DeployConfig {
    fn default() -> (c: Self)
        ensures
            c.bin@.len() == 0,
            c.kcp@.len() == 0,
            c.err_log is None,
            c.out_log is None,
            c.kcp_log is None,
            c.ss_cfg.server_port == 0,
            c.ss_cfg.method == Method::Blake3ChaCha20Poly1305_2022,
            c.kcp_cfg is None,
    {
        DeployConfig {
            bin: String::new(),
            kcp: String::new(),
            err_log: None,
            out_log: None,
            kcp_log: None,
            ss_cfg: SsConfig::default(),
            kcp_cfg: None,
        }
    }
}

/// A copy of an optional text.
fn copy_of(text: &Option<String>) -> (r: Option<String>)
    ensures
        r == *text,
{
    match text {
        Some(t) => Some(t.clone()),
        None => None,
    }
}

/// How the names of the methods differ: in their lengths, and those of one
/// length in one character.
proof fn lemma_names_differ()
    ensures
        "2022-blake3-chacha20-poly1305"@.len() == 29,
        "Blake3ChaCha20Poly1305_2022"@.len() == 27,
        "aes-128-gcm"@.len() == 11,
        "aes-256-gcm"@.len() == 11,
        "aes-128-gcm"@[4] != "aes-256-gcm"@[4],
        "Aes128"@.len() == 6,
        "Aes256"@.len() == 6,
        "Aes128"@[3] != "Aes256"@[3],
        "chacha20-ietf-poly1305"@.len() == 22,
        "ChaCha20IetfFPoly1305"@.len() == 21,
        "2022-blake3-aes-128-gcm"@.len() == 23,
        "2022-blake3-aes-256-gcm"@.len() == 23,
        "2022-blake3-aes-128-gcm"@[16] != "2022-blake3-aes-256-gcm"@[16],
        "Blake3Aes128_2022"@.len() == 17,
        "Blake3Aes256_2022"@.len() == 17,
        "Blake3Aes128_2022"@[9] != "Blake3Aes256_2022"@[9],
        "plain"@.len() == 5,
        "Plain"@.len() == 5,
        "none"@.len() == 4,
{
    reveal_strlit("2022-blake3-chacha20-poly1305");
    reveal_strlit("Blake3ChaCha20Poly1305_2022");
    reveal_strlit("aes-128-gcm");
    reveal_strlit("Aes128");
    reveal_strlit("aes-256-gcm");
    reveal_strlit("Aes256");
    reveal_strlit("chacha20-ietf-poly1305");
    reveal_strlit("ChaCha20IetfFPoly1305");
    reveal_strlit("2022-blake3-aes-128-gcm");
    reveal_strlit("Blake3Aes128_2022");
    reveal_strlit("2022-blake3-aes-256-gcm");
    reveal_strlit("Blake3Aes256_2022");
    reveal_strlit("plain");
    reveal_strlit("Plain");
    reveal_strlit("none");
}

/// Every method but `NoCipher` is read back from its written name.
pub proof fn lemma_method_name_reads_back(m: Method)
    requires
        m != Method::NoCipher,
    ensures
        method_of(method_name(m)) == Some(m),
{
    lemma_names_differ();
}

/// The written name of `NoCipher` names no method: it can be written out
/// and not read.
pub proof fn lemma_no_cipher_is_not_read()
    ensures
        method_of(method_name(Method::NoCipher)) is None,
{
    lemma_names_differ();
}

} // verus!

use rssdeploy::server::Config;
use rssdeploy::server::Kcptun;
use rssdeploy::server::Shadowsocks;
use rssdeploy::ss::located;
use rssdeploy::ss::Crypt;
use rssdeploy::ss::KcpConfig;
use rssdeploy::ss::KcpMode;
use rssdeploy::ss::ShadowSocks;
use rssdeploy::text::concat_str;
use rssdeploy::text::decimal_string;
use rssdeploy::text::signed_decimal_string;
use rssdeploy::text::str_eq;

fn config() -> Config {
    Config {
        server: "0.0.0.0".to_string(),
        port: "8388".to_string(),
        password: "secret".to_string(),
        timeout: 300,
        method: "aes-256-gcm".to_string(),
        fast_open: false,
    }
}

fn tunnel() -> Kcptun {
    Kcptun {
        binary: "kcp".to_string(),
        dscp: 46,
        datashard: 30,
        parityshard: 15,
        sndwnd: 2048,
        rcvwnd: 1024,
        mode: "fast".to_string(),
        mtu: 1400,
        server: "127.0.0.1".to_string(),
        port: "8388".to_string(),
        crypt: "aes".to_string(),
        listen: "8389".to_string(),
        password: "key".to_string(),
        proc: None,
    }
}

#[test]
fn server_arguments() {
    let s = Shadowsocks::new("ssserver".to_string(), config());
    assert_eq!(
        s.start(),
        vec!["-s", "0.0.0.0:8388", "-k", "secret", "-m", "aes-256-gcm", "--timeout", "300"]
    );
    let s = s.with_fast_open(true).with_timeout(-1).with_port("1".to_string());
    assert_eq!(
        s.start(),
        vec![
            "-s", "0.0.0.0:1", "-k", "secret", "-m", "aes-256-gcm", "--timeout", "-1",
            "--tcp-fast-open",
        ]
    );
}

#[test]
fn server_builders_and_getters() {
    let s = Shadowsocks::new("ssserver".to_string(), config())
        .with_server("::".to_string())
        .with_password("p".to_string())
        .with_method("plain".to_string());
    assert_eq!(s.binary(), "ssserver");
    assert_eq!(s.config().server, "::");
    assert_eq!(s.config().password, "p");
    assert_eq!(s.config().method, "plain");
    assert_eq!(s.config().port, "8388");
    assert_eq!(s.proc(), None);
    assert_eq!(s.id(), 0);
}

#[test]
fn server_process() {
    let mut s = Shadowsocks::new("ssserver".to_string(), config());
    assert!(s.kill().is_err());
    s.started(4711);
    assert_eq!(s.id(), 4711);
    assert_eq!(s.proc(), Some(4711));
    assert_eq!(s.kill().unwrap(), 4711);
    assert_eq!(s.id(), 4711);
}

#[test]
fn tunnel_arguments() {
    assert_eq!(
        tunnel().start(),
        vec![
            "-l", ":8389", "-t", "127.0.0.1:8388", "-crypt", "aes", "-key", "key", "-nocomp",
            "-dscp", "46", "-datashard", "30", "-parityshard", "15", "-sndwnd", "2048", "-rcvwnd",
            "1024", "-mode", "fast", "-mtu", "1400",
        ]
    );
}

#[test]
fn tunnel_builders_and_getters() {
    let mut k = tunnel()
        .with_binary("b".to_string())
        .with_dscp(1)
        .with_datashard(2)
        .with_parityshard(3)
        .with_sndwnd(4)
        .with_rcvwnd(5)
        .with_mode("normal".to_string())
        .with_mtu(6)
        .with_server("s".to_string())
        .with_port("7".to_string())
        .with_crypt("none".to_string())
        .with_listen("8".to_string())
        .with_password("w".to_string());
    assert_eq!(k.binary(), "b");
    assert_eq!(k.dscp(), 1);
    assert_eq!(k.datashard(), 2);
    assert_eq!(k.parityshard(), 3);
    assert_eq!(k.sndwnd(), 4);
    assert_eq!(k.rcvwnd(), 5);
    assert_eq!(k.mode(), "normal");
    assert_eq!(k.mtu(), 6);
    assert_eq!(k.server(), "s");
    assert_eq!(k.port(), "7");
    assert_eq!(k.crypt(), "none");
    assert_eq!(k.listen(), "8");
    assert_eq!(k.password(), "w");
    assert_eq!(k.proc, None);
    k.started(9);
    assert_eq!(k.proc, Some(9));
}

fn deployment() -> ShadowSocks {
    ShadowSocks {
        path: "/d".to_string(),
        bin: "/d/server".to_string(),
        kcp: None,
        err_log: "/d/stderr.log".to_string(),
        out_log: "/d/stdout.log".to_string(),
        kcp_log: "/d/kcp.log".to_string(),
        cfg: rssdeploy::ss::Config {
            server: "0.0.0.0".to_string(),
            port: "1".to_string(),
            password: "p".to_string(),
            timeout: 1,
            method: "plain".to_string(),
            fast_open: false,
        },
        kcp_cfg: None,
    }
}

#[test]
fn deployment_setters() {
    let mut d = deployment();
    d.set_path("/e".to_string()).set_bin("/e/server".to_string()).set_kcp("/e/kcp".to_string());
    assert_eq!(d.path, "/e");
    assert_eq!(d.bin, "/e/server");
    assert_eq!(d.kcp, Some("/e/kcp".to_string()));
    assert_eq!(d.out_log, "/d/stdout.log");
    let mut cfg = deployment().cfg;
    cfg.port = "2".to_string();
    d.set_cfg(cfg).set_kcp_cfg(KcpConfig {
        listen: ":3".to_string(),
        local: "127.0.0.1:2".to_string(),
        crypt: Crypt::Salsa20,
        key: "k".to_string(),
        send: 1,
        recv: 2,
        mtu: 3,
        mode: KcpMode::Normal,
        dscp: 4,
        data_shard: 5,
        parity_shard: 6,
        comp: true,
    });
    assert_eq!(d.cfg.port, "2");
    assert_eq!(d.kcp_cfg.as_ref().unwrap().crypt, Crypt::Salsa20);
    assert_eq!(d.kcp_cfg.as_ref().unwrap().mode, KcpMode::Normal);
    assert_eq!(d.path, "/e");
}

#[test]
fn binary_behind_a_directory_entry() {
    assert_eq!(located("/d/server".to_string(), false, None), None);
    assert_eq!(located("/d/server".to_string(), false, Some("/bin/s".to_string())), None);
    assert_eq!(located("/d/server".to_string(), true, None), Some("/d/server".to_string()));
    assert_eq!(
        located("/d/server".to_string(), true, Some("/bin/s".to_string())),
        Some("/bin/s".to_string())
    );
}

#[test]
fn numerals() {
    assert_eq!(decimal_string(0), "0");
    assert_eq!(decimal_string(9), "9");
    assert_eq!(decimal_string(10), "10");
    assert_eq!(decimal_string(9001), "9001");
    assert_eq!(decimal_string(u64::MAX), "18446744073709551615");
    assert_eq!(signed_decimal_string(0), "0");
    assert_eq!(signed_decimal_string(-7), "-7");
    assert_eq!(signed_decimal_string(i32::MIN), "-2147483648");
    assert_eq!(signed_decimal_string(i32::MAX), "2147483647");
}

#[test]
fn text_equality_and_concatenation() {
    assert!(str_eq("", ""));
    assert!(str_eq("plain", "plain"));
    assert!(!str_eq("plain", "Plain"));
    assert!(!str_eq("plain", "plai"));
    assert!(!str_eq("é", "e"));
    assert_eq!(concat_str("a", "b"), "ab");
    assert_eq!(concat_str("", ""), "");
}

use rssdeploy::config::Crypt;
use rssdeploy::config::DeployConfig;
use rssdeploy::config::KcpConfig;
use rssdeploy::config::KcpMode;
use rssdeploy::config::Method;
use rssdeploy::config::SsConfig;
use rssdeploy::error::ConfigError;
use rssdeploy::manager::help::Help;
use rssdeploy::manager::help::Topic;
use rssdeploy::manager::kill::first_error;
use rssdeploy::manager::kill::handles;
use rssdeploy::manager::kill::Kill;
use rssdeploy::manager::list::instance_row;
use rssdeploy::manager::list::profile_listing;
use rssdeploy::manager::list::List;
use rssdeploy::manager::load::Load;
use rssdeploy::manager::load::DEFAULT_CONFIG;
use rssdeploy::manager::start::primary_args;
use rssdeploy::manager::start::ConfigSource;
use rssdeploy::manager::start::Start;
use rssdeploy::manager::AppContext;
use rssdeploy::manager::Command;
use rssdeploy::manager::Manager;
use rssdeploy::manager::Reply;
use rssdeploy::manager::Request;

fn ss_cfg() -> SsConfig {
    SsConfig {
        server: "0.0.0.0".to_string(),
        server_port: 8388,
        password: "secret".to_string(),
        timeout: 300,
        method: Method::Aes256,
        fast_open: false,
    }
}

fn kcp_cfg() -> KcpConfig {
    KcpConfig {
        server: "127.0.0.1".to_string(),
        crypt: Crypt::Des3,
        key: "key".to_string(),
        send_wnd: 1024,
        recv_wnd: 512,
        mtu: 1350,
        mode: KcpMode::Fast2,
        dscp: 46,
        data_shard: 10,
        parity_shard: 3,
        comp: false,
    }
}

fn profile() -> DeployConfig {
    DeployConfig {
        bin: "/opt/ss/ssserver".to_string(),
        kcp: "/opt/ss/kcptun".to_string(),
        err_log: None,
        out_log: None,
        kcp_log: None,
        ss_cfg: ss_cfg(),
        kcp_cfg: Some(kcp_cfg()),
    }
}

fn start(index: usize) -> Start {
    Start {
        bin: None,
        config: None,
        port: None,
        password: None,
        timeout: None,
        method: None,
        fast_open: false,
        out_log: None,
        err_log: None,
        kcp: None,
        enable_kcp: false,
        listen: None,
        send_wnd: None,
        recv_wnd: None,
        mtu: None,
        dscp: None,
        data_shard: None,
        parity_shard: None,
        mode: None,
        compress: false,
        kcp_log: None,
        index,
    }
}

fn context() -> AppContext<&'static str> {
    let mut ac: AppContext<&'static str> = AppContext::new();
    ac.load(vec![profile(), profile()]);
    ac
}

fn ids(ac: &AppContext<&'static str>) -> Vec<usize> {
    ac.insts.iter().map(|i| i.id).collect()
}

#[test]
fn new_context_is_empty() {
    let ac: AppContext<u32> = AppContext::new();
    assert!(ac.cfgs.is_empty());
    assert!(ac.insts.is_empty());
}

#[test]
fn load_replaces_the_profiles() {
    let mut ac = context();
    ac.register(1, "ss1", None);
    assert_eq!(ac.cfgs.len(), 2);
    ac.load(vec![profile()]);
    assert_eq!(ac.cfgs.len(), 1);
    assert_eq!(ids(&ac), vec![1]);
    ac.load(Vec::new());
    assert_eq!(ac.cfgs.len(), 0);
}

#[test]
fn load_names_the_default_file() {
    assert_eq!(DEFAULT_CONFIG, "~/shadowsocks.json");
    assert_eq!(Load { config: None }.path(), "~/shadowsocks.json");
    assert_eq!(Load { config: Some("/etc/p.json".to_string()) }.path(), "/etc/p.json");
}

#[test]
fn load_expands_the_path() {
    assert_eq!(Load { config: Some("/etc/p.json".to_string()) }.invoke_cmd().unwrap(), "/etc/p.json");
    let expanded = Load { config: Some("${PATH}".to_string()) }.invoke_cmd().unwrap();
    assert_ne!(expanded, "${PATH}");
    match (Load { config: Some("/x/$RSSDEPLOY_NO_SUCH_VARIABLE/y".to_string()) }).invoke_cmd() {
        Err(ConfigError::UnknownVariable(name)) => assert_eq!(name, "RSSDEPLOY_NO_SUCH_VARIABLE"),
        other => panic!("{:?}", other),
    }
}

#[test]
fn register_appends() {
    let mut ac = context();
    ac.register(0, "ss0", Some("kcp0"));
    ac.register(1, "ss1", None);
    ac.register(0, "ss0b", None);
    assert_eq!(ids(&ac), vec![0, 1, 0]);
    assert_eq!(ac.insts[0].ss, "ss0");
    assert_eq!(ac.insts[0].kcp, Some("kcp0"));
    assert_eq!(ac.insts[1].kcp, None);
    assert_eq!(ac.cfgs.len(), 2);
}

#[test]
fn kill_all_empties_the_registry() {
    let mut ac = context();
    ac.register(0, "ss0", Some("kcp0"));
    ac.register(1, "ss1", Some("kcp1"));
    let gone = Kill { all: true, id: None }.invoke_cmd(&mut ac).unwrap();
    assert!(ac.insts.is_empty());
    assert_eq!(ac.cfgs.len(), 2);
    assert_eq!(gone.len(), 2);
    assert_eq!(handles(gone), vec!["ss0", "kcp0", "ss1", "kcp1"]);
}

#[test]
fn kill_all_goes_before_an_id() {
    let mut ac = context();
    ac.register(0, "ss0", None);
    ac.register(1, "ss1", None);
    let gone = Kill { all: true, id: Some(7) }.invoke_cmd(&mut ac).unwrap();
    assert_eq!(gone.len(), 2);
    assert!(ac.insts.is_empty());
}

#[test]
fn kill_all_of_nothing() {
    let mut ac = context();
    let gone = Kill { all: true, id: None }.invoke_cmd(&mut ac).unwrap();
    assert!(gone.is_empty());
    assert!(ac.insts.is_empty());
}

#[test]
fn kill_by_id_takes_that_instance() {
    let mut ac = context();
    ac.register(0, "ss0", Some("kcp0"));
    ac.register(1, "ss1", None);
    ac.register(2, "ss2", Some("kcp2"));
    let gone = Kill { all: false, id: Some(1) }.invoke_cmd(&mut ac).unwrap();
    assert_eq!(ids(&ac), vec![0, 2]);
    assert_eq!(gone.len(), 1);
    assert_eq!(gone[0].id, 1);
    assert_eq!(handles(gone), vec!["ss1"]);
}

#[test]
fn kill_by_id_takes_every_instance_under_it() {
    let mut ac = context();
    ac.register(0, "a", None);
    ac.register(1, "b", None);
    ac.register(0, "c", Some("d"));
    let gone = Kill { all: false, id: Some(0) }.invoke_cmd(&mut ac).unwrap();
    assert_eq!(ids(&ac), vec![1]);
    assert_eq!(handles(gone), vec!["a", "c", "d"]);
}

#[test]
fn kill_of_a_missing_id_is_reported() {
    let mut ac = context();
    ac.register(0, "ss0", None);
    let e = Kill { all: false, id: Some(3) }.invoke_cmd(&mut ac).unwrap_err();
    assert_eq!(e.id, 3);
    assert_eq!(e.message(), "Invalid id `3`, no instance found");
    assert_eq!(ids(&ac), vec![0]);
}

#[test]
fn kill_without_a_target_does_nothing() {
    let mut ac = context();
    ac.register(0, "ss0", None);
    let gone = Kill { all: false, id: None }.invoke_cmd(&mut ac).unwrap();
    assert!(gone.is_empty());
    assert_eq!(ids(&ac), vec![0]);
}

#[test]
fn first_error_is_the_first_failure() {
    assert_eq!(first_error::<&str>(vec![]), None);
    assert_eq!(first_error::<&str>(vec![Ok(()), Ok(())]), None);
    assert_eq!(first_error(vec![Ok(()), Err("b"), Err("c")]), Some("b"));
    assert_eq!(first_error(vec![Err("a"), Ok(())]), Some("a"));
}

#[test]
fn reply_with_no_instance_is_empty() {
    let ac: AppContext<u32> = AppContext::new();
    match ac.reply(Request::FetchInstanceId) {
        Reply::InstanceId(ids) => assert!(ids.is_empty()),
        other => panic!("{:?}", other),
    }
    match ac.reply(Request::FetchTaskIndex) {
        Reply::TaskIndex(ids) => assert!(ids.is_empty()),
        other => panic!("{:?}", other),
    }
}

#[test]
fn reply_lists_ids_and_indices() {
    let mut ac = context();
    ac.register(1, "a", None);
    ac.register(0, "b", None);
    match ac.reply(Request::FetchInstanceId) {
        Reply::InstanceId(ids) => assert_eq!(ids, vec![1, 0]),
        other => panic!("{:?}", other),
    }
    match ac.reply(Request::FetchTaskIndex) {
        Reply::TaskIndex(ids) => assert_eq!(ids, vec![0, 1]),
        other => panic!("{:?}", other),
    }
    assert_eq!(ac.instance_ids(), vec![1, 0]);
    assert_eq!(ac.task_indices(), vec![0, 1]);
}

#[test]
fn override_goes_before_the_profile() {
    let mut st = start(0);
    st.port = Some(9000);
    let cfg = st.resolve(&ss_cfg());
    assert_eq!(cfg.server_port, 9000);
    assert_eq!(cfg.server, "0.0.0.0");
    assert_eq!(cfg.password, "secret");
    assert_eq!(cfg.timeout, 300);
    assert_eq!(cfg.method, Method::Aes256);
    assert!(!cfg.fast_open);
    st.enable_kcp = true;
    let args = st.kcp_args(&kcp_cfg(), cfg.server_port);
    assert_eq!(args[0], "-l");
    assert_eq!(args[1], ":9001");
    assert_eq!(args[3], "127.0.0.1:9000");
}

#[test]
fn profile_fills_what_the_call_leaves_open() {
    let cfg = start(0).resolve(&ss_cfg());
    assert_eq!(cfg.server_port, 8388);
    let mut st = start(0);
    st.password = Some("other".to_string());
    st.timeout = Some(5);
    st.method = Some(Method::Plain);
    st.fast_open = true;
    let cfg = st.resolve(&ss_cfg());
    assert_eq!(cfg.password, "other");
    assert_eq!(cfg.timeout, 5);
    assert_eq!(cfg.method, Method::Plain);
    assert!(cfg.fast_open);
    let mut stored = ss_cfg();
    stored.fast_open = true;
    assert!(start(0).resolve(&stored).fast_open);
}

#[test]
fn kcp_args_from_the_profile() {
    let args = start(0).kcp_args(&kcp_cfg(), 8388);
    assert_eq!(
        args,
        vec![
            "-l", ":8389", "-t", "127.0.0.1:8388", "-crypt", "3Des", "-key", "key", "-sndwnd",
            "1024", "-rcvwnd", "512", "-dscp", "46", "-datashard", "10", "-parityshard", "3",
            "-mode", "fast2", "-mtu", "1350", "-nocomp",
        ]
    );
}

#[test]
fn kcp_args_from_the_call() {
    let mut st = start(0);
    st.listen = Some(4000);
    st.send_wnd = Some(2048);
    st.recv_wnd = Some(2048);
    st.mtu = Some(1400);
    st.dscp = Some(0);
    st.data_shard = Some(30);
    st.parity_shard = Some(15);
    st.mode = Some(KcpMode::Manual);
    st.compress = true;
    let args = st.kcp_args(&kcp_cfg(), 9000);
    assert_eq!(
        args,
        vec![
            "-l", ":4000", "-t", "127.0.0.1:9000", "-crypt", "3Des", "-key", "key", "-sndwnd",
            "2048", "-rcvwnd", "2048", "-dscp", "0", "-datashard", "30", "-parityshard", "15",
            "-mode", "manual", "-mtu", "1400",
        ]
    );
    let mut stored = kcp_cfg();
    stored.comp = true;
    assert_eq!(st.kcp_args(&stored, 9000).last().unwrap(), "-nocomp");
}

#[test]
fn listen_port_follows_the_largest_port() {
    let args = start(0).kcp_args(&kcp_cfg(), u32::MAX);
    assert_eq!(args[1], ":4294967296");
    assert_eq!(args[3], "127.0.0.1:4294967295");
}

#[test]
fn start_of_a_missing_profile_is_an_error() {
    let ac = context();
    match start(2).invoke_cmd(&ac) {
        Err(ConfigError::NoProfile(i)) => assert_eq!(i, 2),
        other => panic!("{:?}", other),
    }
    let e = start(2).invoke_cmd(&ac).unwrap_err();
    assert_eq!(e.message(), "Index out of bound, load the configurations using command `load`");
    let empty: AppContext<u32> = AppContext::new();
    assert!(matches!(start(0).invoke_cmd(&empty), Err(ConfigError::NoProfile(0))));
}

#[test]
fn start_resolves_the_configuration() {
    let ac = context();
    let mut st = start(1);
    st.port = Some(9000);
    let l = st.invoke_cmd(&ac).unwrap();
    assert_eq!(l.bin, "/opt/ss/ssserver");
    assert_eq!(l.out_log, None);
    assert_eq!(l.err_log, None);
    match &l.config {
        ConfigSource::Resolved { file_name, cfg } => {
            assert_eq!(file_name, "ss_config_1.json");
            assert_eq!(cfg.server_port, 9000);
            assert_eq!(cfg.password, "secret");
        },
        other => panic!("{:?}", other),
    }
    assert_eq!(l.port(None).unwrap(), 9000);
    assert_eq!(l.port(Some(1)).unwrap(), 9000);
    assert_eq!(ac.insts.len(), 0);
}

#[test]
fn start_hands_an_external_file_on() {
    let ac = context();
    let mut st = start(0);
    st.config = Some("/etc/ss.json".to_string());
    st.port = Some(9000);
    st.bin = Some("/usr/bin/ssserver".to_string());
    let l = st.invoke_cmd(&ac).unwrap();
    assert_eq!(l.bin, "/usr/bin/ssserver");
    match &l.config {
        ConfigSource::External { path } => assert_eq!(path, "/etc/ss.json"),
        other => panic!("{:?}", other),
    }
    assert_eq!(l.port(Some(7000)).unwrap(), 7000);
    match l.port(None) {
        Err(ConfigError::UnreadableConfig(path)) => assert_eq!(path, "/etc/ss.json"),
        other => panic!("{:?}", other),
    }
    assert_eq!(primary_args("/etc/ss.json"), vec!["-c", "/etc/ss.json"]);
}

#[test]
fn start_expands_paths() {
    let ac = context();
    let mut st = start(0);
    st.bin = Some("${PATH}".to_string());
    let l = st.invoke_cmd(&ac).unwrap();
    assert_ne!(l.bin, "${PATH}");
    st.bin = Some("$RSSDEPLOY_NO_SUCH_VARIABLE/ssserver".to_string());
    match st.invoke_cmd(&ac) {
        Err(ConfigError::UnknownVariable(name)) => assert_eq!(name, "RSSDEPLOY_NO_SUCH_VARIABLE"),
        other => panic!("{:?}", other),
    }
    st.bin = None;
    st.config = Some("$RSSDEPLOY_NO_SUCH_VARIABLE/ss.json".to_string());
    assert!(matches!(st.invoke_cmd(&ac), Err(ConfigError::UnknownVariable(_))));
}

#[test]
fn start_takes_logs_from_the_call_then_the_profile() {
    let mut ac: AppContext<u32> = AppContext::new();
    let mut p = profile();
    p.out_log = Some("/var/log/ss.out".to_string());
    p.err_log = Some("/var/log/ss.err".to_string());
    ac.load(vec![p]);
    let mut st = start(0);
    st.err_log = Some("/tmp/err.log".to_string());
    let l = st.invoke_cmd(&ac).unwrap();
    assert_eq!(l.out_log, Some("/var/log/ss.out".to_string()));
    assert_eq!(l.err_log, Some("/tmp/err.log".to_string()));
    st.out_log = Some("$RSSDEPLOY_NO_SUCH_VARIABLE/out.log".to_string());
    let l = st.invoke_cmd(&ac).unwrap();
    assert_eq!(l.out_log, None);
}

#[test]
fn secondary_process_needs_the_flag_and_a_configuration() {
    let p = profile();
    assert!(start(0).kcp_launch(&p, 8388).unwrap().is_none());
    let mut st = start(0);
    st.enable_kcp = true;
    let l = st.kcp_launch(&p, 8388).unwrap().unwrap();
    assert_eq!(l.bin, "/opt/ss/kcptun");
    assert_eq!(l.args, st.kcp_args(&kcp_cfg(), 8388));
    assert_eq!(l.log, None);
    let mut bare = profile();
    bare.kcp_cfg = None;
    assert!(st.kcp_launch(&bare, 8388).unwrap().is_none());
    st.kcp = Some("$RSSDEPLOY_NO_SUCH_VARIABLE/kcp".to_string());
    assert!(matches!(st.kcp_launch(&p, 8388), Err(ConfigError::UnknownVariable(_))));
}

#[test]
fn file_name_goes_by_the_index() {
    assert_eq!(start(0).file_name(), "ss_config_0.json");
    assert_eq!(start(12).file_name(), "ss_config_12.json");
}

#[test]
fn instance_row_shows_the_ids() {
    assert_eq!(instance_row(3, Some(4711), None), vec!["3", "4711", "None"]);
    assert_eq!(instance_row(0, None, Some(None)), vec!["0", "", "Some(None)"]);
    assert_eq!(instance_row(10, Some(1), Some(Some(22))), vec!["10", "1", "Some(Some(22))"]);
}

#[test]
fn list_has_a_row_for_each_instance() {
    let mut ac: AppContext<u32> = AppContext::new();
    ac.register(0, 100, Some(101));
    ac.register(1, 200, None);
    let l = List { local: false }.invoke_cmd(&ac, |h: &u32| Some(*h), &Vec::new());
    assert_eq!(
        l.rows,
        vec![
            vec!["Config", "Shadowsock", "Kcptun"],
            vec!["0", "100", "Some(Some(101))"],
            vec!["1", "200", "None"],
        ]
    );
    let expected = "\
+--------+------------+-----------------+
| Config | Shadowsock | Kcptun          |
+--------+------------+-----------------+
| 0      | 100        | Some(Some(101)) |
+--------+------------+-----------------+
| 1      | 200        | None            |
+--------+------------+-----------------+
";
    assert_eq!(l.text, expected);
}

#[test]
fn list_of_no_instance_is_the_head_row() {
    let ac: AppContext<u32> = AppContext::new();
    let l = List { local: false }.invoke_cmd(&ac, |_h: &u32| None, &Vec::new());
    assert_eq!(l.rows, vec![vec!["Config", "Shadowsock", "Kcptun"]]);
    let expected = "\
+--------+------------+--------+
| Config | Shadowsock | Kcptun |
+--------+------------+--------+
";
    assert_eq!(l.text, expected);
}

#[test]
fn list_local_frames_each_profile() {
    let ac = context();
    let blocks = vec!["{\n  \"a\": 1\n}".to_string(), "{}".to_string()];
    let l = List { local: true }.invoke_cmd(&ac, |_h: &&str| None, &blocks);
    assert!(l.rows.is_empty());
    let expected = "\
-------------------CONFIG------------------------
INDEX: 0
{
  \"a\": 1
}
-----------------------------------------------
INDEX: 1
{}
-----------------------------------------------
";
    assert_eq!(l.text, expected);
    assert_eq!(profile_listing(&blocks), expected);
    assert_eq!(profile_listing(&Vec::new()), "-------------------CONFIG------------------------\n");
}

#[test]
fn help_knows_the_commands() {
    assert_eq!(Help { name: "kill".to_string() }.invoke_cmd().unwrap(), Topic::Kill);
    assert_eq!(Help { name: "list".to_string() }.invoke_cmd().unwrap(), Topic::List);
    assert_eq!(Help { name: "load".to_string() }.invoke_cmd().unwrap(), Topic::Load);
    assert_eq!(Help { name: "start".to_string() }.invoke_cmd().unwrap(), Topic::Start);
    let e = Help { name: "help".to_string() }.invoke_cmd().unwrap_err();
    assert_eq!(e.message(), "Available commands are: kill, list, load, start");
    assert!(Help { name: "".to_string() }.invoke_cmd().is_err());
    assert!(Help { name: "Kill".to_string() }.invoke_cmd().is_err());
}

#[test]
fn manager_picks_the_command() {
    let none = Manager { list: None, kill: None, load: None, start: None, help: None };
    assert!(matches!(none.invoke_cmd(), Command::Nothing));
    let m = Manager {
        list: None,
        kill: Some(Kill { all: true, id: None }),
        load: None,
        start: None,
        help: Some(Help { name: "kill".to_string() }),
    };
    assert!(matches!(m.invoke_cmd(), Command::Kill(Kill { all: true, id: None })));
    let m = Manager {
        list: Some(List { local: true }),
        kill: Some(Kill { all: true, id: None }),
        load: Some(Load { config: None }),
        start: Some(start(0)),
        help: None,
    };
    assert!(matches!(m.invoke_cmd(), Command::List(List { local: true })));
    let m = Manager { list: None, kill: None, load: None, start: Some(start(4)), help: None };
    match m.invoke_cmd() {
        Command::Start(s) => assert_eq!(s.index, 4),
        other => panic!("{:?}", other),
    }
    let m = Manager {
        list: None,
        kill: None,
        load: Some(Load { config: None }),
        start: Some(start(4)),
        help: None,
    };
    assert!(matches!(m.invoke_cmd(), Command::Load(_)));
    let m = Manager {
        list: None,
        kill: None,
        load: None,
        start: None,
        help: Some(Help { name: "x".to_string() }),
    };
    assert!(matches!(m.invoke_cmd(), Command::Help(_)));
}

#[test]
fn binaries_come_from_the_call_then_the_profile() {
    let p = profile();
    let mut st = start(0);
    assert_eq!(st.bin_path(&p), "/opt/ss/ssserver");
    assert_eq!(st.kcp_path(&p), "/opt/ss/kcptun");
    st.bin = Some("~/ssserver".to_string());
    st.kcp = Some("~/kcp".to_string());
    assert_eq!(st.bin_path(&p), "~/ssserver");
    assert_eq!(st.kcp_path(&p), "~/kcp");
    let given = Some("a".to_string());
    let stored = Some("b".to_string());
    assert_eq!(Start::log_path(&given, &stored), Some(&"a".to_string()));
    assert_eq!(Start::log_path(&None, &stored), Some(&"b".to_string()));
    assert_eq!(Start::log_path(&None, &None), None);
}

#[test]
fn default_context_is_empty() {
    let ac: AppContext<u32> = AppContext::default();
    assert!(ac.cfgs.is_empty());
    assert!(ac.insts.is_empty());
}

#[test]
fn profiles_copy_and_default() {
    let p = profile();
    let q = p.clone();
    assert_eq!(q.bin, p.bin);
    assert_eq!(q.ss_cfg.password, "secret");
    assert_eq!(q.kcp_cfg.as_ref().unwrap().key, "key");
    assert_eq!(q.kcp_cfg.as_ref().unwrap().crypt, Crypt::Des3);
    let d = DeployConfig::default();
    assert_eq!(d.bin, "");
    assert_eq!(d.ss_cfg.server_port, 0);
    assert_eq!(d.ss_cfg.method, Method::Blake3ChaCha20Poly1305_2022);
    assert!(d.kcp_cfg.is_none());
    let k = KcpConfig::default();
    assert_eq!(k.crypt, Crypt::Aes);
    assert_eq!(k.mode, KcpMode::Fast);
    assert!(!k.comp);
    let s = SsConfig::default();
    assert_eq!(s.timeout, 0);
    assert!(!s.fast_open);
}

#[test]
fn failed_start_leaves_the_registry() {
    let mut ac = context();
    ac.register(0, "ss0", None);
    let r = ac.started::<&str>(1, Err("no such file"));
    assert_eq!(r, Err("no such file"));
    assert_eq!(ids(&ac), vec![0]);
    let r = ac.started::<&str>(1, Ok(("ss1", Some("kcp1"))));
    assert_eq!(r, Ok(()));
    assert_eq!(ids(&ac), vec![0, 1]);
    assert_eq!(ac.insts[1].ss, "ss1");
    assert_eq!(ac.insts[1].kcp, Some("kcp1"));
    assert_eq!(ac.cfgs.len(), 2);
}

use rssdeploy::error::BridgeError;
use rssdeploy::helper::candidates;
use rssdeploy::helper::completion;
use rssdeploy::helper::id_values;
use rssdeploy::helper::DeployShell;
use rssdeploy::manager::AppContext;
use rssdeploy::manager::Reply;
use rssdeploy::manager::Request;
use rssdeploy::proxy::outcome;
use rssdeploy::shell::Message;
use rssdeploy::shell::Shell;
use rssdeploy::shell::Step;

#[test]
fn completion_of_a_word_under_the_cursor() {
    let c = completion("star", 4);
    assert_eq!(c.args, vec!["rssdeploy", "star"]);
    assert_eq!(c.cword, 1);
    assert_eq!(c.curr, "star");
    assert_eq!(c.prev, "rssdeploy");
    assert_eq!(c.start, 0);
}

#[test]
fn completion_of_a_new_word() {
    let c = completion("start ", 6);
    assert_eq!(c.args, vec!["rssdeploy", "start", ""]);
    assert_eq!(c.cword, 2);
    assert_eq!(c.curr, "");
    assert_eq!(c.prev, "start");
    assert_eq!(c.start, 6);
}

#[test]
fn completion_of_an_empty_line() {
    let c = completion("", 0);
    assert_eq!(c.args, vec!["rssdeploy"]);
    assert_eq!(c.cword, 1);
    assert_eq!(c.curr, "");
    assert_eq!(c.prev, "rssdeploy");
    assert_eq!(c.start, 0);
}

#[test]
fn completion_in_the_middle_of_a_line() {
    let c = completion("kill --id 1", 7);
    assert_eq!(c.args, vec!["rssdeploy", "kill", "--id", "1"]);
    assert_eq!(c.cword, 2);
    assert_eq!(c.curr, "--id");
    assert_eq!(c.prev, "kill");
    assert_eq!(c.start, 5);
}

#[test]
fn completion_behind_the_text() {
    let c = completion("kill", 9);
    assert_eq!(c.args, vec!["rssdeploy", "kill"]);
    assert_eq!(c.cword, 2);
    assert_eq!(c.curr, "");
    assert_eq!(c.prev, "kill");
    assert_eq!(c.start, 5);
}

#[test]
fn id_values_are_numerals() {
    assert_eq!(id_values(&vec![0, 7, 10, 4096]), vec!["0", "7", "10", "4096"]);
    assert!(id_values(&Vec::new()).is_empty());
}

#[test]
fn candidates_come_from_the_matching_reply() {
    let ids: Result<Reply, BridgeError> = Ok(Reply::InstanceId(vec![2, 5]));
    assert_eq!(candidates(Request::FetchInstanceId, &ids), vec!["2", "5"]);
    assert!(candidates(Request::FetchTaskIndex, &ids).is_empty());
    let indices: Result<Reply, BridgeError> = Ok(Reply::TaskIndex(vec![0, 1]));
    assert_eq!(candidates(Request::FetchTaskIndex, &indices), vec!["0", "1"]);
    assert!(candidates(Request::FetchInstanceId, &indices).is_empty());
}

#[test]
fn unanswered_request_gives_no_candidates() {
    let failed: Result<Reply, BridgeError> = Err(BridgeError::Closed);
    assert!(candidates(Request::FetchInstanceId, &failed).is_empty());
    let failed: Result<Reply, BridgeError> = Err(BridgeError::SendFailed);
    assert!(candidates(Request::FetchTaskIndex, &failed).is_empty());
}

#[test]
fn outcome_of_an_exchange() {
    assert_eq!(outcome(true, Some(5)), Ok(5));
    assert_eq!(outcome::<u8>(true, None), Err(BridgeError::Closed));
    assert_eq!(outcome(false, Some(5)), Err(BridgeError::SendFailed));
    assert_eq!(outcome::<u8>(false, None), Err(BridgeError::SendFailed));
    assert_eq!(BridgeError::SendFailed.message(), "send msg failed");
    assert_eq!(BridgeError::Closed.message(), "can not receive msg ");
}

#[test]
fn deploy_shell_collects_words() {
    let mut shell: DeployShell<u8> = DeployShell::new();
    assert!(shell.is_avail("bash"));
    shell.write_cmd("start");
    shell.write_opt("--port");
    shell.write_pos("index");
    shell.write_val("9000");
    shell.write_eq("--config", "a.json");
    shell.finish();
    assert_eq!(shell.take_buff().unwrap(), vec!["start", "--port", "index", "9000", "a.json"]);
    assert_eq!(shell.take_buff().unwrap(), Vec::<String>::new());
    shell.set_buff(vec!["x".to_string()]);
    shell.write_cmd("y");
    assert_eq!(shell.take_buff().unwrap(), vec!["x", "y"]);
    let mut other: DeployShell<u8> = DeployShell::default();
    assert_eq!(other.take_buff().unwrap(), Vec::<String>::new());
}

#[test]
fn shell_arms_the_editor_once() {
    let mut shell = Shell::new();
    assert!(shell.arm());
    assert!(!shell.arm());
    assert!(!shell.arm());
}

#[test]
fn shell_runs_a_line_and_arms_again() {
    let ac: AppContext<u32> = AppContext::new();
    let mut shell = Shell::new();
    assert!(shell.arm());
    match shell.on_message(&ac, Message::Line("start  --port 9000 \"a b\" 0".to_string())) {
        Step::Run(args) => assert_eq!(args, vec!["start", "--port", "9000", "\"a b\"", "0"]),
        other => panic!("{:?}", other),
    }
    assert!(shell.arm());
    match shell.on_message(&ac, Message::Line(String::new())) {
        Step::Run(args) => assert!(args.is_empty()),
        other => panic!("{:?}", other),
    }
}

#[test]
fn shell_answers_without_arming() {
    let mut ac: AppContext<u32> = AppContext::new();
    let mut shell = Shell::new();
    assert!(shell.arm());
    match shell.on_message(&ac, Message::Request(Request::FetchInstanceId)) {
        Step::Answer(Reply::InstanceId(ids)) => assert!(ids.is_empty()),
        other => panic!("{:?}", other),
    }
    assert!(!shell.arm());
    ac.register(3, 1, None);
    match shell.on_message(&ac, Message::Request(Request::FetchInstanceId)) {
        Step::Answer(Reply::InstanceId(ids)) => assert_eq!(ids, vec![3]),
        other => panic!("{:?}", other),
    }
    match shell.on_message(&ac, Message::Request(Request::FetchTaskIndex)) {
        Step::Answer(Reply::TaskIndex(ids)) => assert!(ids.is_empty()),
        other => panic!("{:?}", other),
    }
    assert!(!shell.arm());
}

#[test]
fn shell_shows_a_report_and_stops_on_interrupt() {
    let ac: AppContext<u32> = AppContext::new();
    let mut shell = Shell::new();
    assert!(shell.arm());
    match shell.on_message(&ac, Message::Report("Got error: Eof".to_string())) {
        Step::Show(text) => assert_eq!(text, "Got error: Eof"),
        other => panic!("{:?}", other),
    }
    assert!(shell.arm());
    assert!(matches!(shell.on_message(&ac, Message::Interrupted), Step::Stop));
    assert!(!shell.arm());
}

#[test]
fn names_with_a_prefix() {
    let names: Vec<String> =
        ["a.json", "ab.json", "b.json", "", "a"].iter().map(|s| s.to_string()).collect();
    assert_eq!(rssdeploy::helper::with_prefix(&names, "a"), vec!["a.json", "ab.json", "a"]);
    assert_eq!(rssdeploy::helper::with_prefix(&names, "ab"), vec!["ab.json"]);
    assert_eq!(rssdeploy::helper::with_prefix(&names, ""), names);
    assert!(rssdeploy::helper::with_prefix(&names, "c").is_empty());
    assert!(rssdeploy::helper::with_prefix(&Vec::new(), "a").is_empty());
}

#[test]
fn unique_names_are_added() {
    let mut vals = vec!["~/shadowsocks.json".to_string(), "a.json".to_string()];
    let names: Vec<String> =
        ["b.json", "a.json", "b.json", "c.json"].iter().map(|s| s.to_string()).collect();
    rssdeploy::helper::add_unique(&mut vals, names);
    assert_eq!(vals, vec!["~/shadowsocks.json", "a.json", "b.json", "c.json"]);
    assert!(rssdeploy::helper::holds(&vals, "c.json"));
    assert!(!rssdeploy::helper::holds(&vals, "c"));
    assert!(!rssdeploy::helper::holds(&Vec::new(), ""));
}

#[test]
fn prefix_of_a_text() {
    assert!(rssdeploy::text::starts_with("config.json", "conf"));
    assert!(rssdeploy::text::starts_with("config.json", ""));
    assert!(rssdeploy::text::starts_with("", ""));
    assert!(rssdeploy::text::starts_with("é", "é"));
    assert!(!rssdeploy::text::starts_with("conf", "config"));
    assert!(!rssdeploy::text::starts_with("config", "Conf"));
    assert_eq!(rssdeploy::text::chars_of("aé "), vec!['a', 'é', ' ']);
}

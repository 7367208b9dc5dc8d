use ntf::backend::http::Http;
use ntf::backend::Backend;
use ntf::command::command_outcome;
use ntf::dispatch::{compose, done, send};
use ntf::exchange::{HttpOutcome, HttpRequest, Method, Payload, Termination};
use std::cell::RefCell;
use std::rc::Rc;

struct Recorder {
    seen: Rc<RefCell<Vec<(String, String)>>>,
    reply: Result<String, String>,
}

impl Backend for Recorder {
    fn send_message(&self, title: &str, message: &str) -> Result<String, String> {
        self.seen.borrow_mut().push((title.to_string(), message.to_string()));
        self.reply.clone()
    }
}

fn recorder(reply: Result<String, String>) -> (Box<dyn Backend>, Rc<RefCell<Vec<(String, String)>>>) {
    let seen = Rc::new(RefCell::new(Vec::new()));
    (Box::new(Recorder { seen: seen.clone(), reply }), seen)
}

fn pair(title: &str, message: &str) -> (String, String) {
    (title.to_string(), message.to_string())
}

#[test]
fn done_sends_the_callers_pair_whatever_the_command_did() {
    let ends = [
        Termination::Exited(0),
        Termination::Exited(1),
        Termination::Killed,
        Termination::NotStarted("missing".to_string()),
    ];
    for end in ends {
        let (backend, seen) = recorder(Ok("sent".to_string()));
        let reply = done(vec!["make", "all"], backend, "my title", "my message", 3, end);
        assert_eq!(reply, Ok("sent".to_string()));
        assert_eq!(*seen.borrow(), vec![pair("my title", "my message")]);
    }
}

#[test]
fn done_reports_a_finished_command() {
    let (backend, seen) = recorder(Ok("200".to_string()));
    let reply = done(vec!["echo", "hi"], backend, "", "", 0, Termination::Exited(0));
    assert_eq!(reply, Ok("200".to_string()));
    assert_eq!(*seen.borrow(), vec![pair("command 'echo hi' finished", "执行用时:0秒")]);
}

#[test]
fn done_reports_a_failed_command() {
    let (backend, seen) = recorder(Ok(String::new()));
    done(vec!["false"], backend, "", "", 1, Termination::Exited(1)).unwrap();
    assert_eq!(*seen.borrow(), vec![pair("command 'false' failed", "执行用时:1秒, 退出码:1")]);
}

#[test]
fn done_reports_a_killed_command() {
    let (backend, seen) = recorder(Ok(String::new()));
    done(vec!["sleep", "100"], backend, "", "", 42, Termination::Killed).unwrap();
    assert_eq!(*seen.borrow(), vec![pair("command 'sleep 100' failed", "执行用时:42秒, 退出原因:被杀死")]);
}

#[test]
fn done_reports_a_command_that_did_not_start_as_finished() {
    let (backend, seen) = recorder(Ok(String::new()));
    done(vec!["nope"], backend, "", "", 0, Termination::NotStarted("not found".to_string())).unwrap();
    assert_eq!(*seen.borrow(), vec![pair("command 'nope' finished", "执行用时:0秒,失败原因:not found")]);
}

#[test]
fn done_reports_where_only_one_of_title_and_message_is_given() {
    let (backend, seen) = recorder(Ok(String::new()));
    done(vec!["ls"], backend, "only a title", "", 0, Termination::Exited(0)).unwrap();
    assert_eq!(*seen.borrow(), vec![pair("command 'ls' finished", "执行用时:0秒")]);
    let (backend, seen) = recorder(Ok(String::new()));
    done(vec!["ls"], backend, "", "only a message", 0, Termination::Exited(0)).unwrap();
    assert_eq!(*seen.borrow(), vec![pair("command 'ls' finished", "执行用时:0秒")]);
}

#[test]
fn done_returns_a_failed_delivery_and_sends_once() {
    let (backend, seen) = recorder(Err("request:http://x failed:refused".to_string()));
    let reply = done(vec!["echo", "hi"], backend, "", "", 0, Termination::Exited(0));
    assert_eq!(reply, Err("request:http://x failed:refused".to_string()));
    assert_eq!(seen.borrow().len(), 1);
}

#[test]
fn echo_hi_end_to_end() {
    let (backend, seen) = recorder(Ok("delivered".to_string()));
    let elapsed: u64 = 7;
    let reply = done(vec!["echo", "hi"], backend, "", "", elapsed, Termination::Exited(0));
    assert_eq!(reply, Ok("delivered".to_string()));
    let seen = seen.borrow();
    assert_eq!(seen.len(), 1);
    assert_eq!(seen[0].0, "command 'echo hi' finished");
    assert!(seen[0].1.contains("7"));
    assert!(seen[0].1.contains("执行用时"));
}

#[test]
fn send_hands_over_the_callers_pair() {
    let (backend, seen) = recorder(Ok("ok".to_string()));
    assert_eq!(send(backend, "t", "m"), Ok("ok".to_string()));
    assert_eq!(*seen.borrow(), vec![pair("t", "m")]);
}

#[test]
fn send_falls_back_to_the_greeting() {
    for (title, message) in [("", ""), ("t", ""), ("", "m")] {
        let (backend, seen) = recorder(Err("down".to_string()));
        assert_eq!(send(backend, title, message), Err("down".to_string()));
        assert_eq!(*seen.borrow(), vec![pair("hello", "this is test message")]);
    }
}

#[test]
fn compose_chooses_between_the_caller_and_the_report() {
    let outcome = command_outcome(2, Termination::Exited(0));
    let sent = compose(&vec!["a", "b", "c"], "x", "y", &outcome);
    assert_eq!((sent.title.as_str(), sent.message.as_str()), ("x", "y"));
    let sent = compose(&vec!["a", "b", "c"], "", "y", &outcome);
    assert_eq!((sent.title.as_str(), sent.message.as_str()), ("command 'a b c' finished", "执行用时:2秒"));
    let sent = compose(&vec![], "", "", &command_outcome(2, Termination::Killed));
    assert_eq!(sent.title, "command '' failed");
}

struct MockHttp {
    config: Http,
    requests: Rc<RefCell<Vec<HttpRequest>>>,
}

impl Backend for MockHttp {
    fn send_message(&self, title: &str, message: &str) -> Result<String, String> {
        let request = self.config.request(title, message).map_err(|e| e.message())?;
        let reply = Http::reply(&request.url, HttpOutcome::Body("accepted".to_string()));
        self.requests.borrow_mut().push(request);
        reply.map_err(|e| e.message())
    }
}

#[test]
fn echo_hi_through_a_mock_http_backend() {
    let requests = Rc::new(RefCell::new(Vec::new()));
    let backend = MockHttp {
        config: Http {
            url: "http://example.test/notify?subject={title}".to_string(),
            method: Some("POST".to_string()),
            headers: None,
            form: None,
            json: None,
            body: Some("{title}\n{message}".to_string()),
        },
        requests: requests.clone(),
    };
    let reply = done(vec!["echo", "hi"], Box::new(backend), "", "", 0, Termination::Exited(0));
    assert_eq!(reply, Ok("accepted".to_string()));
    let requests = requests.borrow();
    assert_eq!(requests.len(), 1);
    assert_eq!(requests[0].method, Method::Post);
    assert_eq!(requests[0].url, "http://example.test/notify?subject=command 'echo hi' finished");
    match &requests[0].payload {
        Payload::Text(text) => assert_eq!(text, "command 'echo hi' finished\n执行用时:0秒"),
        _ => panic!("expected a text body"),
    }
}

#[test]
fn a_backend_that_cannot_build_its_request_reports_it() {
    let requests = Rc::new(RefCell::new(Vec::new()));
    let backend = MockHttp {
        config: Http {
            url: "http://example.test/".to_string(),
            method: Some("POST".to_string()),
            headers: None,
            form: None,
            json: None,
            body: None,
        },
        requests: requests.clone(),
    };
    let reply = send(Box::new(backend), "t", "m");
    assert_eq!(reply, Err("post method must have form | json | body fields".to_string()));
    assert_eq!(requests.borrow().len(), 0);
}

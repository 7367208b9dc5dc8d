use ntf::backend::work_weixin::{frame, post, TokenOutcome, TokenReply, WorkWeixin};
use ntf::error::Error;
use ntf::exchange::{HttpOutcome, HttpRequest, Method, Payload};
use std::cell::RefCell;

fn account() -> WorkWeixin {
    WorkWeixin {
        corpid: "corp".to_string(),
        agentid: "1000002".to_string(),
        corpsecret: "s3cret".to_string(),
    }
}

fn granted(token: &str) -> TokenOutcome {
    TokenOutcome::Reply(TokenReply {
        errcode: 0,
        errmsg: "ok".to_string(),
        access_token: Some(token.to_string()),
        expires_in: Some(7200),
    })
}

fn refused(errcode: i32, errmsg: &str) -> TokenOutcome {
    TokenOutcome::Reply(TokenReply {
        errcode,
        errmsg: errmsg.to_string(),
        access_token: None,
        expires_in: None,
    })
}

fn body_of(request: &HttpRequest) -> String {
    match &request.payload {
        Payload::Text(text) => text.clone(),
        _ => panic!("the post carries no text"),
    }
}

struct Wire {
    token: RefCell<Option<TokenOutcome>>,
    posts: RefCell<Vec<String>>,
}

fn deliver(account: &WorkWeixin, wire: &Wire, title: &str, message: &str) -> Result<String, Error> {
    let _asked = account.token_request();
    let token = wire.token.borrow_mut().take().expect("one delivery per wire");
    let request = account.send_request(token, title, message)?;
    wire.posts.borrow_mut().push(body_of(&request));
    WorkWeixin::reply(HttpOutcome::Body("{\"errcode\":0}".to_string()))
}

#[test]
fn token_request_names_the_account() {
    let request = account().token_request();
    assert_eq!(request.method, Method::Get);
    assert_eq!(
        request.url,
        "https://qyapi.weixin.qq.com/cgi-bin/gettoken?corpid=corp&corpsecret=s3cret"
    );
    assert_eq!(request.headers.len(), 0);
    assert!(matches!(request.payload, Payload::Nothing));
}

#[test]
fn a_refused_token_ends_the_delivery_and_nothing_is_posted() {
    let wire = Wire {
        token: RefCell::new(Some(refused(40013, "invalid corpid"))),
        posts: RefCell::new(Vec::new()),
    };
    match deliver(&account(), &wire, "t", "m") {
        Err(Error::TokenFailed(cause)) => assert_eq!(cause, "invalid corpid"),
        _ => panic!("expected TokenFailed"),
    }
    assert_eq!(wire.posts.borrow().len(), 0);
}

#[test]
fn a_refusal_counts_even_where_a_token_came_with_it() {
    let outcome = TokenOutcome::Reply(TokenReply {
        errcode: -1,
        errmsg: "system busy".to_string(),
        access_token: Some("tok".to_string()),
        expires_in: None,
    });
    match account().send_request(outcome, "t", "m") {
        Err(e) => assert_eq!(e.message(), "get_token failed:system busy"),
        Ok(_) => panic!("expected a failure"),
    }
}

#[test]
fn a_token_request_that_failed_ends_the_delivery() {
    let wire = Wire {
        token: RefCell::new(Some(TokenOutcome::Failed("connection refused".to_string()))),
        posts: RefCell::new(Vec::new()),
    };
    match deliver(&account(), &wire, "t", "m") {
        Err(Error::TokenFailed(cause)) => assert_eq!(cause, "connection refused"),
        _ => panic!("expected TokenFailed"),
    }
    assert_eq!(wire.posts.borrow().len(), 0);
}

#[test]
fn a_granted_token_leads_to_one_post() {
    let wire = Wire { token: RefCell::new(Some(granted("TOKEN"))), posts: RefCell::new(Vec::new()) };
    let reply = deliver(&account(), &wire, "Title", "Body");
    assert_eq!(reply.ok(), Some("{\"errcode\":0}".to_string()));
    assert_eq!(wire.posts.borrow().len(), 1);
}

#[test]
fn the_post_goes_to_the_send_endpoint_under_the_token() {
    let request = account().send_request(granted("TOKEN"), "Title", "Body").ok().unwrap();
    assert_eq!(request.method, Method::Post);
    assert_eq!(
        request.url,
        "https://qyapi.weixin.qq.com/cgi-bin/message/send?access_token=TOKEN"
    );
    assert_eq!(request.headers.len(), 1);
    assert_eq!(request.headers.name(0), "content-type");
    assert_eq!(request.headers.value(0), "application/json");
}

#[test]
fn the_post_carries_the_message_object() {
    let request = account().send_request(granted("TOKEN"), "Title", "Body").ok().unwrap();
    assert_eq!(
        body_of(&request),
        "{\"agentid\":\"1000002\",\"msgtype\":\"text\",\"text\":{\"content\":\"Title\\nBody\"},\"touser\":\"@all\"}"
    );
}

#[test]
fn the_message_object_reads_back_as_json() {
    let title = "He said \"hi\" \\ bye";
    let message = "line1\nline2\ttab é 秒";
    let request = account().send_request(granted("T"), title, message).ok().unwrap();
    let value: serde_json::Value = serde_json::from_str(&body_of(&request)).unwrap();
    assert_eq!(value["touser"], serde_json::Value::from("@all"));
    assert_eq!(value["msgtype"], serde_json::Value::from("text"));
    assert_eq!(value["agentid"], serde_json::Value::from("1000002"));
    assert_eq!(
        value["text"]["content"],
        serde_json::Value::from(format!("{}\n{}", title, message))
    );
    assert_eq!(value.as_object().unwrap().len(), 4);
}

#[test]
fn the_message_object_is_what_the_json_library_writes() {
    let mut text = serde_json::Map::new();
    text.insert("content".to_string(), serde_json::Value::from("a\"b\nc"));
    let mut object = serde_json::Map::new();
    object.insert("touser".to_string(), serde_json::Value::from("@all"));
    object.insert("msgtype".to_string(), serde_json::Value::from("text"));
    object.insert("agentid".to_string(), serde_json::Value::from("1000002"));
    object.insert("text".to_string(), serde_json::Value::Object(text));
    let expected = serde_json::to_string(&serde_json::Value::Object(object)).unwrap();
    let request = account().send_request(granted("T"), "a\"b", "c").ok().unwrap();
    assert_eq!(body_of(&request), expected);
}

#[test]
fn frame_puts_the_literals_in_place() {
    assert_eq!(
        frame("\"7\"", "\"x\""),
        "{\"agentid\":\"7\",\"msgtype\":\"text\",\"text\":{\"content\":\"x\"},\"touser\":\"@all\"}"
    );
}

#[test]
fn post_builds_the_request_for_a_token_and_a_body() {
    let request = post("abc", "{}".to_string());
    assert_eq!(request.url, "https://qyapi.weixin.qq.com/cgi-bin/message/send?access_token=abc");
    assert_eq!(body_of(&request), "{}");
}

#[test]
fn the_reply_to_the_post_is_passed_on_unread() {
    let reply = WorkWeixin::reply(HttpOutcome::Body("{\"errcode\":40014,\"errmsg\":\"invalid\"}".to_string()));
    assert_eq!(reply.ok(), Some("{\"errcode\":40014,\"errmsg\":\"invalid\"}".to_string()));
}

#[test]
fn a_post_that_failed_is_a_send_failure() {
    match WorkWeixin::reply(HttpOutcome::Unreachable("timeout".to_string())) {
        Err(Error::SendFailed(cause)) => assert_eq!(cause, "timeout"),
        _ => panic!("expected SendFailed"),
    }
    match WorkWeixin::reply(HttpOutcome::Unreadable("reset".to_string())) {
        Err(e) => assert_eq!(e.message(), "send message:reset"),
        Ok(_) => panic!("expected a failure"),
    }
}

//! Delivery through the WeCom message API: a token is fetched, then the
//! message is posted with it.

use crate::document::{required_text, Document, Item};
use crate::error::{viewed, Error, ErrorView};
use crate::exchange::{HttpOutcome, HttpOutcomeView, HttpRequest, HttpRequestView, Method, Payload, PayloadView};
use crate::pairs::Pairs;
use vstd::prelude::*;
use vstd::string::*;

verus! {

/// The JSON string literal for `text`, as `serde_json` writes it: between
/// double quotes, with its escapes.
pub uninterp spec fn json_string(text: Seq<char>) -> Seq<char>;

/// Makes a `serde_json::Value` of `text` with `Value::from` and writes it out
/// through its `Display` impl, which gives compact JSON. The contract only
/// names the result.
#[verifier::external_body]
fn json_literal(text: &str) -> (literal: String)
    ensures
        literal@ == json_string(text@),
{
    serde_json::Value::from(text).to_string()
}

/// The account that messages are sent from.
pub struct WorkWeixin {
    pub corpid: String,
    pub agentid: String,
    pub corpsecret: String,
}

/// A `WorkWeixin` with its strings as character sequences.
pub struct WorkWeixinView {
    pub corpid: Seq<char>,
    pub agentid: Seq<char>,
    pub corpsecret: Seq<char>,
}

impl View for WorkWeixin {
    type V = WorkWeixinView;

    open spec fn view(&self) -> WorkWeixinView {
        WorkWeixinView {
            corpid: self.corpid@,
            agentid: self.agentid@,
            corpsecret: self.corpsecret@,
        }
    }
}

/// The configuration that a document section describes: `corpid`, `agentid`
/// and `corpsecret` must be there as strings. Other names are ignored. The
/// first field at fault, in this order, is the one reported.
pub open spec fn decoded_work_weixin(entries: Seq<(Seq<char>, Item)>) -> Result<
    WorkWeixinView,
    ErrorView,
> {
    match required_text(entries, "corpid"@) {
        Err(e) => Err(e),
        Ok(corpid) => match required_text(entries, "agentid"@) {
            Err(e) => Err(e),
            Ok(agentid) => match required_text(entries, "corpsecret"@) {
                Err(e) => Err(e),
                Ok(corpsecret) => Ok(WorkWeixinView { corpid, agentid, corpsecret }),
            },
        },
    }
}

/// What the token endpoint answered.
pub struct TokenReply {
    /// 0 where a token was granted.
    pub errcode: i32,
    pub errmsg: String,
    /// Present where `errcode` is 0.
    pub access_token: Option<String>,
    pub expires_in: Option<i32>,
}

/// How the request for a token ended.
pub enum TokenOutcome {
    /// No answer came, or none that could be read; holds the cause.
    Failed(String),
    /// The answer of the endpoint.
    Reply(TokenReply),
}

/// A `TokenOutcome` reduced to what decides the next step.
pub enum TokenOutcomeView {
    Failed(Seq<char>),
    /// The endpoint refused; holds its message.
    Refused(Seq<char>),
    /// The endpoint granted this token.
    Granted(Seq<char>),
    /// The endpoint reported success and sent no token.
    Broken,
}

impl View for TokenOutcome {
    type V = TokenOutcomeView;

    open spec fn view(&self) -> TokenOutcomeView {
        match self {
            TokenOutcome::Failed(cause) => TokenOutcomeView::Failed(cause@),
            TokenOutcome::Reply(reply) => if reply.errcode != 0 {
                TokenOutcomeView::Refused(reply.errmsg@)
            } else {
                match reply.access_token {
                    Some(token) => TokenOutcomeView::Granted(token@),
                    None => TokenOutcomeView::Broken,
                }
            },
        }
    }
}

/// The URL that grants a token to the account.
pub open spec fn token_url(corpid: Seq<char>, corpsecret: Seq<char>) -> Seq<char> {
    "https://qyapi.weixin.qq.com/cgi-bin/gettoken?corpid="@ + corpid + "&corpsecret="@
        + corpsecret
}

/// The request for a fresh token.
pub open spec fn token_request_of(account: WorkWeixinView) -> HttpRequestView {
    HttpRequestView {
        method: Method::Get,
        url: token_url(account.corpid, account.corpsecret),
        headers: Seq::empty(),
        payload: PayloadView::Nothing,
    }
}

/// The URL that takes a message under a token.
pub open spec fn send_url(token: Seq<char>) -> Seq<char> {
    "https://qyapi.weixin.qq.com/cgi-bin/message/send?access_token="@ + token
}

/// What is posted: the title, a line break, the message.
pub open spec fn content(title: Seq<char>, message: Seq<char>) -> Seq<char> {
    title + "\n"@ + message
}

/// The JSON object that carries a text message to everybody, given the agent
/// and the content as JSON string literals. Its members stand in the order of
/// their names.
pub open spec fn framed(agent_literal: Seq<char>, content_literal: Seq<char>) -> Seq<char> {
    "{\"agentid\":"@ + agent_literal + ",\"msgtype\":\"text\",\"text\":{\"content\":"@
        + content_literal + "},\"touser\":\"@all\"}"@
}

/// The request that posts `body` under `token`.
pub open spec fn post_of(token: Seq<char>, body: Seq<char>) -> HttpRequestView {
    HttpRequestView {
        method: Method::Post,
        url: send_url(token),
        headers: seq![("content-type"@, "application/json"@)],
        payload: PayloadView::Text(body),
    }
}

/// The step after the token request: the post, or the end of the delivery.
/// Where no token was granted nothing is posted. Of an answer that reports
/// success without a token, which breaks the endpoint's contract, nothing is
/// said.
pub open spec fn after_token(
    agentid: Seq<char>,
    outcome: TokenOutcomeView,
    title: Seq<char>,
    message: Seq<char>,
) -> Result<HttpRequestView, ErrorView> {
    match outcome {
        TokenOutcomeView::Failed(cause) => Err(ErrorView::TokenFailed(cause)),
        TokenOutcomeView::Refused(errmsg) => Err(ErrorView::TokenFailed(errmsg)),
        TokenOutcomeView::Granted(token) => Ok(
            post_of(token, framed(json_string(agentid), json_string(content(title, message)))),
        ),
        TokenOutcomeView::Broken => arbitrary(),
    }
}

/// Where the token endpoint answers with an error code other than 0, the
/// delivery ends with the endpoint's message and no post is asked for.
pub proof fn lemma_refusal_posts_nothing(
    agentid: Seq<char>,
    reply: TokenReply,
    title: Seq<char>,
    message: Seq<char>,
)
    requires
        reply.errcode != 0,
    ensures
        after_token(agentid, TokenOutcome::Reply(reply)@, title, message) == Err::<
            HttpRequestView,
            ErrorView,
        >(ErrorView::TokenFailed(reply.errmsg@)),
{
}

/// What the outcome of the post means for the sender. The body is passed on
/// as it came: an error code in it is not looked at.
pub open spec fn post_reply(outcome: HttpOutcomeView) -> Result<Seq<char>, ErrorView> {
    match outcome {
        HttpOutcomeView::Unreachable(cause) => Err(ErrorView::SendFailed(cause)),
        HttpOutcomeView::Unreadable(cause) => Err(ErrorView::SendFailed(cause)),
        HttpOutcomeView::Body(body) => Ok(body),
    }
}

/// Puts the two JSON string literals into the message object.
pub fn frame(agent_literal: &str, content_literal: &str) -> (body: String)
    ensures
        body@ == framed(agent_literal@, content_literal@),
{
    let mut body = String::from_str("{\"agentid\":");
    body.append(agent_literal);
    body.append(",\"msgtype\":\"text\",\"text\":{\"content\":");
    body.append(content_literal);
    body.append("},\"touser\":\"@all\"}");
    body
}

/// The request that posts the JSON text `body` under `token`.
pub fn post(token: &str, body: String) -> (request: HttpRequest)
    ensures
        request@ == post_of(token@, body@),
        request.wf(),
{
    let mut url = String::from_str("https://qyapi.weixin.qq.com/cgi-bin/message/send?access_token=");
    url.append(token);
    let mut headers = Pairs::new();
    headers.insert("content-type", "application/json");
    HttpRequest { method: Method::Post, url, headers, payload: Payload::Text(body) }
}

impl WorkWeixin {
    /// Reads the configuration from its section of the document.
    pub fn from_document(section: &Document) -> (decoded: Result<WorkWeixin, Error>)
        ensures
            viewed(decoded) == decoded_work_weixin(section.entries()),
    {
        let corpid = match section.required_text("corpid") {
            Ok(corpid) => corpid,
            Err(e) => { return Err(e); },
        };
        let agentid = match section.required_text("agentid") {
            Ok(agentid) => agentid,
            Err(e) => { return Err(e); },
        };
        let corpsecret = match section.required_text("corpsecret") {
            Ok(corpsecret) => corpsecret,
            Err(e) => { return Err(e); },
        };
        Ok(WorkWeixin { corpid, agentid, corpsecret })
    }

    /// The first step: the request for a fresh token. No token is kept from
    /// one delivery to the next.
    pub fn token_request(&self) -> (request: HttpRequest)
        ensures
            request@ == token_request_of(self@),
            request.wf(),
    {
        let mut url = String::from_str("https://qyapi.weixin.qq.com/cgi-bin/gettoken?corpid=");
        url.append(self.corpid.as_str());
        url.append("&corpsecret=");
        url.append(self.corpsecret.as_str());
        HttpRequest { method: Method::Get, url, headers: Pairs::new(), payload: Payload::Nothing }
    }

    /// The second step, once the token request has ended: the post of title
    /// and message under the token, or the failure. A refusal by the endpoint
    /// ends the delivery with the endpoint's message, and nothing is posted.
    ///
    /// An answer that reports success without a token breaks the endpoint's
    /// contract; the caller must not hand it over.
    pub fn send_request(&self, token: TokenOutcome, title: &str, message: &str) -> (next: Result<
        HttpRequest,
        Error,
    >)
        requires
            token@ != TokenOutcomeView::Broken,
        ensures
            viewed(next) == after_token(self.agentid@, token@, title@, message@),
            next matches Ok(request) ==> request.wf(),
    {
        match token {
            TokenOutcome::Failed(cause) => Err(Error::TokenFailed(cause)),
            TokenOutcome::Reply(reply) => {
                if reply.errcode != 0 {
                    Err(Error::TokenFailed(reply.errmsg))
                } else {
                    match reply.access_token {
                        Some(access_token) => {
                            let mut text = String::from_str(title);
                            text.append("\n");
                            text.append(message);
                            let agent_literal = json_literal(self.agentid.as_str());
                            let content_literal = json_literal(text.as_str());
                            let body = frame(agent_literal.as_str(), content_literal.as_str());
                            Ok(post(access_token.as_str(), body))
                        },
                        None => vstd::pervasive::unreached(),
                    }
                }
            },
        }
    }

    /// The last step: turns the outcome of the post into the reply of the backend.
    pub fn reply(outcome: HttpOutcome) -> (reply: Result<String, Error>)
        ensures
            viewed(reply) == post_reply(outcome@),
    {
        match outcome {
            HttpOutcome::Unreachable(cause) => Err(Error::SendFailed(cause)),
            HttpOutcome::Unreadable(cause) => Err(Error::SendFailed(cause)),
            HttpOutcome::Body(body) => Ok(body),
        }
    }
}

} // verus!

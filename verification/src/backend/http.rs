//! Delivery by one HTTP request built from templates.

use crate::document::{optional_strings, optional_text, pairs_view, required_text, Document, Item};
use crate::error::{text_view, viewed, Error, ErrorView};
use crate::exchange::{HttpOutcome, HttpOutcomeView, HttpRequest, HttpRequestView, Method, Payload, PayloadView};
use crate::pairs::{filled_values, Pairs};
use crate::text::{fill, filled};
use vstd::prelude::*;
use vstd::string::*;

verus! {

/// Whether `reqwest::header::HeaderName::from_bytes` accepts the UTF-8 bytes
/// of `name` as a header name.
pub uninterp spec fn header_name_accepted(name: Seq<char>) -> bool;

/// A header value may hold tabs and any character from the space on, but for
/// the delete character.
pub open spec fn header_value_accepted(value: Seq<char>) -> bool {
    forall|i: int|
        0 <= i < value.len() ==> value[i] == '\t' || (32 <= value[i] as u32 && value[i] as u32
            != 127)
}

/// The method that a configured name stands for; names are case-sensitive.
pub open spec fn method_named(name: Seq<char>) -> Option<Method> {
    if name == seq!['G', 'E', 'T'] {
        Some(Method::Get)
    } else if name == seq!['P', 'O', 'S', 'T'] {
        Some(Method::Post)
    } else {
        None
    }
}

/// The name of the first header whose name or value cannot be sent, if any.
pub open spec fn refused_header(headers: Seq<(Seq<char>, Seq<char>)>) -> Option<Seq<char>>
    decreases headers.len(),
{
    if headers.len() == 0 {
        None
    } else if !(header_name_accepted(headers[0].0) && header_value_accepted(headers[0].1)) {
        Some(headers[0].0)
    } else {
        refused_header(headers.skip(1))
    }
}

/// Calls `reqwest::Method::from_bytes` on the bytes of `name` and tells `GET`
/// and `POST` from everything else: that function gives the method `GET` for
/// the three bytes `GET` alone and `POST` for the four bytes `POST` alone; any
/// other input is refused or becomes some other method.
#[verifier::external_body]
fn parse_method(name: &str) -> (method: Option<Method>)
    ensures
        method == method_named(name@),
{
    match reqwest::Method::from_bytes(name.as_bytes()) {
        Ok(reqwest::Method::GET) => Some(Method::Get),
        Ok(reqwest::Method::POST) => Some(Method::Post),
        _ => None,
    }
}

/// Calls `reqwest::header::HeaderName::from_bytes` on the bytes of `name` and
/// says whether it returned a header name. The contract only names that
/// answer.
#[verifier::external_body]
fn name_accepted(name: &str) -> (accepted: bool)
    ensures
        accepted == header_name_accepted(name@),
{
    reqwest::header::HeaderName::from_bytes(name.as_bytes()).is_ok()
}

/// Calls `reqwest::header::HeaderValue::from_str` and says whether it returned
/// a header value. That function refuses a string exactly if one of its bytes is
/// below 32 and not a tab, or is 127; the bytes of a character beyond ASCII are
/// all above 127.
#[verifier::external_body]
fn value_accepted(value: &str) -> (accepted: bool)
    ensures
        accepted == header_value_accepted(value@),
{
    reqwest::header::HeaderValue::from_str(value).is_ok()
}

/// Where to send a message over HTTP, and in what shape.
pub struct Http {
    /// Template of the URL.
    pub url: String,
    /// `GET` or `POST`; `GET` where none is given.
    pub method: Option<String>,
    /// Headers, sent as they are.
    pub headers: Option<Pairs>,
    /// Templates of form fields.
    pub form: Option<Pairs>,
    /// Templates of the members of a JSON object.
    pub json: Option<Pairs>,
    /// Template of a body to send as text.
    pub body: Option<String>,
}

/// An `Http` with its strings as character sequences.
pub struct HttpView {
    pub url: Seq<char>,
    pub method: Option<Seq<char>>,
    pub headers: Option<Seq<(Seq<char>, Seq<char>)>>,
    pub form: Option<Seq<(Seq<char>, Seq<char>)>>,
    pub json: Option<Seq<(Seq<char>, Seq<char>)>>,
    pub body: Option<Seq<char>>,
}

impl View for Http {
    type V = HttpView;

    open spec fn view(&self) -> HttpView {
        HttpView {
            url: self.url@,
            method: text_view(self.method),
            headers: pairs_view(self.headers),
            form: pairs_view(self.form),
            json: pairs_view(self.json),
            body: text_view(self.body),
        }
    }
}

impl HttpView {
    /// The configured method, `GET` where none is configured.
    pub open spec fn method_name(self) -> Seq<char> {
        match self.method {
            Some(name) => name,
            None => seq!['G', 'E', 'T'],
        }
    }

    /// The configured headers, none where none are configured.
    pub open spec fn sent_headers(self) -> Seq<(Seq<char>, Seq<char>)> {
        match self.headers {
            Some(headers) => headers,
            None => Seq::empty(),
        }
    }

    /// What a `POST` carries: the form if there is one, else the JSON fields if
    /// there are any, else the body; each with its placeholders filled in.
    pub open spec fn payload(self, title: Seq<char>, message: Seq<char>) -> Option<PayloadView> {
        if let Some(form) = self.form {
            Some(PayloadView::Form(filled_values(form, title, message)))
        } else if let Some(json) = self.json {
            Some(PayloadView::Json(filled_values(json, title, message)))
        } else if let Some(body) = self.body {
            Some(PayloadView::Text(filled(body, title, message)))
        } else {
            None
        }
    }

    /// The request for a title and a message, given the header that cannot be
    /// sent, if there is one.
    pub open spec fn request(
        self,
        title: Seq<char>,
        message: Seq<char>,
        refused: Option<Seq<char>>,
    ) -> Result<HttpRequestView, ErrorView> {
        if let Some(name) = refused {
            Err(ErrorView::InvalidHeaders(name))
        } else {
            match method_named(self.method_name()) {
                None => Err(ErrorView::UnsupportedMethod(self.method_name())),
                Some(Method::Get) => Ok(
                    HttpRequestView {
                        method: Method::Get,
                        url: filled(self.url, title, message),
                        headers: self.sent_headers(),
                        payload: PayloadView::Nothing,
                    },
                ),
                Some(Method::Post) => match self.payload(title, message) {
                    None => Err(ErrorView::MissingPayload),
                    Some(payload) => Ok(
                        HttpRequestView {
                            method: Method::Post,
                            url: filled(self.url, title, message),
                            headers: self.sent_headers(),
                            payload,
                        },
                    ),
                },
            }
        }
    }
}

/// Where a `POST` is configured with a form, the form is what is sent, with
/// its placeholders filled in, whether or not JSON fields or a body are
/// configured beside it.
pub proof fn lemma_form_wins(config: HttpView, title: Seq<char>, message: Seq<char>)
    requires
        method_named(config.method_name()) == Some(Method::Post),
        config.form is Some,
    ensures
        config.request(title, message, None) matches Ok(request) && request.payload
            == PayloadView::Form(filled_values(config.form->0, title, message)),
{
}

/// What the outcome of the request to `url` means for the sender.
pub open spec fn http_reply(url: Seq<char>, outcome: HttpOutcomeView) -> Result<
    Seq<char>,
    ErrorView,
> {
    match outcome {
        HttpOutcomeView::Unreachable(cause) => Err(ErrorView::RequestFailed(url, cause)),
        HttpOutcomeView::Unreadable(cause) => Err(ErrorView::ResponseReadFailed(cause)),
        HttpOutcomeView::Body(body) => Ok(body),
    }
}

/// The configuration that a document section describes: `url` must be there
/// as a string; `method` and `body` are strings, `headers`, `form` and `json`
/// tables of strings, each of which may be left out. Other names are ignored.
/// The first field at fault, in this order, is the one reported.
pub open spec fn decoded_http(entries: Seq<(Seq<char>, Item)>) -> Result<HttpView, ErrorView> {
    match required_text(entries, "url"@) {
        Err(e) => Err(e),
        Ok(url) => match optional_text(entries, "method"@) {
            Err(e) => Err(e),
            Ok(method) => match optional_strings(entries, "headers"@) {
                Err(e) => Err(e),
                Ok(headers) => match optional_strings(entries, "form"@) {
                    Err(e) => Err(e),
                    Ok(form) => match optional_strings(entries, "json"@) {
                        Err(e) => Err(e),
                        Ok(json) => match optional_text(entries, "body"@) {
                            Err(e) => Err(e),
                            Ok(body) => Ok(HttpView { url, method, headers, form, json, body }),
                        },
                    },
                },
            },
        },
    }
}

impl Http {
    /// Reads the configuration from its section of the document.
    pub fn from_document(section: &Document) -> (decoded: Result<Http, Error>)
        ensures
            viewed(decoded) == decoded_http(section.entries()),
            decoded matches Ok(http) ==> http.wf(),
    {
        let url = match section.required_text("url") {
            Ok(url) => url,
            Err(e) => { return Err(e); },
        };
        let method = match section.optional_text("method") {
            Ok(method) => method,
            Err(e) => { return Err(e); },
        };
        let headers = match section.optional_strings("headers") {
            Ok(headers) => headers,
            Err(e) => { return Err(e); },
        };
        let form = match section.optional_strings("form") {
            Ok(form) => form,
            Err(e) => { return Err(e); },
        };
        let json = match section.optional_strings("json") {
            Ok(json) => json,
            Err(e) => { return Err(e); },
        };
        let body = match section.optional_text("body") {
            Ok(body) => body,
            Err(e) => { return Err(e); },
        };
        Ok(Http { url, method, headers, form, json, body })
    }

    /// No header and no field is configured twice.
    pub open spec fn wf(&self) -> bool {
        &&& self.headers matches Some(headers) ==> headers.wf()
        &&& self.form matches Some(form) ==> form.wf()
        &&& self.json matches Some(json) ==> json.wf()
    }

    /// The name of the first configured header that cannot be sent, if any.
    pub fn refused_header(&self) -> (refused: Option<String>)
        ensures
            text_view(refused) == refused_header(self@.sent_headers()),
    {
        match &self.headers {
            None => None,
            Some(headers) => {
                let mut i: usize = 0;
                assert(headers@.skip(0) == headers@);
                while i < headers.len()
                    invariant
                        i <= headers@.len(),
                        self@.sent_headers() == headers@,
                        refused_header(headers@) == refused_header(headers@.skip(i as int)),
                    decreases headers@.len() - i,
                {
                    let ghost rest = headers@.skip(i as int);
                    assert(rest[0] == headers@[i as int]);
                    assert(rest.skip(1) == headers@.skip(i + 1));
                    if !name_accepted(headers.name(i)) || !value_accepted(headers.value(i)) {
                        return Some(String::from_str(headers.name(i)));
                    }
                    i += 1;
                }
                None
            },
        }
    }

    /// Builds the request for a title and a message, once the headers have been
    /// looked at: `refused` names the header that cannot be sent, if there is one.
    ///
    /// A refused header comes first, then an unsupported method, then a `POST`
    /// with nothing to carry. Where several payload sources are configured, the
    /// form wins over the JSON fields and these over the body.
    pub fn request_given(&self, title: &str, message: &str, refused: Option<String>) -> (planned:
        Result<HttpRequest, Error>)
        ensures
            viewed(planned) == self@.request(title@, message@, text_view(refused)),
            self.wf() ==> (planned matches Ok(request) ==> request.wf()),
    {
        if let Some(name) = refused {
            return Err(Error::InvalidHeaders(name));
        }
        let url = fill(self.url.as_str(), title, message);
        let headers = match &self.headers {
            Some(headers) => headers.copy(),
            None => Pairs::new(),
        };
        let name = match &self.method {
            Some(name) => name.clone(),
            None => String::from_str("GET"),
        };
        proof {
            reveal_strlit("GET");
            assert("GET"@ == seq!['G', 'E', 'T']);
        }
        match parse_method(name.as_str()) {
            None => Err(Error::UnsupportedMethod(name)),
            Some(Method::Get) => Ok(
                HttpRequest { method: Method::Get, url, headers, payload: Payload::Nothing },
            ),
            Some(Method::Post) => {
                let payload = if let Some(form) = &self.form {
                    Payload::Form(form.filled(title, message))
                } else if let Some(json) = &self.json {
                    Payload::Json(json.filled(title, message))
                } else if let Some(body) = &self.body {
                    Payload::Text(fill(body.as_str(), title, message))
                } else {
                    return Err(Error::MissingPayload);
                };
                Ok(HttpRequest { method: Method::Post, url, headers, payload })
            },
        }
    }

    /// Builds the request for a title and a message.
    pub fn request(&self, title: &str, message: &str) -> (planned: Result<HttpRequest, Error>)
        ensures
            viewed(planned) == self@.request(
                title@,
                message@,
                refused_header(self@.sent_headers()),
            ),
            self.wf() ==> (planned matches Ok(request) ==> request.wf()),
    {
        let refused = self.refused_header();
        self.request_given(title, message, refused)
    }

    /// Turns the outcome of the request to `url` into the reply of the backend:
    /// the body as it came, whatever the status code was, or the failure.
    pub fn reply(url: &str, outcome: HttpOutcome) -> (reply: Result<String, Error>)
        ensures
            viewed(reply) == http_reply(url@, outcome@),
    {
        match outcome {
            HttpOutcome::Unreachable(cause) => Err(Error::RequestFailed(String::from_str(url), cause)),
            HttpOutcome::Unreadable(cause) => Err(Error::ResponseReadFailed(cause)),
            HttpOutcome::Body(body) => Ok(body),
        }
    }
}

} // verus!

//! The delivery backends and what they have in common.

use crate::backend::http::{decoded_http, Http, HttpView};
use crate::backend::shell::{decoded_shell, Shell, ShellView};
use crate::backend::work_weixin::{decoded_work_weixin, WorkWeixin, WorkWeixinView};
use crate::document::{Document, Item};
use crate::error::{viewed, Error, ErrorView};
use crate::text::same_text;
use vstd::prelude::*;
use vstd::string::*;

pub mod http;
pub mod shell;
pub mod work_weixin;

verus! {

/// Something that can deliver a title and a message.
pub trait Backend {
    /// `reply` is an answer that this backend may give when it is handed
    /// `title` and `message`. An implementation may narrow it; as it stands it
    /// admits every answer.
    open spec fn answers(
        &self,
        title: Seq<char>,
        message: Seq<char>,
        reply: Result<String, String>,
    ) -> bool {
        true
    }

    /// Delivers the pair. On success the reply is the backend's confirmation,
    /// which is passed on as it is; on failure it is the error in words.
    fn send_message(&self, title: &str, message: &str) -> (reply: Result<String, String>)
        ensures
            self.answers(title@, message@, reply),
    ;
}

/// The configuration of one backend, of whichever kind.
pub enum BackendConfig {
    Http(Http),
    Shell(Shell),
    WorkWeixin(WorkWeixin),
}

/// A `BackendConfig` with its strings as character sequences.
pub enum BackendConfigView {
    Http(HttpView),
    Shell(ShellView),
    WorkWeixin(WorkWeixinView),
}

impl View for BackendConfig {
    type V = BackendConfigView;

    open spec fn view(&self) -> BackendConfigView {
        match self {
            BackendConfig::Http(http) => BackendConfigView::Http(http@),
            BackendConfig::Shell(shell) => BackendConfigView::Shell(shell@),
            BackendConfig::WorkWeixin(account) => BackendConfigView::WorkWeixin(account@),
        }
    }
}

impl BackendConfig {
    /// No header and no field is configured twice.
    pub open spec fn wf(&self) -> bool {
        self matches BackendConfig::Http(http) ==> http.wf()
    }
}

/// The backend that a type and a document section describe. The type is one
/// of `http`, `shell` and `work_weixin`; with any other, or with none, no
/// backend is made, whatever the section holds.
pub open spec fn created(backend_type: Option<Seq<char>>, entries: Seq<(Seq<char>, Item)>) -> Result<
    BackendConfigView,
    ErrorView,
> {
    if backend_type == Some("http"@) {
        match decoded_http(entries) {
            Ok(http) => Ok(BackendConfigView::Http(http)),
            Err(e) => Err(e),
        }
    } else if backend_type == Some("shell"@) {
        match decoded_shell(entries) {
            Ok(shell) => Ok(BackendConfigView::Shell(shell)),
            Err(e) => Err(e),
        }
    } else if backend_type == Some("work_weixin"@) {
        match decoded_work_weixin(entries) {
            Ok(account) => Ok(BackendConfigView::WorkWeixin(account)),
            Err(e) => Err(e),
        }
    } else {
        Err(ErrorView::UnknownBackendKind(backend_type))
    }
}

/// An optional string slice as an optional character sequence.
pub open spec fn slice_view(text: Option<&str>) -> Option<Seq<char>> {
    match text {
        Some(t) => Some(t@),
        None => None,
    }
}

impl dyn Backend {
    /// Makes the configuration of the backend of type `backend_type` from its
    /// section of the document. Nothing is sent or started.
    pub fn new(backend_type: Option<&str>, value: &Document) -> (made: Result<BackendConfig, Error>)
        ensures
            viewed(made) == created(slice_view(backend_type), value.entries()),
            made matches Ok(config) ==> config.wf(),
    {
        match backend_type {
            None => Err(Error::UnknownBackendKind(None)),
            Some(tag) => {
                if same_text(tag, "http") {
                    match Http::from_document(value) {
                        Ok(http) => Ok(BackendConfig::Http(http)),
                        Err(e) => Err(e),
                    }
                } else if same_text(tag, "shell") {
                    match Shell::from_document(value) {
                        Ok(shell) => Ok(BackendConfig::Shell(shell)),
                        Err(e) => Err(e),
                    }
                } else if same_text(tag, "work_weixin") {
                    match WorkWeixin::from_document(value) {
                        Ok(account) => Ok(BackendConfig::WorkWeixin(account)),
                        Err(e) => Err(e),
                    }
                } else {
                    Err(Error::UnknownBackendKind(Some(String::from_str(tag))))
                }
            },
        }
    }
}

} // verus!

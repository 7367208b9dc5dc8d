//! Choosing the backend: by the caller's word or by the configuration, and
//! then by the type that the configuration gives it.

use crate::backend::{created, slice_view, Backend, BackendConfig, BackendConfigView};
use crate::document::{table_at, text_at, Document, Item, Read};
use crate::error::{Error, ErrorView};
use vstd::prelude::*;
use vstd::string::*;

verus! {

/// Why no backend could be chosen. Each ends the program with a code of its own.
pub enum StartupError {
    /// The configuration names its backend by something that is not a string.
    BackendMistyped,
    /// Neither the caller nor the configuration names a backend.
    BackendNotSet,
    /// The backend that was named could not be made.
    CreateFailed(Error),
}

/// A `StartupError` with its strings as character sequences.
pub enum StartupErrorView {
    BackendMistyped,
    BackendNotSet,
    CreateFailed(ErrorView),
}

impl View for StartupError {
    type V = StartupErrorView;

    open spec fn view(&self) -> StartupErrorView {
        match self {
            StartupError::BackendMistyped => StartupErrorView::BackendMistyped,
            StartupError::BackendNotSet => StartupErrorView::BackendNotSet,
            StartupError::CreateFailed(error) => StartupErrorView::CreateFailed(error@),
        }
    }
}

impl StartupErrorView {
    /// The exit code that reports the failure.
    pub open spec fn exit_code(self) -> i32 {
        match self {
            StartupErrorView::BackendMistyped => 4,
            StartupErrorView::BackendNotSet => 5,
            StartupErrorView::CreateFailed(_) => 6,
        }
    }
}

/// The name of the backend to use: the caller's, where the caller gives one;
/// else the string `backend` in the table `global` of the configuration.
pub open spec fn backend_named(explicit: Option<Seq<char>>, entries: Seq<(Seq<char>, Item)>) -> Result<
    Seq<char>,
    StartupErrorView,
> {
    match explicit {
        Some(name) => Ok(name),
        None => match table_at(entries, "global"@) {
            None => Err(StartupErrorView::BackendNotSet),
            Some(global) => match text_at(global.entries(), "backend"@) {
                Read::Missing => Err(StartupErrorView::BackendNotSet),
                Read::Mistyped => Err(StartupErrorView::BackendMistyped),
                Read::Found(name) => Ok(name),
            },
        },
    }
}

/// The type that the configuration gives the backend `name`: the string `type`
/// in the table of that name, where there is one.
pub open spec fn backend_type(entries: Seq<(Seq<char>, Item)>, name: Seq<char>) -> Option<
    Seq<char>,
> {
    match table_at(entries, name) {
        None => None,
        Some(section) => match text_at(section.entries(), "type"@) {
            Read::Found(tag) => Some(tag),
            _ => None,
        },
    }
}

/// The fields of the backend `name`: its table, or nothing where it has none.
pub open spec fn backend_section(entries: Seq<(Seq<char>, Item)>, name: Seq<char>) -> Seq<
    (Seq<char>, Item),
> {
    match table_at(entries, name) {
        None => Seq::empty(),
        Some(section) => section.entries(),
    }
}

/// The backend that the caller's choice and the configuration lead to.
pub open spec fn configured(explicit: Option<Seq<char>>, entries: Seq<(Seq<char>, Item)>) -> Result<
    BackendConfigView,
    StartupErrorView,
> {
    match backend_named(explicit, entries) {
        Err(e) => Err(e),
        Ok(name) => match created(backend_type(entries, name), backend_section(entries, name)) {
            Err(e) => Err(StartupErrorView::CreateFailed(e)),
            Ok(config) => Ok(config),
        },
    }
}

impl StartupError {
    /// The exit code that reports the failure.
    pub fn exit_code(&self) -> (code: i32)
        ensures
            code == self@.exit_code(),
    {
        match self {
            StartupError::BackendMistyped => 4,
            StartupError::BackendNotSet => 5,
            StartupError::CreateFailed(_) => 6,
        }
    }
}

/// Finds the name of the backend to use. The caller's choice wins over the
/// configured one.
pub fn backend_name(explicit: Option<&str>, config: &Document) -> (named: Result<
    String,
    StartupError,
>)
    ensures
        match named {
            Ok(name) => backend_named(slice_view(explicit), config.entries()) == Ok::<
                Seq<char>,
                StartupErrorView,
            >(name@),
            Err(e) => backend_named(slice_view(explicit), config.entries()) == Err::<
                Seq<char>,
                StartupErrorView,
            >(e@),
        },
{
    match explicit {
        Some(name) => Ok(String::from_str(name)),
        None => match config.table("global") {
            None => Err(StartupError::BackendNotSet),
            Some(global) => match global.text("backend") {
                Read::Missing => Err(StartupError::BackendNotSet),
                Read::Mistyped => Err(StartupError::BackendMistyped),
                Read::Found(name) => Ok(name),
            },
        },
    }
}

/// Makes the backend that the caller's choice and the configuration lead to.
/// A backend without a table or without a type of its own is of no known type.
pub fn configure(explicit: Option<&str>, config: &Document) -> (made: Result<
    BackendConfig,
    StartupError,
>)
    ensures
        match made {
            Ok(backend) => configured(slice_view(explicit), config.entries()) == Ok::<
                BackendConfigView,
                StartupErrorView,
            >(backend@) && backend.wf(),
            Err(e) => configured(slice_view(explicit), config.entries()) == Err::<
                BackendConfigView,
                StartupErrorView,
            >(e@),
        },
{
    let name = match backend_name(explicit, config) {
        Ok(name) => name,
        Err(e) => {
            return Err(e);
        },
    };
    let made = match config.table(name.as_str()) {
        None => {
            let nothing = Document::new();
            <dyn Backend>::new(None, &nothing)
        },
        Some(section) => match section.text("type") {
            Read::Found(tag) => <dyn Backend>::new(Some(tag.as_str()), section),
            _ => <dyn Backend>::new(None, section),
        },
    };
    match made {
        Ok(backend) => Ok(backend),
        Err(e) => Err(StartupError::CreateFailed(e)),
    }
}

} // verus!

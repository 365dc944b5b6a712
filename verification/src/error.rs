//! The single failure value that every operation of a unit surfaces.

use vstd::prelude::*;
use crate::text::join_text;

verus! {

/// Why the generic subpath resolution, tried after the declared binary
/// export was not found, did not produce an entry point either.
#[derive(Debug, PartialEq, Eq)]
pub enum FallbackError {
    /// The subpath resolved to a module whose file is not on disk.
    ModuleNotFound { specifier: String },
    /// The resolution itself failed; the text is the resolver's.
    Resolution(String),
}

/// A failure of a unit's construction or lifecycle. A collaborator's failure
/// is carried as the text it was reported with; nothing is retried.
#[derive(Debug, PartialEq, Eq)]
pub enum WorkerError {
    /// A package requirement could not be registered or located, or a module
    /// could not be resolved: the collaborator's failure, unchanged.
    Resolution(String),
    /// A directory from which something was to be resolved has no `file:`
    /// URL, as a path that is not absolute has none.
    NoReferrer { directory: String },
    /// A module that is to be loaded from its file has a URL that names no
    /// file path.
    NoFilePath { specifier: String },
    /// Neither the declared binary export nor the generic subpath resolution
    /// produced an entry point.
    BinaryEntrypoint { primary: String, fallback: FallbackError },
    /// The lockfile could not be persisted.
    LockfileWrite(String),
    /// The engine could not be brought up with its bootstrap modules.
    Bootstrap(String),
    /// A session attached to the unit failed to start or to stop.
    Session(String),
    /// Hot reload is configured, but the process has no file watcher to
    /// talk to or no emitter to transpile with.
    HmrUnavailable,
    /// A script failed while the main module was preloaded, evaluated or
    /// loaded as CommonJS.
    Evaluation(String),
    /// A handler of a lifecycle event failed.
    LifecycleEvent(String),
    /// The event loop failed.
    EventLoop(String),
    /// The hot-reload driver, or the event loop racing against it, failed.
    Hmr(String),
}

pub enum FallbackErrorView {
    ModuleNotFound { specifier: Seq<char> },
    Resolution(Seq<char>),
}

pub enum WorkerErrorView {
    Resolution(Seq<char>),
    NoReferrer { directory: Seq<char> },
    NoFilePath { specifier: Seq<char> },
    BinaryEntrypoint { primary: Seq<char>, fallback: FallbackErrorView },
    LockfileWrite(Seq<char>),
    Bootstrap(Seq<char>),
    Session(Seq<char>),
    HmrUnavailable,
    Evaluation(Seq<char>),
    LifecycleEvent(Seq<char>),
    EventLoop(Seq<char>),
    Hmr(Seq<char>),
}

impl View for FallbackError {
    type V = FallbackErrorView;

    open spec fn view(&self) -> FallbackErrorView {
        match self {
            FallbackError::ModuleNotFound { specifier } => FallbackErrorView::ModuleNotFound {
                specifier: specifier@,
            },
            FallbackError::Resolution(text) => FallbackErrorView::Resolution(text@),
        }
    }
}

impl View for WorkerError {
    type V = WorkerErrorView;

    open spec fn view(&self) -> WorkerErrorView {
        match self {
            WorkerError::Resolution(text) => WorkerErrorView::Resolution(text@),
            WorkerError::NoReferrer { directory } => WorkerErrorView::NoReferrer {
                directory: directory@,
            },
            WorkerError::NoFilePath { specifier } => WorkerErrorView::NoFilePath {
                specifier: specifier@,
            },
            WorkerError::BinaryEntrypoint { primary, fallback } => WorkerErrorView::BinaryEntrypoint {
                primary: primary@,
                fallback: fallback@,
            },
            WorkerError::LockfileWrite(text) => WorkerErrorView::LockfileWrite(text@),
            WorkerError::Bootstrap(text) => WorkerErrorView::Bootstrap(text@),
            WorkerError::Session(text) => WorkerErrorView::Session(text@),
            WorkerError::HmrUnavailable => WorkerErrorView::HmrUnavailable,
            WorkerError::Evaluation(text) => WorkerErrorView::Evaluation(text@),
            WorkerError::LifecycleEvent(text) => WorkerErrorView::LifecycleEvent(text@),
            WorkerError::EventLoop(text) => WorkerErrorView::EventLoop(text@),
            WorkerError::Hmr(text) => WorkerErrorView::Hmr(text@),
        }
    }
}

impl FallbackErrorView {
    /// The text of the failure: for a missing module, the specifier between
    /// quotes after the words that say it was not found.
    pub open spec fn message(self) -> Seq<char> {
        match self {
            FallbackErrorView::ModuleNotFound { specifier } => "Cannot find module '"@ + specifier
                + "'"@,
            FallbackErrorView::Resolution(text) => text,
        }
    }
}

impl WorkerErrorView {
    /// What the unit was doing when a collaborator failed, where the failure
    /// is reported with that: a failed lockfile write is.
    pub open spec fn context(self) -> Option<Seq<char>> {
        match self {
            WorkerErrorView::LockfileWrite(_) => Some("Failed writing lockfile."@),
            _ => None,
        }
    }

    /// The text of the failure. A collaborator's failure reads as it was
    /// reported; a failed entry-point search reads as the primary failure, a
    /// blank line, and the fallback's failure behind its label; a failed
    /// lockfile write reads as its fixed context before the cause; a
    /// directory without a URL, or a module without a file path, is named
    /// between quotes.
    pub open spec fn message(self) -> Seq<char> {
        match self {
            WorkerErrorView::NoReferrer { directory } => "No file URL names the directory '"@
                + directory + "'"@,
            WorkerErrorView::NoFilePath { specifier } => "No file path names the module '"@
                + specifier + "'"@,
            WorkerErrorView::BinaryEntrypoint { primary, fallback } => primary
                + "\n\nFallback failed: "@ + fallback.message(),
            WorkerErrorView::LockfileWrite(text) => "Failed writing lockfile."@ + ": "@ + text,
            WorkerErrorView::Resolution(text) => text,
            WorkerErrorView::Bootstrap(text) => text,
            WorkerErrorView::Session(text) => text,
            WorkerErrorView::HmrUnavailable => "Hot reload needs a file watcher and an emitter"@,
            WorkerErrorView::Evaluation(text) => text,
            WorkerErrorView::LifecycleEvent(text) => text,
            WorkerErrorView::EventLoop(text) => text,
            WorkerErrorView::Hmr(text) => text,
        }
    }
}

impl FallbackError {
    /// The text of the failure.
    pub fn message(&self) -> (res: String)
        ensures
            res@ == self@.message(),
    {
        match self {
            FallbackError::ModuleNotFound { specifier } => {
                let res = String::from_str("Cannot find module '");
                let res = join_text(res, specifier.as_str());
                join_text(res, "'")
            },
            FallbackError::Resolution(text) => text.clone(),
        }
    }
}

impl WorkerError {
    /// What the unit was doing when a collaborator failed, where the failure
    /// is reported with that.
    pub fn context(&self) -> (res: Option<String>)
        ensures
            res.deep_view() == self@.context(),
    {
        match self {
            WorkerError::LockfileWrite(_) => Some(String::from_str("Failed writing lockfile.")),
            _ => None,
        }
    }

    /// The text of the failure.
    pub fn message(&self) -> (res: String)
        ensures
            res@ == self@.message(),
    {
        match self {
            WorkerError::BinaryEntrypoint { primary, fallback } => {
                let res = join_text(primary.clone(), "\n\nFallback failed: ");
                let tail = fallback.message();
                join_text(res, tail.as_str())
            },
            WorkerError::LockfileWrite(text) => {
                let res = String::from_str("Failed writing lockfile.");
                let res = join_text(res, ": ");
                join_text(res, text.as_str())
            },
            WorkerError::NoReferrer { directory } => {
                let res = String::from_str("No file URL names the directory '");
                let res = join_text(res, directory.as_str());
                join_text(res, "'")
            },
            WorkerError::NoFilePath { specifier } => {
                let res = String::from_str("No file path names the module '");
                let res = join_text(res, specifier.as_str());
                join_text(res, "'")
            },
            WorkerError::Resolution(text) => text.clone(),
            WorkerError::Bootstrap(text) => text.clone(),
            WorkerError::Session(text) => text.clone(),
            WorkerError::HmrUnavailable => String::from_str(
                "Hot reload needs a file watcher and an emitter",
            ),
            WorkerError::Evaluation(text) => text.clone(),
            WorkerError::LifecycleEvent(text) => text.clone(),
            WorkerError::EventLoop(text) => text.clone(),
            WorkerError::Hmr(text) => text.clone(),
        }
    }
}

} // verus!

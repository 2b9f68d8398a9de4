//! The launch sequence as a state machine.
//!
//! The library never touches the settings store or the window itself. It
//! says which request is outstanding; whoever drives it performs that request
//! and hands back the reply; the machine then decides what comes next.

use crate::preference::{fullscreen_preference, resolve_fullscreen};
use serde_json::Value;
use vstd::prelude::*;

verus! {

/// File name of the settings store.
pub const STORE_FILE: &'static str = "settings.json";

/// Label of the window that the launch configures.
pub const MAIN_WINDOW: &'static str = "main";

/// Why a launch was abandoned.
#[derive(Clone, Copy, Debug, PartialEq, Eq, Structural)]
pub enum Failure {
    /// The settings store could not be opened or created.
    StoreUnavailable,
    /// The window refused the display mode.
    FullscreenRejected,
    /// The window could not be made visible.
    ShowRejected,
}

/// One call that the driver makes on the machine's behalf.
#[derive(Clone, Copy, Debug, PartialEq, Eq, Structural)]
pub enum Request {
    /// Open the store named [`STORE_FILE`], creating it if need be.
    OpenStore,
    /// Look up the settings document in the opened store.
    ReadSettings,
    /// Look up the window labelled [`MAIN_WINDOW`].
    FindWindow,
    /// Put the window into fullscreen mode, or take it out of it.
    SetFullscreen(bool),
    /// Make the window visible.
    ShowWindow,
}

/// What came of a request.
#[derive(Debug)]
pub enum Reply {
    /// The store is open.
    StoreOpened,
    /// The store could not be opened.
    StoreFailed,
    /// The settings document, or `None` where the store holds none.
    Settings(Option<Value>),
    /// The window exists.
    WindowFound,
    /// There is no such window.
    WindowMissing,
    /// The call on the window went through.
    Succeeded,
    /// The call on the window failed.
    Failed,
}

/// Where a launch stands.
#[derive(Clone, Copy, Debug, PartialEq, Eq, Structural)]
pub enum Phase {
    /// The store is being opened.
    OpeningStore,
    /// The settings document is being read.
    ReadingSettings,
    /// The preference is resolved; the window is being looked up.
    FindingWindow { fullscreen: bool },
    /// The display mode is being applied to the window.
    ApplyingFullscreen { fullscreen: bool },
    /// The window is being made visible.
    ShowingWindow,
    /// The launch is complete.
    Running,
    /// The launch was abandoned.
    Aborted { failure: Failure },
}

impl Phase {
    /// The request that is outstanding in this phase; none once the launch
    /// has ended.
    pub open spec fn pending(self) -> Option<Request> {
        match self {
            Phase::OpeningStore => Some(Request::OpenStore),
            Phase::ReadingSettings => Some(Request::ReadSettings),
            Phase::FindingWindow { .. } => Some(Request::FindWindow),
            Phase::ApplyingFullscreen { fullscreen } => Some(Request::SetFullscreen(fullscreen)),
            Phase::ShowingWindow => Some(Request::ShowWindow),
            Phase::Running => None,
            Phase::Aborted { .. } => None,
        }
    }

    /// Whether `reply` answers the request that is outstanding in this phase.
    pub open spec fn accepts(self, reply: Reply) -> bool {
        match self {
            Phase::OpeningStore => reply is StoreOpened || reply is StoreFailed,
            Phase::ReadingSettings => reply is Settings,
            Phase::FindingWindow { .. } => reply is WindowFound || reply is WindowMissing,
            Phase::ApplyingFullscreen { .. } => reply is Succeeded || reply is Failed,
            Phase::ShowingWindow => reply is Succeeded || reply is Failed,
            Phase::Running => false,
            Phase::Aborted { .. } => false,
        }
    }

    /// The phase that follows this one on `reply`. A reply that does not
    /// answer the outstanding request changes nothing.
    pub open spec fn after(self, reply: Reply) -> Phase {
        match (self, reply) {
            (Phase::OpeningStore, Reply::StoreOpened) => Phase::ReadingSettings,
            (Phase::OpeningStore, Reply::StoreFailed) => Phase::Aborted {
                failure: Failure::StoreUnavailable,
            },
            (Phase::ReadingSettings, Reply::Settings(document)) => Phase::FindingWindow {
                fullscreen: fullscreen_preference(document),
            },
            (Phase::FindingWindow { fullscreen }, Reply::WindowFound) => Phase::ApplyingFullscreen {
                fullscreen,
            },
            (Phase::FindingWindow { .. }, Reply::WindowMissing) => Phase::Running,
            (Phase::ApplyingFullscreen { .. }, Reply::Succeeded) => Phase::ShowingWindow,
            (Phase::ApplyingFullscreen { .. }, Reply::Failed) => Phase::Aborted {
                failure: Failure::FullscreenRejected,
            },
            (Phase::ShowingWindow, Reply::Succeeded) => Phase::Running,
            (Phase::ShowingWindow, Reply::Failed) => Phase::Aborted {
                failure: Failure::ShowRejected,
            },
            _ => self,
        }
    }

    /// The request that `reply` sets off in this phase: the one outstanding
    /// in the phase that follows, where `reply` was accepted and the launch
    /// goes on; none otherwise.
    pub open spec fn issues(self, reply: Reply) -> Option<Request> {
        if self.accepts(reply) {
            self.after(reply).pending()
        } else {
            None
        }
    }

    /// How the launch ended: `None` while a request is outstanding,
    /// `Some(Ok(()))` once it is complete, `Some(Err(..))` where it was
    /// abandoned.
    pub open spec fn ended(self) -> Option<Result<(), Failure>> {
        match self {
            Phase::Running => Some(Ok(())),
            Phase::Aborted { failure } => Some(Err(failure)),
            _ => None,
        }
    }

    /// The phase in which every launch begins.
    pub fn start() -> (phase: Phase)
        ensures
            phase == Phase::OpeningStore,
    {
        Phase::OpeningStore
    }

    /// The request to perform in this phase, if the launch has not ended.
    pub fn request(&self) -> (request: Option<Request>)
        ensures
            request == self.pending(),
    {
        match self {
            Phase::OpeningStore => Some(Request::OpenStore),
            Phase::ReadingSettings => Some(Request::ReadSettings),
            Phase::FindingWindow { .. } => Some(Request::FindWindow),
            Phase::ApplyingFullscreen { fullscreen } => Some(Request::SetFullscreen(*fullscreen)),
            Phase::ShowingWindow => Some(Request::ShowWindow),
            Phase::Running => None,
            Phase::Aborted { .. } => None,
        }
    }

    /// Takes the reply to the outstanding request and decides how the launch
    /// goes on: the phase that follows, and the request to perform next.
    ///
    /// No request comes back where the launch has ended, or where `reply`
    /// does not answer the outstanding request; in the latter case the phase
    /// stays as it is.
    pub fn step(self, reply: Reply) -> (next: (Phase, Option<Request>))
        ensures
            next.0 == self.after(reply),
            next.1 == self.issues(reply),
    {
        match (self, reply) {
            (Phase::OpeningStore, Reply::StoreOpened) => (
                Phase::ReadingSettings,
                Some(Request::ReadSettings),
            ),
            (Phase::OpeningStore, Reply::StoreFailed) => (
                Phase::Aborted { failure: Failure::StoreUnavailable },
                None,
            ),
            (Phase::ReadingSettings, Reply::Settings(document)) => {
                let fullscreen = resolve_fullscreen(&document);
                (Phase::FindingWindow { fullscreen }, Some(Request::FindWindow))
            },
            (Phase::FindingWindow { fullscreen }, Reply::WindowFound) => (
                Phase::ApplyingFullscreen { fullscreen },
                Some(Request::SetFullscreen(fullscreen)),
            ),
            (Phase::FindingWindow { .. }, Reply::WindowMissing) => (Phase::Running, None),
            (Phase::ApplyingFullscreen { .. }, Reply::Succeeded) => (
                Phase::ShowingWindow,
                Some(Request::ShowWindow),
            ),
            (Phase::ApplyingFullscreen { .. }, Reply::Failed) => (
                Phase::Aborted { failure: Failure::FullscreenRejected },
                None,
            ),
            (Phase::ShowingWindow, Reply::Succeeded) => (Phase::Running, None),
            (Phase::ShowingWindow, Reply::Failed) => (
                Phase::Aborted { failure: Failure::ShowRejected },
                None,
            ),
            (phase, _) => (phase, None),
        }
    }

    /// How the launch ended, if it has.
    pub fn outcome(&self) -> (outcome: Option<Result<(), Failure>>)
        ensures
            outcome == self.ended(),
    {
        match self {
            Phase::Running => Some(Ok(())),
            Phase::Aborted { failure } => Some(Err(*failure)),
            _ => None,
        }
    }
}

} // verus!

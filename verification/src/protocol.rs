//! What passes between the dispatcher and whoever drives it.
//!
//! The dispatcher touches neither files nor the script engine. It is asked
//! with an [`Event`] and answers with an [`Action`]: the one thing to do next,
//! whose outcome is the next event. A request begins with [`Event::Request`]
//! and is over with [`Action::Return`] or [`Action::Abort`].

use vstd::prelude::*;

verus! {

/// Why the script engine could not compile a bundle or render a page.
#[derive(Debug, Clone, Copy, PartialEq, Eq)]
pub enum SsrError {
    /// The bundle is no script that can be run.
    InvalidJs(&'static str),
    /// The render functions of the bundle could not be read.
    FailedToParseJs(&'static str),
    /// A render function failed while it ran.
    FailedJsExecution(&'static str),
    /// A name is no name of a function.
    InvalidFunctionName,
    /// A value is no function.
    InvalidFunction,
}

/// A failure that no request can recover from.
#[derive(Debug, Clone, Copy, PartialEq, Eq, Structural)]
pub enum Fatal {
    /// The rendering mode was never chosen.
    ModeNotSet,
    /// The production bundle could not be read.
    BundleNotFound,
    /// An event arrived that answers nothing that was asked.
    OutOfTurn,
}

/// Shown when the rendering mode was never chosen.
pub const MODE_NOT_SET: &'static str = "Failed to get GLOBAL_MODE";

/// Shown when the production bundle could not be read.
pub const BUNDLE_NOT_FOUND: &'static str = "Server bundle not found";

/// Shown when an event answers nothing that was asked.
pub const OUT_OF_TURN: &'static str = "Unexpected answer to a rendering step";

impl Fatal {
    /// What to show for this failure.
    pub open spec fn spec_message(self) -> Seq<char> {
        match self {
            Fatal::ModeNotSet => MODE_NOT_SET@,
            Fatal::BundleNotFound => BUNDLE_NOT_FOUND@,
            Fatal::OutOfTurn => OUT_OF_TURN@,
        }
    }

    /// What to show for this failure.
    pub fn message(self) -> (text: &'static str)
        ensures
            text@ == self.spec_message(),
    {
        match self {
            Fatal::ModeNotSet => MODE_NOT_SET,
            Fatal::BundleNotFound => BUNDLE_NOT_FOUND,
            Fatal::OutOfTurn => OUT_OF_TURN,
        }
    }
}

/// What happened outside the dispatcher.
#[derive(Debug, PartialEq, Eq)]
pub enum Event {
    /// A page is asked for.
    Request,
    /// The bundle file was read: its text, or `None` where it could not be
    /// read.
    BundleRead(Option<String>),
    /// The engine was asked to compile the bundle.
    Compiled(Result<(), SsrError>),
    /// The renderer was invoked: the page, or why there is none.
    Rendered(Result<String, SsrError>),
    /// The static page was read: its text, or `None` where it could not be
    /// read.
    PageRead(Option<String>),
}

/// An [`Event`] as the contracts see it.
pub ghost enum EventView {
    Request,
    BundleRead(Option<Seq<char>>),
    Compiled(Result<(), SsrError>),
    Rendered(Result<Seq<char>, SsrError>),
    PageRead(Option<Seq<char>>),
}

impl View for Event {
    type V = EventView;

    open spec fn view(&self) -> EventView {
        match self {
            Event::Request => EventView::Request,
            Event::BundleRead(content) => EventView::BundleRead(content.deep_view()),
            Event::Compiled(outcome) => EventView::Compiled(*outcome),
            Event::Rendered(Ok(html)) => EventView::Rendered(Ok(html@)),
            Event::Rendered(Err(error)) => EventView::Rendered(Err(*error)),
            Event::PageRead(content) => EventView::PageRead(content.deep_view()),
        }
    }
}

/// What the dispatcher wants done next.
#[derive(Debug, PartialEq, Eq)]
pub enum Action<'a> {
    /// Read the bundle file at `path`, and answer with
    /// [`Event::BundleRead`].
    ReadBundle { path: &'static str },
    /// Compile `source`, followed by `entry_point`, into the renderer of this
    /// worker, in place of any that it holds, and answer with
    /// [`Event::Compiled`].
    Compile { source: String, entry_point: &'static str },
    /// Invoke the renderer of this worker with `payload`, and answer with
    /// [`Event::Rendered`]. Unless `retain` is set the renderer is dropped
    /// once it has run.
    Render { payload: Option<&'a str>, retain: bool },
    /// Read the static page at `path`, and answer with [`Event::PageRead`].
    ReadPage { path: &'static str },
    /// The request is over: this is its result.
    Return(Result<String, SsrError>),
    /// The request cannot be served, nor can any other.
    Abort(Fatal),
}

/// An [`Action`] as the contracts see it.
pub ghost enum ActionView {
    ReadBundle { path: Seq<char> },
    Compile { source: Seq<char>, entry_point: Seq<char> },
    Render { payload: Option<Seq<char>>, retain: bool },
    ReadPage { path: Seq<char> },
    Return(Result<Seq<char>, SsrError>),
    Abort(Fatal),
}

impl<'a> View for Action<'a> {
    type V = ActionView;

    open spec fn view(&self) -> ActionView {
        match self {
            Action::ReadBundle { path } => ActionView::ReadBundle { path: path@ },
            Action::Compile { source, entry_point } => ActionView::Compile {
                source: source@,
                entry_point: entry_point@,
            },
            Action::Render { payload, retain } => ActionView::Render {
                payload: payload.deep_view(),
                retain: *retain,
            },
            Action::ReadPage { path } => ActionView::ReadPage { path: path@ },
            Action::Return(Ok(html)) => ActionView::Return(Ok(html@)),
            Action::Return(Err(error)) => ActionView::Return(Err(*error)),
            Action::Abort(fatal) => ActionView::Abort(*fatal),
        }
    }
}

impl ActionView {
    /// Whether the request is over with this action.
    pub open spec fn ends_request(self) -> bool {
        self is Return || self is Abort
    }
}

} // verus!

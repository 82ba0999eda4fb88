//! The dispatcher: one per worker, it sends each request the way of the
//! rendering mode.

use crate::dev::{dev_action, DevJs};
use crate::mode::Mode;
use crate::prod::{prod_step, ProdJs, Stage};
use crate::protocol::{Action, ActionView, Event, EventView, Fatal};
use vstd::prelude::*;

verus! {

/// A [`Js`] as the contracts see it.
pub ghost struct JsView {
    /// The rendering mode, where one was chosen.
    pub mode: Option<Mode>,
    /// Whether the host writes paths as Windows does.
    pub windows: bool,
    /// Where the worker stands with its production renderer.
    pub stage: Stage,
}

/// What a dispatcher does after `event`, for a request with `payload`, and
/// what it is afterwards.
///
/// Without a mode nothing can be served. Development has no use for the
/// worker's renderer and leaves the stage as it is.
pub open spec fn js_step(js: JsView, payload: Option<Seq<char>>, event: EventView) -> (
    JsView,
    ActionView,
) {
    match js.mode {
        None => (js, ActionView::Abort(Fatal::ModeNotSet)),
        Some(Mode::Dev) => (js, dev_action(js.windows, payload, event)),
        Some(Mode::Prod) => {
            let (stage, action) = prod_step(js.windows, js.stage, payload, event);
            (JsView { stage, ..js }, action)
        },
    }
}

/// Renders pages on the server, in the way of the mode that it was made for:
/// freshly for every request in development, with one renderer per worker in
/// production.
#[derive(Debug)]
pub struct Js {
    mode: Option<Mode>,
    prod: ProdJs,
}

impl View for Js {
    type V = JsView;

    closed spec fn view(&self) -> JsView {
        JsView { mode: self.mode, windows: self.prod@.windows, stage: self.prod@.stage }
    }
}

impl Js {
    /// The dispatcher of a worker that has served no request yet. `mode` is
    /// the rendering mode of the process, `None` where none was chosen.
    pub fn new(mode: Option<Mode>, windows: bool) -> (js: Js)
        ensures
            js@ == (JsView { mode, windows, stage: Stage::Unloaded }),
    {
        Js { mode, prod: ProdJs::new(windows) }
    }

    /// The rendering mode, where one was chosen.
    pub fn mode(&self) -> (mode: Option<Mode>)
        ensures
            mode == self@.mode,
    {
        self.mode
    }

    /// Where the worker stands with its production renderer.
    pub fn stage(&self) -> (stage: Stage)
        ensures
            stage == self@.stage,
    {
        self.prod.stage()
    }

    /// Says what to do after `event` while serving a request with `payload`,
    /// and moves the worker on.
    ///
    /// A request starts with [`Event::Request`]. Each action but the last
    /// asks for one thing to be done, and its outcome is the event of the
    /// next call, with the same payload. The request is over when the action
    /// is [`Action::Return`], which holds its result, or [`Action::Abort`].
    pub fn render_to_string<'a>(&mut self, payload: Option<&'a str>, event: Event) -> (action:
        Action<'a>)
        ensures
            (final(self)@, action@) == js_step(old(self)@, payload.deep_view(), event@),
    {
        match self.mode {
            None => Action::Abort(Fatal::ModeNotSet),
            Some(Mode::Dev) => DevJs::new(self.prod.windows()).render_to_string(payload, event),
            Some(Mode::Prod) => self.prod.render_to_string(payload, event),
        }
    }
}

} // verus!

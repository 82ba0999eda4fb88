//! Rendering in production: each worker compiles the bundle once, on its
//! first request, and keeps the renderer for as long as it lives.

use crate::mode::{Mode, ENTRY_POINT};
use crate::protocol::{Action, ActionView, Event, EventView, Fatal};
use vstd::prelude::*;

verus! {

/// Where a worker stands.
#[derive(Debug, Clone, Copy, PartialEq, Eq, Structural)]
pub enum Stage {
    /// It holds no renderer and serves no request.
    Unloaded,
    /// It holds no renderer and waits for the bundle to be read.
    ReadingBundle,
    /// It holds no renderer and waits for the bundle to be compiled.
    Compiling,
    /// It holds its renderer and serves no request.
    Ready,
    /// It holds its renderer and waits for it to render.
    Rendering,
}

impl Stage {
    /// Whether the worker holds its renderer.
    pub open spec fn spec_holds_renderer(self) -> bool {
        self is Ready || self is Rendering
    }

    /// Whether the worker holds its renderer.
    #[verifier::when_used_as_spec(spec_holds_renderer)]
    pub fn holds_renderer(self) -> (held: bool)
        ensures
            held == self.spec_holds_renderer(),
    {
        match self {
            Stage::Ready | Stage::Rendering => true,
            Stage::Unloaded | Stage::ReadingBundle | Stage::Compiling => false,
        }
    }

    /// The stage in which the worker serves no request and holds what it
    /// holds now.
    pub open spec fn spec_at_rest(self) -> Stage {
        if self.spec_holds_renderer() {
            Stage::Ready
        } else {
            Stage::Unloaded
        }
    }

    /// The stage in which the worker serves no request and holds what it
    /// holds now.
    #[verifier::when_used_as_spec(spec_at_rest)]
    pub fn at_rest(self) -> (stage: Stage)
        ensures
            stage == self.spec_at_rest(),
    {
        if self.holds_renderer() {
            Stage::Ready
        } else {
            Stage::Unloaded
        }
    }
}

/// What a worker at `stage` does in production after `event`, for a request
/// with `payload`, and the stage that it is at afterwards.
///
/// A request goes straight to the renderer where the worker holds one.
/// Otherwise the bundle is read, which must succeed, and compiled; the
/// renderer is kept from then on. What the engine answers, page or error, is
/// the result as it stands. An event that answers nothing that was asked
/// ends the request.
pub open spec fn prod_step(
    windows: bool,
    stage: Stage,
    payload: Option<Seq<char>>,
    event: EventView,
) -> (Stage, ActionView) {
    match (event, stage) {
        (EventView::Request, _) => if stage.holds_renderer() {
            (Stage::Rendering, ActionView::Render { payload, retain: true })
        } else {
            (
                Stage::ReadingBundle,
                ActionView::ReadBundle { path: Mode::Prod.spec_bundle_path(windows) },
            )
        },
        (EventView::BundleRead(Some(source)), Stage::ReadingBundle) => (
            Stage::Compiling,
            ActionView::Compile { source, entry_point: ENTRY_POINT@ },
        ),
        (EventView::BundleRead(None), Stage::ReadingBundle) => (
            Stage::Unloaded,
            ActionView::Abort(Fatal::BundleNotFound),
        ),
        (EventView::Compiled(Ok(_)), Stage::Compiling) => (
            Stage::Rendering,
            ActionView::Render { payload, retain: true },
        ),
        (EventView::Compiled(Err(error)), Stage::Compiling) => (
            Stage::Unloaded,
            ActionView::Return(Err(error)),
        ),
        (EventView::Rendered(outcome), Stage::Rendering) => (
            Stage::Ready,
            ActionView::Return(outcome),
        ),
        _ => (stage.at_rest(), ActionView::Abort(Fatal::OutOfTurn)),
    }
}

/// The renderer of production mode: what one worker knows of its renderer.
#[derive(Debug)]
pub struct ProdJs {
    windows: bool,
    stage: Stage,
}

/// A [`ProdJs`] as the contracts see it.
pub ghost struct ProdView {
    /// Whether the host writes paths as Windows does.
    pub windows: bool,
    /// Where the worker stands.
    pub stage: Stage,
}

impl View for ProdJs {
    type V = ProdView;

    closed spec fn view(&self) -> ProdView {
        ProdView { windows: self.windows, stage: self.stage }
    }
}

impl ProdJs {
    /// A worker that has served no request yet, on a host with the given path
    /// convention.
    pub fn new(windows: bool) -> (prod: ProdJs)
        ensures
            prod@ == (ProdView { windows, stage: Stage::Unloaded }),
    {
        ProdJs { windows, stage: Stage::Unloaded }
    }

    /// Whether the host writes paths as Windows does.
    pub fn windows(&self) -> (windows: bool)
        ensures
            windows == self@.windows,
    {
        self.windows
    }

    /// Where the worker stands.
    pub fn stage(&self) -> (stage: Stage)
        ensures
            stage == self@.stage,
    {
        self.stage
    }

    /// Says what to do after `event` while serving a request with `payload`,
    /// and moves the worker on.
    pub fn render_to_string<'a>(&mut self, payload: Option<&'a str>, event: Event) -> (action:
        Action<'a>)
        ensures
            final(self)@.windows == old(self)@.windows,
            (final(self)@.stage, action@) == prod_step(
                old(self)@.windows,
                old(self)@.stage,
                payload.deep_view(),
                event@,
            ),
    {
        let (stage, action) = match (event, self.stage) {
            (Event::Request, stage) => if stage.holds_renderer() {
                (Stage::Rendering, Action::Render { payload, retain: true })
            } else {
                (
                    Stage::ReadingBundle,
                    Action::ReadBundle { path: Mode::Prod.bundle_path(self.windows) },
                )
            },
            (Event::BundleRead(Some(source)), Stage::ReadingBundle) => (
                Stage::Compiling,
                Action::Compile { source, entry_point: ENTRY_POINT },
            ),
            (Event::BundleRead(None), Stage::ReadingBundle) => (
                Stage::Unloaded,
                Action::Abort(Fatal::BundleNotFound),
            ),
            (Event::Compiled(Ok(_)), Stage::Compiling) => (
                Stage::Rendering,
                Action::Render { payload, retain: true },
            ),
            (Event::Compiled(Err(error)), Stage::Compiling) => (
                Stage::Unloaded,
                Action::Return(Err(error)),
            ),
            (Event::Rendered(outcome), Stage::Rendering) => (Stage::Ready, Action::Return(outcome)),
            (_, stage) => (stage.at_rest(), Action::Abort(Fatal::OutOfTurn)),
        };
        self.stage = stage;
        action
    }
}

/// A worker that holds its renderer keeps it, and never again asks for the
/// bundle to be read or compiled, whatever happens.
pub proof fn lemma_renderer_is_kept(
    windows: bool,
    stage: Stage,
    payload: Option<Seq<char>>,
    event: EventView,
)
    requires
        stage.holds_renderer(),
    ensures
        prod_step(windows, stage, payload, event).0.holds_renderer(),
        !(prod_step(windows, stage, payload, event).1 is ReadBundle),
        !(prod_step(windows, stage, payload, event).1 is Compile),
{
}

/// One call of a worker: the payload of the request and the event.
pub ghost struct Turn {
    pub payload: Option<Seq<char>>,
    pub event: EventView,
}

/// The stage of a worker that was at `stage` and has since taken `turns`.
pub open spec fn stage_after(windows: bool, stage: Stage, turns: Seq<Turn>) -> Stage
    decreases turns.len(),
{
    if turns.len() == 0 {
        stage
    } else {
        prod_step(
            windows,
            stage_after(windows, stage, turns.drop_last()),
            turns.last().payload,
            turns.last().event,
        ).0
    }
}

/// A worker that holds its renderer holds it for the rest of its life.
pub proof fn lemma_renderer_outlives_requests(windows: bool, stage: Stage, turns: Seq<Turn>)
    requires
        stage.holds_renderer(),
    ensures
        stage_after(windows, stage, turns).holds_renderer(),
    decreases turns.len(),
{
    if turns.len() > 0 {
        lemma_renderer_outlives_requests(windows, stage, turns.drop_last());
        lemma_renderer_is_kept(
            windows,
            stage_after(windows, stage, turns.drop_last()),
            turns.last().payload,
            turns.last().event,
        );
    }
}

/// Once a worker holds its renderer, none of its later turns asks for the
/// bundle to be read or compiled: the bundle is loaded once in its life.
pub proof fn lemma_bundle_is_loaded_once(
    windows: bool,
    stage: Stage,
    turns: Seq<Turn>,
    at: int,
)
    requires
        stage.holds_renderer(),
        0 <= at < turns.len(),
    ensures
        ({
            let before = stage_after(windows, stage, turns.take(at));
            let action = prod_step(windows, before, turns[at].payload, turns[at].event).1;
            !(action is ReadBundle) && !(action is Compile)
        }),
{
    lemma_renderer_outlives_requests(windows, stage, turns.take(at));
    lemma_renderer_is_kept(
        windows,
        stage_after(windows, stage, turns.take(at)),
        turns[at].payload,
        turns[at].event,
    );
}

} // verus!

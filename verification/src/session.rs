//! One request from its first event to its last action, against a model of
//! what lies outside the dispatcher.

use crate::fallback::{fallback_html, FALLBACK_PAGE_PATH};
use crate::mode::{Mode, ENTRY_POINT};
use crate::prod::Stage;
use crate::protocol::{ActionView, EventView, Fatal, SsrError};
use crate::ssr::{js_step, JsView};
use vstd::prelude::*;

verus! {

/// What lies outside the dispatcher while one request is served.
pub ghost struct World {
    /// The files that can be read, each with its text.
    pub files: Map<Seq<char>, Seq<char>>,
    /// What the engine makes of a source and an entry point.
    pub compiles: spec_fn(Seq<char>, Seq<char>) -> Result<(), SsrError>,
    /// What the renderer of the worker makes of a payload.
    pub renders: spec_fn(Option<Seq<char>>) -> Result<Seq<char>, SsrError>,
}

impl World {
    /// What reading the file at `path` gives.
    pub open spec fn read(self, path: Seq<char>) -> Option<Seq<char>> {
        if self.files.dom().contains(path) {
            Some(self.files[path])
        } else {
            None
        }
    }

    /// The event that comes of doing what `action` asks for.
    pub open spec fn answer(self, action: ActionView) -> EventView {
        match action {
            ActionView::ReadBundle { path } => EventView::BundleRead(self.read(path)),
            ActionView::Compile { source, entry_point } => EventView::Compiled(
                (self.compiles)(source, entry_point),
            ),
            ActionView::Render { payload, retain } => EventView::Rendered((self.renders)(payload)),
            ActionView::ReadPage { path } => EventView::PageRead(self.read(path)),
            // Nothing is asked for; a run never looks at this answer.
            ActionView::Return(_) | ActionView::Abort(_) => EventView::Request,
        }
    }
}

/// The dispatcher and its action once `event` and what follows from it have
/// been dealt with: each action is carried out in `world` and its outcome
/// handed back, until one ends the request or `steps` more have been taken.
pub open spec fn run(
    js: JsView,
    payload: Option<Seq<char>>,
    world: World,
    event: EventView,
    steps: nat,
) -> (JsView, ActionView)
    decreases steps,
{
    let (next, action) = js_step(js, payload, event);
    if action.ends_request() || steps == 0 {
        (next, action)
    } else {
        run(next, payload, world, world.answer(action), (steps - 1) as nat)
    }
}

/// The longest that a request takes after its first event: to read the
/// bundle, to compile it, to render, and to read the static page.
pub open spec fn longest_request() -> nat {
    4
}

/// The dispatcher and its last action once a request with `payload` has been
/// served in `world`.
pub open spec fn serve(js: JsView, payload: Option<Seq<char>>, world: World) -> (
    JsView,
    ActionView,
) {
    run(js, payload, world, EventView::Request, longest_request())
}

/// How often the bundle is asked for while `event` and what follows from it
/// are dealt with, in a run as [`run`] describes it.
pub open spec fn bundle_reads(
    js: JsView,
    payload: Option<Seq<char>>,
    world: World,
    event: EventView,
    steps: nat,
) -> nat
    decreases steps,
{
    let (next, action) = js_step(js, payload, event);
    let here: nat = if action is ReadBundle {
        1
    } else {
        0
    };
    if action.ends_request() || steps == 0 {
        here
    } else {
        here + bundle_reads(next, payload, world, world.answer(action), (steps - 1) as nat)
    }
}

/// How often the bundle is asked for while a request with `payload` is served
/// in `world`.
pub open spec fn reads_while_serving(js: JsView, payload: Option<Seq<char>>, world: World) -> nat {
    bundle_reads(js, payload, world, EventView::Request, longest_request())
}

/// The page that development renders in `world`, where it renders one: the
/// bundle can be read, compiles, and renders the payload.
pub open spec fn dev_rendered(windows: bool, payload: Option<Seq<char>>, world: World) -> Option<
    Seq<char>,
> {
    match world.read(Mode::Dev.spec_bundle_path(windows)) {
        Some(source) => match ((world.compiles)(source, ENTRY_POINT@), (world.renders)(payload)) {
            (Ok(_), Ok(html)) => Some(html),
            _ => None,
        },
        None => None,
    }
}

/// Without a rendering mode every request ends in a failure of the
/// configuration, and the worker stays as it was.
pub proof fn lemma_unset_mode_is_fatal(js: JsView, payload: Option<Seq<char>>, world: World)
    requires
        js.mode is None,
    ensures
        serve(js, payload, world) == (js, ActionView::Abort(Fatal::ModeNotSet)),
{
}

/// In development every request reads the bundle once and ends with a page:
/// the one that the fresh bundle rendered, or else the static page with the
/// payload filled in. The worker stays as it was.
pub proof fn lemma_dev_always_serves(js: JsView, payload: Option<Seq<char>>, world: World)
    requires
        js.mode == Some(Mode::Dev),
    ensures
        serve(js, payload, world) == (
            js,
            ActionView::Return(
                Ok(
                    match dev_rendered(js.windows, payload, world) {
                        Some(html) => html,
                        None => fallback_html(world.read(FALLBACK_PAGE_PATH@), payload),
                    },
                ),
            ),
        ),
        reads_while_serving(js, payload, world) == 1,
{
    reveal_with_fuel(run, 5);
    reveal_with_fuel(bundle_reads, 5);
}

/// In production a worker that holds its renderer answers with what the
/// renderer gives, page or error, and reads nothing.
pub proof fn lemma_prod_ready_worker_renders(
    js: JsView,
    payload: Option<Seq<char>>,
    world: World,
)
    requires
        js.mode == Some(Mode::Prod),
        js.stage.holds_renderer(),
    ensures
        serve(js, payload, world) == (
            JsView { stage: Stage::Ready, ..js },
            ActionView::Return((world.renders)(payload)),
        ),
        reads_while_serving(js, payload, world) == 0,
{
    reveal_with_fuel(run, 5);
    reveal_with_fuel(bundle_reads, 5);
}

/// In production a worker without a renderer reads the bundle once. Where
/// the bundle cannot be read no request can be served; where it does not
/// compile the request fails with the engine's error; in both cases the
/// worker is left without a renderer. Otherwise the worker keeps the renderer
/// and answers with what it gives, page or error.
pub proof fn lemma_prod_first_request_loads(
    js: JsView,
    payload: Option<Seq<char>>,
    world: World,
)
    requires
        js.mode == Some(Mode::Prod),
        !js.stage.holds_renderer(),
    ensures
        serve(js, payload, world) == (match world.read(Mode::Prod.spec_bundle_path(js.windows)) {
            None => (
                JsView { stage: Stage::Unloaded, ..js },
                ActionView::Abort(Fatal::BundleNotFound),
            ),
            Some(source) => match (world.compiles)(source, ENTRY_POINT@) {
                Err(error) => (
                    JsView { stage: Stage::Unloaded, ..js },
                    ActionView::Return(Err(error)),
                ),
                Ok(_) => (
                    JsView { stage: Stage::Ready, ..js },
                    ActionView::Return((world.renders)(payload)),
                ),
            },
        }),
        reads_while_serving(js, payload, world) == 1,
{
    reveal_with_fuel(run, 5);
    reveal_with_fuel(bundle_reads, 5);
}

/// In production, with a bundle that can be read and compiles, the second of
/// two requests with the same payload reads nothing and ends as the first
/// did, provided that the renderer answers both alike.
pub proof fn lemma_prod_second_request_repeats_first(
    js: JsView,
    payload: Option<Seq<char>>,
    world: World,
)
    requires
        js.mode == Some(Mode::Prod),
        !js.stage.holds_renderer(),
        world.read(Mode::Prod.spec_bundle_path(js.windows)) matches Some(source) && (
        world.compiles)(source, ENTRY_POINT@) is Ok,
    ensures
        ({
            let (after, first) = serve(js, payload, world);
            let (at_last, second) = serve(after, payload, world);
            &&& first == ActionView::Return((world.renders)(payload))
            &&& second == first
            &&& at_last == after
            &&& reads_while_serving(js, payload, world) + reads_while_serving(
                after,
                payload,
                world,
            ) == 1
        }),
{
    lemma_prod_first_request_loads(js, payload, world);
    lemma_prod_ready_worker_renders(serve(js, payload, world).0, payload, world);
}

} // verus!

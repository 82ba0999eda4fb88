//! Rendering while developing: the bundle is read and compiled again for
//! every request, and whatever goes wrong ends in the static page.

use crate::fallback::{fallback_html, render_fallback, FALLBACK_PAGE_PATH};
use crate::mode::{Mode, ENTRY_POINT};
use crate::protocol::{Action, ActionView, Event, EventView};
use vstd::prelude::*;

verus! {

/// What is done in development after `event`, for a request with `payload`.
///
/// The bundle is read; what was read is compiled; what was compiled is
/// invoked; what it rendered is the result. Where any of the three fails, the
/// static page is read, and the result is that page with the payload filled
/// in. No event leads to a failure.
pub open spec fn dev_action(
    windows: bool,
    payload: Option<Seq<char>>,
    event: EventView,
) -> ActionView {
    match event {
        EventView::Request => ActionView::ReadBundle {
            path: Mode::Dev.spec_bundle_path(windows),
        },
        EventView::BundleRead(Some(source)) => ActionView::Compile {
            source,
            entry_point: ENTRY_POINT@,
        },
        EventView::Compiled(Ok(_)) => ActionView::Render { payload, retain: false },
        EventView::Rendered(Ok(html)) => ActionView::Return(Ok(html)),
        EventView::BundleRead(None) | EventView::Compiled(Err(_)) | EventView::Rendered(
            Err(_),
        ) => ActionView::ReadPage { path: FALLBACK_PAGE_PATH@ },
        EventView::PageRead(page) => ActionView::Return(Ok(fallback_html(page, payload))),
    }
}

/// The renderer of development mode. It keeps nothing from one request to the
/// next, nor from one step of a request to the next.
#[derive(Debug, Clone, Copy)]
pub struct DevJs {
    /// Whether the host writes paths as Windows does.
    pub windows: bool,
}

impl DevJs {
    /// A renderer for a host with the given path convention.
    pub fn new(windows: bool) -> (dev: DevJs)
        ensures
            dev.windows == windows,
    {
        DevJs { windows }
    }

    /// Says what to do after `event` while serving a request with `payload`.
    pub fn render_to_string<'a>(&self, payload: Option<&'a str>, event: Event) -> (action: Action<
        'a,
    >)
        ensures
            action@ == dev_action(self.windows, payload.deep_view(), event@),
    {
        match event {
            Event::Request => Action::ReadBundle { path: Mode::Dev.bundle_path(self.windows) },
            Event::BundleRead(Some(source)) => Action::Compile {
                source,
                entry_point: ENTRY_POINT,
            },
            Event::Compiled(Ok(_)) => Action::Render { payload, retain: false },
            Event::Rendered(Ok(html)) => Action::Return(Ok(html)),
            Event::BundleRead(None) | Event::Compiled(Err(_)) | Event::Rendered(Err(_)) => {
                Action::ReadPage { path: FALLBACK_PAGE_PATH }
            },
            Event::PageRead(page) => Action::Return(Ok(render_fallback(page, payload))),
        }
    }
}

} // verus!

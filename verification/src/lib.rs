//! Server-side rendering dispatch: choosing, per request, how a page is
//! rendered, and what is served when rendering cannot be completed.
//!
//! A page is rendered by a bundle of script that an embedded engine runs. In
//! production each worker compiles the bundle once and keeps the renderer; in
//! development the bundle is read and compiled for every request, and a
//! request that cannot be rendered is answered with a static page.
//!
//! The library decides and does nothing else: [`Js::render_to_string`] is
//! told what happened and says what to do next, and its caller reads the
//! files and runs the engine. [`session`] states what a whole request comes
//! to.

pub mod dev;
pub mod fallback;
pub mod mode;
pub mod prod;
pub mod protocol;
pub mod session;
pub mod ssr;
pub mod template;

pub use dev::DevJs;
pub use mode::Mode;
pub use prod::{ProdJs, Stage};
pub use protocol::{Action, Event, Fatal, SsrError};
pub use ssr::Js;

//! The two ways of rendering, and where each finds its bundle.

use vstd::prelude::*;

verus! {

/// How the process renders pages. It is chosen once, before the first
/// request, and does not change afterwards.
#[derive(Clone, Copy, Debug, PartialEq, Eq, Structural)]
pub enum Mode {
    /// The bundle is read again for every request, and a request that cannot
    /// be rendered is answered with a static page.
    Dev,
    /// The bundle is compiled once per worker, and a request that cannot be
    /// rendered fails.
    Prod,
}

/// The production bundle.
pub const PROD_BUNDLE_PATH: &'static str = "./out/server/prod-server.js";

/// The production bundle, on Windows.
pub const PROD_BUNDLE_PATH_WINDOWS: &'static str = ".\\out\\server\\prod-server.js";

/// The development bundle.
pub const DEV_BUNDLE_PATH: &'static str = "./.tuono/server/dev-server.js";

/// The development bundle, on Windows.
pub const DEV_BUNDLE_PATH_WINDOWS: &'static str = ".\\.tuono\\server\\dev-server.js";

/// The export of the bundle that is evaluated after it: none, the bundle
/// being an expression that yields its render functions.
pub const ENTRY_POINT: &'static str = "";

impl Mode {
    /// The file that holds the bundle of this mode. It depends on the mode
    /// and on the host's path convention, and on nothing else.
    pub open spec fn spec_bundle_path(self, windows: bool) -> Seq<char> {
        match (self, windows) {
            (Mode::Prod, false) => PROD_BUNDLE_PATH@,
            (Mode::Prod, true) => PROD_BUNDLE_PATH_WINDOWS@,
            (Mode::Dev, false) => DEV_BUNDLE_PATH@,
            (Mode::Dev, true) => DEV_BUNDLE_PATH_WINDOWS@,
        }
    }

    /// The file that holds the bundle of this mode.
    pub fn bundle_path(self, windows: bool) -> (path: &'static str)
        ensures
            path@ == self.spec_bundle_path(windows),
    {
        match (self, windows) {
            (Mode::Prod, false) => PROD_BUNDLE_PATH,
            (Mode::Prod, true) => PROD_BUNDLE_PATH_WINDOWS,
            (Mode::Dev, false) => DEV_BUNDLE_PATH,
            (Mode::Dev, true) => DEV_BUNDLE_PATH_WINDOWS,
        }
    }
}

} // verus!

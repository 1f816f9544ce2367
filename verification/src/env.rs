//! Process configuration, constructed once at startup by the surrounding
//! application and passed by reference into every component that needs it.

use vstd::prelude::*;

verus! {

/// Configuration of the gateway. All values are plain strings; loading them
/// from the process environment is the surrounding application's concern.
#[derive(Clone)]
pub struct Env {
    pub cookie_path: String,
    pub cookie_secret: String,
    pub public_url: String,
    pub container_url: String,
    pub image_name: String,
    // oauth
    pub oauth_app_id: String,
    pub oauth_app_secret: String,
    pub oauth_server: String,
}

} // verus!

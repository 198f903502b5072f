//! What every request handler shares.
use vstd::prelude::*;

use std::sync::Arc;

use crate::config::Config;

verus! {

/// The configuration and the list of routes, shared by the handlers.
#[derive(Clone)]
pub struct AppState {
    pub config: Arc<Config>,
    pub routes: Arc<Vec<&'static str>>,
}

} // verus!

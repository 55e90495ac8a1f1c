use vstd::prelude::*;

verus! {

/// Shared application state, constructed once at startup and handed to the
/// event runtime so that handlers can retrieve it per invocation. It carries
/// no data yet; its only obligation is to exist before the first handler call.
#[derive(Clone, Debug)]
pub struct AppState {}

impl AppState {
    /// Construct the shared state. No step of this can fail.
    pub fn new() -> (s: Self)
        ensures
            s == (AppState {}),
    {
        AppState {}
    }
}

impl Default for AppState {
    fn default() -> (s: Self)
        ensures
            s == (AppState {}),
    {
        AppState {}
    }
}

} // verus!

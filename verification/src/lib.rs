//! Core of an interactive HTTP request composer: the request/response data
//! model, the dispatcher that launches a network call and publishes its
//! outcome, the shared response slot both threads communicate through, and
//! the tab selection controller that persists which pane is active.
//!
//! Rendering, persistence of application state, and the wire protocol itself
//! are collaborators outside this crate; the dispatcher reaches the HTTP
//! client through a handful of trusted wrappers.

pub mod dispatch;
pub mod models;
pub mod slot;
pub mod tabcontrol;

use vstd::prelude::*;

use crate::models::{Method, Pair, Request, RequestBody};
use crate::slot::Slot;
use crate::tabcontrol::TabStore;

verus! {

/// The application's state: the request being composed, the shared response
/// slot, and the persisted tab selections. The interactive thread owns the
/// request and the tab store; the slot is shared with the background units
/// behind the embedding code's guard.
pub struct App {
    pub request: Request,
    pub slot: Slot,
    pub tabs: TabStore,
}

impl App {
    /// A fresh session: a blank GET request, no attempt yet, no tab
    /// selection persisted.
    pub fn new() -> (r: App)
        ensures
            r.request.method == Method::Get,
            r.request.url@ == Seq::<char>::empty(),
            r.request.params@ == Seq::<Pair>::empty(),
            r.request.headers@ == Seq::<Pair>::empty(),
            r.request.body == RequestBody::NoBody,
            r.slot@ is None,
            r.tabs@ == Map::<u64, Seq<char>>::empty(),
    {
        App { request: Request::new(), slot: Slot::new(), tabs: TabStore::new() }
    }
}

} // verus!

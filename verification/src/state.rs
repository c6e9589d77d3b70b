//! The state that the application keeps about the API server, and the query
//! that the front end makes of it.
//!
//! The state is created once at startup and shared by every caller of the
//! query. It sits behind a lock whose invariant fixes the port, so that a
//! read, from whatever thread and at whatever time, sees the port that the
//! state was created with.

use vstd::prelude::*;
use vstd::rwlock::{RwLock, RwLockPredicate};
use crate::port::{get_api_port, resolve_port, text_view};
use crate::url::{api_url, format_api_url};

verus! {

/// What the application knows about the API server: the port it listens on.
#[derive(Clone, Copy, Debug, PartialEq, Eq, Structural)]
pub struct ApiServerState {
    pub port: u16,
}

/// The invariant of the lock in a [`SharedApiState`]: the guarded state holds
/// this port.
struct PortIs {
    port: u16,
}

impl RwLockPredicate<ApiServerState> for PortIs {
    closed spec fn inv(self, state: ApiServerState) -> bool {
        state.port == self.port
    }
}

/// An [`ApiServerState`] that many callers may read at once.
pub struct SharedApiState {
    lock: RwLock<ApiServerState, PortIs>,
}

impl View for SharedApiState {
    type V = ApiServerState;

    /// The state that every read returns.
    closed spec fn view(&self) -> ApiServerState {
        ApiServerState { port: self.lock.pred().port }
    }
}

impl SharedApiState {
    /// Puts `state` behind a lock.
    pub fn new(state: ApiServerState) -> (shared: Self)
        ensures
            shared@ == state,
    {
        SharedApiState { lock: RwLock::new(state, Ghost(PortIs { port: state.port })) }
    }

    /// Takes the lock for reading, copies the state and gives the lock back.
    ///
    /// Nothing ever takes the lock for writing, so a reader never waits.
    pub fn read(&self) -> (state: ApiServerState)
        ensures
            state == self@,
    {
        let handle = self.lock.acquire_read();
        let state = *handle.borrow();
        handle.release_read();
        state
    }
}

/// The state that the application registers at startup.
///
/// `value` is the override of the port, as found in the environment, or
/// `None` where there is none. The port is chosen once, here, and stays the
/// same for as long as the state lives.
pub fn initial_state(value: Option<&str>) -> (shared: SharedApiState)
    ensures
        shared@.port == resolve_port(text_view(value)),
{
    SharedApiState::new(ApiServerState { port: get_api_port(value) })
}

/// Answers the front end's query for the address of the API server.
///
/// The answer is the address for the port that `shared` was created with. It
/// depends on nothing else, so all callers get the same complete text.
pub fn get_api_url(shared: &SharedApiState) -> (url: String)
    ensures
        url@ == api_url(shared@.port),
{
    format_api_url(shared.read().port)
}

} // verus!

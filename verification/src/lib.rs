//! Where the front end finds the API server.
//!
//! The API server is a separate process that listens on a local port. This
//! crate decides which port that is, from an optional textual override, and
//! renders the address the front end connects to. The decisions are stated as
//! mathematical functions on character sequences and proved of the code.
//!
//! - [`decimal`]: decimal notation, read and written.
//! - [`port`]: the choice of the port, [`get_api_port`].
//! - [`url`]: the address for a port, [`format_api_url`].
//! - [`state`]: the shared state and the query on it, [`get_api_url`].

pub mod decimal;
pub mod port;
pub mod state;
pub mod url;

pub use port::{get_api_port, parse_port, API_PORT_VARIABLE, DEFAULT_API_PORT};
pub use state::{get_api_url, initial_state, ApiServerState, SharedApiState};
pub use url::{format_api_url, API_URL_PREFIX};

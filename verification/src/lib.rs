//! Publishing a tagged release to a source-hosting provider: the release
//! descriptor and its wire form, the API endpoint of a remote, the request
//! that carries the descriptor, and the reading of the provider's answer.

pub mod auth;
pub mod endpoint;
pub mod error;
pub mod inputs;
pub mod json;
pub mod release;
pub mod response;
pub mod text;
pub mod transport;

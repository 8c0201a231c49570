//! A transfer engine that fetches one resource over HTTP(S) into one local
//! file. The engine decides and the caller performs: every function here
//! works on values, and no byte is sent or written by this crate.

pub mod engine;
pub mod error;
pub mod request;
pub mod source;
pub mod status;
pub mod transport;

pub use engine::{Dl, Plan, Transfer};
pub use error::{DlErr, DlResult};
pub use request::Request;
pub use source::Source;
pub use status::DlStatus;

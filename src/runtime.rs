//! The listener's fixed address and the fatal startup failures.
use vstd::prelude::*;

verus! {

/// The one address the service listens on; it is not configurable.
pub const LISTEN_ADDR: &'static str = "127.0.0.1:3000";

/// A failure that ends the process: the entry point decides to terminate.
#[derive(Clone, Copy, Debug, PartialEq, Eq, Structural)]
pub enum StartupError {
    /// The listener could not be bound (address in use, no permission,
    /// invalid address).
    Bind,
    /// The serve loop failed as a whole.
    Serve,
}

/// The diagnostic printed for a startup failure.
pub open spec fn startup_message(e: StartupError) -> Seq<char> {
    match e {
        StartupError::Bind => "Failed to bind to address"@,
        StartupError::Serve => "Failed to start server"@,
    }
}

impl StartupError {
    /// The diagnostic printed before the process ends.
    pub fn message(&self) -> (r: String)
        ensures
            r@ == startup_message(*self),
    {
        match self {
            StartupError::Bind => "Failed to bind to address".to_owned(),
            StartupError::Serve => "Failed to start server".to_owned(),
        }
    }
}

} // verus!

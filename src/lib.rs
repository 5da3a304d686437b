//! Launcher for an external remote-desktop client: loads the defaults,
//! resolves the command-line options, collects the credentials and
//! assembles the client's argument list.
use vstd::prelude::*;

pub mod config;
pub mod credentials;
pub mod error;
pub mod launch;
pub mod mode;
pub mod options;
pub mod session;

verus! {

} // verus!

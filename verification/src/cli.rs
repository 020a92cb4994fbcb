//! Command-line configuration of the server around the core.

use vstd::prelude::*;

verus! {

/// Start-up options: the address where the server accepts connections
/// (e.g. `127.0.0.1:8080`). The argument parsing itself lives with the
/// binary; the library only holds the parsed value.
#[derive(Debug, Clone)]
pub struct Cli {
    pub listener_address: String,
}

} // verus!

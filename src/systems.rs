//! Per-frame systems that belong with the connection.

use vstd::prelude::*;

verus! {

/// Ties the game connection into the frame loop. On targets that cannot open
/// sockets there is never a connection, and it does nothing.
pub fn game_connection_system() {
}

} // verus!

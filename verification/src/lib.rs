//! Session and request bridge between a local UI shell and an embedded
//! note server.
//!
//! The bridge owns the shared server state, resolves the current local
//! user from a single persisted value, dispatches typed request/reply
//! messages into the embedded server's business logic, and serves
//! content-addressed file requests through a single-use response path.
//! The business logic itself (note storage, permissions, search) and the
//! record store are external collaborators: their results enter the
//! library as plain values, and every decision taken on those values is
//! verified here.

use vstd::prelude::*;

pub mod dispatch;
pub mod errors;
pub mod exid;
pub mod fileresp;
pub mod identity;
pub mod numtext;
pub mod state;
pub mod upload;

verus! {

/// Greeting echoed back to the UI shell for a connectivity check.
pub fn greet(name: &str) -> (r: String)
    ensures
        r@ == "Hello, "@ + name@ + "!"@,
{
    let mut out = String::new();
    out.append("Hello, ");
    out.append(name);
    out.append("!");
    proof {
        assert(out@ =~= "Hello, "@ + name@ + "!"@);
    }
    out
}

} // verus!

//! Typed errors of the bridge.
//!
//! Every failure that the dispatcher or the file responder can meet is
//! normalized into one of these variants, so that a failure always
//! becomes a typed reply payload and never crosses the command boundary
//! as a transport fault.

use vstd::prelude::*;

verus! {

/// A bridge-level error.
///
/// Store and collaborator failures arrive from outside as plain text;
/// the bridge only carries that text into a typed reply.
#[derive(Debug)]
pub enum ZkErr {
    /// An authenticated operation ran while no local user is persisted.
    NotLoggedIn,
    /// The record store could not be opened, read or written.
    Store(String),
    /// The business-logic collaborator failed; the text is its description.
    Collaborator(String),
    /// A free-form error message minted by the bridge itself.
    Message(String),
}

/// The human-readable description of an error, as the UI receives it
/// inside a server-error reply payload.
pub open spec fn describe_spec(e: &ZkErr) -> Seq<char> {
    match e {
        ZkErr::NotLoggedIn => "not logged in"@,
        ZkErr::Store(t) => t@,
        ZkErr::Collaborator(t) => t@,
        ZkErr::Message(t) => t@,
    }
}

impl ZkErr {
    /// Render the error as the text that reply payloads carry.
    pub fn describe(&self) -> (r: String)
        ensures
            r@ == describe_spec(self),
    {
        match self {
            ZkErr::NotLoggedIn => {
                let mut s = String::new();
                s.append("not logged in");
                s
            },
            ZkErr::Store(t) => t.clone(),
            ZkErr::Collaborator(t) => t.clone(),
            ZkErr::Message(t) => t.clone(),
        }
    }
}

} // verus!

//! A verified model of a Lua-style embedding layer.
//!
//! The library captures the host side of an embedded scripting runtime: a
//! tagged value type that crosses the host/script boundary, the slot encoding
//! used on the runtime's evaluation stack, global-variable bindings, library
//! activation, and the protected-call protocol with its error translation.
//!
//! The interpreter itself is an opaque collaborator: compiling and executing
//! chunk text is outside the model, so its verdicts — result codes, returned
//! values, error messages — enter the execution functions as
//! [`lua::LoadOutcome`] and [`lua::CallOutcome`] inputs, and every contract
//! states what holds for every verdict. A [`lua::LuaState`] tracks the
//! observable protocol state (stack slots, host-made global bindings,
//! enabled libraries); an unverified native binding performs the foreign
//! calls, reads each verdict back, and hands it to the verified functions.

use vstd::prelude::*;

pub mod data;
pub mod laws;
pub mod library;
pub mod lua;
pub mod mtype;
pub mod stack;

verus! {

use crate::data::DataErr;
use crate::library::LibraryErr;

/// Any failure the embedding layer can report.
#[derive(Debug, Clone)]
pub enum Error {
    /// The native runtime reported a load, compile or call failure; the
    /// payload is the message it left on top of the stack.
    Runtime(String),
    /// A local decode-time violation while marshalling values.
    Data(DataErr),
    /// A failure while enabling a standard library module; no path produces
    /// one today, the variant reserving the kind in the taxonomy.
    Library(LibraryErr),
}

impl PartialEq for Error {
    fn eq(&self, other: &Error) -> (r: bool) {
        match (self, other) {
            (Error::Runtime(a), Error::Runtime(b)) => *a == *b,
            (Error::Data(a), Error::Data(b)) => *a == *b,
            (Error::Library(a), Error::Library(b)) => *a == *b,
            _ => false,
        }
    }
}

impl vstd::std_specs::cmp::PartialEqSpecImpl for Error {
    open spec fn obeys_eq_spec() -> bool {
        true
    }

    open spec fn eq_spec(&self, other: &Error) -> bool {
        match (self, other) {
            (Error::Runtime(a), Error::Runtime(b)) => a@ == b@,
            (Error::Data(a), Error::Data(b)) => *a == *b,
            (Error::Library(a), Error::Library(b)) => *a == *b,
            _ => false,
        }
    }
}

impl From<DataErr> for Error {
    fn from(e: DataErr) -> (r: Self) {
        Error::Data(e)
    }
}

impl vstd::std_specs::convert::FromSpecImpl<DataErr> for Error {
    open spec fn obeys_from_spec() -> bool {
        true
    }

    open spec fn from_spec(e: DataErr) -> Self {
        Error::Data(e)
    }
}

impl From<LibraryErr> for Error {
    fn from(e: LibraryErr) -> (r: Self) {
        Error::Library(e)
    }
}

impl vstd::std_specs::convert::FromSpecImpl<LibraryErr> for Error {
    open spec fn obeys_from_spec() -> bool {
        true
    }

    open spec fn from_spec(e: LibraryErr) -> Self {
        Error::Library(e)
    }
}

} // verus!

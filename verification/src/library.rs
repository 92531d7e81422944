//! The optional standard library modules a runtime instance can enable.

use vstd::prelude::*;

verus! {

use crate::lua::LuaState;

/// Various errors that may occur during opening of a library.
///
/// Enabling a library module cannot fail in the present design: no operation
/// produces a value of this type, and the contracts of [`Library::enable`]
/// and the activation path say so. The one variant only reserves the failure
/// kind in the taxonomy.
#[derive(Clone, PartialEq, Eq, Structural, Debug, Copy)]
pub enum LibraryErr {
    /// Reserved for future failure kinds; never produced today.
    Reserved,
}

/// Various libraries that may be enabled for a runtime instance.
#[derive(Clone, PartialEq, Eq, Structural, Debug, Copy)]
pub enum Library {
    /// The base functions.
    Basic,
    /// Coroutine support.
    Coroutine,
    /// Module loading.
    Package,
    /// String handling.
    String,
    /// UTF-8 helpers.
    Utf8,
    /// Table manipulation.
    Table,
    /// Mathematical functions.
    Math,
    /// Input and output.
    Io,
    /// Operating-system facilities.
    Os,
    /// Debugging facilities.
    Debug,
}

/// The canonical order of all the libraries, the base library first.
pub open spec fn all_libraries_spec() -> Seq<Library> {
    seq![
        Library::Basic,
        Library::Coroutine,
        Library::Package,
        Library::String,
        Library::Utf8,
        Library::Table,
        Library::Math,
        Library::Io,
        Library::Os,
        Library::Debug,
    ]
}

impl Library {
    /// Returns all the libraries, in their canonical order.
    pub fn all() -> (r: Vec<Library>)
        ensures
            r@ == all_libraries_spec(),
    {
        let mut libraries: Vec<Library> = Vec::new();
        libraries.push(Library::Basic);
        libraries.push(Library::Coroutine);
        libraries.push(Library::Package);
        libraries.push(Library::String);
        libraries.push(Library::Utf8);
        libraries.push(Library::Table);
        libraries.push(Library::Math);
        libraries.push(Library::Io);
        libraries.push(Library::Os);
        libraries.push(Library::Debug);
        proof {
            assert(libraries@ =~= all_libraries_spec());
        }
        libraries
    }

    /// Turns on the given library: runs its loader against the instance and
    /// translates the loader's result.
    pub fn enable(&self, state: &mut LuaState) -> (r: Result<(), LibraryErr>)
        ensures
            r == Ok::<(), LibraryErr>(()),
            final(state).libraries@ == old(state).libraries@.push(*self),
            final(state).stack@ == old(state).stack@.push(crate::stack::Slot::Table),
            final(state).globals@ == old(state).globals@,
    {
        let result = state.open(*self);
        open_result_to_result(result)
    }
}

/// Translates a library loader's result code.
///
/// A native loader leaves exactly one value, its module table, and reports
/// that count; the precondition states that protocol. No failing translation
/// exists today, [`LibraryErr`] being uninhabited.
pub fn open_result_to_result(i: i32) -> (r: Result<(), LibraryErr>)
    requires
        i == 1,
    ensures
        r == Ok::<(), LibraryErr>(()),
{
    Ok(())
}

} // verus!

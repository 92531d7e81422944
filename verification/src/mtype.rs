//! The dynamic type tags of the scripting runtime.
//!
//! The native runtime identifies each stack slot by a small integer code.
//! [`cast_type`] maps that code space onto the [`Type`] enumeration; an
//! unrecognized code (including the "no value at this index" code) maps to
//! `None`, which is absence of a value, not an error and not nil.

use vstd::prelude::*;

verus! {

use crate::stack::Stack;

/// The native code for an index that holds no value at all.
pub const LUA_TNONE: i32 = -1;

/// The native code for a nil slot.
pub const LUA_TNIL: i32 = 0;

/// The native code for a boolean slot.
pub const LUA_TBOOLEAN: i32 = 1;

/// The native code for a light-userdata slot.
pub const LUA_TLIGHTUSERDATA: i32 = 2;

/// The native code for a number slot.
pub const LUA_TNUMBER: i32 = 3;

/// The native code for a string slot.
pub const LUA_TSTRING: i32 = 4;

/// The native code for a table slot.
pub const LUA_TTABLE: i32 = 5;

/// The native code for a function slot.
pub const LUA_TFUNCTION: i32 = 6;

/// The native code for a full-userdata slot.
pub const LUA_TUSERDATA: i32 = 7;

/// The native code for a coroutine slot.
pub const LUA_TTHREAD: i32 = 8;

/// The various types that a value of the scripting runtime can have.
#[derive(Clone, Copy, PartialEq, Eq, Structural, Debug)]
pub enum Type {
    /// The absent value.
    Nil,
    /// A boolean.
    Bool,
    /// A bare host pointer.
    LightUserData,
    /// A floating-point number, carried by the host as its bit pattern.
    Number,
    /// An owned piece of text.
    String,
    /// An associative table.
    Table,
    /// A callable value.
    Function,
    /// A runtime-managed opaque datum.
    UserData,
    /// A coroutine.
    Thread,
}

/// The [`Type`] that [`cast_type`] assigns to each native code.
pub open spec fn cast_type_spec(code: i32) -> Option<Type> {
    if code == LUA_TNIL {
        Some(Type::Nil)
    } else if code == LUA_TBOOLEAN {
        Some(Type::Bool)
    } else if code == LUA_TLIGHTUSERDATA {
        Some(Type::LightUserData)
    } else if code == LUA_TNUMBER {
        Some(Type::Number)
    } else if code == LUA_TSTRING {
        Some(Type::String)
    } else if code == LUA_TTABLE {
        Some(Type::Table)
    } else if code == LUA_TFUNCTION {
        Some(Type::Function)
    } else if code == LUA_TUSERDATA {
        Some(Type::UserData)
    } else if code == LUA_TTHREAD {
        Some(Type::Thread)
    } else {
        None
    }
}

/// Maps a native type code to the type it names.
///
/// Exactly the nine codes of the runtime's type space are recognized; every
/// other code, the "no type" code among them, yields `None`.
pub fn cast_type(lua_type: i32) -> (r: Option<Type>)
    ensures
        r == cast_type_spec(lua_type),
{
    if lua_type == LUA_TNIL {
        Some(Type::Nil)
    } else if lua_type == LUA_TBOOLEAN {
        Some(Type::Bool)
    } else if lua_type == LUA_TLIGHTUSERDATA {
        Some(Type::LightUserData)
    } else if lua_type == LUA_TNUMBER {
        Some(Type::Number)
    } else if lua_type == LUA_TSTRING {
        Some(Type::String)
    } else if lua_type == LUA_TTABLE {
        Some(Type::Table)
    } else if lua_type == LUA_TFUNCTION {
        Some(Type::Function)
    } else if lua_type == LUA_TUSERDATA {
        Some(Type::UserData)
    } else if lua_type == LUA_TTHREAD {
        Some(Type::Thread)
    } else {
        None
    }
}

impl Type {
    /// Reads the type of the slot at the given index of a stack, through the
    /// native code space and [`cast_type`].
    ///
    /// An index that points outside the current stack reports "no type",
    /// which comes back as `None`.
    pub fn get_type(stack: &Stack, index: i32) -> (r: Option<Type>)
        ensures
            r == cast_type_spec(stack.type_code_at_spec(index)),
    {
        let code = stack.type_code_at(index);
        cast_type(code)
    }
}

} // verus!

//! The evaluation stack that values cross on their way between the host and
//! the scripting runtime.
//!
//! A [`Slot`] is one stack entry in the runtime's own representation: booleans
//! as small integers, numbers as their bit patterns, text as an owned copy of
//! the runtime's string. [`Stack`] keeps the slots in push order, the last
//! element being the top, and offers the same reads the native stack offers:
//! a type code per index, and a typed read per supported tag.
//!
//! Indices follow the native convention: positive indices count from the
//! bottom starting at 1, negative indices count from the top starting at -1,
//! and any index outside the current stack reports the "no type" code.

use vstd::prelude::*;

verus! {

use crate::data::Data;
use crate::data::DataErr;
use crate::mtype::LUA_TBOOLEAN;
use crate::mtype::LUA_TFUNCTION;
use crate::mtype::LUA_TLIGHTUSERDATA;
use crate::mtype::LUA_TNIL;
use crate::mtype::LUA_TNONE;
use crate::mtype::LUA_TNUMBER;
use crate::mtype::LUA_TSTRING;
use crate::mtype::LUA_TTABLE;
use crate::mtype::LUA_TTHREAD;
use crate::mtype::LUA_TUSERDATA;
use crate::mtype::Type;

/// One entry of the evaluation stack, as the runtime represents it.
#[derive(Debug)]
pub enum Slot {
    /// The absent value.
    Nil,
    /// A boolean, stored as the integer the push primitive was given.
    Boolean(i32),
    /// A floating-point number, stored as its IEEE 754 bit pattern.
    Number(u64),
    /// An owned copy of a runtime string.
    Text(String),
    /// A host function, stored as the handle it was registered under.
    NativeFn(u64),
    /// A compiled chunk, holding its source text.
    Chunk(String),
    /// A bare host pointer; its contents are not modeled.
    LightUserData,
    /// A table; its contents are not modeled.
    Table,
    /// A runtime-managed opaque datum; its contents are not modeled.
    UserData,
    /// A coroutine; its contents are not modeled.
    Thread,
}

impl Slot {
    /// The type tag of this slot.
    pub open spec fn slot_type(self) -> Type {
        match self {
            Slot::Nil => Type::Nil,
            Slot::Boolean(_) => Type::Bool,
            Slot::Number(_) => Type::Number,
            Slot::Text(_) => Type::String,
            Slot::NativeFn(_) => Type::Function,
            Slot::Chunk(_) => Type::Function,
            Slot::LightUserData => Type::LightUserData,
            Slot::Table => Type::Table,
            Slot::UserData => Type::UserData,
            Slot::Thread => Type::Thread,
        }
    }

    /// The native code of this slot's type tag.
    pub open spec fn type_code(self) -> i32 {
        match self.slot_type() {
            Type::Nil => LUA_TNIL,
            Type::Bool => LUA_TBOOLEAN,
            Type::LightUserData => LUA_TLIGHTUSERDATA,
            Type::Number => LUA_TNUMBER,
            Type::String => LUA_TSTRING,
            Type::Table => LUA_TTABLE,
            Type::Function => LUA_TFUNCTION,
            Type::UserData => LUA_TUSERDATA,
            Type::Thread => LUA_TTHREAD,
        }
    }

    /// Returns a slot equal to this one.
    ///
    /// Written by hand so that verified callers know the copy equals the
    /// original, which a derived clone would not tell them.
    pub fn duplicate(&self) -> (r: Slot)
        ensures
            r == *self,
    {
        match self {
            Slot::Nil => Slot::Nil,
            Slot::Boolean(i) => Slot::Boolean(*i),
            Slot::Number(n) => Slot::Number(*n),
            Slot::Text(s) => Slot::Text(s.clone()),
            Slot::NativeFn(h) => Slot::NativeFn(*h),
            Slot::Chunk(c) => Slot::Chunk(c.clone()),
            Slot::LightUserData => Slot::LightUserData,
            Slot::Table => Slot::Table,
            Slot::UserData => Slot::UserData,
            Slot::Thread => Slot::Thread,
        }
    }
}

impl PartialEq for Slot {
    fn eq(&self, other: &Slot) -> (r: bool) {
        match (self, other) {
            (Slot::Nil, Slot::Nil) => true,
            (Slot::Boolean(a), Slot::Boolean(b)) => *a == *b,
            (Slot::Number(a), Slot::Number(b)) => *a == *b,
            (Slot::Text(a), Slot::Text(b)) => *a == *b,
            (Slot::NativeFn(a), Slot::NativeFn(b)) => *a == *b,
            (Slot::Chunk(a), Slot::Chunk(b)) => *a == *b,
            (Slot::LightUserData, Slot::LightUserData) => true,
            (Slot::Table, Slot::Table) => true,
            (Slot::UserData, Slot::UserData) => true,
            (Slot::Thread, Slot::Thread) => true,
            _ => false,
        }
    }
}

impl vstd::std_specs::cmp::PartialEqSpecImpl for Slot {
    open spec fn obeys_eq_spec() -> bool {
        true
    }

    open spec fn eq_spec(&self, other: &Slot) -> bool {
        match (self, other) {
            (Slot::Nil, Slot::Nil) => true,
            (Slot::Boolean(a), Slot::Boolean(b)) => *a == *b,
            (Slot::Number(a), Slot::Number(b)) => *a == *b,
            (Slot::Text(a), Slot::Text(b)) => a@ == b@,
            (Slot::NativeFn(a), Slot::NativeFn(b)) => *a == *b,
            (Slot::Chunk(a), Slot::Chunk(b)) => a@ == b@,
            (Slot::LightUserData, Slot::LightUserData) => true,
            (Slot::Table, Slot::Table) => true,
            (Slot::UserData, Slot::UserData) => true,
            (Slot::Thread, Slot::Thread) => true,
            _ => false,
        }
    }
}

/// Resolves a native stack index against a stack of the given contents.
///
/// Positive indices count from the bottom starting at 1, negative ones from
/// the top starting at -1; the result is the absolute position, or `None` for
/// an index outside the stack.
pub open spec fn resolve_index_spec(slots: Seq<Slot>, index: i32) -> Option<int> {
    if 1 <= index && index <= slots.len() {
        Some(index - 1)
    } else if index <= -1 && -(index as int) <= slots.len() {
        Some(slots.len() + index)
    } else {
        None
    }
}

/// A simple representation of the runtime's evaluation stack.
#[derive(Debug)]
pub struct Stack {
    slots: Vec<Slot>,
}

impl View for Stack {
    type V = Seq<Slot>;

    closed spec fn view(&self) -> Seq<Slot> {
        self.slots@
    }
}

impl Stack {
    /// Creates a new, empty stack.
    pub fn new() -> (r: Stack)
        ensures
            r@ == Seq::<Slot>::empty(),
    {
        Stack { slots: Vec::new() }
    }

    /// The number of slots currently on the stack.
    pub fn depth(&self) -> (r: usize)
        ensures
            r == self@.len(),
    {
        self.slots.len()
    }

    /// The native type code of the slot at the given index, or the "no type"
    /// code for an index outside the stack.
    pub open spec fn type_code_at_spec(self, index: i32) -> i32 {
        match resolve_index_spec(self@, index) {
            Some(i) => self@[i].type_code(),
            None => LUA_TNONE,
        }
    }

    /// Resolves a native stack index to an absolute position.
    pub fn resolve_index(&self, index: i32) -> (r: Option<usize>)
        ensures
            match r {
                Some(i) => resolve_index_spec(self@, index) == Some(i as int),
                None => resolve_index_spec(self@, index) is None,
            },
    {
        let len = self.slots.len();
        if index >= 1 {
            let ui = index as usize;
            if ui <= len {
                Some(ui - 1)
            } else {
                None
            }
        } else if index <= -1 {
            let magnitude: usize = if index == -2147483648i32 {
                2147483648
            } else {
                (-index) as usize
            };
            if magnitude <= len {
                Some(len - magnitude)
            } else {
                None
            }
        } else {
            None
        }
    }

    /// Reads the type code of the slot at the given index, as the native
    /// type-query primitive reports it.
    pub fn type_code_at(&self, index: i32) -> (r: i32)
        ensures
            r == self.type_code_at_spec(index),
    {
        match self.resolve_index(index) {
            Some(i) => match &self.slots[i] {
                Slot::Nil => LUA_TNIL,
                Slot::Boolean(_) => LUA_TBOOLEAN,
                Slot::Number(_) => LUA_TNUMBER,
                Slot::Text(_) => LUA_TSTRING,
                Slot::NativeFn(_) => LUA_TFUNCTION,
                Slot::Chunk(_) => LUA_TFUNCTION,
                Slot::LightUserData => LUA_TLIGHTUSERDATA,
                Slot::Table => LUA_TTABLE,
                Slot::UserData => LUA_TUSERDATA,
                Slot::Thread => LUA_TTHREAD,
            },
            None => LUA_TNONE,
        }
    }

    /// Borrows the slot at the given absolute position, the bottom being
    /// position zero.
    pub fn slot_at(&self, i: usize) -> (r: &Slot)
        requires
            i < self@.len(),
        ensures
            *r == self@[i as int],
    {
        &self.slots[i]
    }

    /// Places one slot on top of the stack.
    pub fn push_slot(&mut self, slot: Slot)
        ensures
            final(self)@ == old(self)@.push(slot),
    {
        self.slots.push(slot);
    }

    /// Removes the top slot and hands it out.
    pub fn pop_slot(&mut self) -> (r: Slot)
        requires
            old(self)@.len() > 0,
        ensures
            r == old(self)@.last(),
            final(self)@ == old(self)@.drop_last(),
    {
        let r = self.slots.pop().unwrap();
        proof {
            assert(self@ =~= old(self)@.drop_last());
        }
        r
    }

    /// Drops every slot above the given depth, the native way of shrinking
    /// the stack.
    pub fn set_top(&mut self, depth: usize)
        requires
            depth <= old(self)@.len(),
        ensures
            final(self)@ == old(self)@.take(depth as int),
    {
        self.slots.truncate(depth);
    }

    /// Reads the boolean slot at the given index as the integer the runtime
    /// stores for it.
    pub fn to_boolean(&self, index: i32) -> (r: i32)
        requires
            resolve_index_spec(self@, index) matches Some(i) && self@[i] is Boolean,
        ensures
            (match resolve_index_spec(self@, index) {
                Some(i) => self@[i] == Slot::Boolean(r),
                None => false,
            }),
    {
        let i = self.resolve_index(index).unwrap();
        match &self.slots[i] {
            Slot::Boolean(b) => *b,
            _ => 0,
        }
    }

    /// Reads the number slot at the given index as its bit pattern.
    pub fn to_number_bits(&self, index: i32) -> (r: u64)
        requires
            resolve_index_spec(self@, index) matches Some(i) && self@[i] is Number,
        ensures
            (match resolve_index_spec(self@, index) {
                Some(i) => self@[i] == Slot::Number(r),
                None => false,
            }),
    {
        let i = self.resolve_index(index).unwrap();
        match &self.slots[i] {
            Slot::Number(n) => *n,
            _ => 0,
        }
    }

    /// Copies the string slot at the given index into an owned, independently
    /// lived buffer, as decoding must before the slot is consumed.
    pub fn to_text(&self, index: i32) -> (r: String)
        requires
            resolve_index_spec(self@, index) matches Some(i) && self@[i] is Text,
        ensures
            (match resolve_index_spec(self@, index) {
                Some(i) => self@[i] == Slot::Text(r),
                None => false,
            }),
    {
        let i = self.resolve_index(index).unwrap();
        match &self.slots[i] {
            Slot::Text(s) => s.clone(),
            _ => String::new(),
        }
    }

    /// The bit pattern of the number at the given index, or `None` where the
    /// index does not hold a number.
    pub open spec fn check_num_spec(self, position: i32) -> Option<u64> {
        match resolve_index_spec(self@, position) {
            Some(i) => match self@[i] {
                Slot::Number(n) => Some(n),
                _ => None,
            },
            None => None,
        }
    }

    /// Checks for a number at the given position of the stack, the read a
    /// host function uses to fetch a positional argument.
    ///
    /// Arguments sit at positive, 1-based positions. The native read also
    /// coerces numeric strings; that coercion belongs to the runtime and is
    /// not modeled, so only a number slot yields a value here.
    pub fn check_num(&self, position: i32) -> (r: Option<u64>)
        ensures
            r == self.check_num_spec(position),
    {
        match self.resolve_index(position) {
            Some(i) => match &self.slots[i] {
                Slot::Number(n) => Some(*n),
                _ => None,
            },
            None => None,
        }
    }

    /// Pushes a piece of data onto the stack in its slot encoding.
    pub fn push(&mut self, data: Data) -> (r: Result<(), DataErr>)
        requires
            data.text_is_encodable(),
        ensures
            (match crate::data::encode_spec(data) {
                Some(slot) => r == Ok::<(), DataErr>(()) && final(self)@ == old(self)@.push(slot),
                None => r == Err::<(), DataErr>(DataErr::NotYetSupported) && final(self)@ == old(
                    self,
                )@,
            }),
    {
        data.push(self)
    }
}

} // verus!

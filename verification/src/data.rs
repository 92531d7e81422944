//! The tagged value type that crosses the host/script boundary, and its
//! marshalling protocol.
//!
//! [`Data`] is the host's view of one runtime value. [`Data::push`] encodes a
//! value into a stack [`Slot`]; [`Data::pop`] decodes and consumes the top
//! slot. Four placeholder variants (light userdata, tables, full userdata,
//! coroutines) are part of the tag space but have no marshalling yet: both
//! directions report them as not yet supported rather than letting them pass
//! silently.
//!
//! Numbers are carried as their IEEE 754 bit patterns: the host moves them
//! across the boundary unchanged and does no arithmetic on them. Text crosses
//! the boundary as a NUL-terminated native string, so a string with an
//! interior NUL has no encoding; the push preconditions state that limit.

use vstd::prelude::*;

verus! {

use crate::mtype::Type;
use crate::stack::Slot;
use crate::stack::Stack;

/// A decode-time violation of the marshalling protocol.
#[derive(Clone, Copy, PartialEq, Eq, Structural, Debug)]
pub enum DataErr {
    /// The stack held no value to decode.
    StackUnderflow,
    /// The value's kind has no marshalling yet.
    NotYetSupported,
}

/// A piece of data, as the host sees one runtime value.
#[derive(Clone, Debug)]
pub enum Data {
    /// The absent value.
    Nil,
    /// A boolean.
    Bool(bool),
    /// A floating-point number, carried as its IEEE 754 bit pattern.
    Number(u64),
    /// An owned piece of text.
    String(String),
    /// A host function, named by the handle it was registered under on the
    /// native side.
    Function(u64),
    /// A bare host pointer; not yet marshalled.
    LightUserData,
    /// An associative table; not yet marshalled.
    Table,
    /// A runtime-managed opaque datum; not yet marshalled.
    UserData,
    /// A coroutine; not yet marshalled.
    Thread,
}

/// The slot encoding of a piece of data, or `None` for the placeholder
/// variants, which have no encoding.
pub open spec fn encode_spec(data: Data) -> Option<Slot> {
    match data {
        Data::Nil => Some(Slot::Nil),
        Data::Bool(b) => Some(Slot::Boolean(if b { 1 as i32 } else { 0 as i32 })),
        Data::Number(n) => Some(Slot::Number(n)),
        Data::String(s) => Some(Slot::Text(s)),
        Data::Function(h) => Some(Slot::NativeFn(h)),
        Data::LightUserData => None,
        Data::Table => None,
        Data::UserData => None,
        Data::Thread => None,
    }
}

/// What decoding one slot yields: a piece of data for the supported tags, and
/// a not-yet-supported failure for function slots and the placeholder kinds.
pub open spec fn decode_spec(slot: Slot) -> Result<Data, DataErr> {
    match slot {
        Slot::Nil => Ok(Data::Nil),
        Slot::Boolean(i) => Ok(Data::Bool(i != 0)),
        Slot::Number(n) => Ok(Data::Number(n)),
        Slot::Text(s) => Ok(Data::String(s)),
        Slot::NativeFn(_) => Err(DataErr::NotYetSupported),
        Slot::Chunk(_) => Err(DataErr::NotYetSupported),
        Slot::LightUserData => Err(DataErr::NotYetSupported),
        Slot::Table => Err(DataErr::NotYetSupported),
        Slot::UserData => Err(DataErr::NotYetSupported),
        Slot::Thread => Err(DataErr::NotYetSupported),
    }
}

/// What popping yields on a stack with the given contents.
pub open spec fn pop_result_spec(slots: Seq<Slot>) -> Result<Data, DataErr> {
    if slots.len() == 0 {
        Err(DataErr::StackUnderflow)
    } else {
        decode_spec(slots.last())
    }
}

/// The stack contents after a pop: one slot fewer on success, unchanged on
/// any failure.
pub open spec fn pop_stack_spec(slots: Seq<Slot>) -> Seq<Slot> {
    if slots.len() == 0 {
        slots
    } else if decode_spec(slots.last()) is Ok {
        slots.drop_last()
    } else {
        slots
    }
}

impl Data {
    /// Whether this value has a slot encoding at all.
    pub open spec fn is_marshallable(self) -> bool {
        encode_spec(self) is Some
    }

    /// Whether this value's text, if it holds any, can cross the boundary as
    /// a NUL-terminated native string.
    pub open spec fn text_is_encodable(self) -> bool {
        match self {
            Data::String(s) => !s@.contains('\0'),
            _ => true,
        }
    }

    /// The type tag of this value.
    pub open spec fn m_type_spec(self) -> Type {
        match self {
            Data::Nil => Type::Nil,
            Data::Bool(_) => Type::Bool,
            Data::Number(_) => Type::Number,
            Data::String(_) => Type::String,
            Data::Function(_) => Type::Function,
            Data::LightUserData => Type::LightUserData,
            Data::Table => Type::Table,
            Data::UserData => Type::UserData,
            Data::Thread => Type::Thread,
        }
    }

    /// Gets the type tag of this value. Every variant maps to exactly one
    /// tag.
    pub fn m_type(&self) -> (r: Type)
        ensures
            r == self.m_type_spec(),
    {
        match self {
            Data::Nil => Type::Nil,
            Data::Bool(_) => Type::Bool,
            Data::LightUserData => Type::LightUserData,
            Data::Number(_) => Type::Number,
            Data::String(_) => Type::String,
            Data::Table => Type::Table,
            Data::Function(_) => Type::Function,
            Data::UserData => Type::UserData,
            Data::Thread => Type::Thread,
        }
    }

    /// Pushes this value onto the stack in its slot encoding.
    ///
    /// The placeholder variants have no encoding and are refused explicitly;
    /// nothing reaches the stack for them.
    pub fn push(&self, stack: &mut Stack) -> (r: Result<(), DataErr>)
        requires
            self.text_is_encodable(),
        ensures
            (match encode_spec(*self) {
                Some(slot) => r == Ok::<(), DataErr>(()) && final(stack)@ == old(stack)@.push(
                    slot,
                ),
                None => r == Err::<(), DataErr>(DataErr::NotYetSupported) && final(stack)@ == old(
                    stack,
                )@,
            }),
    {
        match self {
            Data::Nil => {
                stack.push_slot(Slot::Nil);
                Ok(())
            },
            Data::Bool(boolean) => {
                match boolean {
                    true => stack.push_slot(Slot::Boolean(1)),
                    false => stack.push_slot(Slot::Boolean(0)),
                }
                Ok(())
            },
            Data::Number(num) => {
                stack.push_slot(Slot::Number(*num));
                Ok(())
            },
            Data::String(s) => {
                stack.push_slot(Slot::Text(s.clone()));
                Ok(())
            },
            Data::Function(f) => {
                stack.push_slot(Slot::NativeFn(*f));
                Ok(())
            },
            Data::LightUserData => Err(DataErr::NotYetSupported),
            Data::Table => Err(DataErr::NotYetSupported),
            Data::UserData => Err(DataErr::NotYetSupported),
            Data::Thread => Err(DataErr::NotYetSupported),
        }
    }

    /// Attempts to pop some data off the stack.
    ///
    /// An empty stack is refused before anything is read, since decoding an
    /// empty slot in the native runtime yields indeterminate results; no data
    /// is consumed on that path. Otherwise the top slot's tag decides the
    /// decoding; exactly one slot is consumed on success, and none on a
    /// failure.
    pub fn pop(stack: &mut Stack) -> (r: Result<Data, DataErr>)
        ensures
            r == pop_result_spec(old(stack)@),
            final(stack)@ == pop_stack_spec(old(stack)@),
    {
        let mtype = Type::get_type(stack, -1);
        let has_data = stack.depth() > 0;

        if !has_data {
            return Err(DataErr::StackUnderflow);
        }
        let data = match mtype {
            Some(ty) => match ty {
                Type::Nil => Data::Nil,
                Type::Bool => {
                    let value = stack.to_boolean(-1);
                    Data::Bool(value != 0)
                },
                Type::Number => {
                    let value = stack.to_number_bits(-1);
                    Data::Number(value)
                },
                Type::String => {
                    let text = stack.to_text(-1);
                    Data::String(text)
                },
                Type::LightUserData => return Err(DataErr::NotYetSupported),
                Type::Table => return Err(DataErr::NotYetSupported),
                Type::Function => return Err(DataErr::NotYetSupported),
                Type::UserData => return Err(DataErr::NotYetSupported),
                Type::Thread => return Err(DataErr::NotYetSupported),
            },
            // An index beyond the stack top reports "no type" rather than an
            // error; treat it as nil without consuming a slot. With the depth
            // already checked this cannot happen, but the fallback mirrors
            // the native convention.
            None => return Ok(Data::Nil),
        };
        let _ = stack.pop_slot();

        Ok(data)
    }
}

/// What collecting `n` results off a stack yields, and the stack left
/// behind.
///
/// Results are consumed from the top down, but the callee pushed them in
/// left-to-right declaration order, so the value popped first is the last
/// declared: the collected sequence lists the top `n` slots bottom-first,
/// which is declaration order. The first failure stops the collection, the
/// slots consumed so far staying consumed.
pub open spec fn collect_spec(slots: Seq<Slot>, n: nat) -> (Result<Seq<Data>, DataErr>, Seq<Slot>)
    decreases n,
{
    if n == 0 {
        (Ok(Seq::<Data>::empty()), slots)
    } else if slots.len() == 0 {
        (Err(DataErr::StackUnderflow), slots)
    } else {
        match decode_spec(slots.last()) {
            Ok(d) => {
                let rest = collect_spec(slots.drop_last(), (n - 1) as nat);
                match rest.0 {
                    Ok(ds) => (Ok(ds.push(d)), rest.1),
                    Err(e) => (Err::<Seq<Data>, DataErr>(e), rest.1),
                }
            },
            Err(e) => (Err::<Seq<Data>, DataErr>(e), slots),
        }
    }
}

/// The reversal of a sequence.
spec fn rev_seq<A>(s: Seq<A>) -> Seq<A> {
    Seq::new(s.len(), |i: int| s[s.len() - 1 - i])
}

/// Pops the declared number of results off the stack and hands them back in
/// declaration order.
///
/// The stack yields values top-first while the callee pushed them first
/// declared first, so the popped run is reversed before it is returned: the
/// first declared result ends up first.
pub fn collect_results(stack: &mut Stack, nresults: usize) -> (r: Result<Vec<Data>, DataErr>)
    ensures
        ({
            let cr = collect_spec(old(stack)@, nresults as nat);
            final(stack)@ == cr.1 && match r {
                Ok(v) => cr.0 matches Ok(ds) && v@ == ds,
                Err(e) => cr.0 == Err::<Seq<Data>, DataErr>(e),
            }
        }),
{
    let mut popped: Vec<Data> = Vec::new();
    let mut k: usize = 0;
    while k < nresults
        invariant
            k <= nresults,
            ({
                let full = collect_spec(old(stack)@, nresults as nat);
                let rest = collect_spec(stack@, (nresults - k) as nat);
                full.1 == rest.1 && match rest.0 {
                    Ok(ds) => full.0 matches Ok(fs) && fs == ds + rev_seq(popped@),
                    Err(e) => full.0 == Err::<Seq<Data>, DataErr>(e),
                }
            }),
        decreases nresults - k,
    {
        let ghost pre = stack@;
        let ghost pre_popped = popped@;
        match Data::pop(stack) {
            Ok(d) => {
                popped.push(d);
            },
            Err(e) => {
                return Err(e);
            },
        }
        k = k + 1;
        proof {
            let d = decode_spec(pre.last())->Ok_0;
            let rest_new = collect_spec(stack@, (nresults - k) as nat);
            if rest_new.0 is Ok {
                assert(rest_new.0->Ok_0 + rev_seq(popped@) =~= rest_new.0->Ok_0.push(d) + rev_seq(
                    pre_popped,
                ));
            }
        }
    }
    proof {
        let full = collect_spec(old(stack)@, nresults as nat);
        assert(full.0 matches Ok(fs) && fs == Seq::<Data>::empty() + rev_seq(popped@));
        assert(Seq::<Data>::empty() + rev_seq(popped@) =~= rev_seq(popped@));
    }
    let ghost all_popped = popped@;
    let mut results: Vec<Data> = Vec::new();
    while popped.len() > 0
        invariant
            results@ + rev_seq(popped@) =~= rev_seq(all_popped),
        decreases popped@.len(),
    {
        let d = popped.pop().unwrap();
        results.push(d);
        proof {
            assert(results@ + rev_seq(popped@) =~= rev_seq(all_popped));
        }
    }
    proof {
        assert(results@ =~= rev_seq(all_popped));
    }
    Ok(results)
}

impl Default for Data {
    /// The default piece of data is nil.
    fn default() -> (r: Self)
        ensures
            r == Data::Nil,
    {
        Data::Nil
    }
}

impl<'a> From<&'a str> for Data {
    fn from(s: &'a str) -> (r: Self) {
        Data::String(s.to_owned())
    }
}

impl<'a> vstd::std_specs::convert::FromSpecImpl<&'a str> for Data {
    open spec fn obeys_from_spec() -> bool {
        false
    }

    open spec fn from_spec(s: &'a str) -> Self {
        Data::String(arbitrary())
    }
}

impl PartialEq for Data {
    fn eq(&self, other: &Data) -> (r: bool) {
        match (self, other) {
            (Data::Nil, Data::Nil) => true,
            (Data::Bool(a), Data::Bool(b)) => *a == *b,
            (Data::Number(a), Data::Number(b)) => *a == *b,
            (Data::String(a), Data::String(b)) => *a == *b,
            (Data::Function(a), Data::Function(b)) => *a == *b,
            (Data::LightUserData, Data::LightUserData) => true,
            (Data::Table, Data::Table) => true,
            (Data::UserData, Data::UserData) => true,
            (Data::Thread, Data::Thread) => true,
            _ => false,
        }
    }
}

impl vstd::std_specs::cmp::PartialEqSpecImpl for Data {
    open spec fn obeys_eq_spec() -> bool {
        true
    }

    open spec fn eq_spec(&self, other: &Data) -> bool {
        match (self, other) {
            (Data::Nil, Data::Nil) => true,
            (Data::Bool(a), Data::Bool(b)) => *a == *b,
            (Data::Number(a), Data::Number(b)) => *a == *b,
            (Data::String(a), Data::String(b)) => a@ == b@,
            (Data::Function(a), Data::Function(b)) => *a == *b,
            (Data::LightUserData, Data::LightUserData) => true,
            (Data::Table, Data::Table) => true,
            (Data::UserData, Data::UserData) => true,
            (Data::Thread, Data::Thread) => true,
            _ => false,
        }
    }
}

} // verus!

//! The laws the marshalling protocol obeys, stated and proved once.
//!
//! Each law here relates several operations of the protocol; laws that
//! concern a single operation stand in that operation's own contract.

use vstd::prelude::*;

verus! {

use crate::data::Data;
use crate::data::DataErr;
use crate::data::collect_spec;
use crate::data::decode_spec;
use crate::data::encode_spec;
use crate::data::pop_result_spec;
use crate::data::pop_stack_spec;
use crate::lua::global_or_nil;
use crate::lua::lookup_spec;
use crate::stack::Slot;

/// Whether a value both encodes into a slot and decodes back out of one:
/// nil, booleans, numbers and strings do; a host function encodes but has no
/// decoding yet.
pub open spec fn is_round_trippable(data: Data) -> bool {
    data is Nil || data is Bool || data is Number || data is String
}

/// The slot encodings of a row of values, in order; meaningful where every
/// value is marshallable.
pub open spec fn encode_all(values: Seq<Data>) -> Seq<Slot> {
    Seq::new(
        values.len(),
        |i: int|
            match encode_spec(values[i]) {
                Some(slot) => slot,
                None => Slot::Nil,
            },
    )
}

/// Round-trip law: pushing a nil, boolean, number or string value and then
/// popping yields that same value back and restores the stack, whatever else
/// the stack holds.
pub proof fn lemma_push_pop_round_trip(data: Data, slots: Seq<Slot>)
    requires
        is_round_trippable(data),
    ensures
        encode_spec(data) matches Some(slot) && pop_result_spec(slots.push(slot)) == Ok::<
            Data,
            DataErr,
        >(data) && pop_stack_spec(slots.push(slot)) == slots,
{
    let slot = match encode_spec(data) {
        Some(s) => s,
        None => Slot::Nil,
    };
    assert(slots.push(slot).drop_last() =~= slots);
}

/// Underflow law: popping an empty stack reports an underflow and leaves the
/// stack unchanged.
pub proof fn lemma_pop_empty_underflows(slots: Seq<Slot>)
    requires
        slots.len() == 0,
    ensures
        pop_result_spec(slots) == Err::<Data, DataErr>(DataErr::StackUnderflow),
        pop_stack_spec(slots) == slots,
{
}

/// Ordering law: a callee that pushed its results in left-to-right
/// declaration order has them collected back in that same order — the first
/// declared result first — and the collection consumes exactly those slots.
pub proof fn lemma_results_in_declaration_order(slots: Seq<Slot>, values: Seq<Data>)
    requires
        forall|i: int| 0 <= i < values.len() ==> is_round_trippable(#[trigger] values[i]),
    ensures
        collect_spec(slots + encode_all(values), values.len()) == (
            Ok::<Seq<Data>, DataErr>(values),
            slots,
        ),
    decreases values.len(),
{
    if values.len() == 0 {
        assert(slots + encode_all(values) =~= slots);
        assert(values =~= Seq::<Data>::empty());
    } else {
        let padded = slots + encode_all(values);
        let last = values.last();
        let last_slot = match encode_spec(last) {
            Some(s) => s,
            None => Slot::Nil,
        };
        assert(padded.last() == last_slot);
        assert(decode_spec(last_slot) == Ok::<Data, DataErr>(last));
        assert(padded.drop_last() =~= slots + encode_all(values.drop_last()));
        lemma_results_in_declaration_order(slots, values.drop_last());
        assert(values.drop_last().push(last) =~= values);
    }
}

/// A callee that left exactly the declared number of values has nothing
/// padded and nothing dropped by the native adjustment. Together with the
/// ordering law this fixes a call's successful results end to end: a row of
/// round-trippable values comes back exactly as the callee declared it.
pub proof fn lemma_adjust_exact_count(values: Seq<Slot>)
    ensures
        crate::lua::adjust_results(values, values.len()) == values,
{
    assert(values.take(values.len() as int) =~= values);
}

/// Absence law: a name never bound reads as nil, exactly as a name bound to
/// nil does — the two are indistinguishable to a global read.
pub proof fn lemma_unset_global_reads_nil(
    globals: Seq<(String, Slot)>,
    absent: Seq<char>,
    nil_bound: Seq<char>,
)
    requires
        lookup_spec(globals, absent) is None,
        lookup_spec(globals, nil_bound) == Some(Slot::Nil),
    ensures
        decode_spec(global_or_nil(globals, absent)) == Ok::<Data, DataErr>(Data::Nil),
        decode_spec(global_or_nil(globals, nil_bound)) == Ok::<Data, DataErr>(Data::Nil),
{
}

/// Write-then-read law: a round-trippable value bound to a name reads back
/// as that same value. What script code observes of the binding is the
/// interpreter's business, beyond the model.
pub proof fn lemma_global_written_then_read(
    globals: Seq<(String, Slot)>,
    name: Seq<char>,
    data: Data,
)
    requires
        is_round_trippable(data),
        lookup_spec(globals, name) == encode_spec(data),
    ensures
        decode_spec(global_or_nil(globals, name)) == Ok::<Data, DataErr>(data),
{
}

} // verus!

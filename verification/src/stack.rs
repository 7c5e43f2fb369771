//! A read-only renderer of the scripting engine's value stack.
//!
//! The engine itself lives behind a C boundary; what this module works on is
//! the observable state of one execution context's value stack: for each
//! slot, the type name the engine reports for display and the dynamically
//! tagged value used for dispatch. The embedding host reads those out of the
//! engine handle and the renderer turns them into one diagnostic line per
//! slot.

use vstd::prelude::*;
use vstd::string::*;
use vstd::utf8::{decode_utf8, valid_utf8};

use crate::digits::{decimal_chars, pointer_chars};
use crate::digits::{format_decimal, format_pointer};
use crate::marshal::{rstr, LuaError, LuaString};

verus! {

/// One stack slot's dynamically typed value, one arm per type tag that gets
/// special rendering plus a catch-all.
pub enum LuaValue {
    /// A numeric slot, carried as the host's default rendering of the
    /// engine's number, produced at the boundary where the raw
    /// double-precision value is read out.
    Number(String),
    /// A string slot, carried as the native string handle the engine hands
    /// out; rendering decodes it through the string marshaller.
    Str(LuaString),
    /// A boolean slot.
    Bool(bool),
    /// A nil slot.
    Nil,
    /// No value: the queried index lies beyond anything ever pushed.
    Absent,
    /// Any other tag — table, function, userdata, thread, or an extension —
    /// carried as the slot's raw address.
    Other(usize),
}

/// One observed stack slot: the type name the engine reports for display,
/// and the tagged value that rendering dispatches on.
pub struct LuaSlot {
    pub ty_name: String,
    pub value: LuaValue,
}

/// The observable state of the engine's value stack: its slots from index 1
/// (the bottom) to the current top, in order.
pub struct LuaStack {
    pub slots: Vec<LuaSlot>,
}

/// True when rendering the value cannot abort: a string slot must decode as
/// valid text, since rendering reads it through the infallible
/// native-to-text conversion.
pub open spec fn renderable(v: LuaValue) -> bool {
    v matches LuaValue::Str(h) ==> valid_utf8(h.content())
}

/// The text a slot's value renders to, by its tag: numbers and strings
/// verbatim, booleans as `true`/`false`, nil as `nil`, no value as `none`,
/// and everything else as its raw address in pointer-hex form.
pub open spec fn value_chars(v: LuaValue) -> Seq<char> {
    match v {
        LuaValue::Number(t) => t@,
        LuaValue::Str(h) => decode_utf8(h.content()),
        LuaValue::Bool(b) => if b {
            "true"@
        } else {
            "false"@
        },
        LuaValue::Nil => "nil"@,
        LuaValue::Absent => "none"@,
        LuaValue::Other(a) => pointer_chars(a as nat),
    }
}

/// The full line for the slot at 1-based index `i`:
/// `[<i>] '<type-name>' = <value>` and a line break.
pub open spec fn line_chars(i: nat, s: LuaSlot) -> Seq<char> {
    seq!['['] + decimal_chars(i) + seq![']', ' ', '\''] + s.ty_name@ + seq!['\'', ' ', '=', ' ']
        + value_chars(s.value) + seq!['\n']
}

/// The rendering of the first `n` slots, one line each, in ascending index
/// order.
pub open spec fn dump_chars_upto(slots: Seq<LuaSlot>, n: int) -> Seq<char>
    decreases n,
{
    if n <= 0 {
        Seq::empty()
    } else {
        dump_chars_upto(slots, n - 1) + line_chars(n as nat, slots[n - 1])
    }
}

/// The rendering of a whole stack snapshot.
pub open spec fn dump_chars(slots: Seq<LuaSlot>) -> Seq<char> {
    dump_chars_upto(slots, slots.len() as int)
}

/// A stack with zero slots renders to the empty text block.
pub proof fn lemma_dump_empty(slots: Seq<LuaSlot>)
    requires
        slots.len() == 0,
    ensures
        dump_chars(slots) == Seq::<char>::empty(),
{
}

/// Renders one slot value by its type tag, as [`value_chars`] states.
pub fn render_value(v: &LuaValue) -> (t: String)
    requires
        renderable(*v),
    ensures
        t@ == value_chars(*v),
{
    match v {
        LuaValue::Number(text) => text.clone(),
        LuaValue::Str(h) => rstr(h),
        LuaValue::Bool(b) => String::from_str(if *b { "true" } else { "false" }),
        LuaValue::Nil => String::from_str("nil"),
        LuaValue::Absent => String::from_str("none"),
        LuaValue::Other(a) => format_pointer(*a),
    }
}

/// Renders the full line for the slot at 1-based index `i`.
fn render_line(i: usize, slot: &LuaSlot) -> (t: String)
    requires
        renderable(slot.value),
    ensures
        t@ == line_chars(i as nat, *slot),
{
    let mut t = String::from_str("[");
    let index = format_decimal(i);
    t.append(index.as_str());
    t.append("] '");
    t.append(slot.ty_name.as_str());
    t.append("' = ");
    let value = render_value(&slot.value);
    t.append(value.as_str());
    t.append("\n");
    proof {
        reveal_strlit("[");
        reveal_strlit("] '");
        reveal_strlit("' = ");
        reveal_strlit("\n");
        assert(t@ =~= line_chars(i as nat, *slot));
    }
    t
}

/// Returns the current state of the value stack without affecting it, one
/// line per slot from index 1 to the top, in this shape:
///
/// ```text
/// [1] 'number' = 5000
/// [2] 'string' = hello
/// [3] 'table' = 0x213542
/// [4] 'nil' = nil
/// ```
///
/// The traversal is read-only and cannot itself fail; the `Result` keeps
/// the rendering error channel explicit, and the success it always takes is
/// part of the contract.
pub fn dump_stack(l: &LuaStack) -> (r: Result<String, LuaError>)
    requires
        forall|k: int| 0 <= k < l.slots@.len() ==> #[trigger] renderable(l.slots@[k].value),
    ensures
        r matches Ok(t) && t@ == dump_chars(l.slots@),
{
    let top = l.slots.len();
    let mut buf = String::new();
    let mut i: usize = 0;
    while i < top
        invariant
            top == l.slots@.len(),
            i <= top,
            buf@ == dump_chars_upto(l.slots@, i as int),
            forall|k: int| 0 <= k < l.slots@.len() ==> #[trigger] renderable(l.slots@[k].value),
        decreases top - i,
    {
        let line = render_line(i + 1, &l.slots[i]);
        buf.append(line.as_str());
        i += 1;
    }
    Ok(buf)
}

} // verus!

use rglua::{cstr, dump_stack, render_value, LuaSlot, LuaStack, LuaValue};

fn slot(name: &str, value: LuaValue) -> LuaSlot {
    LuaSlot { ty_name: name.to_string(), value }
}

#[test]
fn empty_stack_renders_empty_block() {
    let stack = LuaStack { slots: vec![] };
    assert_eq!(dump_stack(&stack).unwrap(), "");
}

#[test]
fn three_slots_render_three_lines() {
    let stack = LuaStack {
        slots: vec![
            slot("number", LuaValue::Number(format!("{}", 42.0f64))),
            slot("string", LuaValue::Str(cstr("hi"))),
            slot("boolean", LuaValue::Bool(true)),
        ],
    };
    assert_eq!(
        dump_stack(&stack).unwrap(),
        "[1] 'number' = 42\n[2] 'string' = hi\n[3] 'boolean' = true\n"
    );
}

#[test]
fn table_slot_renders_pointer_hex() {
    let stack = LuaStack { slots: vec![slot("table", LuaValue::Other(0x213542))] };
    assert_eq!(dump_stack(&stack).unwrap(), "[1] 'table' = 0x213542\n");
}

#[test]
fn pointer_rendering_matches_host_format() {
    for addr in [0usize, 1, 0x10, 0xdeadbeef, usize::MAX] {
        assert_eq!(render_value(&LuaValue::Other(addr)), format!("{:#x}", addr));
    }
}

#[test]
fn nil_renders_nil() {
    assert_eq!(render_value(&LuaValue::Nil), "nil");
}

#[test]
fn absent_renders_none() {
    assert_eq!(render_value(&LuaValue::Absent), "none");
}

#[test]
fn booleans_render_literally() {
    assert_eq!(render_value(&LuaValue::Bool(true)), "true");
    assert_eq!(render_value(&LuaValue::Bool(false)), "false");
}

#[test]
fn nil_and_absent_lines() {
    let stack = LuaStack {
        slots: vec![slot("nil", LuaValue::Nil), slot("no value", LuaValue::Absent)],
    };
    assert_eq!(dump_stack(&stack).unwrap(), "[1] 'nil' = nil\n[2] 'no value' = none\n");
}

#[test]
fn indices_run_past_nine() {
    let mut slots = Vec::new();
    for _ in 0..12 {
        slots.push(slot("nil", LuaValue::Nil));
    }
    let out = dump_stack(&LuaStack { slots }).unwrap();
    let lines: Vec<&str> = out.lines().collect();
    assert_eq!(lines.len(), 12);
    assert_eq!(lines[9], "[10] 'nil' = nil");
    assert_eq!(lines[11], "[12] 'nil' = nil");
}

#[test]
fn number_text_renders_verbatim() {
    assert_eq!(render_value(&LuaValue::Number(format!("{}", 0.5f64))), "0.5");
}

#[test]
fn string_slot_decodes_through_marshaller() {
    assert_eq!(render_value(&LuaValue::Str(cstr("h\u{e9}llo"))), "h\u{e9}llo");
}

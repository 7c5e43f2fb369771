//! A verified slice of a scripting-engine bridge: marshalling between
//! null-terminated native byte strings and host text, and a read-only
//! renderer of the engine's value stack for debugging.

pub mod digits;
pub mod marshal;
pub mod stack;

pub use marshal::{cstr, cstr_literal, rstr, try_cstr, try_rstr, LuaError, LuaString};
pub use stack::{dump_stack, render_value, LuaSlot, LuaStack, LuaValue};

//! String marshalling across the native boundary.
//!
//! The native side represents strings as null-terminated byte runs; the host
//! side as UTF-8 text. [`LuaString`] models a native handle as an owned,
//! null-terminated byte buffer, and the conversions in both directions come
//! in a fallible and an infallible form, exactly mirroring each other: the
//! infallible form simply restricts its callers to inputs on which the
//! fallible form succeeds.

use vstd::prelude::*;
use vstd::string::*;
use vstd::utf8::{
    char_is_scalar, char_u32_cast, decode_utf8, encode_scalar, encode_utf8, has_width_1_encoding,
    has_width_2_encoding, has_width_3_encoding, is_scalar, last_continuation_byte,
    leading_byte_width_1, leading_byte_width_2, leading_byte_width_3, leading_byte_width_4,
    second_last_continuation_byte, third_last_continuation_byte, valid_utf8,
};

verus! {

/// The failures a marshalling or rendering operation can report.
#[derive(Clone, Copy, PartialEq, Eq, Structural, Debug)]
pub enum LuaError {
    /// A host text handed to a value-to-native conversion holds an interior
    /// null byte, which the native representation cannot encode.
    EmbeddedNull,
    /// A native byte run handed to a native-to-text conversion is not valid
    /// UTF-8.
    InvalidEncoding,
    /// The rendering subsystem failed to assemble its output. No verified
    /// operation of this crate actually produces it; the variant keeps the
    /// error channel of the stack renderer explicit.
    FormattingFailure,
}

/// Index of the first null byte in `s`, or `s.len()` when there is none.
pub open spec fn first_null(s: Seq<u8>) -> int
    decreases s.len(),
{
    if s.len() == 0 {
        0
    } else if s[0] == 0 {
        0
    } else {
        1 + first_null(s.drop_first())
    }
}

/// `first_null` points at the first null byte: everything before it is
/// non-null, and it lies inside the sequence exactly when a null occurs.
pub proof fn lemma_first_null(s: Seq<u8>)
    ensures
        0 <= first_null(s) <= s.len(),
        s.contains(0u8) ==> first_null(s) < s.len() && s[first_null(s)] == 0,
        forall|j: int| 0 <= j < first_null(s) ==> s[j] != 0,
        !s.contains(0u8) ==> first_null(s) == s.len(),
    decreases s.len(),
{
    if s.len() == 0 {
    } else if s[0] == 0 {
        assert(s.contains(0u8)) by {
            assert(s[0] == 0u8);
        }
    } else {
        let t = s.drop_first();
        lemma_first_null(t);
        assert(forall|j: int| 0 <= j < t.len() ==> t[j] == s[j + 1]);
        assert forall|j: int| 0 <= j < first_null(s) implies s[j] != 0 by {
            if j > 0 {
                assert(t[j - 1] == s[j]);
                assert(j - 1 < first_null(t));
            }
        }
        if s.contains(0u8) {
            let k = choose|k: int| 0 <= k < s.len() && s[k] == 0u8;
            assert(t[k - 1] == 0u8);
            assert(t.contains(0u8));
        }
        if t.contains(0u8) {
            let k = choose|k: int| 0 <= k < t.len() && t[k] == 0u8;
            assert(s[k + 1] == 0u8);
            assert(s.contains(0u8));
        }
    }
}

/// A native string handle: an owned byte buffer that holds at least one null
/// byte, so that a read that stops at the first null always terminates inside
/// the buffer. Its logical content is everything before that first null.
#[derive(Debug)]
pub struct LuaString {
    buf: Vec<u8>,
}

impl LuaString {
    /// The raw bytes of the handle, terminator included.
    pub closed spec fn bytes(self) -> Seq<u8> {
        self.buf@
    }

    /// The logical content of the handle: its bytes up to, and excluding,
    /// the first null.
    pub open spec fn content(self) -> Seq<u8> {
        self.bytes().take(first_null(self.bytes()))
    }

    #[verifier::type_invariant]
    spec fn terminated(self) -> bool {
        self.bytes().contains(0u8)
    }

    /// How many bytes the handle holds, terminator included.
    pub fn len(&self) -> (n: usize)
        ensures
            n == self.bytes().len(),
    {
        self.buf.len()
    }

    /// The byte at position `i` of the raw buffer.
    pub fn byte_at(&self, i: usize) -> (b: u8)
        requires
            i < self.bytes().len(),
        ensures
            b == self.bytes()[i as int],
    {
        self.buf[i]
    }

    /// Wraps a raw byte run read from the native side as a handle. The run
    /// must carry its terminator: a read that stops at the first null can
    /// otherwise run past the buffer.
    pub fn from_bytes(buf: Vec<u8>) -> (r: LuaString)
        requires
            buf@.contains(0u8),
        ensures
            r.bytes() == buf@,
    {
        LuaString { buf }
    }
}

/// Literal-to-native conversion: appends the terminating null to the text's
/// UTF-8 bytes. It never fails; text that itself holds a null byte yields a
/// handle whose content stops at that null.
pub fn cstr_literal(s: &str) -> (r: LuaString)
    ensures
        r.bytes() == encode_utf8(s@).push(0u8),
{
    let mut buf = s.as_bytes_vec();
    buf.push(0);
    proof {
        assert(buf@.contains(0u8)) by {
            assert(buf@[buf@.len() - 1] == 0u8);
        }
    }
    LuaString { buf }
}

/// Value-to-native conversion, fallible: builds an owned null-terminated
/// buffer from the text's UTF-8 bytes, and reports [`LuaError::EmbeddedNull`]
/// instead when the text holds an interior null byte, since the native
/// representation cannot encode one.
pub fn try_cstr(s: &str) -> (r: Result<LuaString, LuaError>)
    ensures
        match r {
            Ok(h) => !encode_utf8(s@).contains(0u8) && h.bytes() == encode_utf8(s@).push(0u8),
            Err(e) => encode_utf8(s@).contains(0u8) && e == LuaError::EmbeddedNull,
        },
{
    let bytes = s.as_bytes_vec();
    let n = bytes.len();
    let mut i: usize = 0;
    while i < n
        invariant
            n == bytes@.len(),
            bytes@ == encode_utf8(s@),
            i <= n,
            forall|j: int| 0 <= j < i ==> bytes@[j] != 0,
        decreases n - i,
    {
        if bytes[i] == 0 {
            proof {
                assert(encode_utf8(s@).contains(0u8)) by {
                    assert(encode_utf8(s@)[i as int] == 0u8);
                }
            }
            return Err(LuaError::EmbeddedNull);
        }
        i += 1;
    }
    proof {
        assert(!encode_utf8(s@).contains(0u8)) by {
            assert(forall|j: int| 0 <= j < encode_utf8(s@).len() ==> encode_utf8(s@)[j] != 0u8);
        }
    }
    let mut buf = bytes;
    buf.push(0);
    proof {
        assert(buf@.contains(0u8)) by {
            assert(buf@[buf@.len() - 1] == 0u8);
        }
    }
    Ok(LuaString { buf })
}

/// Value-to-native conversion, infallible: the same construction as
/// [`try_cstr`], for callers who already know the text is free of interior
/// null bytes.
pub fn cstr(s: &str) -> (r: LuaString)
    requires
        !encode_utf8(s@).contains(0u8),
    ensures
        r.bytes() == encode_utf8(s@).push(0u8),
{
    try_cstr(s).unwrap()
}

/// Relies on `String::from_utf8`: it succeeds exactly on valid UTF-8 and
/// then returns the decoded text, as `vstd::utf8` specifies the encoding.
#[verifier::external_body]
fn utf8_to_string(bytes: Vec<u8>) -> (r: Option<String>)
    ensures
        r is Some <==> valid_utf8(bytes@),
        r matches Some(t) ==> t@ == decode_utf8(bytes@),
{
    String::from_utf8(bytes).ok()
}

/// Native-to-text conversion, fallible: reads the handle's content — its
/// bytes up to the first null — and decodes it as UTF-8, reporting
/// [`LuaError::InvalidEncoding`] when the content is not valid text.
pub fn try_rstr(h: &LuaString) -> (r: Result<String, LuaError>)
    ensures
        match r {
            Ok(t) => valid_utf8(h.content()) && t@ == decode_utf8(h.content()),
            Err(e) => !valid_utf8(h.content()) && e == LuaError::InvalidEncoding,
        },
{
    proof {
        use_type_invariant(h);
        lemma_first_null(h.bytes());
    }
    let ghost stop = first_null(h.bytes());
    let n = h.buf.len();
    let mut prefix: Vec<u8> = Vec::new();
    let mut i: usize = 0;
    while h.buf[i] != 0
        invariant
            h.bytes().contains(0u8),
            n == h.bytes().len(),
            0 <= stop < n,
            stop == first_null(h.bytes()),
            h.bytes()[stop] == 0,
            forall|j: int| 0 <= j < stop ==> h.bytes()[j] != 0,
            i <= stop,
            prefix@ == h.bytes().take(i as int),
        decreases stop - i,
    {
        proof {
            assert(h.bytes()[i as int] != 0);
            assert(i < stop);
        }
        prefix.push(h.buf[i]);
        i += 1;
    }
    proof {
        assert(i == stop);
        assert(prefix@ == h.content());
    }
    match utf8_to_string(prefix) {
        Some(t) => Ok(t),
        None => Err(LuaError::InvalidEncoding),
    }
}

/// Native-to-text conversion, infallible: the same read as [`try_rstr`], for
/// callers who already know the handle's content is valid text.
pub fn rstr(h: &LuaString) -> (t: String)
    requires
        valid_utf8(h.content()),
    ensures
        t@ == decode_utf8(h.content()),
{
    try_rstr(h).unwrap()
}

/// No scalar other than zero has a UTF-8 encoding that contains a null
/// byte.
proof fn lemma_encode_scalar_null(v: u32)
    requires
        is_scalar(v),
    ensures
        encode_scalar(v).contains(0u8) <==> v == 0,
{
    assert((0x80u8 | ((v & 0x3F) as u8)) != 0) by (bit_vector);
    assert((0x80u8 | (((v >> 6) & 0x3F) as u8)) != 0) by (bit_vector);
    assert((0x80u8 | (((v >> 12) & 0x3F) as u8)) != 0) by (bit_vector);
    assert((0xC0u8 | (((v >> 6) & 0x1F) as u8)) != 0) by (bit_vector);
    assert((0xE0u8 | (((v >> 12) & 0x0F) as u8)) != 0) by (bit_vector);
    assert((0xF0u8 | (((v >> 18) & 0x7) as u8)) != 0) by (bit_vector);
    if has_width_1_encoding(v) {
        assert(encode_scalar(v) == seq![leading_byte_width_1(v)]);
        assert(v <= 0x7F ==> (((v & 0x7F) as u8 == 0) <==> v == 0)) by (bit_vector);
        if v == 0 {
            assert(encode_scalar(v)[0] == 0u8);
        } else {
            assert(forall|i: int| 0 <= i < 1 ==> encode_scalar(v)[i] != 0u8);
        }
    } else if has_width_2_encoding(v) {
        assert(leading_byte_width_2(v) == 0xC0u8 | (((v >> 6) & 0x1F) as u8));
        assert(last_continuation_byte(v) == 0x80u8 | ((v & 0x3F) as u8));
        assert(forall|i: int| 0 <= i < 2 ==> encode_scalar(v)[i] != 0u8);
    } else if has_width_3_encoding(v) {
        assert(leading_byte_width_3(v) == 0xE0u8 | (((v >> 12) & 0x0F) as u8));
        assert(second_last_continuation_byte(v) == 0x80u8 | (((v >> 6) & 0x3F) as u8));
        assert(last_continuation_byte(v) == 0x80u8 | ((v & 0x3F) as u8));
        assert(forall|i: int| 0 <= i < 3 ==> encode_scalar(v)[i] != 0u8);
    } else {
        assert(leading_byte_width_4(v) == 0xF0u8 | (((v >> 18) & 0x7) as u8));
        assert(third_last_continuation_byte(v) == 0x80u8 | (((v >> 12) & 0x3F) as u8));
        assert(second_last_continuation_byte(v) == 0x80u8 | (((v >> 6) & 0x3F) as u8));
        assert(last_continuation_byte(v) == 0x80u8 | ((v & 0x3F) as u8));
        assert(forall|i: int| 0 <= i < 4 ==> encode_scalar(v)[i] != 0u8);
    }
}

/// A text's UTF-8 encoding holds a null byte exactly when the text itself
/// holds the null character: rejecting an embedded null byte and rejecting
/// an embedded null character are the same thing.
pub proof fn lemma_null_byte_iff_null_char(s: Seq<char>)
    ensures
        encode_utf8(s).contains(0u8) <==> s.contains('\0'),
    decreases s.len(),
{
    if s.len() == 0 {
    } else {
        let c = s[0];
        let v = c as u32;
        let head = encode_scalar(v);
        let tail = encode_utf8(s.drop_first());
        char_is_scalar(c);
        lemma_encode_scalar_null(v);
        lemma_null_byte_iff_null_char(s.drop_first());
        assert(encode_utf8(s) == head + tail);
        assert('\0' as u32 == 0);
        if v == 0 {
            char_u32_cast(c, 0u32);
            char_u32_cast('\0', 0u32);
            assert(c == '\0');
        }

        if encode_utf8(s).contains(0u8) {
            let k = choose|k: int| 0 <= k < encode_utf8(s).len() && encode_utf8(s)[k] == 0u8;
            if k < head.len() {
                assert(head[k] == 0u8);
                assert(head.contains(0u8));
                assert(s.contains('\0')) by {
                    assert(s[0] == '\0');
                }
            } else {
                assert(tail[k - head.len()] == 0u8);
                assert(tail.contains(0u8));
                let j = choose|j: int| 0 <= j < s.drop_first().len() && s.drop_first()[j] == '\0';
                assert(s[j + 1] == '\0');
                assert(s.contains('\0'));
            }
        }
        if s.contains('\0') {
            let k = choose|k: int| 0 <= k < s.len() && s[k] == '\0';
            if k == 0 {
                assert(head.contains(0u8)) by {
                    assert(head[0] == 0u8);
                }
                assert(encode_utf8(s)[0] == 0u8);
                assert(encode_utf8(s).contains(0u8));
            } else {
                assert(s.drop_first()[k - 1] == '\0');
                assert(s.drop_first().contains('\0'));
                let j = choose|j: int| 0 <= j < tail.len() && tail[j] == 0u8;
                assert(encode_utf8(s)[head.len() + j] == 0u8);
                assert(encode_utf8(s).contains(0u8));
            }
        }
    }
}

/// Round trip: a handle built by a value-to-native conversion from text free
/// of interior null bytes decodes back to exactly that text, so
/// `rstr(&cstr(s))` returns `s` again.
pub proof fn lemma_round_trip(h: LuaString, s: Seq<char>)
    requires
        !encode_utf8(s).contains(0u8),
        h.bytes() == encode_utf8(s).push(0u8),
    ensures
        valid_utf8(h.content()),
        decode_utf8(h.content()) == s,
{
    broadcast use vstd::utf8::encode_utf8_valid_utf8;
    broadcast use vstd::utf8::encode_utf8_decode_utf8;

    let b = encode_utf8(s);
    lemma_first_null(h.bytes());
    let k = first_null(h.bytes());
    assert(h.bytes().contains(0u8)) by {
        assert(h.bytes()[b.len() as int] == 0u8);
    }
    assert(forall|j: int| 0 <= j < b.len() ==> h.bytes()[j] == b[j]);
    if k < b.len() {
        assert(b[k] != 0u8) by {
            assert(!b.contains(0u8));
        }
        assert(false);
    }
    assert(k == b.len());
    assert(h.content() =~= b);
}

} // verus!

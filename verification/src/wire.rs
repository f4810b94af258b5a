//! The wire shape of a change-property request: 32-bit property elements
//! are serialized as native-endian (little-endian on every supported
//! target) 4-byte sequences, and the request names the window, the property
//! atom, the type atom, the element format and the element count.

use vstd::prelude::*;

verus! {

/// Replace-mode property change, the only mode this layer uses.
pub const PROP_MODE_REPLACE: u8 = 0;

/// The predefined protocol atom naming the ATOM type.
pub const ATOM_ATOM: u32 = 4;

/// The predefined protocol atom naming the CARDINAL type.
pub const ATOM_CARDINAL: u32 = 6;

/// The four little-endian bytes of one 32-bit value.
pub open spec fn u32_le_bytes(v: u32) -> Seq<u8> {
    seq![
        (v & 0xFF) as u8,
        ((v >> 8) & 0xFF) as u8,
        ((v >> 16) & 0xFF) as u8,
        ((v >> 24) & 0xFF) as u8,
    ]
}

/// The little-endian byte serialization of a list of 32-bit values.
pub open spec fn u32s_le_bytes(s: Seq<u32>) -> Seq<u8>
    decreases s.len(),
{
    if s.len() == 0 {
        Seq::empty()
    } else {
        u32_le_bytes(s[0]) + u32s_le_bytes(s.drop_first())
    }
}

/// The unsigned 32-bit value with the same two's-complement bit pattern as
/// a signed one.
pub open spec fn i32_bits_spec(v: i32) -> u32 {
    if v >= 0 {
        v as u32
    } else {
        (v + 0x1_0000_0000) as u32
    }
}

/// The little-endian byte serialization of a list of signed 32-bit values,
/// each in two's complement.
pub open spec fn i32s_le_bytes(s: Seq<i32>) -> Seq<u8> {
    u32s_le_bytes(s.map_values(|v: i32| i32_bits_spec(v)))
}

/// Serializing one more value appends its four bytes.
pub proof fn lemma_u32s_le_bytes_push(s: Seq<u32>, v: u32)
    ensures
        u32s_le_bytes(s.push(v)) == u32s_le_bytes(s) + u32_le_bytes(v),
    decreases s.len(),
{
    if s.len() == 0 {
        assert(s.push(v)[0] == v);
        assert(s.push(v).drop_first() =~= Seq::<u32>::empty());
        assert(u32s_le_bytes(s.push(v)) == u32_le_bytes(v) + u32s_le_bytes(
            Seq::<u32>::empty(),
        ));
        assert(u32s_le_bytes(Seq::<u32>::empty()) =~= Seq::<u8>::empty());
        assert(u32s_le_bytes(s) =~= Seq::<u8>::empty());
        assert(u32s_le_bytes(s.push(v)) =~= u32s_le_bytes(s) + u32_le_bytes(v));
    } else {
        assert(s.push(v)[0] == s[0]);
        assert(s.push(v).drop_first() =~= s.drop_first().push(v));
        assert(u32s_le_bytes(s.push(v)) == u32_le_bytes(s[0]) + u32s_le_bytes(
            s.drop_first().push(v),
        ));
        lemma_u32s_le_bytes_push(s.drop_first(), v);
        assert(u32s_le_bytes(s.push(v)) =~= u32s_le_bytes(s) + u32_le_bytes(v));
    }
}

/// Appends the four little-endian bytes of one value.
fn push_u32_le(r: &mut Vec<u8>, v: u32)
    ensures
        final(r)@ == old(r)@ + u32_le_bytes(v),
{
    proof {
        assert((v & 0xFF) < 256 && ((v >> 8) & 0xFF) < 256 && ((v >> 16) & 0xFF) < 256 && ((v
            >> 24) & 0xFF) < 256) by (bit_vector);
    }
    r.push((v & 0xFF) as u8);
    r.push(((v >> 8) & 0xFF) as u8);
    r.push(((v >> 16) & 0xFF) as u8);
    r.push(((v >> 24) & 0xFF) as u8);
    proof {
        assert(r@ =~= old(r)@ + u32_le_bytes(v));
    }
}

/// Serializes 32-bit unsigned property elements for the wire.
pub fn serialize_u32(values: &Vec<u32>) -> (r: Vec<u8>)
    ensures
        r@ == u32s_le_bytes(values@),
        r@.len() == 4 * values@.len(),
{
    let mut r: Vec<u8> = Vec::new();
    let mut i: usize = 0;
    proof {
        assert(values@.take(0) =~= Seq::<u32>::empty());
    }
    while i < values.len()
        invariant
            i <= values@.len(),
            r@ == u32s_le_bytes(values@.take(i as int)),
            r@.len() == 4 * i,
        decreases values@.len() - i,
    {
        let v = values[i];
        push_u32_le(&mut r, v);
        proof {
            assert(values@.take(i as int + 1) =~= values@.take(i as int).push(v));
            lemma_u32s_le_bytes_push(values@.take(i as int), v);
        }
        i += 1;
    }
    proof {
        assert(values@.take(values@.len() as int) =~= values@);
    }
    r
}

/// Reinterprets a signed 32-bit value as its two's-complement bit pattern.
fn i32_bits(v: i32) -> (r: u32)
    ensures
        r == i32_bits_spec(v),
{
    if v >= 0 {
        v as u32
    } else {
        let big: i64 = v as i64 + 0x1_0000_0000i64;
        big as u32
    }
}

/// Serializes 32-bit signed property elements for the wire, in two's
/// complement.
pub fn serialize_i32(values: &Vec<i32>) -> (r: Vec<u8>)
    ensures
        r@ == i32s_le_bytes(values@),
        r@.len() == 4 * values@.len(),
{
    let ghost mapped = values@.map_values(|v: i32| i32_bits_spec(v));
    let mut r: Vec<u8> = Vec::new();
    let mut i: usize = 0;
    proof {
        assert(mapped.take(0) =~= Seq::<u32>::empty());
    }
    while i < values.len()
        invariant
            i <= values@.len(),
            mapped == values@.map_values(|v: i32| i32_bits_spec(v)),
            mapped.len() == values@.len(),
            r@ == u32s_le_bytes(mapped.take(i as int)),
            r@.len() == 4 * i,
        decreases values@.len() - i,
    {
        let v = values[i];
        let u = i32_bits(v);
        push_u32_le(&mut r, u);
        proof {
            assert(mapped[i as int] == i32_bits_spec(values@[i as int]));
            assert(mapped.take(i as int + 1) =~= mapped.take(i as int).push(u));
            lemma_u32s_le_bytes_push(mapped.take(i as int), u);
        }
        i += 1;
    }
    proof {
        assert(mapped.take(values@.len() as int) =~= mapped);
    }
    r
}

/// One change-property request, ready for the transport: replace mode, the
/// target window, the property and type atoms, 32-bit elements, and the
/// native-endian payload.
#[derive(Debug, Clone)]
pub struct PropertyRequest {
    pub window: u32,
    pub key: u32,
    pub type_atom: u32,
    pub format: u8,
    pub value_count: u32,
    pub data: Vec<u8>,
}

/// What a well-formed 32-bit-format request holds.
pub open spec fn property_spec(
    window: u32,
    key: u32,
    type_atom: u32,
    count: int,
    data: Seq<u8>,
    r: PropertyRequest,
) -> bool {
    &&& r.window == window
    &&& r.key == key
    &&& r.type_atom == type_atom
    &&& r.format == 32
    &&& r.value_count as int == count
    &&& r.data@ == data
    &&& data.len() == 4 * count
}

} // verus!

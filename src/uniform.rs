use vstd::prelude::*;

verus! {

/// The scalar parameters that the composite shader reads: the full output size.
#[derive(Clone, Copy, Debug, PartialEq, Eq, Structural)]
pub struct UniformData {
    pub width: u32,
    pub height: u32,
}

/// Size in bytes of the uniform buffer contents.
pub const UNIFORM_SIZE: usize = 8;

/// Little-endian bytes of a 32-bit value.
pub open spec fn u32_le(x: u32) -> Seq<u8> {
    seq![(x & 0xff) as u8, ((x >> 8) & 0xff) as u8, ((x >> 16) & 0xff) as u8, (x >> 24) as u8]
}

/// The 32-bit value whose little-endian bytes start at `b[at]`.
pub open spec fn le_u32(b: Seq<u8>, at: int) -> u32 {
    (b[at] as u32) | ((b[at + 1] as u32) << 8) | ((b[at + 2] as u32) << 16) | ((b[at + 3] as u32)
        << 24)
}

/// The buffer layout of a payload: width then height, each a little-endian `u32`.
pub open spec fn uniform_bytes(u: UniformData) -> Seq<u8> {
    u32_le(u.width) + u32_le(u.height)
}

/// The payload that a buffer of eight bytes holds.
pub open spec fn uniform_of_bytes(b: Seq<u8>) -> UniformData {
    UniformData { width: le_u32(b, 0), height: le_u32(b, 4) }
}

pub proof fn lemma_u32_le_round_trip(x: u32)
    ensures
        le_u32(u32_le(x), 0) == x,
{
    let b = u32_le(x);
    let b0 = (x & 0xff) as u8;
    let b1 = ((x >> 8) & 0xff) as u8;
    let b2 = ((x >> 16) & 0xff) as u8;
    let b3 = (x >> 24) as u8;
    assert(b[0] == b0 && b[1] == b1 && b[2] == b2 && b[3] == b3);
    assert((b0 as u32) | ((b1 as u32) << 8) | ((b2 as u32) << 16) | ((b3 as u32) << 24) == x)
        by (bit_vector)
        requires
            b0 == (x & 0xff) as u8,
            b1 == ((x >> 8) & 0xff) as u8,
            b2 == ((x >> 16) & 0xff) as u8,
            b3 == (x >> 24) as u8,
    ;
}

/// Reading a payload back from its bytes gives the payload that was written.
pub proof fn lemma_uniform_round_trip(u: UniformData)
    ensures
        uniform_bytes(u).len() == UNIFORM_SIZE,
        uniform_of_bytes(uniform_bytes(u)) == u,
{
    let b = uniform_bytes(u);
    lemma_u32_le_round_trip(u.width);
    lemma_u32_le_round_trip(u.height);
    assert(b.subrange(0, 4) =~= u32_le(u.width));
    assert(b.subrange(4, 8) =~= u32_le(u.height));
    assert(le_u32(b, 0) == le_u32(u32_le(u.width), 0));
    assert(le_u32(b, 4) == le_u32(u32_le(u.height), 0));
}

fn push_u32_le(out: &mut Vec<u8>, x: u32)
    ensures
        final(out)@ == old(out)@ + u32_le(x),
{
    out.push((x & 0xff) as u8);
    out.push(((x >> 8) & 0xff) as u8);
    out.push(((x >> 16) & 0xff) as u8);
    out.push((x >> 24) as u8);
    assert(final(out)@ =~= old(out)@ + u32_le(x));
}

fn read_u32_le(b: &[u8], at: usize) -> (r: u32)
    requires
        at + 4 <= b@.len(),
    ensures
        r == le_u32(b@, at as int),
{
    (b[at] as u32) | ((b[at + 1] as u32) << 8) | ((b[at + 2] as u32) << 16) | ((b[at + 3] as u32)
        << 24)
}

impl UniformData {
    /// The bytes to write into the uniform buffer.
    pub fn to_bytes(&self) -> (r: Vec<u8>)
        ensures
            r@ == uniform_bytes(*self),
    {
        let mut out: Vec<u8> = Vec::new();
        push_u32_le(&mut out, self.width);
        push_u32_le(&mut out, self.height);
        assert(out@ =~= uniform_bytes(*self));
        out
    }

    /// The payload held by the contents of a uniform buffer; `None` unless there are
    /// exactly eight bytes.
    pub fn from_bytes(b: &[u8]) -> (r: Option<UniformData>)
        ensures
            b@.len() == UNIFORM_SIZE ==> r == Some(uniform_of_bytes(b@)),
            b@.len() != UNIFORM_SIZE ==> r.is_none(),
    {
        if b.len() != UNIFORM_SIZE {
            None
        } else {
            Some(UniformData { width: read_u32_le(b, 0), height: read_u32_le(b, 4) })
        }
    }
}

} // verus!

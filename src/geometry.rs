use vstd::prelude::*;

verus! {

/// The absolute value of a mathematical integer.
pub open spec fn abs_int(v: int) -> int {
    if v < 0 {
        -v
    } else {
        v
    }
}

/// The eight bytes of `v` in two's complement, most significant first.
pub open spec fn be_bytes(v: i64) -> Seq<u8> {
    let u = v as u64;
    seq![
        (u >> 56u64) as u8,
        (u >> 48u64) as u8,
        (u >> 40u64) as u8,
        (u >> 32u64) as u8,
        (u >> 24u64) as u8,
        (u >> 16u64) as u8,
        (u >> 8u64) as u8,
        u as u8,
    ]
}

/// A position on the grid.
#[derive(Clone, Copy, Debug, PartialEq, Eq, Structural)]
pub struct Coordinates {
    pub x: i64,
    pub y: i64,
    pub z: i64,
}

impl Coordinates {
    /// Manhattan (L1) distance between two positions.
    pub open spec fn spec_distance(self, other: Coordinates) -> int {
        abs_int(self.x - other.x) + abs_int(self.y - other.y) + abs_int(self.z - other.z)
    }

    /// The storage key of a position: x, y and z, each as eight big-endian bytes.
    pub open spec fn spec_bytes(self) -> Seq<u8> {
        be_bytes(self.x) + be_bytes(self.y) + be_bytes(self.z)
    }

    pub fn to_bytes(&self) -> (r: Vec<u8>)
        ensures
            r@ == self.spec_bytes(),
    {
        let mut out: Vec<u8> = Vec::new();
        push_be_bytes(&mut out, self.x);
        push_be_bytes(&mut out, self.y);
        push_be_bytes(&mut out, self.z);
        out
    }

    /// The distance to `other`, which must fit in a `u16`.
    pub fn distance(&self, other: Self) -> (r: u16)
        requires
            self.spec_distance(other) <= u16::MAX,
        ensures
            r as int == self.spec_distance(other),
    {
        let dx = abs_diff(self.x, other.x);
        let dy = abs_diff(self.y, other.y);
        let dz = abs_diff(self.z, other.z);
        (dx + dy + dz) as u16
    }
}

/// `|a - b|`, computed without overflow.
fn abs_diff(a: i64, b: i64) -> (r: u64)
    ensures
        r as int == abs_int(a - b),
{
    if a >= b {
        (a as i128 - b as i128) as u64
    } else {
        (b as i128 - a as i128) as u64
    }
}

fn push_be_bytes(out: &mut Vec<u8>, v: i64)
    ensures
        final(out)@ == old(out)@ + be_bytes(v),
{
    let u = v as u64;
    out.push((u >> 56u64) as u8);
    out.push((u >> 48u64) as u8);
    out.push((u >> 40u64) as u8);
    out.push((u >> 32u64) as u8);
    out.push((u >> 24u64) as u8);
    out.push((u >> 16u64) as u8);
    out.push((u >> 8u64) as u8);
    out.push(u as u8);
}

/// Distance is symmetric, and a position is at distance zero from itself.
pub proof fn lemma_distance_symmetric(a: Coordinates, b: Coordinates)
    ensures
        a.spec_distance(b) == b.spec_distance(a),
        a.spec_distance(a) == 0,
        a.spec_distance(b) >= 0,
{
}

} // verus!

//! Handles: the flat record that names a native object across the call
//! boundary, and its validation against the kind of object a caller expects.
use vstd::prelude::*;

verus! {

/// Big-endian bytes of a 64-bit value, most significant byte first.
pub open spec fn be_bytes(x: u64) -> Seq<u8> {
    seq![
        (x >> 56u64) as u8,
        (x >> 48u64) as u8,
        (x >> 40u64) as u8,
        (x >> 32u64) as u8,
        (x >> 24u64) as u8,
        (x >> 16u64) as u8,
        (x >> 8u64) as u8,
        x as u8,
    ]
}

/// Two values with the same big-endian bytes are equal.
pub proof fn lemma_be_bytes_injective(x: u64, y: u64)
    requires
        be_bytes(x) == be_bytes(y),
    ensures
        x == y,
{
    assert(be_bytes(x)[0] == be_bytes(y)[0]);
    assert(be_bytes(x)[1] == be_bytes(y)[1]);
    assert(be_bytes(x)[2] == be_bytes(y)[2]);
    assert(be_bytes(x)[3] == be_bytes(y)[3]);
    assert(be_bytes(x)[4] == be_bytes(y)[4]);
    assert(be_bytes(x)[5] == be_bytes(y)[5]);
    assert(be_bytes(x)[6] == be_bytes(y)[6]);
    assert(be_bytes(x)[7] == be_bytes(y)[7]);
    assert(x == y) by (bit_vector)
        requires
            (x >> 56u64) as u8 == (y >> 56u64) as u8,
            (x >> 48u64) as u8 == (y >> 48u64) as u8,
            (x >> 40u64) as u8 == (y >> 40u64) as u8,
            (x >> 32u64) as u8 == (y >> 32u64) as u8,
            (x >> 24u64) as u8 == (y >> 24u64) as u8,
            (x >> 16u64) as u8 == (y >> 16u64) as u8,
            (x >> 8u64) as u8 == (y >> 8u64) as u8,
            x as u8 == y as u8,
    ;
}

/// Writes `x` as eight big-endian bytes.
pub fn u64_to_be_bytes(x: u64) -> (r: [u8; 8])
    ensures
        r@ == be_bytes(x),
{
    let r: [u8; 8] = [
        (x >> 56u64) as u8,
        (x >> 48u64) as u8,
        (x >> 40u64) as u8,
        (x >> 32u64) as u8,
        (x >> 24u64) as u8,
        (x >> 16u64) as u8,
        (x >> 8u64) as u8,
        x as u8,
    ];
    assert(r@ =~= be_bytes(x));
    r
}

/// Reads eight big-endian bytes back into the value they encode.
pub fn u64_from_be_bytes(b: [u8; 8]) -> (r: u64)
    ensures
        be_bytes(r) == b@,
{
    let (b0, b1, b2, b3) = (b[0], b[1], b[2], b[3]);
    let (b4, b5, b6, b7) = (b[4], b[5], b[6], b[7]);
    let r: u64 = (b0 as u64) << 56u64 | (b1 as u64) << 48u64 | (b2 as u64) << 40u64
        | (b3 as u64) << 32u64 | (b4 as u64) << 24u64 | (b5 as u64) << 16u64
        | (b6 as u64) << 8u64 | b7 as u64;
    assert(
        (r >> 56u64) as u8 == b0 && (r >> 48u64) as u8 == b1 && (r >> 40u64) as u8 == b2
        && (r >> 32u64) as u8 == b3 && (r >> 24u64) as u8 == b4 && (r >> 16u64) as u8 == b5
        && (r >> 8u64) as u8 == b6 && r as u8 == b7
    ) by (bit_vector)
        requires
            r == (b0 as u64) << 56u64 | (b1 as u64) << 48u64 | (b2 as u64) << 40u64
                | (b3 as u64) << 32u64 | (b4 as u64) << 24u64 | (b5 as u64) << 16u64
                | (b6 as u64) << 8u64 | b7 as u64,
    ;
    assert(be_bytes(r) =~= b@);
    r
}

/// The closed set of native object kinds a handle can name.
#[derive(Clone, Copy, Debug, PartialEq, Eq, Structural)]
pub enum ObjectKind {
    /// A wallet session.
    Wallet,
    /// A plain text object.
    Text,
}

/// Type tag of wallet handles.
pub const WALLET_TAG: u64 = 0x9b3c_5e21_7a40_d6f1;

/// Type tag of text handles.
pub const TEXT_TAG: u64 = 0x41d2_08c7_e93f_5b16;

impl ObjectKind {
    /// The type tag assigned to this kind.
    pub open spec fn tag_spec(self) -> u64 {
        match self {
            ObjectKind::Wallet => WALLET_TAG,
            ObjectKind::Text => TEXT_TAG,
        }
    }

    pub fn tag(self) -> (r: u64)
        ensures
            r == self.tag_spec(),
    {
        match self {
            ObjectKind::Wallet => WALLET_TAG,
            ObjectKind::Text => TEXT_TAG,
        }
    }
}

/// Distinct kinds never share a tag, so a handle of one kind is never taken
/// for a handle of another.
pub proof fn lemma_tags_distinct(a: ObjectKind, b: ObjectKind)
    requires
        a != b,
    ensures
        a.tag_spec() != b.tag_spec(),
        be_bytes(a.tag_spec()) != be_bytes(b.tag_spec()),
{
    if be_bytes(a.tag_spec()) == be_bytes(b.tag_spec()) {
        lemma_be_bytes_injective(a.tag_spec(), b.tag_spec());
    }
}

/// The handle as it crosses the boundary: the object's address and the tag of
/// its kind, both as big-endian bytes.
#[derive(Clone, Copy, Debug)]
pub struct IntermediatePtr {
    pub raw: [u8; 8],
    pub id: [u8; 8],
}

/// A handle whose tag has been checked against the kind it is expected to name.
#[derive(Clone, Copy, Debug, PartialEq, Eq, Structural)]
pub struct OpaquePtr {
    /// The object's address.
    pub raw: u64,
    /// The kind of object at that address.
    pub kind: ObjectKind,
}

impl IntermediatePtr {
    /// The record carries the tag of `kind`.
    pub open spec fn has_tag(self, kind: ObjectKind) -> bool {
        self.id@ == be_bytes(kind.tag_spec())
    }

    /// The address the record carries.
    pub open spec fn address(self) -> u64 {
        choose|a: u64| be_bytes(a) == self.raw@
    }
}

/// Every record carries exactly one address.
pub proof fn lemma_address_of_bytes(h: IntermediatePtr, a: u64)
    requires
        be_bytes(a) == h.raw@,
    ensures
        h.address() == a,
{
    let b = h.address();
    assert(be_bytes(b) == h.raw@);
    lemma_be_bytes_injective(a, b);
}

impl OpaquePtr {
    /// Accepts `value` as a handle of `kind` when, and only when, its tag is the
    /// tag of `kind`; the address is taken from the record unchanged.
    pub fn convert_from(value: &IntermediatePtr, kind: ObjectKind) -> (r: Result<OpaquePtr, ()>)
        ensures
            r.is_ok() == value.has_tag(kind),
            r matches Ok(p) ==> p.kind == kind && p.raw == value.address(),
    {
        let tag = u64_to_be_bytes(kind.tag());
        let mut i: usize = 0;
        while i < 8
            invariant
                i <= 8,
                tag@ == be_bytes(kind.tag_spec()),
                forall|j: int| 0 <= j < i ==> value.id@[j] == tag@[j],
            decreases 8 - i,
        {
            if value.id[i] != tag[i] {
                assert(value.id@[i as int] != be_bytes(kind.tag_spec())[i as int]);
                return Err(());
            }
            i = i + 1;
        }
        assert(value.id@ =~= tag@);
        let raw = u64_from_be_bytes(value.raw);
        proof {
            lemma_address_of_bytes(*value, raw);
        }
        Ok(OpaquePtr { raw, kind })
    }

    /// Writes the handle as its boundary record.
    pub fn to_intermediate(&self) -> (r: IntermediatePtr)
        ensures
            r.raw@ == be_bytes(self.raw),
            r.id@ == be_bytes(self.kind.tag_spec()),
            r.has_tag(self.kind),
            r.address() == self.raw,
    {
        let r = IntermediatePtr { raw: u64_to_be_bytes(self.raw), id: u64_to_be_bytes(self.kind.tag()) };
        proof {
            lemma_address_of_bytes(r, self.raw);
        }
        r
    }
}

/// A handle written as its record and read back as the same kind is the same
/// handle; read back as any other kind it is refused.
pub proof fn lemma_intermediate_round_trip(p: OpaquePtr, r: IntermediatePtr, kind: ObjectKind)
    requires
        r.raw@ == be_bytes(p.raw),
        r.id@ == be_bytes(p.kind.tag_spec()),
    ensures
        r.address() == p.raw,
        r.has_tag(kind) <==> kind == p.kind,
{
    lemma_address_of_bytes(r, p.raw);
    if kind != p.kind {
        lemma_tags_distinct(kind, p.kind);
    }
}

} // verus!

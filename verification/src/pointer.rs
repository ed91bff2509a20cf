//! Pointer records: immutable values identifying one stored object by its
//! content digest and byte length, with the canonical sharded path the
//! object occupies in the local content-addressable store.

use vstd::prelude::*;

verus! {

/// Byte length of the content digest a pointer carries (sha256).
pub const HASH_LEN: usize = 32;

/// The path separator of the sharded object-store layout (`/`).
pub const SLASH: u8 = 47;

/// Lowercase hex digit for a nibble.
pub open spec fn hex_digit(n: u8) -> u8
    recommends
        n < 16,
{
    if n < 10 {
        (48 + n) as u8
    } else {
        (87 + n) as u8
    }
}

/// Hex encoding of a byte sequence: two digits per byte, high nibble first.
pub open spec fn hex_of(s: Seq<u8>) -> Seq<u8> {
    Seq::new(2 * s.len(), |i: int| if i % 2 == 0 {
        hex_digit(s[i / 2] / 16)
    } else {
        hex_digit(s[i / 2] % 16)
    })
}

/// Canonical relative path of an object in the local store, sharded by the
/// identifier's two leading byte pairs: `oid[0..2] / oid[2..4] / oid`.
pub open spec fn path_of(oid: Seq<u8>) -> Seq<u8>
    recommends
        oid.len() >= 4,
{
    oid.subrange(0, 2) + seq![SLASH] + oid.subrange(2, 4) + seq![SLASH] + oid
}

/// Mathematical value of a [`Pointer`].
pub struct PointerV {
    /// Hex identifier, the textual form of the digest.
    pub oid: Seq<u8>,
    /// Raw content digest.
    pub hash: Seq<u8>,
    /// Byte length of the referenced content.
    pub size: u64,
}

/// Well-formedness: the digest has the fixed length and the identifier is
/// exactly its hex encoding.
pub open spec fn pointer_wf(p: PointerV) -> bool {
    &&& p.hash.len() == HASH_LEN
    &&& p.oid == hex_of(p.hash)
}

/// An immutable record identifying one content object: its digest, the hex
/// form of that digest, and the content's byte length.
#[derive(Debug)]
pub struct Pointer {
    oid: Vec<u8>,
    hash: Vec<u8>,
    size: u64,
}

impl View for Pointer {
    type V = PointerV;

    closed spec fn view(&self) -> PointerV {
        PointerV { oid: self.oid@, hash: self.hash@, size: self.size }
    }
}

/// Byte-for-byte copy of a vector.
pub fn clone_bytes(v: &Vec<u8>) -> (r: Vec<u8>)
    ensures
        r@ == v@,
{
    let mut r: Vec<u8> = Vec::new();
    let mut i: usize = 0;
    while i < v.len()
        invariant
            i <= v.len(),
            r@.len() == i,
            forall|j: int| 0 <= j < i ==> r@[j] == v@[j],
        decreases v.len() - i,
    {
        r.push(v[i]);
        i += 1;
    }
    proof {
        assert(r@ =~= v@);
    }
    r
}

/// Lowercase hex digit for a nibble.
fn hex_digit_ex(n: u8) -> (r: u8)
    requires
        n < 16,
    ensures
        r == hex_digit(n),
{
    if n < 10 {
        48 + n
    } else {
        87 + n
    }
}

/// Hex encoding of a byte string, two digits per byte, high nibble first.
pub fn hex_encode(bytes: &Vec<u8>) -> (r: Vec<u8>)
    requires
        bytes@.len() <= usize::MAX / 2,
    ensures
        r@ == hex_of(bytes@),
{
    let mut r: Vec<u8> = Vec::new();
    let mut i: usize = 0;
    while i < bytes.len()
        invariant
            i <= bytes.len(),
            bytes@.len() <= usize::MAX / 2,
            r@.len() == 2 * i,
            forall|j: int| 0 <= j < 2 * i ==> r@[j] == hex_of(bytes@)[j],
        decreases bytes.len() - i,
    {
        let b = bytes[i];
        r.push(hex_digit_ex(b / 16));
        r.push(hex_digit_ex(b % 16));
        i += 1;
    }
    proof {
        assert(r@ =~= hex_of(bytes@));
    }
    r
}

impl Pointer {
    /// Builds a pointer from a raw digest and the content's byte length;
    /// the hex identifier is derived from the digest.
    pub fn new(hash: Vec<u8>, size: u64) -> (p: Pointer)
        requires
            hash@.len() == HASH_LEN,
        ensures
            p@.hash == hash@,
            p@.size == size,
            pointer_wf(p@),
    {
        let oid = hex_encode(&hash);
        Pointer { oid, hash, size }
    }

    /// The hex identifier.
    pub fn hex(&self) -> (r: Vec<u8>)
        ensures
            r@ == self@.oid,
    {
        clone_bytes(&self.oid)
    }

    /// The raw content digest.
    pub fn hash(&self) -> (r: &Vec<u8>)
        ensures
            r@ == self@.hash,
    {
        &self.hash
    }

    /// An exact copy.
    pub fn dup(&self) -> (r: Pointer)
        ensures
            r@ == self@,
    {
        Pointer {
            oid: clone_bytes(&self.oid),
            hash: clone_bytes(&self.hash),
            size: self.size,
        }
    }

    /// The content's byte length.
    pub fn size(&self) -> (s: u64)
        ensures
            s == self@.size,
    {
        self.size
    }

    /// The canonical relative path of this object in the local store.
    pub fn path(&self) -> (r: Vec<u8>)
        requires
            pointer_wf(self@),
        ensures
            r@ == path_of(self@.oid),
    {
        let mut r: Vec<u8> = Vec::new();
        r.push(self.oid[0]);
        r.push(self.oid[1]);
        r.push(SLASH);
        r.push(self.oid[2]);
        r.push(self.oid[3]);
        r.push(SLASH);
        let mut i: usize = 0;
        while i < self.oid.len()
            invariant
                i <= self.oid.len(),
                self.oid@.len() >= 4,
                r@.len() == 6 + i,
                r@[0] == self.oid@[0],
                r@[1] == self.oid@[1],
                r@[2] == SLASH,
                r@[3] == self.oid@[2],
                r@[4] == self.oid@[3],
                r@[5] == SLASH,
                forall|j: int| 0 <= j < i ==> r@[6 + j] == self.oid@[j],
            decreases self.oid.len() - i,
        {
            r.push(self.oid[i]);
            i += 1;
        }
        proof {
            assert(r@ =~= path_of(self@.oid));
        }
        r
    }
}

/// Equal nibbles have equal digits and, below 16, conversely.
proof fn lemma_hex_digit_injective(a: u8, b: u8)
    requires
        a < 16,
        b < 16,
        hex_digit(a) == hex_digit(b),
    ensures
        a == b,
{
}

/// Hex encoding is injective: equal encodings come from equal byte strings.
pub proof fn lemma_hex_of_injective(a: Seq<u8>, b: Seq<u8>)
    requires
        hex_of(a) == hex_of(b),
    ensures
        a == b,
{
    assert(a.len() == b.len()) by {
        assert(hex_of(a).len() == 2 * a.len());
        assert(hex_of(b).len() == 2 * b.len());
    }
    assert forall|i: int| 0 <= i < a.len() implies a[i] == b[i] by {
        assert(hex_of(a)[2 * i] == hex_digit(a[i] / 16));
        assert(hex_of(a)[2 * i + 1] == hex_digit(a[i] % 16));
        assert(hex_of(b)[2 * i] == hex_digit(b[i] / 16));
        assert(hex_of(b)[2 * i + 1] == hex_digit(b[i] % 16));
        lemma_hex_digit_injective(a[i] / 16, b[i] / 16);
        lemma_hex_digit_injective(a[i] % 16, b[i] % 16);
    }
    assert(a =~= b);
}

/// Two well-formed pointers name the same object exactly when their hex
/// identifiers agree, exactly when their raw digests agree.
pub proof fn lemma_oid_determines_hash(p: PointerV, q: PointerV)
    requires
        pointer_wf(p),
        pointer_wf(q),
    ensures
        (p.oid == q.oid) <==> (p.hash == q.hash),
{
    if p.oid == q.oid {
        lemma_hex_of_injective(p.hash, q.hash);
    }
}

/// The canonical path is a pure function of the identifier, and injective on
/// well-formed pointers: equal identifiers give equal paths, and distinct
/// identifiers give distinct paths.
pub proof fn lemma_path_injective(p: PointerV, q: PointerV)
    requires
        pointer_wf(p),
        pointer_wf(q),
    ensures
        (path_of(p.oid) == path_of(q.oid)) <==> (p.oid == q.oid),
{
    assert(p.oid.len() == 2 * HASH_LEN);
    assert(q.oid.len() == 2 * HASH_LEN);
    if path_of(p.oid) == path_of(q.oid) {
        assert forall|i: int| 0 <= i < p.oid.len() implies p.oid[i] == q.oid[i] by {
            assert(path_of(p.oid)[6 + i] == p.oid[i]);
            assert(path_of(q.oid)[6 + i] == q.oid[i]);
        }
        assert(p.oid =~= q.oid);
    }
}

} // verus!

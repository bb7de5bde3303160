//! Keys of the cache database.
use vstd::prelude::*;
use crate::bytes::extend_from_slice;
use crate::id::Uuid;

verus! {

/// The byte of the colon that separates the parts of a key.
pub const COLON: u8 = 58;

/// The key under which a field of a typed record is cached:
/// `kind`, a colon, the sixteen bytes of the id, a colon, `field_name`.
pub open spec fn spec_make_key(kind: Seq<u8>, id: Seq<u8>, field_name: Seq<u8>) -> Seq<u8> {
    kind + seq![COLON] + id + seq![COLON] + field_name
}

/// Builds the cache key of `field_name` of the record `id` of type `kind`.
pub fn make_key(kind: &[u8], id: &Uuid, field_name: &[u8]) -> (key: Vec<u8>)
    ensures
        key@ == spec_make_key(kind@, id.bytes@, field_name@),
{
    let mut buffer: Vec<u8> = Vec::new();
    extend_from_slice(&mut buffer, kind);
    buffer.push(COLON);
    extend_from_slice(&mut buffer, id.as_bytes().as_slice());
    buffer.push(COLON);
    extend_from_slice(&mut buffer, field_name);
    buffer
}

/// Keys of the same field of the same type are equal only for equal ids: two
/// records never share a key.
pub proof fn lemma_make_key_injective(kind: Seq<u8>, a: Seq<u8>, b: Seq<u8>, field_name: Seq<u8>)
    requires
        a.len() == 16,
        b.len() == 16,
        spec_make_key(kind, a, field_name) == spec_make_key(kind, b, field_name),
    ensures
        a == b,
{
    let ka = spec_make_key(kind, a, field_name);
    let kb = spec_make_key(kind, b, field_name);
    assert forall|i: int| 0 <= i < 16 implies a[i] == b[i] by {
        assert(ka[kind.len() + 1 + i] == a[i]);
        assert(kb[kind.len() + 1 + i] == b[i]);
    }
    assert(a =~= b);
}

} // verus!

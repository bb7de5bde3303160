//! Identifiers: sixteen bytes, as a UUID holds them.
use vstd::prelude::*;

verus! {

/// A UUID, held as its sixteen bytes.
#[derive(Clone, Copy, Debug)]
pub struct Uuid {
    pub bytes: [u8; 16],
}

impl PartialEq for Uuid {
    fn eq(&self, other: &Self) -> (r: bool) {
        let mut i: usize = 0;
        while i < 16
            invariant
                i <= 16,
                forall|j: int| 0 <= j < i ==> self.bytes@[j] == other.bytes@[j],
            decreases 16 - i,
        {
            if self.bytes[i] != other.bytes[i] {
                return false;
            }
            i = i + 1;
        }
        assert(self.bytes@ =~= other.bytes@);
        true
    }
}

impl Eq for Uuid {}

impl vstd::std_specs::cmp::PartialEqSpecImpl for Uuid {
    open spec fn obeys_eq_spec() -> bool {
        true
    }

    open spec fn eq_spec(&self, other: &Uuid) -> bool {
        self.bytes@ == other.bytes@
    }
}

/// Two UUIDs are equal exactly when their bytes are.
pub proof fn lemma_uuid_eq(a: Uuid, b: Uuid)
    ensures
        (a == b) <==> a.bytes@ == b.bytes@,
{
    if a.bytes@ == b.bytes@ {
        assert(a.bytes =~= b.bytes);
    }
}

impl Uuid {
    /// The nil UUID: sixteen zero bytes.
    pub fn nil() -> (u: Uuid)
        ensures
            u.bytes@ == Seq::new(16, |i: int| 0u8),
    {
        let u = Uuid { bytes: [0u8; 16] };
        assert(u.bytes@ =~= Seq::new(16, |i: int| 0u8));
        u
    }

    /// The UUID with these bytes.
    pub fn from_bytes(bytes: [u8; 16]) -> (u: Uuid)
        ensures
            u.bytes == bytes,
    {
        Uuid { bytes }
    }

    /// The bytes of the UUID.
    pub fn as_bytes(&self) -> (b: &[u8; 16])
        ensures
            b@ == self.bytes@,
    {
        &self.bytes
    }

    /// The UUID whose bytes are `bytes`, if there are exactly sixteen of them.
    pub fn from_slice(bytes: &[u8]) -> (r: Option<Uuid>)
        ensures
            r is Some <==> bytes@.len() == 16,
            r matches Some(u) ==> u.bytes@ == bytes@,
    {
        if bytes.len() != 16 {
            return None;
        }
        let mut out = [0u8; 16];
        let mut i: usize = 0;
        while i < 16
            invariant
                bytes@.len() == 16,
                i <= 16,
                forall|j: int| 0 <= j < i ==> out@[j] == bytes@[j],
            decreases 16 - i,
        {
            out[i] = bytes[i];
            i = i + 1;
        }
        assert(out@ =~= bytes@);
        Some(Uuid { bytes: out })
    }
}

/// The number whose big-endian bytes are `bytes`.
pub open spec fn big_endian(bytes: Seq<u8>) -> nat
    decreases bytes.len(),
{
    if bytes.len() == 0 {
        0
    } else {
        big_endian(bytes.drop_last()) * 256 + bytes.last() as nat
    }
}

/// 256 to the power `n`: one more than the largest number of `n` bytes.
pub open spec fn byte_place(n: nat) -> nat
    decreases n,
{
    if n == 0 {
        1
    } else {
        256 * byte_place((n - 1) as nat)
    }
}

proof fn lemma_big_endian_bound(bytes: Seq<u8>)
    ensures
        big_endian(bytes) < byte_place(bytes.len()),
    decreases bytes.len(),
{
    if bytes.len() > 0 {
        lemma_big_endian_bound(bytes.drop_last());
        let rest = big_endian(bytes.drop_last());
        let p = byte_place(bytes.drop_last().len());
        let b = bytes.last() as nat;
        assert(rest * 256 + b < p * 256) by (nonlinear_arith)
            requires
                rest < p,
                b < 256,
        ;
    }
}

proof fn lemma_byte_place_grows(i: nat, j: nat)
    requires
        i <= j,
    ensures
        byte_place(i) <= byte_place(j),
    decreases j,
{
    if i < j {
        lemma_byte_place_grows(i, (j - 1) as nat);
    }
}

/// Numbers of equally many bytes are equal only for equal bytes: a UUID's number
/// names it.
pub proof fn lemma_big_endian_injective(a: Seq<u8>, b: Seq<u8>)
    requires
        a.len() == b.len(),
        big_endian(a) == big_endian(b),
    ensures
        a == b,
    decreases a.len(),
{
    if a.len() > 0 {
        let ra = big_endian(a.drop_last());
        let rb = big_endian(b.drop_last());
        let la = a.last() as int;
        let lb = b.last() as int;
        assert(ra == rb && la == lb) by (nonlinear_arith)
            requires
                ra * 256 + la == rb * 256 + lb,
                0 <= la < 256,
                0 <= lb < 256,
                ra >= 0,
                rb >= 0,
        ;
        lemma_big_endian_injective(a.drop_last(), b.drop_last());
        assert(a =~= a.drop_last().push(a.last()));
        assert(b =~= b.drop_last().push(b.last()));
    }
}

impl Uuid {
    /// The UUID as a number: its sixteen bytes read big-endian.
    pub fn as_u128(&self) -> (n: u128)
        ensures
            n == big_endian(self.bytes@),
    {
        proof {
            reveal_with_fuel(byte_place, 17);
            assert(byte_place(16) == 0x1_0000_0000_0000_0000_0000_0000_0000_0000nat);
        }
        let mut n: u128 = 0;
        let mut i: usize = 0;
        while i < 16
            invariant
                i <= 16,
                n == big_endian(self.bytes@.take(i as int)),
                byte_place(16) == 0x1_0000_0000_0000_0000_0000_0000_0000_0000nat,
            decreases 16 - i,
        {
            let ghost next = self.bytes@.take(i + 1);
            proof {
                assert(next.drop_last() =~= self.bytes@.take(i as int));
                lemma_big_endian_bound(next);
                lemma_byte_place_grows((i + 1) as nat, 16);
            }
            n = n * 256 + self.bytes[i] as u128;
            i = i + 1;
        }
        proof {
            assert(self.bytes@.take(16) =~= self.bytes@);
        }
        n
    }
}

} // verus!

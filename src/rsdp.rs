//! The root system description pointer, which locates the root table.
use crate::bytes::{byte_sum, lemma_byte_sum_concat, lemma_byte_sum_update, le32, le64, read_u32, read_u64};
use crate::phys::PhysMemory;
use crate::rsdt::{lossy_string, utf8_lossy};
use vstd::prelude::*;

verus! {

/// Size in bytes of the first-revision root pointer.
pub const RSDP_SIZE: usize = 20;

/// Size in bytes of the second-revision root pointer.
pub const RSDP20_SIZE: usize = 36;

/// The root system description pointer.
#[derive(Debug, Copy, Clone)]
pub struct RSDPDescriptor {
    pub signature: [u8; 8],
    pub checksum: u8,
    pub oem_id: [u8; 6],
    pub revision: u8,
    pub rsdt_address: u32,
}

/// `d` holds the fields of the root pointer bytes `b`.
pub open spec fn rsdp_of(d: RSDPDescriptor, b: Seq<u8>) -> bool {
    &&& d.signature@ == b.subrange(0, 8)
    &&& d.checksum == b[8]
    &&& d.oem_id@ == b.subrange(9, 15)
    &&& d.revision == b[15]
    &&& d.rsdt_address == le32(b, 16)
}

/// The sum of the four bytes of `x`.
pub open spec fn digit_sum(x: u32) -> int {
    x % 0x100 + (x / 0x100) % 0x100 + (x / 0x1_0000) % 0x100 + x / 0x100_0000
}

/// The sum of all 20 bytes of the root pointer.
pub open spec fn rsdp_sum(d: RSDPDescriptor) -> int {
    byte_sum(d.signature@) + d.checksum + byte_sum(d.oem_id@) + d.revision + digit_sum(
        d.rsdt_address,
    )
}

/// The four bytes of a little-endian word sum to its digit sum.
proof fn lemma_digit_sum(x: u32, b0: u8, b1: u8, b2: u8, b3: u8)
    requires
        x == b0 + 0x100 * b1 + 0x1_0000 * b2 + 0x100_0000 * b3,
    ensures
        digit_sum(x) == b0 + b1 + b2 + b3,
{
    assert(x % 0x100 == b0 && (x / 0x100) % 0x100 == b1 && (x / 0x1_0000) % 0x100 == b2 && x
        / 0x100_0000 == b3) by (bit_vector)
        requires
            x == b0 + 0x100 * b1 + 0x1_0000 * b2 + 0x100_0000 * b3,
    ;
}

/// The sum of a one-byte string is that byte.
proof fn lemma_byte_sum_one(c: u8)
    ensures
        byte_sum(seq![c]) == c,
{
    assert(seq![c].drop_last() =~= Seq::<u8>::empty());
    assert(byte_sum(Seq::<u8>::empty()) == 0);
    assert(seq![c].last() == c);
    assert(byte_sum(seq![c]) == byte_sum(seq![c].drop_last()) + seq![c].last());
}

/// A root pointer whose 20 bytes sum to zero modulo 256 stops doing so when any one of
/// those bytes changes.
pub proof fn lemma_rsdp_checksum_detects_corruption(b: Seq<u8>, i: int, v: u8)
    requires
        b.len() >= RSDP_SIZE,
        byte_sum(b.subrange(0, RSDP_SIZE as int)) % 256 == 0,
        0 <= i < RSDP_SIZE,
        v != b[i],
    ensures
        byte_sum(b.update(i, v).subrange(0, RSDP_SIZE as int)) % 256 != 0,
{
    assert(b.update(i, v).subrange(0, 20) =~= b.subrange(0, 20).update(i, v));
    lemma_byte_sum_update(b.subrange(0, 20), i, v);
}

/// Sums the bytes of `b` into a wide accumulator.
fn add_bytes(acc: u32, b: &[u8]) -> (r: u32)
    requires
        acc + 0x100 * b@.len() <= u32::MAX,
    ensures
        r == acc + byte_sum(b@),
        r <= acc + 0xff * b@.len(),
{
    let mut sum = acc;
    let mut i: usize = 0;
    while i < b.len()
        invariant
            i <= b@.len(),
            acc + 0x100 * b@.len() <= u32::MAX,
            sum == acc + byte_sum(b@.subrange(0, i as int)),
            byte_sum(b@.subrange(0, i as int)) <= 0xff * i,
        decreases b@.len() - i,
    {
        proof {
            let s = b@.subrange(0, i as int + 1);
            assert(s.drop_last() =~= b@.subrange(0, i as int));
        }
        sum = sum + b[i] as u32;
        i = i + 1;
    }
    assert(b@.subrange(0, b@.len() as int) =~= b@);
    sum
}

impl RSDPDescriptor {
    /// Decodes a root pointer from its bytes.
    pub fn parse(b: &[u8]) -> (r: Self)
        requires
            b@.len() >= RSDP_SIZE,
        ensures
            rsdp_of(r, b@),
            rsdp_sum(r) == byte_sum(b@.subrange(0, RSDP_SIZE as int)),
    {
        let r = RSDPDescriptor {
            signature: [b[0], b[1], b[2], b[3], b[4], b[5], b[6], b[7]],
            checksum: b[8],
            oem_id: [b[9], b[10], b[11], b[12], b[13], b[14]],
            revision: b[15],
            rsdt_address: read_u32(b, 16),
        };
        assert(r.signature@ =~= b@.subrange(0, 8));
        assert(r.oem_id@ =~= b@.subrange(9, 15));
        proof {
            let s = b@;
            lemma_digit_sum(r.rsdt_address, s[16], s[17], s[18], s[19]);
            let tail = seq![s[16], s[17], s[18], s[19]];
            assert(s.subrange(0, 20) =~= s.subrange(0, 8) + seq![s[8]] + s.subrange(9, 15) + seq![s[15]]
                + tail);
            lemma_byte_sum_concat(s.subrange(0, 8) + seq![s[8]] + s.subrange(9, 15) + seq![s[15]], tail);
            lemma_byte_sum_concat(s.subrange(0, 8) + seq![s[8]] + s.subrange(9, 15), seq![s[15]]);
            lemma_byte_sum_concat(s.subrange(0, 8) + seq![s[8]], s.subrange(9, 15));
            lemma_byte_sum_concat(s.subrange(0, 8), seq![s[8]]);
            lemma_byte_sum_one(s[8]);
            lemma_byte_sum_one(s[15]);
            assert(tail =~= seq![s[16], s[17], s[18]] + seq![s[19]]);
            lemma_byte_sum_concat(seq![s[16], s[17], s[18]], seq![s[19]]);
            assert(seq![s[16], s[17], s[18]] =~= seq![s[16], s[17]] + seq![s[18]]);
            lemma_byte_sum_concat(seq![s[16], s[17]], seq![s[18]]);
            assert(seq![s[16], s[17]] =~= seq![s[16]] + seq![s[17]]);
            lemma_byte_sum_concat(seq![s[16]], seq![s[17]]);
            lemma_byte_sum_one(s[16]);
            lemma_byte_sum_one(s[17]);
            lemma_byte_sum_one(s[18]);
            lemma_byte_sum_one(s[19]);
        }
        r
    }

    /// The second-revision pointer, when this one has revision 2 and `b`, the bytes it
    /// was read from, holds the longer layout.
    pub fn extended_rsdp(&self, b: &[u8]) -> (r: Option<RSDPDescriptor20>)
        ensures
            r is Some <==> (self.revision == 2 && b@.len() >= RSDP20_SIZE),
            r matches Some(e) ==> rsdp20_of(e, b@),
    {
        if self.revision == 2 && b.len() >= RSDP20_SIZE {
            Some(RSDPDescriptor20::parse(b))
        } else {
            None
        }
    }

    /// Reads the root pointer at physical address `addr`.
    pub fn from_addr(mem: &PhysMemory, addr: u64) -> (r: Option<Self>)
        ensures
            r is Some <==> mem.read_spec(addr as int, RSDP_SIZE as int) is Some,
            r is Some ==> rsdp_of(r->0, mem.read_spec(addr as int, RSDP_SIZE as int)->0),
    {
        match mem.read(addr, RSDP_SIZE) {
            Some(b) => Some(RSDPDescriptor::parse(b.as_slice())),
            None => None,
        }
    }

    /// The signature as text.
    pub fn signature(&self) -> (r: String)
        ensures
            r@ == utf8_lossy(self.signature@),
    {
        lossy_string(self.signature.as_slice())
    }

    /// Whether all 20 bytes of the pointer sum to zero modulo 256.
    pub fn checksum(&self) -> (r: bool)
        ensures
            r == (rsdp_sum(*self) % 256 == 0),
    {
        let a = self.rsdt_address;
        let d0 = a & 0xff;
        let d1 = (a >> 8u32) & 0xff;
        let d2 = (a >> 16u32) & 0xff;
        let d3 = a >> 24u32;
        assert(d0 == a % 0x100 && d1 == (a / 0x100) % 0x100 && d2 == (a / 0x1_0000) % 0x100 && d3
            == a / 0x100_0000 && d3 < 0x100) by (bit_vector)
            requires
                d0 == a & 0xff,
                d1 == (a >> 8u32) & 0xff,
                d2 == (a >> 16u32) & 0xff,
                d3 == a >> 24u32,
        ;
        let digits = d0 + d1 + d2 + d3;
        let sum = add_bytes(0, self.signature.as_slice());
        let sum = add_bytes(sum + self.checksum as u32, self.oem_id.as_slice());
        let total = sum + self.revision as u32 + digits;
        total % 256 == 0
    }

    /// The OEM identifier as text.
    pub fn oem_id(&self) -> (r: String)
        ensures
            r@ == utf8_lossy(self.oem_id@),
    {
        lossy_string(self.oem_id.as_slice())
    }

    /// The physical address of the root table.
    pub fn rsdt_address(&self) -> (r: u32)
        ensures
            r == self.rsdt_address,
    {
        self.rsdt_address
    }
}

/// The second-revision root pointer, which adds the extended root table.
#[derive(Debug, Copy, Clone)]
pub struct RSDPDescriptor20 {
    pub rsdp: RSDPDescriptor,
    pub length: u32,
    pub xsdt_address: u64,
    pub extended_checksum: u8,
    pub reserved: [u8; 3],
}

/// `e` holds the fields of the second-revision root pointer bytes `b`.
pub open spec fn rsdp20_of(e: RSDPDescriptor20, b: Seq<u8>) -> bool {
    &&& rsdp_of(e.rsdp, b)
    &&& e.length == le32(b, 20)
    &&& e.xsdt_address == le64(b, 24)
    &&& e.extended_checksum == b[32]
    &&& e.reserved@ == b.subrange(33, 36)
}

impl RSDPDescriptor20 {
    /// Decodes a second-revision root pointer from its bytes.
    pub fn parse(b: &[u8]) -> (r: Self)
        requires
            b@.len() >= RSDP20_SIZE,
        ensures
            rsdp20_of(r, b@),
    {
        let r = RSDPDescriptor20 {
            rsdp: RSDPDescriptor::parse(b),
            length: read_u32(b, 20),
            xsdt_address: read_u64(b, 24),
            extended_checksum: b[32],
            reserved: [b[33], b[34], b[35]],
        };
        assert(r.reserved@ =~= b@.subrange(33, 36));
        r
    }

    /// The signature as text.
    pub fn signature(&self) -> (r: String)
        ensures
            r@ == utf8_lossy(self.rsdp.signature@),
    {
        lossy_string(self.rsdp.signature.as_slice())
    }
}

} // verus!

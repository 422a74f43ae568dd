use vstd::arithmetic::div_mod::*;
use vstd::arithmetic::power::*;
use vstd::prelude::*;

verus! {

/// Size in bytes of a serialized disk address packet.
pub const DAP_SIZE: u8 = 16;

/// Size in bytes of one disk sector.
pub const SECTOR_LENGTH: u16 = 512;

/// Byte `k` (counting from the least significant) of `v`.
pub open spec fn le_byte(v: nat, k: nat) -> u8 {
    ((v / pow(256, k) as nat) % 256) as u8
}

/// The `n` least significant bytes of `v`, least significant first.
pub open spec fn le_bytes(v: nat, n: nat) -> Seq<u8> {
    Seq::new(n, |k: int| le_byte(v, k as nat))
}

/// The number that a little-endian byte sequence stands for.
pub open spec fn le_value(s: Seq<u8>) -> nat
    decreases s.len(),
{
    if s.len() == 0 {
        0
    } else {
        s[0] as nat + 256 * le_value(s.drop_first())
    }
}

/// The `n` least significant bytes of `v` read back give `v` modulo `256^n`.
pub proof fn lemma_le_round_trip(v: nat, n: nat)
    ensures
        le_value(le_bytes(v, n)) == v % (pow(256, n) as nat),
    decreases n,
{
    lemma_pow_positive(256, n);
    if n == 0 {
        reveal(pow);
        assert(pow(256, 0) == 1);
        assert(v % 1 == 0) by (nonlinear_arith);
    } else {
        let s = le_bytes(v, n);
        let q = v / 256;
        assert(s.drop_first() =~= le_bytes(q, (n - 1) as nat)) by {
            assert forall|k: int| 0 <= k < n - 1 implies #[trigger] s.drop_first()[k] == le_byte(q, k as nat) by {
                lemma_pow_positive(256, k as nat);
                lemma_pow1(256);
                lemma_pow_adds(256, 1, k as nat);
                lemma_div_denominator(v as int, 256, pow(256, k as nat));
            }
        }
        lemma_le_round_trip(q, (n - 1) as nat);
        reveal(pow);
        assert(s[0] == (v % 256) as u8) by {
            lemma_pow0(256);
            assert(le_byte(v, 0) == ((v / 1) % 256) as u8);
            assert(v / 1 == v) by (nonlinear_arith);
        }
        let m = pow(256, (n - 1) as nat);
        lemma_pow_positive(256, (n - 1) as nat);
        assert(pow(256, n) == 256 * m);
        lemma_breakdown(v as int, 256, m);
    }
}

/// The request record read by the firmware's extended-read service.
///
/// The firmware reads it as bytes: see `to_bytes` for the exact layout.
#[derive(Clone, Copy, Debug, PartialEq, Eq, Structural)]
pub struct DiskAddressPacket {
    /// Size of the serialized record; must be `DAP_SIZE`.
    pub dap_size: u8,
    /// Reserved, always zero.
    pub always_zero: u8,
    /// Number of sectors to transfer.
    pub sectors_to_transfer: u16,
    /// Linear memory address that receives the first sector.
    pub ram_start: u32,
    /// Absolute index of the first sector on the drive.
    pub sector_start: u64,
}

/// The serialized form of a packet: the fields in declaration order, each
/// little-endian, with no padding.
pub open spec fn packet_bytes(p: DiskAddressPacket) -> Seq<u8> {
    seq![p.dap_size, p.always_zero]
        + le_bytes(p.sectors_to_transfer as nat, 2)
        + le_bytes(p.ram_start as nat, 4)
        + le_bytes(p.sector_start as nat, 8)
}

/// Appends the `width` least significant bytes of `value`, least significant first.
fn push_le_bytes(out: &mut Vec<u8>, value: u64, width: usize)
    requires
        width <= 8,
    ensures
        final(out)@ == old(out)@ + le_bytes(value as nat, width as nat),
{
    let ghost start = out@;
    let mut rest: u64 = value;
    let mut i: usize = 0;
    proof {
        lemma_pow0(256);
        assert(value as nat / 1 == value as nat) by (nonlinear_arith);
        assert(out@ =~= start + le_bytes(value as nat, 0));
    }
    while i < width
        invariant
            i <= width,
            rest as nat == value as nat / (pow(256, i as nat) as nat),
            out@ == start + le_bytes(value as nat, i as nat),
        decreases width - i,
    {
        let ghost before = out@;
        out.push((rest % 256) as u8);
        proof {
            lemma_pow_positive(256, i as nat);
            lemma_pow1(256);
            lemma_pow_adds(256, i as nat, 1);
            lemma_div_denominator(value as int, pow(256, i as nat), 256);
            assert(out@ =~= start + le_bytes(value as nat, (i + 1) as nat));
        }
        rest = rest / 256;
        i = i + 1;
    }
}

/// A packet serializes to exactly `DAP_SIZE` bytes: the size byte, the zero
/// byte, then the sector count (2 bytes), the destination address (4 bytes)
/// and the starting sector (8 bytes), each little-endian and without padding;
/// reading each field back from its bytes gives the field.
pub proof fn lemma_packet_layout(p: DiskAddressPacket)
    requires
        p.wf(),
    ensures
        packet_bytes(p).len() == DAP_SIZE,
        packet_bytes(p)[0] == DAP_SIZE,
        packet_bytes(p)[1] == 0,
        le_value(packet_bytes(p).subrange(2, 4)) == p.sectors_to_transfer,
        le_value(packet_bytes(p).subrange(4, 8)) == p.ram_start,
        le_value(packet_bytes(p).subrange(8, 16)) == p.sector_start,
{
    let b = packet_bytes(p);
    assert(b.subrange(2, 4) =~= le_bytes(p.sectors_to_transfer as nat, 2));
    assert(b.subrange(4, 8) =~= le_bytes(p.ram_start as nat, 4));
    assert(b.subrange(8, 16) =~= le_bytes(p.sector_start as nat, 8));
    lemma_le_round_trip(p.sectors_to_transfer as nat, 2);
    lemma_le_round_trip(p.ram_start as nat, 4);
    lemma_le_round_trip(p.sector_start as nat, 8);
    reveal_with_fuel(pow, 9);
    lemma_small_mod(p.sectors_to_transfer as nat, 0x1_0000);
    lemma_small_mod(p.ram_start as nat, 0x1_0000_0000);
    lemma_small_mod(p.sector_start as nat, 0x1_0000_0000_0000_0000);
}

impl DiskAddressPacket {
    /// Whether the packet is one the firmware can read: its size field
    /// gives the record's own size and its reserved byte is zero.
    pub open spec fn wf(&self) -> bool {
        self.dap_size == DAP_SIZE && self.always_zero == 0
    }

    /// A request for `sectors_to_transfer` sectors, starting at sector
    /// `sector_start` of the drive, to be placed at address `ram_start`.
    pub fn new(sectors_to_transfer: u16, ram_start: u32, sector_start: u64) -> (r: Self)
        ensures
            r.wf(),
            r.sectors_to_transfer == sectors_to_transfer,
            r.ram_start == ram_start,
            r.sector_start == sector_start,
    {
        DiskAddressPacket {
            dap_size: DAP_SIZE,
            always_zero: 0,
            sectors_to_transfer,
            ram_start,
            sector_start,
        }
    }

    /// The bytes that the firmware reads.
    pub fn to_bytes(&self) -> (r: Vec<u8>)
        ensures
            r@ == packet_bytes(*self),
            r@.len() == DAP_SIZE,
    {
        let mut out: Vec<u8> = Vec::new();
        out.push(self.dap_size);
        out.push(self.always_zero);
        push_le_bytes(&mut out, self.sectors_to_transfer as u64, 2);
        push_le_bytes(&mut out, self.ram_start as u64, 4);
        push_le_bytes(&mut out, self.sector_start as u64, 8);
        proof {
            assert(out@ =~= packet_bytes(*self));
        }
        out
    }
}

} // verus!

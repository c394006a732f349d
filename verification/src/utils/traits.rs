//! Little-endian byte images of the integer values that the patch writes into
//! the game's memory.
use vstd::prelude::*;
use vstd::arithmetic::power::pow;

verus! {

/// The `width` lowest bytes of `v`, least significant first.
pub open spec fn le_bytes(v: nat, width: nat) -> Seq<u8>
    decreases width,
{
    if width == 0 {
        Seq::empty()
    } else {
        seq![(v % 256) as u8] + le_bytes(v / 256, (width - 1) as nat)
    }
}

/// The number that a little-endian byte sequence stands for.
pub open spec fn le_value(bytes: Seq<u8>) -> nat
    decreases bytes.len(),
{
    if bytes.len() == 0 {
        0
    } else {
        bytes[0] as nat + 256 * le_value(bytes.drop_first())
    }
}

/// Integers that can be written into the game's memory as their
/// little-endian byte image.
pub trait ToBytes: Sized {
    /// The byte image of `a`.
    spec fn spec_le_bytes(a: Self) -> Seq<u8>;

    /// The number of bytes of the type.
    spec fn spec_width() -> nat;

    /// Returns the little-endian bytes of `a`.
    fn to_le_bytes(a: Self) -> (bytes: Vec<u8>)
        ensures
            bytes@ == Self::spec_le_bytes(a),
            bytes@.len() == Self::spec_width(),
    ;
}

/// Pushes the `width` lowest bytes of `v`, least significant first.
fn le_bytes_of(v: u64, width: usize) -> (bytes: Vec<u8>)
    requires
        width <= 8,
    ensures
        bytes@ == le_bytes(v as nat, width as nat),
        bytes@.len() == width,
{
    let mut bytes: Vec<u8> = Vec::new();
    let mut rest: u64 = v;
    let mut i: usize = 0;
    while i < width
        invariant
            i <= width,
            bytes@.len() == i,
            le_bytes(v as nat, width as nat) == bytes@ + le_bytes(rest as nat, (width - i) as nat),
        decreases width - i,
    {
        let byte: u8 = (rest % 256) as u8;
        proof {
            assert(le_bytes(rest as nat, (width - i) as nat) == seq![byte] + le_bytes(
                (rest / 256) as nat,
                (width - i - 1) as nat,
            ));
            assert(bytes@ + (seq![byte] + le_bytes((rest / 256) as nat, (width - i - 1) as nat))
                =~= bytes@.push(byte) + le_bytes((rest / 256) as nat, (width - i - 1) as nat));
        }
        bytes.push(byte);
        rest = rest / 256;
        i = i + 1;
    }
    assert(le_bytes(rest as nat, 0) =~= Seq::<u8>::empty());
    assert(bytes@ + Seq::<u8>::empty() =~= bytes@);
    bytes
}

impl ToBytes for u16 {
    open spec fn spec_le_bytes(a: u16) -> Seq<u8> {
        le_bytes(a as nat, 2)
    }

    open spec fn spec_width() -> nat {
        2
    }

    fn to_le_bytes(a: u16) -> (bytes: Vec<u8>) {
        le_bytes_of(a as u64, 2)
    }
}

impl ToBytes for u32 {
    open spec fn spec_le_bytes(a: u32) -> Seq<u8> {
        le_bytes(a as nat, 4)
    }

    open spec fn spec_width() -> nat {
        4
    }

    fn to_le_bytes(a: u32) -> (bytes: Vec<u8>) {
        le_bytes_of(a as u64, 4)
    }
}

impl ToBytes for u64 {
    open spec fn spec_le_bytes(a: u64) -> Seq<u8> {
        le_bytes(a as nat, 8)
    }

    open spec fn spec_width() -> nat {
        8
    }

    fn to_le_bytes(a: u64) -> (bytes: Vec<u8>) {
        le_bytes_of(a, 8)
    }
}

impl ToBytes for i8 {
    /// Two's complement: the byte of the same bits read as unsigned.
    open spec fn spec_le_bytes(a: i8) -> Seq<u8> {
        le_bytes((a as u8) as nat, 1)
    }

    open spec fn spec_width() -> nat {
        1
    }

    fn to_le_bytes(a: i8) -> (bytes: Vec<u8>) {
        le_bytes_of((a as u8) as u64, 1)
    }
}

impl ToBytes for i16 {
    open spec fn spec_le_bytes(a: i16) -> Seq<u8> {
        le_bytes((a as u16) as nat, 2)
    }

    open spec fn spec_width() -> nat {
        2
    }

    fn to_le_bytes(a: i16) -> (bytes: Vec<u8>) {
        le_bytes_of((a as u16) as u64, 2)
    }
}

impl ToBytes for i32 {
    open spec fn spec_le_bytes(a: i32) -> Seq<u8> {
        le_bytes((a as u32) as nat, 4)
    }

    open spec fn spec_width() -> nat {
        4
    }

    fn to_le_bytes(a: i32) -> (bytes: Vec<u8>) {
        le_bytes_of((a as u32) as u64, 4)
    }
}

impl ToBytes for i64 {
    open spec fn spec_le_bytes(a: i64) -> Seq<u8> {
        le_bytes((a as u64) as nat, 8)
    }

    open spec fn spec_width() -> nat {
        8
    }

    fn to_le_bytes(a: i64) -> (bytes: Vec<u8>) {
        le_bytes_of(a as u64, 8)
    }
}

/// An image of `width` bytes has `width` bytes.
pub proof fn lemma_le_bytes_len(v: nat, width: nat)
    ensures
        le_bytes(v, width).len() == width,
    decreases width,
{
    if width > 0 {
        lemma_le_bytes_len(v / 256, (width - 1) as nat);
    }
}

/// Reading back the bytes written for a value gives the value: the
/// little-endian image of `v` in `width` bytes decodes to `v` whenever `v`
/// fits in `width` bytes.
pub proof fn lemma_le_bytes_round_trip(v: nat, width: nat)
    requires
        v < pow(256, width),
    ensures
        le_bytes(v, width).len() == width,
        le_value(le_bytes(v, width)) == v,
    decreases width,
{
    if width == 0 {
        vstd::arithmetic::power::lemma_pow0(256);
    } else {
        let w1 = (width - 1) as nat;
        vstd::arithmetic::power::lemma_pow_adds(256, 1, w1);
        vstd::arithmetic::power::lemma_pow1(256);
        let q = v / 256;
        let p = pow(256, w1);
        assert(v == 256 * q + v % 256) by {
            vstd::arithmetic::div_mod::lemma_fundamental_div_mod(v as int, 256);
        }
        assert(q < p) by {
            assert(pow(256, width) == 256 * p);
            if q >= p {
                assert(256 * q >= 256 * p) by (nonlinear_arith)
                    requires q >= p;
            }
        }
        lemma_le_bytes_round_trip(q, w1);
        let s = le_bytes(v, width);
        assert(s.drop_first() =~= le_bytes(q, w1));
    }
}

proof fn lemma_byte_widths()
    ensures
        pow(256, 1) == 0x100,
        pow(256, 2) == 0x1_0000,
        pow(256, 4) == 0x1_0000_0000,
        pow(256, 8) == 0x1_0000_0000_0000_0000,
{
    reveal_with_fuel(pow, 9);
}

/// What the patch writes reads back as the value written: the bytes of each
/// integer type decode, little-endian, to the value (a signed value to the
/// unsigned number of the same bits), and there are as many as the type is
/// wide.
pub proof fn lemma_written_values_read_back(
    a: u16,
    b: u32,
    c: u64,
    d: i8,
    e: i16,
    f: i32,
    g: i64,
)
    ensures
        le_value(<u16 as ToBytes>::spec_le_bytes(a)) == a,
        le_value(<u32 as ToBytes>::spec_le_bytes(b)) == b,
        le_value(<u64 as ToBytes>::spec_le_bytes(c)) == c,
        le_value(<i8 as ToBytes>::spec_le_bytes(d)) == (d as u8),
        le_value(<i16 as ToBytes>::spec_le_bytes(e)) == (e as u16),
        le_value(<i32 as ToBytes>::spec_le_bytes(f)) == (f as u32),
        le_value(<i64 as ToBytes>::spec_le_bytes(g)) == (g as u64),
{
    lemma_byte_widths();
    lemma_le_bytes_round_trip(a as nat, 2);
    lemma_le_bytes_round_trip(b as nat, 4);
    lemma_le_bytes_round_trip(c as nat, 8);
    lemma_le_bytes_round_trip((d as u8) as nat, 1);
    lemma_le_bytes_round_trip((e as u16) as nat, 2);
    lemma_le_bytes_round_trip((f as u32) as nat, 4);
    lemma_le_bytes_round_trip((g as u64) as nat, 8);
}

} // verus!

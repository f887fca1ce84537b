//! The identifiers under which the host registers its class and interfaces.

use crate::vtable::Interface;
use vstd::prelude::*;

verus! {

/// A 128-bit identifier of a class or an interface, in the four fields of its
/// binary form.
#[derive(Clone, Copy, Debug, PartialEq, Eq)]
pub struct Guid {
    /// The first eight hexadecimal digits.
    pub data1: u32,
    /// The first group of four hexadecimal digits.
    pub data2: u16,
    /// The second group of four hexadecimal digits.
    pub data3: u16,
    /// The third group of four digits in the first two bytes, the final
    /// twelve digits in the other six.
    pub data4: [u8; 8],
}

/// The number that eight bytes spell, the first byte being the most
/// significant.
pub open spec fn big_endian(bytes: Seq<u8>) -> nat
    recommends
        bytes.len() == 8,
{
    (bytes[0] as nat) * 0x100_0000_0000_0000 + (bytes[1] as nat) * 0x1_0000_0000_0000 + (
    bytes[2] as nat) * 0x100_0000_0000 + (bytes[3] as nat) * 0x1_0000_0000 + (bytes[4] as nat)
        * 0x100_0000 + (bytes[5] as nat) * 0x1_0000 + (bytes[6] as nat) * 0x100 + (bytes[7] as nat)
}

impl View for Guid {
    type V = nat;

    /// The identifier as one number: its thirty-two hexadecimal digits read
    /// in the order in which they are written.
    open spec fn view(&self) -> nat {
        (self.data1 as nat) * 0x1_0000_0000_0000_0000_0000_0000 + (self.data2 as nat)
            * 0x1_0000_0000_0000_0000_0000 + (self.data3 as nat) * 0x1_0000_0000_0000_0000
            + big_endian(self.data4@)
    }
}

/// The number that the bytes from a position on spell, the first of them
/// being the most significant.
spec fn tail_number(bytes: Seq<u8>, from: int) -> nat
    decreases bytes.len() - from,
{
    if from >= bytes.len() {
        0
    } else {
        (bytes[from] as nat) * place(bytes.len() - from - 1) + tail_number(bytes, from + 1)
    }
}

/// The weight of the byte that has the given number of bytes behind it.
spec fn place(behind: int) -> nat
    decreases behind,
{
    if behind <= 0 {
        1
    } else {
        256 * place(behind - 1)
    }
}

/// A number written as a leading digit followed by smaller digits fixes both
/// parts.
proof fn lemma_digits_fixed(high_a: int, low_a: int, high_b: int, low_b: int, weight: int)
    requires
        weight > 0,
        0 <= low_a < weight,
        0 <= low_b < weight,
        high_a * weight + low_a == high_b * weight + low_b,
    ensures
        high_a == high_b,
        low_a == low_b,
{
    assert(high_a == high_b) by (nonlinear_arith)
        requires
            weight > 0,
            0 <= low_a < weight,
            0 <= low_b < weight,
            high_a * weight + low_a == high_b * weight + low_b,
    ;
}

/// What follows a byte is less than the weight of that byte.
proof fn lemma_tail_bound(bytes: Seq<u8>, from: int)
    requires
        0 <= from <= bytes.len(),
    ensures
        tail_number(bytes, from) < place(bytes.len() - from),
    decreases bytes.len() - from,
{
    if from < bytes.len() {
        lemma_tail_bound(bytes, from + 1);
        let weight = place(bytes.len() - from - 1);
        assert((bytes[from] as nat) * weight + weight <= 256 * weight) by (nonlinear_arith)
            requires
                bytes[from] <= 255,
                weight >= 0,
        ;
    }
}

/// Equally long byte strings that spell the same number from a position on
/// agree from that position on.
proof fn lemma_tail_fixed(a: Seq<u8>, b: Seq<u8>, from: int)
    requires
        a.len() == b.len(),
        0 <= from <= a.len(),
        tail_number(a, from) == tail_number(b, from),
    ensures
        forall|i: int| from <= i < a.len() ==> a[i] == b[i],
    decreases a.len() - from,
{
    if from < a.len() {
        lemma_tail_bound(a, from + 1);
        lemma_tail_bound(b, from + 1);
        lemma_digits_fixed(
            a[from] as int,
            tail_number(a, from + 1) as int,
            b[from] as int,
            tail_number(b, from + 1) as int,
            place(a.len() - from - 1) as int,
        );
        lemma_tail_fixed(a, b, from + 1);
    }
}

/// The number of eight bytes, digit by digit.
proof fn lemma_big_endian_unfolds(bytes: Seq<u8>)
    requires
        bytes.len() == 8,
    ensures
        big_endian(bytes) == tail_number(bytes, 0),
        big_endian(bytes) < 0x1_0000_0000_0000_0000,
{
    reveal_with_fuel(place, 9);
    assert(place(0) == 1 && place(1) == 0x100 && place(2) == 0x1_0000 && place(3) == 0x100_0000);
    assert(place(4) == 0x1_0000_0000 && place(5) == 0x100_0000_0000);
    assert(place(6) == 0x1_0000_0000_0000 && place(7) == 0x100_0000_0000_0000);
    assert(place(8) == 0x1_0000_0000_0000_0000);
    assert(tail_number(bytes, 8) == 0);
    assert(tail_number(bytes, 7) == bytes[7] as nat * place(0) + tail_number(bytes, 8));
    assert(tail_number(bytes, 6) == bytes[6] as nat * place(1) + tail_number(bytes, 7));
    assert(tail_number(bytes, 5) == bytes[5] as nat * place(2) + tail_number(bytes, 6));
    assert(tail_number(bytes, 4) == bytes[4] as nat * place(3) + tail_number(bytes, 5));
    assert(tail_number(bytes, 3) == bytes[3] as nat * place(4) + tail_number(bytes, 4));
    assert(tail_number(bytes, 2) == bytes[2] as nat * place(5) + tail_number(bytes, 3));
    assert(tail_number(bytes, 1) == bytes[1] as nat * place(6) + tail_number(bytes, 2));
    assert(tail_number(bytes, 0) == bytes[0] as nat * place(7) + tail_number(bytes, 1));
    lemma_tail_bound(bytes, 0);
}

/// An identifier is its number: two identifiers with the same number have the
/// same fields.
pub proof fn lemma_number_fixes_fields(a: Guid, b: Guid)
    requires
        a@ == b@,
    ensures
        a.data1 == b.data1,
        a.data2 == b.data2,
        a.data3 == b.data3,
        a.data4@ == b.data4@,
{
    let low_a = big_endian(a.data4@) as int;
    let low_b = big_endian(b.data4@) as int;
    lemma_big_endian_unfolds(a.data4@);
    lemma_big_endian_unfolds(b.data4@);
    lemma_digits_fixed(
        a.data1 as int,
        a.data2 * 0x1_0000_0000_0000_0000_0000 + a.data3 * 0x1_0000_0000_0000_0000 + low_a,
        b.data1 as int,
        b.data2 * 0x1_0000_0000_0000_0000_0000 + b.data3 * 0x1_0000_0000_0000_0000 + low_b,
        0x1_0000_0000_0000_0000_0000_0000,
    );
    lemma_digits_fixed(
        a.data2 as int,
        a.data3 * 0x1_0000_0000_0000_0000 + low_a,
        b.data2 as int,
        b.data3 * 0x1_0000_0000_0000_0000 + low_b,
        0x1_0000_0000_0000_0000_0000,
    );
    lemma_digits_fixed(a.data3 as int, low_a, b.data3 as int, low_b, 0x1_0000_0000_0000_0000);
    lemma_tail_fixed(a.data4@, b.data4@, 0);
    assert(a.data4@ =~= b.data4@);
}

/// The class of the application object: `DC0C2640-1415-4644-875C-6F4D769839BA`.
pub open spec fn application_class() -> nat {
    0xDC0C2640_1415_4644_875C_6F4D769839BA
}

/// The identifier of an interface: `9DD6680B-3EDC-40DB-A771-E6FE4832E34A` for
/// the application object, `4CB0915D-1E54-4727-BAF3-CE6CC9A225A1` for a track
/// object.
pub open spec fn interface_id(interface: Interface) -> nat {
    match interface {
        Interface::Application => 0x9DD6680B_3EDC_40DB_A771_E6FE4832E34A,
        Interface::Track => 0x4CB0915D_1E54_4727_BAF3_CE6CC9A225A1,
    }
}

impl Guid {
    /// An identifier with the given fields.
    pub fn from_values(data1: u32, data2: u16, data3: u16, data4: [u8; 8]) -> (guid: Guid)
        ensures
            guid.data1 == data1,
            guid.data2 == data2,
            guid.data3 == data3,
            guid.data4@ == data4@,
    {
        Guid { data1, data2, data3, data4 }
    }

    /// The identifier of the class to create in order to reach the host.
    pub fn application_class() -> (guid: Guid)
        ensures
            guid@ == application_class(),
    {
        Guid::from_values(
            0xDC0C2640,
            0x1415,
            0x4644,
            [0x87, 0x5C, 0x6F, 0x4D, 0x76, 0x98, 0x39, 0xBA],
        )
    }
}

impl Interface {
    /// The identifier under which the host knows this interface.
    pub fn id(self) -> (guid: Guid)
        ensures
            guid@ == interface_id(self),
    {
        match self {
            Interface::Application => Guid::from_values(
                0x9DD6_680B,
                0x3EDC,
                0x40db,
                [0xA7, 0x71, 0xE6, 0xFE, 0x48, 0x32, 0xE3, 0x4A],
            ),
            Interface::Track => Guid::from_values(
                0x4cb0_915d,
                0x1e54,
                0x4727,
                [0xba, 0xf3, 0xce, 0x6c, 0xc9, 0xa2, 0x25, 0xa1],
            ),
        }
    }
}

} // verus!

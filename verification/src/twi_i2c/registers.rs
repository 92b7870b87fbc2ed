//! The five TWI registers, each a set of named bits with conversions to
//! and from the raw byte that firmware reads and writes.
//!
//! Bit 0 of a byte is its least significant bit. Every register lists its
//! fields from bit 0 upwards.
use vstd::prelude::*;

verus! {

/// Whether bit `i` (0 = least significant) of `b` is set.
pub open spec fn bit_is_set(b: u8, i: u8) -> bool {
    (b >> i) & 1u8 == 1u8
}

/// The byte whose bits, from the least significant upwards, are `b0` to `b7`.
pub open spec fn byte_of_bits(
    b0: bool,
    b1: bool,
    b2: bool,
    b3: bool,
    b4: bool,
    b5: bool,
    b6: bool,
    b7: bool,
) -> u8 {
    ((if b0 { 1int } else { 0int }) + (if b1 { 2int } else { 0int }) + (if b2 { 4int } else { 0int }) + (if b3 {
        8int
    } else {
        0int
    }) + (if b4 { 16int } else { 0int }) + (if b5 { 32int } else { 0int }) + (if b6 { 64int } else { 0int }) + (if b7 {
        128int
    } else {
        0int
    })) as u8
}

/// Reads bit `i` of `b`.
pub fn test_bit(b: u8, i: u8) -> (r: bool)
    requires
        i < 8,
    ensures
        r == bit_is_set(b, i),
{
    (b >> i) & 1u8 == 1u8
}

/// Packs eight bits into a byte, `b0` being the least significant.
pub fn pack_bits(
    b0: bool,
    b1: bool,
    b2: bool,
    b3: bool,
    b4: bool,
    b5: bool,
    b6: bool,
    b7: bool,
) -> (r: u8)
    ensures
        r == byte_of_bits(b0, b1, b2, b3, b4, b5, b6, b7),
{
    let mut r: u8 = 0;
    if b0 {
        r = r + 1;
    }
    if b1 {
        r = r + 2;
    }
    if b2 {
        r = r + 4;
    }
    if b3 {
        r = r + 8;
    }
    if b4 {
        r = r + 16;
    }
    if b5 {
        r = r + 32;
    }
    if b6 {
        r = r + 64;
    }
    if b7 {
        r = r + 128;
    }
    r
}

/// Taking a byte apart into its bits and packing them again gives the byte back.
pub proof fn lemma_pack_of_bits(b: u8)
    ensures
        byte_of_bits(
            bit_is_set(b, 0),
            bit_is_set(b, 1),
            bit_is_set(b, 2),
            bit_is_set(b, 3),
            bit_is_set(b, 4),
            bit_is_set(b, 5),
            bit_is_set(b, 6),
            bit_is_set(b, 7),
        ) == b,
{
    assert(b == (if (b >> 0u8) & 1u8 == 1u8 { 1u8 } else { 0u8 }) + (if (b >> 1u8) & 1u8 == 1u8 { 2u8 } else { 0u8 })
        + (if (b >> 2u8) & 1u8 == 1u8 { 4u8 } else { 0u8 }) + (if (b >> 3u8) & 1u8 == 1u8 { 8u8 } else { 0u8 }) + (if (b
        >> 4u8) & 1u8 == 1u8 { 16u8 } else { 0u8 }) + (if (b >> 5u8) & 1u8 == 1u8 { 32u8 } else { 0u8 }) + (if (b
        >> 6u8) & 1u8 == 1u8 { 64u8 } else { 0u8 }) + (if (b >> 7u8) & 1u8 == 1u8 { 128u8 } else { 0u8 }))
        by (bit_vector);
}

/// Packing eight bits and reading one of them back gives that bit.
pub proof fn lemma_bits_of_pack(
    b0: bool,
    b1: bool,
    b2: bool,
    b3: bool,
    b4: bool,
    b5: bool,
    b6: bool,
    b7: bool,
)
    ensures
        ({
            let b = byte_of_bits(b0, b1, b2, b3, b4, b5, b6, b7);
            &&& bit_is_set(b, 0) == b0
            &&& bit_is_set(b, 1) == b1
            &&& bit_is_set(b, 2) == b2
            &&& bit_is_set(b, 3) == b3
            &&& bit_is_set(b, 4) == b4
            &&& bit_is_set(b, 5) == b5
            &&& bit_is_set(b, 6) == b6
            &&& bit_is_set(b, 7) == b7
        }),
{
    let b = byte_of_bits(b0, b1, b2, b3, b4, b5, b6, b7);
    let w0: u8 = if b0 { 1 } else { 0 };
    let w1: u8 = if b1 { 2 } else { 0 };
    let w2: u8 = if b2 { 4 } else { 0 };
    let w3: u8 = if b3 { 8 } else { 0 };
    let w4: u8 = if b4 { 16 } else { 0 };
    let w5: u8 = if b5 { 32 } else { 0 };
    let w6: u8 = if b6 { 64 } else { 0 };
    let w7: u8 = if b7 { 128 } else { 0 };
    assert(b == w0 + w1 + w2 + w3 + w4 + w5 + w6 + w7);
    assert({
        &&& ((b >> 0u8) & 1u8 == 1u8) == (w0 == 1u8)
        &&& ((b >> 1u8) & 1u8 == 1u8) == (w1 == 2u8)
        &&& ((b >> 2u8) & 1u8 == 1u8) == (w2 == 4u8)
        &&& ((b >> 3u8) & 1u8 == 1u8) == (w3 == 8u8)
        &&& ((b >> 4u8) & 1u8 == 1u8) == (w4 == 16u8)
        &&& ((b >> 5u8) & 1u8 == 1u8) == (w5 == 32u8)
        &&& ((b >> 6u8) & 1u8 == 1u8) == (w6 == 64u8)
        &&& ((b >> 7u8) & 1u8 == 1u8) == (w7 == 128u8)
    }) by (bit_vector)
        requires
            b == w0 + w1 + w2 + w3 + w4 + w5 + w6 + w7,
            w0 == 0u8 || w0 == 1u8,
            w1 == 0u8 || w1 == 2u8,
            w2 == 0u8 || w2 == 4u8,
            w3 == 0u8 || w3 == 8u8,
            w4 == 0u8 || w4 == 16u8,
            w5 == 0u8 || w5 == 32u8,
            w6 == 0u8 || w6 == 64u8,
            w7 == 0u8 || w7 == 128u8,
    ;
}

/// TWBR, the TWI bit rate register.
///
/// It holds the division factor of the bit rate generator.
#[derive(Clone, Copy, Debug, PartialEq, Eq, Structural)]
pub struct TWBR {
    /// Bit 0: bit 0 of the division factor.
    pub twbr0: bool,
    /// Bit 1: bit 1 of the division factor.
    pub twbr1: bool,
    /// Bit 2: bit 2 of the division factor.
    pub twbr2: bool,
    /// Bit 3: bit 3 of the division factor.
    pub twbr3: bool,
    /// Bit 4: bit 4 of the division factor.
    pub twbr4: bool,
    /// Bit 5: bit 5 of the division factor.
    pub twbr5: bool,
    /// Bit 6: bit 6 of the division factor.
    pub twbr6: bool,
    /// Bit 7: bit 7 of the division factor.
    pub twbr7: bool,
}

impl TWBR {
    /// The raw byte of this register.
    pub open spec fn byte(self) -> u8 {
        byte_of_bits(
            self.twbr0,
            self.twbr1,
            self.twbr2,
            self.twbr3,
            self.twbr4,
            self.twbr5,
            self.twbr6,
            self.twbr7,
        )
    }

    /// The register that the raw byte `b` decodes to.
    pub open spec fn of_byte(b: u8) -> TWBR {
        TWBR {
            twbr0: bit_is_set(b, 0),
            twbr1: bit_is_set(b, 1),
            twbr2: bit_is_set(b, 2),
            twbr3: bit_is_set(b, 3),
            twbr4: bit_is_set(b, 4),
            twbr5: bit_is_set(b, 5),
            twbr6: bit_is_set(b, 6),
            twbr7: bit_is_set(b, 7),
        }
    }

    /// Decoding a byte and encoding the register again gives the byte back.
    pub proof fn lemma_byte_round_trip(b: u8)
        ensures
            TWBR::of_byte(b).byte() == b,
    {
        lemma_pack_of_bits(b);
    }

    /// Encoding a register and decoding the byte again gives the register back.
    pub proof fn lemma_bits_round_trip(self)
        ensures
            TWBR::of_byte(self.byte()) == self,
    {
        lemma_bits_of_pack(
            self.twbr0,
            self.twbr1,
            self.twbr2,
            self.twbr3,
            self.twbr4,
            self.twbr5,
            self.twbr6,
            self.twbr7,
        );
    }
}

impl From<u8> for TWBR {
    fn from(b: u8) -> (r: TWBR) {
        TWBR {
            twbr0: test_bit(b, 0),
            twbr1: test_bit(b, 1),
            twbr2: test_bit(b, 2),
            twbr3: test_bit(b, 3),
            twbr4: test_bit(b, 4),
            twbr5: test_bit(b, 5),
            twbr6: test_bit(b, 6),
            twbr7: test_bit(b, 7),
        }
    }
}

impl vstd::std_specs::convert::FromSpecImpl<u8> for TWBR {
    open spec fn obeys_from_spec() -> bool {
        true
    }

    open spec fn from_spec(b: u8) -> TWBR {
        TWBR::of_byte(b)
    }
}

impl From<TWBR> for u8 {
    fn from(r: TWBR) -> (b: u8) {
        pack_bits(r.twbr0, r.twbr1, r.twbr2, r.twbr3, r.twbr4, r.twbr5, r.twbr6, r.twbr7)
    }
}

impl vstd::std_specs::convert::FromSpecImpl<TWBR> for u8 {
    open spec fn obeys_from_spec() -> bool {
        true
    }

    open spec fn from_spec(r: TWBR) -> u8 {
        r.byte()
    }
}

/// TWSR, the TWI status register.
///
/// Bits 0 and 1 select the bit rate prescaler, bit 2 is reserved, and the
/// five most significant bits report the state of the bus logic.
#[derive(Clone, Copy, Debug, PartialEq, Eq, Structural)]
pub struct TWSR {
    /// Bit 0: prescaler bit 0.
    pub twps0: bool,
    /// Bit 1: prescaler bit 1.
    pub twps1: bool,
    /// Bit 2: reserved.
    pub reserved: bool,
    /// Bits 3 to 7: the status field. Only its five low bits reach the
    /// register's byte.
    pub status: u8,
}

impl TWSR {
    /// Whether the status field fits its five bits.
    pub open spec fn wf(self) -> bool {
        self.status < 32
    }

    /// The raw byte of this register.
    pub open spec fn byte(self) -> u8 {
        byte_of_bits(
            self.twps0,
            self.twps1,
            self.reserved,
            bit_is_set(self.status, 0),
            bit_is_set(self.status, 1),
            bit_is_set(self.status, 2),
            bit_is_set(self.status, 3),
            bit_is_set(self.status, 4),
        )
    }

    /// The register that the raw byte `b` decodes to.
    pub open spec fn of_byte(b: u8) -> TWSR {
        TWSR {
            twps0: bit_is_set(b, 0),
            twps1: bit_is_set(b, 1),
            reserved: bit_is_set(b, 2),
            status: b >> 3u8,
        }
    }

    /// A decoded register is well formed, and its status field is the
    /// byte's five most significant bits.
    pub proof fn lemma_of_byte_wf(b: u8)
        ensures
            TWSR::of_byte(b).wf(),
            TWSR::of_byte(b).status == b / 8,
    {
        assert((b >> 3u8) < 32 && (b >> 3u8) == b / 8) by (bit_vector);
    }

    /// Decoding a byte and encoding the register again gives the byte back.
    pub proof fn lemma_byte_round_trip(b: u8)
        ensures
            TWSR::of_byte(b).byte() == b,
    {
        lemma_pack_of_bits(b);
        let s = b >> 3u8;
        assert({
            &&& ((s >> 0u8) & 1u8 == 1u8) == ((b >> 3u8) & 1u8 == 1u8)
            &&& ((s >> 1u8) & 1u8 == 1u8) == ((b >> 4u8) & 1u8 == 1u8)
            &&& ((s >> 2u8) & 1u8 == 1u8) == ((b >> 5u8) & 1u8 == 1u8)
            &&& ((s >> 3u8) & 1u8 == 1u8) == ((b >> 6u8) & 1u8 == 1u8)
            &&& ((s >> 4u8) & 1u8 == 1u8) == ((b >> 7u8) & 1u8 == 1u8)
        }) by (bit_vector)
            requires
                s == b >> 3u8,
        ;
    }

    /// Encoding a well-formed register and decoding the byte again gives
    /// the register back.
    pub proof fn lemma_bits_round_trip(self)
        requires
            self.wf(),
        ensures
            TWSR::of_byte(self.byte()) == self,
    {
        let s = self.status;
        let b = self.byte();
        lemma_bits_of_pack(
            self.twps0,
            self.twps1,
            self.reserved,
            bit_is_set(s, 0),
            bit_is_set(s, 1),
            bit_is_set(s, 2),
            bit_is_set(s, 3),
            bit_is_set(s, 4),
        );
        assert(b >> 3u8 == s) by (bit_vector)
            requires
                s < 32,
                ((b >> 3u8) & 1u8 == 1u8) == ((s >> 0u8) & 1u8 == 1u8),
                ((b >> 4u8) & 1u8 == 1u8) == ((s >> 1u8) & 1u8 == 1u8),
                ((b >> 5u8) & 1u8 == 1u8) == ((s >> 2u8) & 1u8 == 1u8),
                ((b >> 6u8) & 1u8 == 1u8) == ((s >> 3u8) & 1u8 == 1u8),
                ((b >> 7u8) & 1u8 == 1u8) == ((s >> 4u8) & 1u8 == 1u8),
        ;
    }
}

impl From<u8> for TWSR {
    fn from(b: u8) -> (r: TWSR) {
        TWSR { twps0: test_bit(b, 0), twps1: test_bit(b, 1), reserved: test_bit(b, 2), status: b >> 3u8 }
    }
}

impl vstd::std_specs::convert::FromSpecImpl<u8> for TWSR {
    open spec fn obeys_from_spec() -> bool {
        true
    }

    open spec fn from_spec(b: u8) -> TWSR {
        TWSR::of_byte(b)
    }
}

impl From<TWSR> for u8 {
    fn from(r: TWSR) -> (b: u8) {
        pack_bits(
            r.twps0,
            r.twps1,
            r.reserved,
            test_bit(r.status, 0),
            test_bit(r.status, 1),
            test_bit(r.status, 2),
            test_bit(r.status, 3),
            test_bit(r.status, 4),
        )
    }
}

impl vstd::std_specs::convert::FromSpecImpl<TWSR> for u8 {
    open spec fn obeys_from_spec() -> bool {
        true
    }

    open spec fn from_spec(r: TWSR) -> u8 {
        r.byte()
    }
}

/// TWAR, the TWI (slave) address register.
///
/// The seven most significant bits hold the address this controller answers
/// to as a slave; the least significant bit enables the general call.
#[derive(Clone, Copy, Debug, PartialEq, Eq, Structural)]
pub struct TWAR {
    /// Bit 0: general call recognition enable.
    pub twgce: bool,
    /// Bit 1: bit 0 of the slave address.
    pub twa0: bool,
    /// Bit 2: bit 1 of the slave address.
    pub twa1: bool,
    /// Bit 3: bit 2 of the slave address.
    pub twa2: bool,
    /// Bit 4: bit 3 of the slave address.
    pub twa3: bool,
    /// Bit 5: bit 4 of the slave address.
    pub twa4: bool,
    /// Bit 6: bit 5 of the slave address.
    pub twa5: bool,
    /// Bit 7: bit 6 of the slave address.
    pub twa6: bool,
}

impl TWAR {
    /// The raw byte of this register.
    pub open spec fn byte(self) -> u8 {
        byte_of_bits(
            self.twgce,
            self.twa0,
            self.twa1,
            self.twa2,
            self.twa3,
            self.twa4,
            self.twa5,
            self.twa6,
        )
    }

    /// The register that the raw byte `b` decodes to.
    pub open spec fn of_byte(b: u8) -> TWAR {
        TWAR {
            twgce: bit_is_set(b, 0),
            twa0: bit_is_set(b, 1),
            twa1: bit_is_set(b, 2),
            twa2: bit_is_set(b, 3),
            twa3: bit_is_set(b, 4),
            twa4: bit_is_set(b, 5),
            twa5: bit_is_set(b, 6),
            twa6: bit_is_set(b, 7),
        }
    }

    /// Decoding a byte and encoding the register again gives the byte back.
    pub proof fn lemma_byte_round_trip(b: u8)
        ensures
            TWAR::of_byte(b).byte() == b,
    {
        lemma_pack_of_bits(b);
    }

    /// Encoding a register and decoding the byte again gives the register back.
    pub proof fn lemma_bits_round_trip(self)
        ensures
            TWAR::of_byte(self.byte()) == self,
    {
        lemma_bits_of_pack(
            self.twgce,
            self.twa0,
            self.twa1,
            self.twa2,
            self.twa3,
            self.twa4,
            self.twa5,
            self.twa6,
        );
    }
}

impl From<u8> for TWAR {
    fn from(b: u8) -> (r: TWAR) {
        TWAR {
            twgce: test_bit(b, 0),
            twa0: test_bit(b, 1),
            twa1: test_bit(b, 2),
            twa2: test_bit(b, 3),
            twa3: test_bit(b, 4),
            twa4: test_bit(b, 5),
            twa5: test_bit(b, 6),
            twa6: test_bit(b, 7),
        }
    }
}

impl vstd::std_specs::convert::FromSpecImpl<u8> for TWAR {
    open spec fn obeys_from_spec() -> bool {
        true
    }

    open spec fn from_spec(b: u8) -> TWAR {
        TWAR::of_byte(b)
    }
}

impl From<TWAR> for u8 {
    fn from(r: TWAR) -> (b: u8) {
        pack_bits(r.twgce, r.twa0, r.twa1, r.twa2, r.twa3, r.twa4, r.twa5, r.twa6)
    }
}

impl vstd::std_specs::convert::FromSpecImpl<TWAR> for u8 {
    open spec fn obeys_from_spec() -> bool {
        true
    }

    open spec fn from_spec(r: TWAR) -> u8 {
        r.byte()
    }
}

/// TWDR, the TWI data register.
///
/// In transmit mode it holds the next byte to send; the first byte after a
/// START is the slave address in bits 7 to 1 and the direction in bit 0.
#[derive(Clone, Copy, Debug, PartialEq, Eq, Structural)]
pub struct TWDR {
    /// Bit 0: bit 0 of the data byte.
    pub twd0: bool,
    /// Bit 1: bit 1 of the data byte.
    pub twd1: bool,
    /// Bit 2: bit 2 of the data byte.
    pub twd2: bool,
    /// Bit 3: bit 3 of the data byte.
    pub twd3: bool,
    /// Bit 4: bit 4 of the data byte.
    pub twd4: bool,
    /// Bit 5: bit 5 of the data byte.
    pub twd5: bool,
    /// Bit 6: bit 6 of the data byte.
    pub twd6: bool,
    /// Bit 7: bit 7 of the data byte.
    pub twd7: bool,
}

impl TWDR {
    /// The raw byte of this register.
    pub open spec fn byte(self) -> u8 {
        byte_of_bits(
            self.twd0,
            self.twd1,
            self.twd2,
            self.twd3,
            self.twd4,
            self.twd5,
            self.twd6,
            self.twd7,
        )
    }

    /// The register that the raw byte `b` decodes to.
    pub open spec fn of_byte(b: u8) -> TWDR {
        TWDR {
            twd0: bit_is_set(b, 0),
            twd1: bit_is_set(b, 1),
            twd2: bit_is_set(b, 2),
            twd3: bit_is_set(b, 3),
            twd4: bit_is_set(b, 4),
            twd5: bit_is_set(b, 5),
            twd6: bit_is_set(b, 6),
            twd7: bit_is_set(b, 7),
        }
    }

    /// Decoding a byte and encoding the register again gives the byte back.
    pub proof fn lemma_byte_round_trip(b: u8)
        ensures
            TWDR::of_byte(b).byte() == b,
    {
        lemma_pack_of_bits(b);
    }

    /// Encoding a register and decoding the byte again gives the register back.
    pub proof fn lemma_bits_round_trip(self)
        ensures
            TWDR::of_byte(self.byte()) == self,
    {
        lemma_bits_of_pack(
            self.twd0,
            self.twd1,
            self.twd2,
            self.twd3,
            self.twd4,
            self.twd5,
            self.twd6,
            self.twd7,
        );
    }
}

impl From<u8> for TWDR {
    fn from(b: u8) -> (r: TWDR) {
        TWDR {
            twd0: test_bit(b, 0),
            twd1: test_bit(b, 1),
            twd2: test_bit(b, 2),
            twd3: test_bit(b, 3),
            twd4: test_bit(b, 4),
            twd5: test_bit(b, 5),
            twd6: test_bit(b, 6),
            twd7: test_bit(b, 7),
        }
    }
}

impl vstd::std_specs::convert::FromSpecImpl<u8> for TWDR {
    open spec fn obeys_from_spec() -> bool {
        true
    }

    open spec fn from_spec(b: u8) -> TWDR {
        TWDR::of_byte(b)
    }
}

impl From<TWDR> for u8 {
    fn from(r: TWDR) -> (b: u8) {
        pack_bits(r.twd0, r.twd1, r.twd2, r.twd3, r.twd4, r.twd5, r.twd6, r.twd7)
    }
}

impl vstd::std_specs::convert::FromSpecImpl<TWDR> for u8 {
    open spec fn obeys_from_spec() -> bool {
        true
    }

    open spec fn from_spec(r: TWDR) -> u8 {
        r.byte()
    }
}

/// TWCR, the TWI control register.
///
/// It enables the interface, requests START and STOP conditions, and
/// carries the interrupt flag that every bus operation waits for.
#[derive(Clone, Copy, Debug, PartialEq, Eq, Structural)]
pub struct TWCR {
    /// Bit 0: interrupt enable.
    pub twie: bool,
    /// Bit 1: reserved.
    pub reserved: bool,
    /// Bit 2: interface enable.
    pub twen: bool,
    /// Bit 3: write collision, set when TWDR is written while TWINT is low.
    pub twwc: bool,
    /// Bit 4: STOP condition request.
    pub twsto: bool,
    /// Bit 5: START condition request.
    pub twsta: bool,
    /// Bit 6: acknowledge enable.
    pub twea: bool,
    /// Bit 7: interrupt flag, set when the current job is finished.
    pub twint: bool,
}

impl TWCR {
    /// The raw byte of this register.
    pub open spec fn byte(self) -> u8 {
        byte_of_bits(
            self.twie,
            self.reserved,
            self.twen,
            self.twwc,
            self.twsto,
            self.twsta,
            self.twea,
            self.twint,
        )
    }

    /// The register that the raw byte `b` decodes to.
    pub open spec fn of_byte(b: u8) -> TWCR {
        TWCR {
            twie: bit_is_set(b, 0),
            reserved: bit_is_set(b, 1),
            twen: bit_is_set(b, 2),
            twwc: bit_is_set(b, 3),
            twsto: bit_is_set(b, 4),
            twsta: bit_is_set(b, 5),
            twea: bit_is_set(b, 6),
            twint: bit_is_set(b, 7),
        }
    }

    /// Decoding a byte and encoding the register again gives the byte back.
    pub proof fn lemma_byte_round_trip(b: u8)
        ensures
            TWCR::of_byte(b).byte() == b,
    {
        lemma_pack_of_bits(b);
    }

    /// Encoding a register and decoding the byte again gives the register back.
    pub proof fn lemma_bits_round_trip(self)
        ensures
            TWCR::of_byte(self.byte()) == self,
    {
        lemma_bits_of_pack(
            self.twie,
            self.reserved,
            self.twen,
            self.twwc,
            self.twsto,
            self.twsta,
            self.twea,
            self.twint,
        );
    }
}

impl From<u8> for TWCR {
    fn from(b: u8) -> (r: TWCR) {
        TWCR {
            twie: test_bit(b, 0),
            reserved: test_bit(b, 1),
            twen: test_bit(b, 2),
            twwc: test_bit(b, 3),
            twsto: test_bit(b, 4),
            twsta: test_bit(b, 5),
            twea: test_bit(b, 6),
            twint: test_bit(b, 7),
        }
    }
}

impl vstd::std_specs::convert::FromSpecImpl<u8> for TWCR {
    open spec fn obeys_from_spec() -> bool {
        true
    }

    open spec fn from_spec(b: u8) -> TWCR {
        TWCR::of_byte(b)
    }
}

impl From<TWCR> for u8 {
    fn from(r: TWCR) -> (b: u8) {
        pack_bits(r.twie, r.reserved, r.twen, r.twwc, r.twsto, r.twsta, r.twea, r.twint)
    }
}

impl vstd::std_specs::convert::FromSpecImpl<TWCR> for u8 {
    open spec fn obeys_from_spec() -> bool {
        true
    }

    open spec fn from_spec(r: TWCR) -> u8 {
        r.byte()
    }
}

/// A START condition was transmitted.
pub const TW_START: u8 = 0x08;

/// A repeated START condition was transmitted.
pub const TW_REP_START: u8 = 0x10;

/// Master transmitter: SLA+W transmitted, ACK received.
pub const TW_MT_SLA_ACK: u8 = 0x18;

/// Master transmitter: SLA+W transmitted, NACK received.
pub const TW_MT_SLA_NACK: u8 = 0x20;

/// Master transmitter: data transmitted, ACK received.
pub const TW_MT_DATA_ACK: u8 = 0x28;

/// Master transmitter: data transmitted, NACK received.
pub const TW_MT_DATA_NACK: u8 = 0x30;

/// Master transmitter: arbitration lost in SLA+W or data.
pub const TW_MT_ARB_LOST: u8 = 0x38;

/// Master receiver: arbitration lost in SLA+R or NACK.
pub const TW_MR_ARB_LOST: u8 = 0x38;

/// Master receiver: SLA+R transmitted, ACK received.
pub const TW_MR_SLA_ACK: u8 = 0x40;

/// Master receiver: SLA+R transmitted, NACK received.
pub const TW_MR_SLA_NACK: u8 = 0x48;

/// Master receiver: data received, ACK returned.
pub const TW_MR_DATA_ACK: u8 = 0x50;

/// Master receiver: data received, NACK returned.
pub const TW_MR_DATA_NACK: u8 = 0x58;

/// Slave transmitter: SLA+R received, ACK returned.
pub const TW_ST_SLA_ACK: u8 = 0xA8;

/// Slave transmitter: arbitration lost in SLA+RW, SLA+R received, ACK returned.
pub const TW_ST_ARB_LOST_SLA_ACK: u8 = 0xB0;

/// Slave transmitter: data transmitted, ACK received.
pub const TW_ST_DATA_ACK: u8 = 0xB8;

/// Slave transmitter: data transmitted, NACK received.
pub const TW_ST_DATA_NACK: u8 = 0xC0;

/// Slave transmitter: last data byte transmitted, ACK received.
pub const TW_ST_LAST_DATA: u8 = 0xC8;

/// Slave receiver: SLA+W received, ACK returned.
pub const TW_SR_SLA_ACK: u8 = 0x60;

/// Slave receiver: arbitration lost in SLA+RW, SLA+W received, ACK returned.
pub const TW_SR_ARB_LOST_SLA_ACK: u8 = 0x68;

/// Slave receiver: general call received, ACK returned.
pub const TW_SR_GCALL_ACK: u8 = 0x70;

/// Slave receiver: arbitration lost in SLA+RW, general call received, ACK returned.
pub const TW_SR_ARB_LOST_GCALL_ACK: u8 = 0x78;

/// Slave receiver: data received, ACK returned.
pub const TW_SR_DATA_ACK: u8 = 0x80;

/// Slave receiver: data received, NACK returned.
pub const TW_SR_DATA_NACK: u8 = 0x88;

/// Slave receiver: general call data received, ACK returned.
pub const TW_SR_GCALL_DATA_ACK: u8 = 0x90;

/// Slave receiver: general call data received, NACK returned.
pub const TW_SR_GCALL_DATA_NACK: u8 = 0x98;

/// Slave receiver: STOP or repeated START received while selected.
pub const TW_SR_STOP: u8 = 0xA0;

/// No state information available.
pub const TW_NO_INFO: u8 = 0xF8;

/// Illegal START or STOP condition.
pub const TW_BUS_ERROR: u8 = 0x00;

/// The register that a bus offset addresses.
#[allow(non_camel_case_types)]
#[derive(Clone, Copy, Debug, PartialEq, Eq, Structural)]
pub enum RegisterOffset {
    /// Offset 0.
    TWBR,
    /// Offset 1.
    TWSR,
    /// Offset 2.
    TWAR,
    /// Offset 3.
    TWDR,
    /// Offset 4.
    TWCR,
}

impl RegisterOffset {
    /// The register at `offset`, if there is one.
    pub open spec fn at(offset: u64) -> Option<RegisterOffset> {
        if offset == 0 {
            Some(RegisterOffset::TWBR)
        } else if offset == 1 {
            Some(RegisterOffset::TWSR)
        } else if offset == 2 {
            Some(RegisterOffset::TWAR)
        } else if offset == 3 {
            Some(RegisterOffset::TWDR)
        } else if offset == 4 {
            Some(RegisterOffset::TWCR)
        } else {
            None
        }
    }

    /// The offset of this register.
    pub open spec fn spec_offset(self) -> u64 {
        match self {
            RegisterOffset::TWBR => 0,
            RegisterOffset::TWSR => 1,
            RegisterOffset::TWAR => 2,
            RegisterOffset::TWDR => 3,
            RegisterOffset::TWCR => 4,
        }
    }

    /// Decodes a bus offset. Offsets 0 to 4 name a register, every other
    /// offset names none.
    pub fn from_offset(offset: u64) -> (r: Option<RegisterOffset>)
        ensures
            r == RegisterOffset::at(offset),
            r matches Some(reg) ==> reg.spec_offset() == offset,
    {
        match offset {
            0 => Some(RegisterOffset::TWBR),
            1 => Some(RegisterOffset::TWSR),
            2 => Some(RegisterOffset::TWAR),
            3 => Some(RegisterOffset::TWDR),
            4 => Some(RegisterOffset::TWCR),
            _ => None,
        }
    }

    /// The bus offset of this register.
    #[verifier::when_used_as_spec(spec_offset)]
    pub fn offset(self) -> (r: u64)
        ensures
            r == self.spec_offset(),
            RegisterOffset::at(r) == Some(self),
    {
        match self {
            RegisterOffset::TWBR => 0,
            RegisterOffset::TWSR => 1,
            RegisterOffset::TWAR => 2,
            RegisterOffset::TWDR => 3,
            RegisterOffset::TWCR => 4,
        }
    }
}

/// The register file of the controller, with the one bit of bus state that
/// no register shows.
#[derive(Clone, Copy, Debug, PartialEq, Eq, Structural)]
pub struct TWIRegisters {
    pub twbr: TWBR,
    pub twsr: TWSR,
    pub twar: TWAR,
    pub twdr: TWDR,
    pub twcr: TWCR,
    /// True from a START request until a STOP has been processed.
    pub in_transaction: bool,
}

impl TWIRegisters {
    /// The register file after power-on or reset: TWBR 0x00, TWSR 0xF8,
    /// TWAR 0xFE, TWDR 0xFF, TWCR 0x00, no transaction.
    pub open spec fn power_on() -> TWIRegisters {
        TWIRegisters {
            twbr: TWBR::of_byte(0x00),
            twsr: TWSR::of_byte(0xF8),
            twar: TWAR::of_byte(0xFE),
            twdr: TWDR::of_byte(0xFF),
            twcr: TWCR::of_byte(0x00),
            in_transaction: false,
        }
    }

    /// A register file in its power-on state.
    pub fn new() -> (r: TWIRegisters)
        ensures
            r == TWIRegisters::power_on(),
    {
        TWIRegisters {
            twbr: TWBR::from(0x00u8),
            twsr: TWSR::from(0xF8u8),
            twar: TWAR::from(0xFEu8),
            twdr: TWDR::from(0xFFu8),
            twcr: TWCR::from(0x00u8),
            in_transaction: false,
        }
    }

    /// Restores the power-on state.
    pub fn reset(&mut self)
        ensures
            *final(self) == TWIRegisters::power_on(),
    {
        self.twbr = TWBR::from(0x00u8);
        self.twsr = TWSR::from(0xF8u8);
        self.twar = TWAR::from(0xFEu8);
        self.twdr = TWDR::from(0xFFu8);
        self.twcr = TWCR::from(0x00u8);
        self.in_transaction = false;
    }
}

} // verus!

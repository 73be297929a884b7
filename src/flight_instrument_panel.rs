use vstd::prelude::*;

use crate::codec::{
    contiguous, field, flag, get_flag, lemma_flag_bit, lemma_flag_is_set, layout_end, le16, lemma_contiguous_layout, ranges_disjoint,
    read_le16, width_sum,
};

verus! {

/// USB vendor and product id of the instrument panel.
pub const VENDOR_ID: u16 = 0x06A3;

pub const PRODUCT_ID: u16 = 0xA2AE;

/// The instrument panel; its device loop runs outside the library.
pub struct FlightInstrumentPanel {}

/// The instrument panel's input report, 16 bits.
#[derive(Clone, Copy, Debug, PartialEq, Eq, Structural)]
pub struct FlightInstrumentPanelInputs {
    pub s1: bool,
    pub s2: bool,
    pub s3: bool,
    pub s4: bool,
    pub s5: bool,
    pub s6: bool,
    pub left_encoder_dec: bool,
    pub left_encoder_inc: bool,
    pub up: bool,
    pub down: bool,
    pub right_encoder_dec: bool,
    pub right_encoder_inc: bool,
}

impl FlightInstrumentPanelInputs {
    /// First bit of field `k`: twelve buttons, then the padding.
    pub open spec fn offset(k: int) -> u32 {
        k as u32
    }

    /// Width of field `k`.
    pub open spec fn width(k: int) -> u32 {
        if k == 12 {
            4
        } else {
            1
        }
    }

    pub open spec fn offsets() -> Seq<u32> {
        Seq::new(13, |k: int| Self::offset(k))
    }

    pub open spec fn widths() -> Seq<u32> {
        Seq::new(13, |k: int| Self::width(k))
    }

    /// The raw value of field `k`.
    pub open spec fn field_at(raw: u16, k: int) -> u32 {
        field(raw as u32, Self::offset(k), Self::width(k))
    }

    pub open spec fn spec_from_bits(raw: u16) -> Self {
        FlightInstrumentPanelInputs {
            s1: Self::field_at(raw, 0) == 1,
            s2: Self::field_at(raw, 1) == 1,
            s3: Self::field_at(raw, 2) == 1,
            s4: Self::field_at(raw, 3) == 1,
            s5: Self::field_at(raw, 4) == 1,
            s6: Self::field_at(raw, 5) == 1,
            left_encoder_dec: Self::field_at(raw, 6) == 1,
            left_encoder_inc: Self::field_at(raw, 7) == 1,
            up: Self::field_at(raw, 8) == 1,
            down: Self::field_at(raw, 9) == 1,
            right_encoder_dec: Self::field_at(raw, 10) == 1,
            right_encoder_inc: Self::field_at(raw, 11) == 1,
        }
    }

    /// Decodes a raw report.
    pub fn from_bits(raw: u16) -> (r: Self)
        ensures
            r == Self::spec_from_bits(raw),
    {
        FlightInstrumentPanelInputs {
            s1: get_flag(raw as u32, 0),
            s2: get_flag(raw as u32, 1),
            s3: get_flag(raw as u32, 2),
            s4: get_flag(raw as u32, 3),
            s5: get_flag(raw as u32, 4),
            s6: get_flag(raw as u32, 5),
            left_encoder_dec: get_flag(raw as u32, 6),
            left_encoder_inc: get_flag(raw as u32, 7),
            up: get_flag(raw as u32, 8),
            down: get_flag(raw as u32, 9),
            right_encoder_dec: get_flag(raw as u32, 10),
            right_encoder_inc: get_flag(raw as u32, 11),
        }
    }

    /// The raw report of the record: bit `k` is field `k`, the padding zero.
    pub open spec fn spec_into_bits(self) -> u16 {
        (1 * flag(self.s1) + 2 * flag(self.s2) + 4 * flag(self.s3) + 8 * flag(self.s4) + 16 * flag(self.s5) + 32 * flag(self.s6) + 64 * flag(self.left_encoder_dec) + 128 * flag(self.left_encoder_inc) + 256 * flag(self.up) + 512 * flag(self.down) + 1024 * flag(self.right_encoder_dec) + 2048 * flag(self.right_encoder_inc)) as u16
    }

    /// Encodes the record; the padding bits are zero.
    pub fn into_bits(self) -> (r: u16)
        ensures
            r == self.spec_into_bits(),
            Self::spec_from_bits(r) == self,
    {
        proof {
            lemma_instrument_round_trip(self);
            lemma_flag_bit(self.s1);
            lemma_flag_bit(self.s2);
            lemma_flag_bit(self.s3);
            lemma_flag_bit(self.s4);
            lemma_flag_bit(self.s5);
            lemma_flag_bit(self.s6);
            lemma_flag_bit(self.left_encoder_dec);
            lemma_flag_bit(self.left_encoder_inc);
            lemma_flag_bit(self.up);
            lemma_flag_bit(self.down);
            lemma_flag_bit(self.right_encoder_dec);
            lemma_flag_bit(self.right_encoder_inc);
            reveal(flag);
        }
        let mut r: u16 = 0;
        if self.s1 {
            r = r + 1;
        }
        if self.s2 {
            r = r + 2;
        }
        if self.s3 {
            r = r + 4;
        }
        if self.s4 {
            r = r + 8;
        }
        if self.s5 {
            r = r + 16;
        }
        if self.s6 {
            r = r + 32;
        }
        if self.left_encoder_dec {
            r = r + 64;
        }
        if self.left_encoder_inc {
            r = r + 128;
        }
        if self.up {
            r = r + 256;
        }
        if self.down {
            r = r + 512;
        }
        if self.right_encoder_dec {
            r = r + 1024;
        }
        if self.right_encoder_inc {
            r = r + 2048;
        }
        r
    }

    /// Decodes an input report of exactly two bytes, little-endian; a report of another
    /// length gives `None`.
    pub fn from_report(report: &[u8]) -> (r: Option<Self>)
        ensures
            r == (if report@.len() == 2 {
                Some(Self::spec_from_bits(le16(report@)))
            } else {
                None::<Self>
            }),
    {
        match read_le16(report) {
            Some(raw) => Some(Self::from_bits(raw)),
            None => None,
        }
    }
}

impl From<u16> for FlightInstrumentPanelInputs {
    fn from(value: u16) -> Self {
        Self::from_bits(value)
    }
}

impl vstd::std_specs::convert::FromSpecImpl<u16> for FlightInstrumentPanelInputs {
    open spec fn obeys_from_spec() -> bool {
        true
    }

    open spec fn from_spec(v: u16) -> Self {
        Self::spec_from_bits(v)
    }
}

/// The instrument panel's fields, padding included, cover the 16 bits of its report
/// exactly once.
pub proof fn lemma_instrument_inputs_layout()
    ensures
        contiguous(
            FlightInstrumentPanelInputs::offsets(),
            FlightInstrumentPanelInputs::widths(),
        ),
        ranges_disjoint(
            FlightInstrumentPanelInputs::offsets(),
            FlightInstrumentPanelInputs::widths(),
        ),
        width_sum(FlightInstrumentPanelInputs::widths()) == 16,
        layout_end(FlightInstrumentPanelInputs::offsets(), FlightInstrumentPanelInputs::widths())
            == 16,
{
    lemma_contiguous_layout(
        FlightInstrumentPanelInputs::offsets(),
        FlightInstrumentPanelInputs::widths(),
    );
}

proof fn lemma_instrument_fields(x: u16,
    b0: u32,
    b1: u32,
    b2: u32,
    b3: u32,
    b4: u32,
    b5: u32,
    b6: u32,
    b7: u32,
    b8: u32,
    b9: u32,
    b10: u32,
    b11: u32,
)
    by (bit_vector)
    requires
        b0 < 2 && b1 < 2 && b2 < 2 && b3 < 2 && b4 < 2 && b5 < 2 && b6 < 2 && b7 < 2 && b8 < 2 && b9 < 2 && b10 < 2 && b11 < 2,
        x == 1 * b0 + 2 * b1 + 4 * b2 + 8 * b3 + 16 * b4 + 32 * b5 + 64 * b6 + 128 * b7 + 256 * b8 + 512 * b9 + 1024 * b10 + 2048 * b11,
    ensures
        field(x as u32, 0, 1) == b0 && field(x as u32, 1, 1) == b1 && field(x as u32, 2, 1) == b2 && field(x as u32, 3, 1) == b3 && field(x as u32, 4, 1) == b4 && field(x as u32, 5, 1) == b5 && field(x as u32, 6, 1) == b6 && field(x as u32, 7, 1) == b7 && field(x as u32, 8, 1) == b8 && field(x as u32, 9, 1) == b9 && field(x as u32, 10, 1) == b10 && field(x as u32, 11, 1) == b11,
{
}

proof fn lemma_instrument_decode(x: u16, r: FlightInstrumentPanelInputs)
    requires
        field(x as u32, 0, 1) == flag(r.s1),
        field(x as u32, 1, 1) == flag(r.s2),
        field(x as u32, 2, 1) == flag(r.s3),
        field(x as u32, 3, 1) == flag(r.s4),
        field(x as u32, 4, 1) == flag(r.s5),
        field(x as u32, 5, 1) == flag(r.s6),
        field(x as u32, 6, 1) == flag(r.left_encoder_dec),
        field(x as u32, 7, 1) == flag(r.left_encoder_inc),
        field(x as u32, 8, 1) == flag(r.up),
        field(x as u32, 9, 1) == flag(r.down),
        field(x as u32, 10, 1) == flag(r.right_encoder_dec),
        field(x as u32, 11, 1) == flag(r.right_encoder_inc),
    ensures
        FlightInstrumentPanelInputs::spec_from_bits(x) == r,
{
    lemma_flag_is_set(r.s1);
    lemma_flag_is_set(r.s2);
    lemma_flag_is_set(r.s3);
    lemma_flag_is_set(r.s4);
    lemma_flag_is_set(r.s5);
    lemma_flag_is_set(r.s6);
    lemma_flag_is_set(r.left_encoder_dec);
    lemma_flag_is_set(r.left_encoder_inc);
    lemma_flag_is_set(r.up);
    lemma_flag_is_set(r.down);
    lemma_flag_is_set(r.right_encoder_dec);
    lemma_flag_is_set(r.right_encoder_inc);
}

/// Encoding an instrument-panel record and decoding the report gives the record back.
#[verifier::rlimit(100)]
pub proof fn lemma_instrument_round_trip(r: FlightInstrumentPanelInputs)
    ensures
        FlightInstrumentPanelInputs::spec_from_bits(r.spec_into_bits()) == r,
{
    lemma_flag_bit(r.s1);
    lemma_flag_bit(r.s2);
    lemma_flag_bit(r.s3);
    lemma_flag_bit(r.s4);
    lemma_flag_bit(r.s5);
    lemma_flag_bit(r.s6);
    lemma_flag_bit(r.left_encoder_dec);
    lemma_flag_bit(r.left_encoder_inc);
    lemma_flag_bit(r.up);
    lemma_flag_bit(r.down);
    lemma_flag_bit(r.right_encoder_dec);
    lemma_flag_bit(r.right_encoder_inc);
    lemma_instrument_fields(
        r.spec_into_bits(),
        flag(r.s1),
        flag(r.s2),
        flag(r.s3),
        flag(r.s4),
        flag(r.s5),
        flag(r.s6),
        flag(r.left_encoder_dec),
        flag(r.left_encoder_inc),
        flag(r.up),
        flag(r.down),
        flag(r.right_encoder_dec),
        flag(r.right_encoder_inc),
    );
    lemma_instrument_decode(r.spec_into_bits(), r);
}

} // verus!

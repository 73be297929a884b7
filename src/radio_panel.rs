use vstd::prelude::*;

use crate::codec::{
    contiguous, field, get_field, get_flag, layout_end, le32, lemma_contiguous_layout,
    ranges_disjoint, read_le32, width_sum,
};
use crate::multi_panel::place;

verus! {

/// USB vendor and product id of the radio panel.
pub const VENDOR_ID: u16 = 0x06A3;

pub const PRODUCT_ID: u16 = 0x0D05;

/// Display code of an empty position.
pub const BLANK: u8 = 0xFF;

/// Added to a digit's code to light the decimal point after it.
pub const DECIMAL_POINT: u8 = 0xD0;

/// Position of a radio mode selector.
#[allow(non_camel_case_types)]
#[derive(Clone, Copy, Debug, PartialEq, Eq, Structural)]
pub enum ComSelection {
    Invalid,
    COM1,
    COM2,
    NAV1,
    NAV2,
    ADF,
    DME,
    XPDR,
}

impl ComSelection {
    /// Decoding by range: the highest set bit of the raw value decides.
    pub open spec fn spec_from_raw(v: u32) -> Self {
        if v == 0 {
            ComSelection::Invalid
        } else if v == 1 {
            ComSelection::COM1
        } else if v < 4 {
            ComSelection::COM2
        } else if v < 8 {
            ComSelection::NAV1
        } else if v < 16 {
            ComSelection::NAV2
        } else if v < 32 {
            ComSelection::ADF
        } else if v < 64 {
            ComSelection::DME
        } else {
            ComSelection::XPDR
        }
    }

    pub open spec fn spec_raw(self) -> u32 {
        match self {
            ComSelection::Invalid => 0,
            ComSelection::COM1 => 1,
            ComSelection::COM2 => 2,
            ComSelection::NAV1 => 4,
            ComSelection::NAV2 => 8,
            ComSelection::ADF => 16,
            ComSelection::DME => 32,
            ComSelection::XPDR => 64,
        }
    }

    pub fn from_raw(v: u32) -> (r: Self)
        ensures
            r == Self::spec_from_raw(v),
    {
        if v == 0 {
            ComSelection::Invalid
        } else if v == 1 {
            ComSelection::COM1
        } else if v < 4 {
            ComSelection::COM2
        } else if v < 8 {
            ComSelection::NAV1
        } else if v < 16 {
            ComSelection::NAV2
        } else if v < 32 {
            ComSelection::ADF
        } else if v < 64 {
            ComSelection::DME
        } else {
            ComSelection::XPDR
        }
    }

    pub fn raw(self) -> (r: u32)
        ensures
            r == self.spec_raw(),
    {
        match self {
            ComSelection::Invalid => 0,
            ComSelection::COM1 => 1,
            ComSelection::COM2 => 2,
            ComSelection::NAV1 => 4,
            ComSelection::NAV2 => 8,
            ComSelection::ADF => 16,
            ComSelection::DME => 32,
            ComSelection::XPDR => 64,
        }
    }
}

impl From<u32> for ComSelection {
    fn from(value: u32) -> Self {
        Self::from_raw(value)
    }
}

impl vstd::std_specs::convert::FromSpecImpl<u32> for ComSelection {
    open spec fn obeys_from_spec() -> bool {
        true
    }

    open spec fn from_spec(v: u32) -> Self {
        Self::spec_from_raw(v)
    }
}

impl From<ComSelection> for u32 {
    fn from(value: ComSelection) -> Self {
        value.raw()
    }
}

impl vstd::std_specs::convert::FromSpecImpl<ComSelection> for u32 {
    open spec fn obeys_from_spec() -> bool {
        true
    }

    open spec fn from_spec(v: ComSelection) -> Self {
        v.spec_raw()
    }
}

/// Raw values that lie between two values of one position decode to that position too,
/// and a position's own raw value decodes back to it.
pub proof fn lemma_com_selection_ranges(a: u32, b: u32, c: u32, e: ComSelection)
    requires
        a <= c <= b,
        ComSelection::spec_from_raw(a) == ComSelection::spec_from_raw(b),
    ensures
        ComSelection::spec_from_raw(c) == ComSelection::spec_from_raw(a),
        ComSelection::spec_from_raw(e.spec_raw()) == e,
{
}

/// The radio panel's input report, 32 bits.
#[derive(Clone, Copy, Debug, PartialEq, Eq, Structural)]
pub struct RadioPanelInputs {
    pub selector1: ComSelection,
    pub selector2: ComSelection,
    pub swap1: bool,
    pub swap2: bool,
    pub fine_inc1: bool,
    pub fine_dec1: bool,
    pub coarse_inc1: bool,
    pub coarse_dec1: bool,
    pub fine_inc2: bool,
    pub fine_dec2: bool,
    pub coarse_inc2: bool,
    pub coarse_dec2: bool,
}

impl RadioPanelInputs {
    /// First bit of field `k`: two selectors, ten buttons, then the padding.
    pub open spec fn offset(k: int) -> u32 {
        if k == 0 {
            0
        } else if k == 1 {
            7
        } else {
            (k + 12) as u32
        }
    }

    /// Width of field `k`.
    pub open spec fn width(k: int) -> u32 {
        if k < 2 {
            7
        } else if k == 12 {
            8
        } else {
            1
        }
    }

    pub open spec fn offsets() -> Seq<u32> {
        Seq::new(13, |k: int| Self::offset(k))
    }

    pub open spec fn widths() -> Seq<u32> {
        Seq::new(13, |k: int| Self::width(k))
    }

    /// The raw value of field `k`.
    pub open spec fn field_at(raw: u32, k: int) -> u32 {
        field(raw, Self::offset(k), Self::width(k))
    }

    pub open spec fn spec_from_bits(raw: u32) -> Self {
        RadioPanelInputs {
            selector1: ComSelection::spec_from_raw(Self::field_at(raw, 0)),
            selector2: ComSelection::spec_from_raw(Self::field_at(raw, 1)),
            swap1: Self::field_at(raw, 2) == 1,
            swap2: Self::field_at(raw, 3) == 1,
            fine_inc1: Self::field_at(raw, 4) == 1,
            fine_dec1: Self::field_at(raw, 5) == 1,
            coarse_inc1: Self::field_at(raw, 6) == 1,
            coarse_dec1: Self::field_at(raw, 7) == 1,
            fine_inc2: Self::field_at(raw, 8) == 1,
            fine_dec2: Self::field_at(raw, 9) == 1,
            coarse_inc2: Self::field_at(raw, 10) == 1,
            coarse_dec2: Self::field_at(raw, 11) == 1,
        }
    }

    /// Decodes a raw report; the selectors decode by range.
    pub fn from_bits(raw: u32) -> (r: Self)
        ensures
            r == Self::spec_from_bits(raw),
    {
        RadioPanelInputs {
            selector1: ComSelection::from_raw(get_field(raw, 0, 7)),
            selector2: ComSelection::from_raw(get_field(raw, 7, 7)),
            swap1: get_flag(raw, 14),
            swap2: get_flag(raw, 15),
            fine_inc1: get_flag(raw, 16),
            fine_dec1: get_flag(raw, 17),
            coarse_inc1: get_flag(raw, 18),
            coarse_dec1: get_flag(raw, 19),
            fine_inc2: get_flag(raw, 20),
            fine_dec2: get_flag(raw, 21),
            coarse_inc2: get_flag(raw, 22),
            coarse_dec2: get_flag(raw, 23),
        }
    }

    /// Decodes an input report of exactly four bytes, little-endian; a report of another
    /// length gives `None`.
    pub fn from_report(report: &[u8]) -> (r: Option<Self>)
        ensures
            r == (if report@.len() == 4 {
                Some(Self::spec_from_bits(le32(report@)))
            } else {
                None::<Self>
            }),
    {
        match read_le32(report) {
            Some(raw) => Some(Self::from_bits(raw)),
            None => None,
        }
    }
}

impl From<u32> for RadioPanelInputs {
    fn from(value: u32) -> Self {
        Self::from_bits(value)
    }
}

impl vstd::std_specs::convert::FromSpecImpl<u32> for RadioPanelInputs {
    open spec fn obeys_from_spec() -> bool {
        true
    }

    open spec fn from_spec(v: u32) -> Self {
        Self::spec_from_bits(v)
    }
}

/// The radio panel's fields, padding included, cover the 32 bits of its report exactly
/// once.
pub proof fn lemma_radio_inputs_layout()
    ensures
        contiguous(RadioPanelInputs::offsets(), RadioPanelInputs::widths()),
        ranges_disjoint(RadioPanelInputs::offsets(), RadioPanelInputs::widths()),
        width_sum(RadioPanelInputs::widths()) == 32,
        layout_end(RadioPanelInputs::offsets(), RadioPanelInputs::widths()) == 32,
{
    lemma_contiguous_layout(RadioPanelInputs::offsets(), RadioPanelInputs::widths());
}

/// Fractional digits shown for a value of `h` hundredths: none from 10000 up, one from
/// 1000 up, two below.
pub open spec fn shift_of(h: int) -> int {
    if h >= 1_000_000 {
        0
    } else if h >= 100_000 {
        1
    } else {
        2
    }
}

/// The five-digit number shown for `h` hundredths: `h` cut to `shift_of(h)` fractional
/// digits.
pub open spec fn shown(h: int) -> int {
    if shift_of(h) == 0 {
        h / 100
    } else if shift_of(h) == 1 {
        h / 10
    } else {
        h
    }
}

/// The code at position `i` for `h` hundredths: blanks before the first significant digit,
/// the digit before the fraction carrying the decimal point, digits elsewhere.
pub open spec fn radio_code(h: int, i: int) -> u8 {
    let t = shown(h);
    let s = shift_of(h);
    if i == 4 {
        (t % 10) as u8
    } else if s > 0 && i == 4 - s {
        ((t / place(i)) % 10 + DECIMAL_POINT) as u8
    } else if t < place(i) {
        BLANK
    } else {
        ((t / place(i)) % 10) as u8
    }
}

/// The five codes that show `h` hundredths.
pub open spec fn radio_codes(h: int) -> Seq<u8> {
    Seq::new(5, |i: int| radio_code(h, i))
}

pub enum RadioDisplay {
    UpperActive,
    UpperStandby,
    LowerActive,
    LowerStandby,
}

/// What the radio panel shows: four displays of five positions.
pub struct RadioPanelOutputs {
    pub upper_active_display: [u8; 5],
    pub upper_standby_display: [u8; 5],
    pub lower_active_display: [u8; 5],
    pub lower_standby_display: [u8; 5],
}

fn radio_digit(t: u32, p: u32, point: bool) -> (r: u8)
    requires
        p > 0,
        t < 100000,
    ensures
        r == (if point {
            ((t / p) % 10 + DECIMAL_POINT) as u8
        } else if t < p {
            BLANK
        } else {
            ((t / p) % 10) as u8
        }),
{
    if point {
        ((t / p) % 10) as u8 + DECIMAL_POINT
    } else if t < p {
        BLANK
    } else {
        ((t / p) % 10) as u8
    }
}

fn push_all(data: &mut Vec<u8>, d: &[u8; 5])
    ensures
        final(data)@ == old(data)@ + d@,
{
    for i in 0..5
        invariant
            data@ == old(data)@ + d@.take(i as int),
    {
        data.push(d[i]);
        assert(d@.take(i + 1) =~= d@.take(i as int).push(d@[i as int]));
    }
    assert(d@.take(5) =~= d@);
}

impl RadioPanelOutputs {
    /// The output report: report id 0, the four displays in the order upper active, upper
    /// standby, lower active, lower standby, and two padding bytes.
    pub fn as_bytes(self) -> (r: Vec<u8>)
        ensures
            r@ == seq![0u8] + self.upper_active_display@ + self.upper_standby_display@
                + self.lower_active_display@ + self.lower_standby_display@ + seq![0u8, 0u8],
    {
        let mut data: Vec<u8> = Vec::new();
        data.push(0);
        push_all(&mut data, &self.upper_active_display);
        push_all(&mut data, &self.upper_standby_display);
        push_all(&mut data, &self.lower_active_display);
        push_all(&mut data, &self.lower_standby_display);
        data.push(0);
        data.push(0);
        assert(data@ =~= seq![0u8] + self.upper_active_display@ + self.upper_standby_display@
            + self.lower_active_display@ + self.lower_standby_display@ + seq![0u8, 0u8]);
        data
    }

    /// Shows a value given in hundredths on one display, replacing all five of its
    /// positions. A negative value, or one of 100000 or more, is refused and nothing changes.
    pub fn set_display(&mut self, display: RadioDisplay, hundredths: i64) -> (r: Result<
        (),
        &'static str,
    >)
        ensures
            r.is_ok() == (0 <= hundredths < 10_000_000),
            r.is_err() ==> *final(self) == *old(self),
            r.is_ok() ==> match display {
                RadioDisplay::UpperActive => final(self).upper_active_display@ == radio_codes(
                    hundredths as int,
                ) && final(self).upper_standby_display == old(self).upper_standby_display && final(self).lower_active_display == old(self).lower_active_display && final(self).lower_standby_display == old(self).lower_standby_display,
                RadioDisplay::UpperStandby => final(self).upper_standby_display@ == radio_codes(
                    hundredths as int,
                ) && final(self).upper_active_display == old(self).upper_active_display && final(self).lower_active_display == old(self).lower_active_display && final(self).lower_standby_display == old(self).lower_standby_display,
                RadioDisplay::LowerActive => final(self).lower_active_display@ == radio_codes(
                    hundredths as int,
                ) && final(self).upper_active_display == old(self).upper_active_display && final(self).upper_standby_display == old(self).upper_standby_display && final(self).lower_standby_display == old(self).lower_standby_display,
                RadioDisplay::LowerStandby => final(self).lower_standby_display@ == radio_codes(
                    hundredths as int,
                ) && final(self).upper_active_display == old(self).upper_active_display && final(self).upper_standby_display == old(self).upper_standby_display && final(self).lower_active_display == old(self).lower_active_display,
            },
    {
        if hundredths < 0 {
            return Err("Displays cannot show negative values");
        }
        if hundredths >= 10_000_000 {
            return Err("Displays cannot show more than 5 figures");
        }
        let shift: u32;
        let t: u32;
        if hundredths >= 1_000_000 {
            shift = 0;
            t = (hundredths / 100) as u32;
        } else if hundredths >= 100_000 {
            shift = 1;
            t = (hundredths / 10) as u32;
        } else {
            shift = 2;
            t = hundredths as u32;
        }
        let c0 = radio_digit(t, 10000, false);
        let c1 = radio_digit(t, 1000, false);
        let c2 = radio_digit(t, 100, shift == 2);
        let c3 = radio_digit(t, 10, shift == 1);
        let c4 = (t % 10) as u8;
        let data: [u8; 5] = [c0, c1, c2, c3, c4];
        assert(data@ =~= radio_codes(hundredths as int));
        match display {
            RadioDisplay::UpperActive => {
                self.upper_active_display = data;
            },
            RadioDisplay::UpperStandby => {
                self.upper_standby_display = data;
            },
            RadioDisplay::LowerActive => {
                self.lower_active_display = data;
            },
            RadioDisplay::LowerStandby => {
                self.lower_standby_display = data;
            },
        }
        Ok(())
    }
}

} // verus!

use vstd::prelude::*;

use crate::codec::{
    contiguous, field, get_field, get_flag, layout_end, le32, lemma_contiguous_layout,
    ranges_disjoint, read_le32, width_sum,
};

verus! {

/// USB vendor and product id of the multi panel.
pub const VENDOR_ID: u16 = 0x06A3;

pub const PRODUCT_ID: u16 = 0x0D06;

/// Display code of the minus sign.
pub const DASH: u8 = 0xEE;

/// Display code of an empty position.
pub const BLANK: u8 = 0x0A;

/// The multi panel; its device loop runs outside the library.
pub struct MultiPanel {}

/// Position of the mode selector.
#[allow(non_camel_case_types)]
#[derive(Clone, Copy, Debug, PartialEq, Eq, Structural)]
pub enum SettingSelection {
    Invalid,
    ALT,
    VS,
    IAS,
    HDG,
    CRS,
}

impl SettingSelection {
    /// Decoding by range: the highest set bit of the raw value decides.
    pub open spec fn spec_from_raw(v: u32) -> Self {
        if v == 0 {
            SettingSelection::Invalid
        } else if v == 1 {
            SettingSelection::ALT
        } else if v < 4 {
            SettingSelection::VS
        } else if v < 8 {
            SettingSelection::IAS
        } else if v < 16 {
            SettingSelection::HDG
        } else {
            SettingSelection::CRS
        }
    }

    pub open spec fn spec_raw(self) -> u32 {
        match self {
            SettingSelection::Invalid => 0,
            SettingSelection::ALT => 1,
            SettingSelection::VS => 2,
            SettingSelection::IAS => 4,
            SettingSelection::HDG => 8,
            SettingSelection::CRS => 16,
        }
    }

    pub fn from_raw(v: u32) -> (r: Self)
        ensures
            r == Self::spec_from_raw(v),
    {
        if v == 0 {
            SettingSelection::Invalid
        } else if v == 1 {
            SettingSelection::ALT
        } else if v < 4 {
            SettingSelection::VS
        } else if v < 8 {
            SettingSelection::IAS
        } else if v < 16 {
            SettingSelection::HDG
        } else {
            SettingSelection::CRS
        }
    }

    pub fn raw(self) -> (r: u32)
        ensures
            r == self.spec_raw(),
    {
        match self {
            SettingSelection::Invalid => 0,
            SettingSelection::ALT => 1,
            SettingSelection::VS => 2,
            SettingSelection::IAS => 4,
            SettingSelection::HDG => 8,
            SettingSelection::CRS => 16,
        }
    }
}

impl From<u32> for SettingSelection {
    fn from(value: u32) -> Self {
        Self::from_raw(value)
    }
}

impl vstd::std_specs::convert::FromSpecImpl<u32> for SettingSelection {
    open spec fn obeys_from_spec() -> bool {
        true
    }

    open spec fn from_spec(v: u32) -> Self {
        Self::spec_from_raw(v)
    }
}

impl From<SettingSelection> for u32 {
    fn from(value: SettingSelection) -> Self {
        value.raw()
    }
}

impl vstd::std_specs::convert::FromSpecImpl<SettingSelection> for u32 {
    open spec fn obeys_from_spec() -> bool {
        true
    }

    open spec fn from_spec(v: SettingSelection) -> Self {
        v.spec_raw()
    }
}

/// Raw values that lie between two values of one position decode to that position too,
/// and a position's own raw value decodes back to it.
pub proof fn lemma_setting_selection_ranges(a: u32, b: u32, c: u32, e: SettingSelection)
    requires
        a <= c <= b,
        SettingSelection::spec_from_raw(a) == SettingSelection::spec_from_raw(b),
    ensures
        SettingSelection::spec_from_raw(c) == SettingSelection::spec_from_raw(a),
        SettingSelection::spec_from_raw(e.spec_raw()) == e,
{
}

/// The multi panel's input report, 32 bits.
#[derive(Clone, Copy, Debug, PartialEq, Eq, Structural)]
pub struct MultiPanelInputs {
    pub selector: SettingSelection,
    pub jog_inc: bool,
    pub jog_dec: bool,
    pub ap: bool,
    pub hdg: bool,
    pub nav: bool,
    pub ias: bool,
    pub alt: bool,
    pub vs: bool,
    pub apr: bool,
    pub rev: bool,
    pub auto_throttle: bool,
    pub flaps_up: bool,
    pub flaps_down: bool,
    pub pitch_down: bool,
    pub pitch_up: bool,
}

impl MultiPanelInputs {
    /// First bit of field `k`: the selector, fifteen buttons, then the padding.
    pub open spec fn offset(k: int) -> u32 {
        if k == 0 {
            0
        } else {
            (k + 4) as u32
        }
    }

    /// Width of field `k`.
    pub open spec fn width(k: int) -> u32 {
        if k == 0 {
            5
        } else if k == 16 {
            12
        } else {
            1
        }
    }

    pub open spec fn offsets() -> Seq<u32> {
        Seq::new(17, |k: int| Self::offset(k))
    }

    pub open spec fn widths() -> Seq<u32> {
        Seq::new(17, |k: int| Self::width(k))
    }

    /// The raw value of field `k`.
    pub open spec fn field_at(raw: u32, k: int) -> u32 {
        field(raw, Self::offset(k), Self::width(k))
    }

    pub open spec fn spec_from_bits(raw: u32) -> Self {
        MultiPanelInputs {
            selector: SettingSelection::spec_from_raw(Self::field_at(raw, 0)),
            jog_inc: Self::field_at(raw, 1) == 1,
            jog_dec: Self::field_at(raw, 2) == 1,
            ap: Self::field_at(raw, 3) == 1,
            hdg: Self::field_at(raw, 4) == 1,
            nav: Self::field_at(raw, 5) == 1,
            ias: Self::field_at(raw, 6) == 1,
            alt: Self::field_at(raw, 7) == 1,
            vs: Self::field_at(raw, 8) == 1,
            apr: Self::field_at(raw, 9) == 1,
            rev: Self::field_at(raw, 10) == 1,
            auto_throttle: Self::field_at(raw, 11) == 1,
            flaps_up: Self::field_at(raw, 12) == 1,
            flaps_down: Self::field_at(raw, 13) == 1,
            pitch_down: Self::field_at(raw, 14) == 1,
            pitch_up: Self::field_at(raw, 15) == 1,
        }
    }

    /// Decodes a raw report; the selector decodes by range.
    pub fn from_bits(raw: u32) -> (r: Self)
        ensures
            r == Self::spec_from_bits(raw),
    {
        MultiPanelInputs {
            selector: SettingSelection::from_raw(get_field(raw, 0, 5)),
            jog_inc: get_flag(raw, 5),
            jog_dec: get_flag(raw, 6),
            ap: get_flag(raw, 7),
            hdg: get_flag(raw, 8),
            nav: get_flag(raw, 9),
            ias: get_flag(raw, 10),
            alt: get_flag(raw, 11),
            vs: get_flag(raw, 12),
            apr: get_flag(raw, 13),
            rev: get_flag(raw, 14),
            auto_throttle: get_flag(raw, 15),
            flaps_up: get_flag(raw, 16),
            flaps_down: get_flag(raw, 17),
            pitch_down: get_flag(raw, 18),
            pitch_up: get_flag(raw, 19),
        }
    }

    /// Decodes an input report of exactly four bytes, little-endian; a report of another
    /// length gives `None`.
    pub fn from_report(report: &[u8]) -> (r: Option<Self>)
        ensures
            r == (if report@.len() == 4 {
                Some(Self::spec_from_bits(le32(report@)))
            } else {
                None::<Self>
            }),
    {
        match read_le32(report) {
            Some(raw) => Some(Self::from_bits(raw)),
            None => None,
        }
    }
}

impl From<u32> for MultiPanelInputs {
    fn from(value: u32) -> Self {
        Self::from_bits(value)
    }
}

impl vstd::std_specs::convert::FromSpecImpl<u32> for MultiPanelInputs {
    open spec fn obeys_from_spec() -> bool {
        true
    }

    open spec fn from_spec(v: u32) -> Self {
        Self::spec_from_bits(v)
    }
}

/// The multi panel's fields, padding included, cover the 32 bits of its report exactly
/// once.
pub proof fn lemma_multi_inputs_layout()
    ensures
        contiguous(MultiPanelInputs::offsets(), MultiPanelInputs::widths()),
        ranges_disjoint(MultiPanelInputs::offsets(), MultiPanelInputs::widths()),
        width_sum(MultiPanelInputs::widths()) == 32,
        layout_end(MultiPanelInputs::offsets(), MultiPanelInputs::widths()) == 32,
{
    lemma_contiguous_layout(MultiPanelInputs::offsets(), MultiPanelInputs::widths());
}

/// The multi panel's eight indicator LEDs, one bit each, `ap` in bit 0.
#[derive(Clone, Copy, Debug, PartialEq, Eq, Structural)]
pub struct MultiPanelOutputLeds {
    pub ap: bool,
    pub hdg: bool,
    pub nav: bool,
    pub ias: bool,
    pub alt: bool,
    pub vs: bool,
    pub apr: bool,
    pub rev: bool,
}

/// The value of bit `k` when `b` is set.
pub open spec fn bit_value(b: bool, k: nat) -> int {
    if b {
        vstd::arithmetic::power2::pow2(k) as int
    } else {
        0
    }
}

impl MultiPanelOutputLeds {
    /// Whether bit `k` of `raw` is set.
    pub open spec fn bit_of(raw: u8, k: nat) -> bool {
        (raw as int / vstd::arithmetic::power2::pow2(k) as int) % 2 == 1
    }

    pub open spec fn spec_from_bits(raw: u8) -> Self {
        MultiPanelOutputLeds {
            ap: Self::bit_of(raw, 0),
            hdg: Self::bit_of(raw, 1),
            nav: Self::bit_of(raw, 2),
            ias: Self::bit_of(raw, 3),
            alt: Self::bit_of(raw, 4),
            vs: Self::bit_of(raw, 5),
            apr: Self::bit_of(raw, 6),
            rev: Self::bit_of(raw, 7),
        }
    }

    pub open spec fn spec_into_bits(self) -> u8 {
        (bit_value(self.ap, 0) + bit_value(self.hdg, 1) + bit_value(self.nav, 2) + bit_value(
            self.ias,
            3,
        ) + bit_value(self.alt, 4) + bit_value(self.vs, 5) + bit_value(self.apr, 6) + bit_value(
            self.rev,
            7,
        )) as u8
    }

    pub fn from_bits(raw: u8) -> (r: Self)
        ensures
            r == Self::spec_from_bits(raw),
    {
        proof {
            vstd::arithmetic::power2::lemma2_to64();
        }
        MultiPanelOutputLeds {
            ap: raw % 2 == 1,
            hdg: (raw / 2) % 2 == 1,
            nav: (raw / 4) % 2 == 1,
            ias: (raw / 8) % 2 == 1,
            alt: (raw / 16) % 2 == 1,
            vs: (raw / 32) % 2 == 1,
            apr: (raw / 64) % 2 == 1,
            rev: (raw / 128) % 2 == 1,
        }
    }

    pub fn into_bits(self) -> (r: u8)
        ensures
            r == self.spec_into_bits(),
            Self::spec_from_bits(r) == self,
    {
        proof {
            vstd::arithmetic::power2::lemma2_to64();
            lemma_leds_round_trip(self);
        }
        let mut r: u8 = 0;
        if self.ap {
            r = r + 1;
        }
        if self.hdg {
            r = r + 2;
        }
        if self.nav {
            r = r + 4;
        }
        if self.ias {
            r = r + 8;
        }
        if self.alt {
            r = r + 16;
        }
        if self.vs {
            r = r + 32;
        }
        if self.apr {
            r = r + 64;
        }
        if self.rev {
            r = r + 128;
        }
        r
    }
}

impl From<u8> for MultiPanelOutputLeds {
    fn from(value: u8) -> Self {
        Self::from_bits(value)
    }
}

impl vstd::std_specs::convert::FromSpecImpl<u8> for MultiPanelOutputLeds {
    open spec fn obeys_from_spec() -> bool {
        true
    }

    open spec fn from_spec(v: u8) -> Self {
        Self::spec_from_bits(v)
    }
}

impl From<MultiPanelOutputLeds> for u8 {
    fn from(value: MultiPanelOutputLeds) -> Self {
        value.into_bits()
    }
}

impl vstd::std_specs::convert::FromSpecImpl<MultiPanelOutputLeds> for u8 {
    open spec fn obeys_from_spec() -> bool {
        true
    }

    open spec fn from_spec(v: MultiPanelOutputLeds) -> Self {
        v.spec_into_bits()
    }
}

/// Encoding the LED record and decoding the byte gives the record back.
pub proof fn lemma_leds_round_trip(r: MultiPanelOutputLeds)
    ensures
        MultiPanelOutputLeds::spec_from_bits(r.spec_into_bits()) == r,
{
    vstd::arithmetic::power2::lemma2_to64();
    let x = r.spec_into_bits() as int;
    let (b0, b1, b2, b3, b4, b5, b6, b7) = (
        bit_value(r.ap, 0),
        bit_value(r.hdg, 1) / 2,
        bit_value(r.nav, 2) / 4,
        bit_value(r.ias, 3) / 8,
        bit_value(r.alt, 4) / 16,
        bit_value(r.vs, 5) / 32,
        bit_value(r.apr, 6) / 64,
        bit_value(r.rev, 7) / 128,
    );
    assert(0 <= b0 < 2 && 0 <= b1 < 2 && 0 <= b2 < 2 && 0 <= b3 < 2 && 0 <= b4 < 2 && 0 <= b5 < 2
        && 0 <= b6 < 2 && 0 <= b7 < 2);
    assert(x == b0 + 2 * b1 + 4 * b2 + 8 * b3 + 16 * b4 + 32 * b5 + 64 * b6 + 128 * b7);
    assert(x % 2 == b0 && (x / 2) % 2 == b1 && (x / 4) % 2 == b2 && (x / 8) % 2 == b3 && (x / 16)
        % 2 == b4 && (x / 32) % 2 == b5 && (x / 64) % 2 == b6 && (x / 128) % 2 == b7)
        by (nonlinear_arith)
        requires
            0 <= b0 < 2 && 0 <= b1 < 2 && 0 <= b2 < 2 && 0 <= b3 < 2 && 0 <= b4 < 2 && 0 <= b5
                < 2 && 0 <= b6 < 2 && 0 <= b7 < 2,
            x == b0 + 2 * b1 + 4 * b2 + 8 * b3 + 16 * b4 + 32 * b5 + 64 * b6 + 128 * b7,
    ;
}

/// The decimal weight of display position `i` (0 to 4, left to right).
pub open spec fn place(i: int) -> int {
    if i == 0 {
        10000
    } else if i == 1 {
        1000
    } else if i == 2 {
        100
    } else if i == 3 {
        10
    } else {
        1
    }
}

/// The code at position `i` for `v`: a dash in front of a negative value, blanks before the
/// first significant digit, then digits; the last position always holds a digit.
pub open spec fn display_code(v: int, i: int) -> u8 {
    let a = if v < 0 {
        -v
    } else {
        v
    };
    if i == 0 && v < 0 {
        DASH
    } else if i < 4 && a < place(i) {
        BLANK
    } else {
        ((a / place(i)) % 10) as u8
    }
}

/// The five codes that show `v`.
pub open spec fn display_codes(v: int) -> Seq<u8> {
    Seq::new(5, |i: int| display_code(v, i))
}

/// The values a display can show.
pub open spec fn displayable(v: int) -> bool {
    -9999 <= v <= 99999
}

pub enum MultiDisplay {
    UpperDisplay,
    LowerDisplay,
}

/// What the multi panel shows: two displays of five positions and the LED byte.
pub struct MultiPanelOutputs {
    pub upper_display: [u8; 5],
    pub lower_display: [u8; 5],
    pub leds: MultiPanelOutputLeds,
}

fn digit_or_blank(a: u32, p: u32) -> (r: u8)
    requires
        p > 0,
        a < 100000,
    ensures
        r == (if a < p {
            BLANK
        } else {
            ((a / p) % 10) as u8
        }),
{
    if a < p {
        BLANK
    } else {
        ((a / p) % 10) as u8
    }
}

impl MultiPanelOutputs {
    /// The output report: report id 0, the upper display, the lower display, the LED byte,
    /// and one padding byte.
    pub fn as_bytes(self) -> (r: Vec<u8>)
        ensures
            r@ == seq![0u8] + self.upper_display@ + self.lower_display@ + seq![
                self.leds.spec_into_bits(),
                0u8,
            ],
    {
        let mut data: Vec<u8> = Vec::new();
        data.push(0);
        for i in 0..5
            invariant
                data@ == seq![0u8] + self.upper_display@.take(i as int),
        {
            data.push(self.upper_display[i]);
            assert(self.upper_display@.take(i + 1) =~= self.upper_display@.take(i as int).push(
                self.upper_display@[i as int],
            ));
        }
        for i in 0..5
            invariant
                data@ == seq![0u8] + self.upper_display@ + self.lower_display@.take(i as int),
        {
            data.push(self.lower_display[i]);
            assert(self.lower_display@.take(i + 1) =~= self.lower_display@.take(i as int).push(
                self.lower_display@[i as int],
            ));
        }
        assert(self.upper_display@.take(5) =~= self.upper_display@);
        assert(self.lower_display@.take(5) =~= self.lower_display@);
        data.push(self.leds.into_bits());
        data.push(0);
        assert(data@ =~= seq![0u8] + self.upper_display@ + self.lower_display@ + seq![
            self.leds.spec_into_bits(),
            0u8,
        ]);
        data
    }

    /// Shows `value` on one display, replacing all five of its positions. A value outside
    /// -9999..=99999 is refused and nothing changes.
    pub fn set_display(&mut self, display: MultiDisplay, value: i32) -> (r: Result<(), &'static str>)
        ensures
            r.is_ok() == displayable(value as int),
            !displayable(value as int) ==> *final(self) == *old(self),
            displayable(value as int) ==> final(self).leds == old(self).leds && match display {
                MultiDisplay::UpperDisplay => final(self).upper_display@ == display_codes(
                    value as int,
                ) && final(self).lower_display == old(self).lower_display,
                MultiDisplay::LowerDisplay => final(self).lower_display@ == display_codes(
                    value as int,
                ) && final(self).upper_display == old(self).upper_display,
            },
    {
        if value > 99999 || value < -9999 {
            return Err("Value too long");
        }
        let a: u32 = if value < 0 {
            (-value) as u32
        } else {
            value as u32
        };
        let c0 = if value < 0 {
            DASH
        } else {
            digit_or_blank(a, 10000)
        };
        let c1 = digit_or_blank(a, 1000);
        let c2 = digit_or_blank(a, 100);
        let c3 = digit_or_blank(a, 10);
        let c4 = (a % 10) as u8;
        let data: [u8; 5] = [c0, c1, c2, c3, c4];
        assert(data@ =~= display_codes(value as int));
        match display {
            MultiDisplay::UpperDisplay => {
                self.upper_display = data;
            },
            MultiDisplay::LowerDisplay => {
                self.lower_display = data;
            },
        }
        Ok(())
    }
}

} // verus!

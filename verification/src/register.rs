//! Register bitfield model of the DRV8301.
//!
//! Each register is a 16-bit word at a 4-bit bus address, made of named
//! fields at fixed bit offsets. Decoding extracts every field from a raw
//! word; encoding starts from the last-known raw word (so reserved bits are
//! preserved) and writes every field back at its offset. Both directions are
//! proved to round-trip.

use vstd::prelude::*;

verus! {

/// A two-state configuration or status bit.
#[derive(Clone, Copy, Debug, PartialEq, Eq, Structural)]
pub enum Flag {
    Enable,
    Disable,
}

impl Flag {
    /// The single bit this flag encodes to.
    pub open spec fn spec_bits(self) -> u16 {
        match self {
            Flag::Enable => 1,
            Flag::Disable => 0,
        }
    }

    /// The flag decoded from a one-bit field value.
    pub open spec fn spec_from_bits(b: u16) -> Flag {
        if b == 1 {
            Flag::Enable
        } else {
            Flag::Disable
        }
    }

    pub fn bits(self) -> (b: u16)
        ensures
            b == self.spec_bits(),
    {
        match self {
            Flag::Enable => 1,
            Flag::Disable => 0,
        }
    }

    pub fn from_bits(b: u16) -> (f: Flag)
        requires
            b <= 1,
        ensures
            f == Flag::spec_from_bits(b),
    {
        if b == 1 {
            Flag::Enable
        } else {
            Flag::Disable
        }
    }

    /// Whether the flag is set.
    pub fn enabled(&self) -> (r: bool)
        ensures
            r == (*self is Enable),
    {
        matches!(self, Flag::Enable)
    }
}

/// How the six output switches are commanded: one PWM input per
/// switch, or one per phase.
#[derive(Clone, Copy, Debug, PartialEq, Eq, Structural)]
pub enum PwmMode {
    Six,
    Three,
}

impl PwmMode {
    /// The single bit this mode encodes to.
    pub open spec fn spec_bits(self) -> u16 {
        match self {
            PwmMode::Six => 0,
            PwmMode::Three => 1,
        }
    }

    /// The mode decoded from a one-bit field value.
    pub open spec fn spec_from_bits(b: u16) -> PwmMode {
        if b == 1 {
            PwmMode::Three
        } else {
            PwmMode::Six
        }
    }

    pub fn bits(self) -> (b: u16)
        ensures
            b == self.spec_bits(),
    {
        match self {
            PwmMode::Six => 0,
            PwmMode::Three => 1,
        }
    }

    pub fn from_bits(b: u16) -> (m: PwmMode)
        requires
            b <= 1,
        ensures
            m == PwmMode::spec_from_bits(b),
    {
        if b == 1 {
            PwmMode::Three
        } else {
            PwmMode::Six
        }
    }
}

/// What the chip does when it detects an over-current event.
#[derive(Clone, Copy, Debug, PartialEq, Eq, Structural)]
pub enum OcpMode {
    CurrentLimit,
    OcLatchShutdown,
    ReportOnly,
    OcDisabled,
}

impl OcpMode {
    /// The two-bit value this mode encodes to.
    pub open spec fn spec_bits(self) -> u16 {
        match self {
            OcpMode::CurrentLimit => 0,
            OcpMode::OcLatchShutdown => 1,
            OcpMode::ReportOnly => 2,
            OcpMode::OcDisabled => 3,
        }
    }

    /// The mode decoded from a two-bit field value.
    pub open spec fn spec_from_bits(b: u16) -> OcpMode {
        if b == 1 {
            OcpMode::OcLatchShutdown
        } else if b == 2 {
            OcpMode::ReportOnly
        } else if b == 3 {
            OcpMode::OcDisabled
        } else {
            OcpMode::CurrentLimit
        }
    }

    pub fn bits(self) -> (b: u16)
        ensures
            b == self.spec_bits(),
    {
        match self {
            OcpMode::CurrentLimit => 0,
            OcpMode::OcLatchShutdown => 1,
            OcpMode::ReportOnly => 2,
            OcpMode::OcDisabled => 3,
        }
    }

    pub fn from_bits(b: u16) -> (m: OcpMode)
        requires
            b <= 3,
        ensures
            m == OcpMode::spec_from_bits(b),
    {
        if b == 1 {
            OcpMode::OcLatchShutdown
        } else if b == 2 {
            OcpMode::ReportOnly
        } else if b == 3 {
            OcpMode::OcDisabled
        } else {
            OcpMode::CurrentLimit
        }
    }
}

/// The `mask`-wide field of `raw` at bit `offset`.
pub open spec fn spec_get_field(raw: u16, offset: u16, mask: u16) -> u16 {
    (raw >> offset) & mask
}

/// A masked value never exceeds its mask.
proof fn lemma_mask_bound(raw: u16, offset: u16, mask: u16)
    ensures
        ((raw >> offset) & mask) <= mask,
{
    assert(((raw >> offset) & mask) <= mask) by (bit_vector);
}

fn get_field(raw: u16, offset: u16, mask: u16) -> (v: u16)
    requires
        offset < 16,
    ensures
        v == spec_get_field(raw, offset, mask),
        v <= mask,
{
    proof {
        lemma_mask_bound(raw, offset, mask);
    }
    (raw >> offset) & mask
}

/// Common capability interface of the chip's registers: a fixed bus address,
/// decoding of a raw 16-bit word into named fields, and encoding of the
/// fields back into a raw word.
pub trait Register: Sized {
    /// The register's 4-bit bus address.
    spec fn spec_addr() -> u8;

    /// Mathematical decode: the register value carried by the raw word.
    spec fn spec_parse(raw: u16) -> Self;

    /// Mathematical encode: the raw word for this register value, preserving
    /// every bit of the remembered raw word that no named field covers.
    spec fn spec_data(self) -> u16;

    /// Every field value fits its declared bit width.
    spec fn wf(self) -> bool;

    /// The named fields of the two values agree (the remembered raw words
    /// may differ).
    spec fn same_fields(self, other: Self) -> bool;

    fn addr() -> (a: u8)
        ensures
            a == Self::spec_addr(),
            Self::spec_addr() <= 0xF,
    ;

    fn parse(raw: u16) -> (r: Self)
        ensures
            r == Self::spec_parse(raw),
            r.wf(),
    ;

    fn data(&self) -> (d: u16)
        ensures
            d == self.spec_data(),
    ;

    /// Decoding is total: every raw word yields well-formed fields.
    proof fn lemma_parse_wf(raw: u16)
        ensures
            Self::spec_parse(raw).wf(),
    ;

    /// Round trip one way: encoding a decoded raw word reproduces it
    /// exactly, reserved bits included.
    proof fn lemma_encode_of_decode(raw: u16)
        ensures
            Self::spec_parse(raw).spec_data() == raw,
    ;

    /// Round trip the other way: decoding an encoded register reproduces
    /// every named field.
    proof fn lemma_decode_of_encode(r: Self)
        requires
            r.wf(),
        ensures
            Self::spec_parse(r.spec_data()).same_fields(r),
    ;
}

/// A one-bit value decodes to a flag that encodes back to it.
proof fn lemma_flag_bits_inverse(b: u16)
    requires
        b <= 1,
    ensures
        Flag::spec_from_bits(b).spec_bits() == b,
{
}

/// A flag's bit pattern decodes back to the same flag.
proof fn lemma_flag_roundtrip(f: Flag)
    ensures
        Flag::spec_from_bits(f.spec_bits()) == f,
{
}

/// A one-bit value decodes to a PWM mode that encodes back to it.
proof fn lemma_pwm_bits_inverse(b: u16)
    requires
        b <= 1,
    ensures
        PwmMode::spec_from_bits(b).spec_bits() == b,
{
}

/// A PWM mode's bit pattern decodes back to the same mode.
proof fn lemma_pwm_roundtrip(m: PwmMode)
    ensures
        PwmMode::spec_from_bits(m.spec_bits()) == m,
{
}

/// Status register 1: fault and per-phase over-current indications.
/// Bus address 0x0.
#[derive(Clone, Copy, Debug, PartialEq, Eq, Structural)]
pub struct StatusRegister1 {
    /// The raw 16-bit word the value was decoded from (or last encoded to).
    pub bits: u16,
    pub fault: Flag,
    pub gvdd_uv: Flag,
    pub pvdd_uv: Flag,
    pub otsd: Flag,
    pub otw: Flag,
    pub fetha_oc: Flag,
    pub fetla_oc: Flag,
    pub fethb_oc: Flag,
    pub fetlb_oc: Flag,
    pub fethc_oc: Flag,
    pub fetlc_oc: Flag,
}

impl Register for StatusRegister1 {
    open spec fn spec_addr() -> u8 {
        0x0
    }

    open spec fn spec_parse(raw: u16) -> Self {
        StatusRegister1 {
            bits: raw,
            fault: Flag::spec_from_bits((raw >> 10) & 1),
            gvdd_uv: Flag::spec_from_bits((raw >> 9) & 1),
            pvdd_uv: Flag::spec_from_bits((raw >> 8) & 1),
            otsd: Flag::spec_from_bits((raw >> 7) & 1),
            otw: Flag::spec_from_bits((raw >> 6) & 1),
            fetha_oc: Flag::spec_from_bits((raw >> 5) & 1),
            fetla_oc: Flag::spec_from_bits((raw >> 4) & 1),
            fethb_oc: Flag::spec_from_bits((raw >> 3) & 1),
            fetlb_oc: Flag::spec_from_bits((raw >> 2) & 1),
            fethc_oc: Flag::spec_from_bits((raw >> 1) & 1),
            fetlc_oc: Flag::spec_from_bits((raw >> 0) & 1),
        }
    }

    open spec fn spec_data(self) -> u16 {
        (self.bits & 0xF800) | (self.fault.spec_bits() << 10) | (self.gvdd_uv.spec_bits() << 9)
            | (self.pvdd_uv.spec_bits() << 8) | (self.otsd.spec_bits() << 7)
            | (self.otw.spec_bits() << 6) | (self.fetha_oc.spec_bits() << 5)
            | (self.fetla_oc.spec_bits() << 4) | (self.fethb_oc.spec_bits() << 3)
            | (self.fetlb_oc.spec_bits() << 2) | (self.fethc_oc.spec_bits() << 1)
            | (self.fetlc_oc.spec_bits() << 0)
    }

    open spec fn wf(self) -> bool {
        true
    }

    open spec fn same_fields(self, other: Self) -> bool {
        self.fault == other.fault && self.gvdd_uv == other.gvdd_uv && self.pvdd_uv
            == other.pvdd_uv && self.otsd == other.otsd && self.otw == other.otw && self.fetha_oc
            == other.fetha_oc && self.fetla_oc == other.fetla_oc && self.fethb_oc
            == other.fethb_oc && self.fetlb_oc == other.fetlb_oc && self.fethc_oc
            == other.fethc_oc && self.fetlc_oc == other.fetlc_oc
    }

    fn addr() -> (a: u8) {
        0x0
    }

    fn parse(raw: u16) -> (r: Self) {
        StatusRegister1 {
            bits: raw,
            fault: Flag::from_bits(get_field(raw, 10, 1)),
            gvdd_uv: Flag::from_bits(get_field(raw, 9, 1)),
            pvdd_uv: Flag::from_bits(get_field(raw, 8, 1)),
            otsd: Flag::from_bits(get_field(raw, 7, 1)),
            otw: Flag::from_bits(get_field(raw, 6, 1)),
            fetha_oc: Flag::from_bits(get_field(raw, 5, 1)),
            fetla_oc: Flag::from_bits(get_field(raw, 4, 1)),
            fethb_oc: Flag::from_bits(get_field(raw, 3, 1)),
            fetlb_oc: Flag::from_bits(get_field(raw, 2, 1)),
            fethc_oc: Flag::from_bits(get_field(raw, 1, 1)),
            fetlc_oc: Flag::from_bits(get_field(raw, 0, 1)),
        }
    }

    fn data(&self) -> (d: u16) {
        (self.bits & 0xF800) | (self.fault.bits() << 10) | (self.gvdd_uv.bits() << 9)
            | (self.pvdd_uv.bits() << 8) | (self.otsd.bits() << 7) | (self.otw.bits() << 6)
            | (self.fetha_oc.bits() << 5) | (self.fetla_oc.bits() << 4)
            | (self.fethb_oc.bits() << 3) | (self.fetlb_oc.bits() << 2)
            | (self.fethc_oc.bits() << 1) | (self.fetlc_oc.bits() << 0)
    }

    proof fn lemma_parse_wf(raw: u16) {
    }

    proof fn lemma_encode_of_decode(raw: u16) {
        let v10: u16 = (raw >> 10) & 1;
        let v9: u16 = (raw >> 9) & 1;
        let v8: u16 = (raw >> 8) & 1;
        let v7: u16 = (raw >> 7) & 1;
        let v6: u16 = (raw >> 6) & 1;
        let v5: u16 = (raw >> 5) & 1;
        let v4: u16 = (raw >> 4) & 1;
        let v3: u16 = (raw >> 3) & 1;
        let v2: u16 = (raw >> 2) & 1;
        let v1: u16 = (raw >> 1) & 1;
        let v0: u16 = (raw >> 0) & 1;
        lemma_mask_bound(raw, 10, 1);
        lemma_mask_bound(raw, 9, 1);
        lemma_mask_bound(raw, 8, 1);
        lemma_mask_bound(raw, 7, 1);
        lemma_mask_bound(raw, 6, 1);
        lemma_mask_bound(raw, 5, 1);
        lemma_mask_bound(raw, 4, 1);
        lemma_mask_bound(raw, 3, 1);
        lemma_mask_bound(raw, 2, 1);
        lemma_mask_bound(raw, 1, 1);
        lemma_mask_bound(raw, 0, 1);
        lemma_flag_bits_inverse(v10);
        lemma_flag_bits_inverse(v9);
        lemma_flag_bits_inverse(v8);
        lemma_flag_bits_inverse(v7);
        lemma_flag_bits_inverse(v6);
        lemma_flag_bits_inverse(v5);
        lemma_flag_bits_inverse(v4);
        lemma_flag_bits_inverse(v3);
        lemma_flag_bits_inverse(v2);
        lemma_flag_bits_inverse(v1);
        lemma_flag_bits_inverse(v0);
        assert((raw & 0xF800) | (v10 << 10) | (v9 << 9) | (v8 << 8) | (v7 << 7) | (v6 << 6) | (
        v5 << 5) | (v4 << 4) | (v3 << 3) | (v2 << 2) | (v1 << 1) | (v0 << 0) == raw)
            by (bit_vector)
            requires
                v10 == (raw >> 10) & 1,
                v9 == (raw >> 9) & 1,
                v8 == (raw >> 8) & 1,
                v7 == (raw >> 7) & 1,
                v6 == (raw >> 6) & 1,
                v5 == (raw >> 5) & 1,
                v4 == (raw >> 4) & 1,
                v3 == (raw >> 3) & 1,
                v2 == (raw >> 2) & 1,
                v1 == (raw >> 1) & 1,
                v0 == (raw >> 0) & 1,
        ;
    }

    proof fn lemma_decode_of_encode(r: Self) {
        let b: u16 = r.bits;
        let v10: u16 = r.fault.spec_bits();
        let v9: u16 = r.gvdd_uv.spec_bits();
        let v8: u16 = r.pvdd_uv.spec_bits();
        let v7: u16 = r.otsd.spec_bits();
        let v6: u16 = r.otw.spec_bits();
        let v5: u16 = r.fetha_oc.spec_bits();
        let v4: u16 = r.fetla_oc.spec_bits();
        let v3: u16 = r.fethb_oc.spec_bits();
        let v2: u16 = r.fetlb_oc.spec_bits();
        let v1: u16 = r.fethc_oc.spec_bits();
        let v0: u16 = r.fetlc_oc.spec_bits();
        let d: u16 = r.spec_data();
        assert(((d >> 10) & 1) == v10 && ((d >> 9) & 1) == v9 && ((d >> 8) & 1) == v8 && ((d >> 7)
            & 1) == v7 && ((d >> 6) & 1) == v6 && ((d >> 5) & 1) == v5 && ((d >> 4) & 1) == v4 && (
        (d >> 3) & 1) == v3 && ((d >> 2) & 1) == v2 && ((d >> 1) & 1) == v1 && ((d >> 0) & 1)
            == v0) by (bit_vector)
            requires
                d == (b & 0xF800) | (v10 << 10) | (v9 << 9) | (v8 << 8) | (v7 << 7) | (v6 << 6) | (
                v5 << 5) | (v4 << 4) | (v3 << 3) | (v2 << 2) | (v1 << 1) | (v0 << 0),
                v10 <= 1,
                v9 <= 1,
                v8 <= 1,
                v7 <= 1,
                v6 <= 1,
                v5 <= 1,
                v4 <= 1,
                v3 <= 1,
                v2 <= 1,
                v1 <= 1,
                v0 <= 1,
        ;
        lemma_flag_roundtrip(r.fault);
        lemma_flag_roundtrip(r.gvdd_uv);
        lemma_flag_roundtrip(r.pvdd_uv);
        lemma_flag_roundtrip(r.otsd);
        lemma_flag_roundtrip(r.otw);
        lemma_flag_roundtrip(r.fetha_oc);
        lemma_flag_roundtrip(r.fetla_oc);
        lemma_flag_roundtrip(r.fethb_oc);
        lemma_flag_roundtrip(r.fetlb_oc);
        lemma_flag_roundtrip(r.fethc_oc);
        lemma_flag_roundtrip(r.fetlc_oc);
    }
}

/// Status register 2: temperature warnings, gate-supply over-voltage and
/// the device identifier. Bus address 0x1.
#[derive(Clone, Copy, Debug, PartialEq, Eq, Structural)]
pub struct StatusRegister2 {
    /// The raw 16-bit word the value was decoded from (or last encoded to).
    pub bits: u16,
    pub temp1: Flag,
    pub temp2: Flag,
    pub temp3: Flag,
    pub gvdd_ov: Flag,
    pub device_id: u8,
}

impl Register for StatusRegister2 {
    open spec fn spec_addr() -> u8 {
        0x1
    }

    open spec fn spec_parse(raw: u16) -> Self {
        StatusRegister2 {
            bits: raw,
            temp1: Flag::spec_from_bits((raw >> 10) & 1),
            temp2: Flag::spec_from_bits((raw >> 9) & 1),
            temp3: Flag::spec_from_bits((raw >> 8) & 1),
            gvdd_ov: Flag::spec_from_bits((raw >> 7) & 1),
            device_id: (((raw >> 0) & 0xF) as u8),
        }
    }

    open spec fn spec_data(self) -> u16 {
        (self.bits & 0xF870) | (self.temp1.spec_bits() << 10) | (self.temp2.spec_bits() << 9) | (
        self.temp3.spec_bits() << 8) | (self.gvdd_ov.spec_bits() << 7) | ((self.device_id as u16)
            << 0)
    }

    open spec fn wf(self) -> bool {
        self.device_id < 16
    }

    open spec fn same_fields(self, other: Self) -> bool {
        self.temp1 == other.temp1 && self.temp2 == other.temp2 && self.temp3 == other.temp3
            && self.gvdd_ov == other.gvdd_ov && self.device_id == other.device_id
    }

    fn addr() -> (a: u8) {
        0x1
    }

    fn parse(raw: u16) -> (r: Self) {
        StatusRegister2 {
            bits: raw,
            temp1: Flag::from_bits(get_field(raw, 10, 1)),
            temp2: Flag::from_bits(get_field(raw, 9, 1)),
            temp3: Flag::from_bits(get_field(raw, 8, 1)),
            gvdd_ov: Flag::from_bits(get_field(raw, 7, 1)),
            device_id: (get_field(raw, 0, 0xF) as u8),
        }
    }

    fn data(&self) -> (d: u16) {
        (self.bits & 0xF870) | (self.temp1.bits() << 10) | (self.temp2.bits() << 9) | (
        self.temp3.bits() << 8) | (self.gvdd_ov.bits() << 7) | ((self.device_id as u16) << 0)
    }

    proof fn lemma_parse_wf(raw: u16) {
        assert((((raw >> 0) & 0xF) as u8) < 16) by (bit_vector);
    }

    proof fn lemma_encode_of_decode(raw: u16) {
        let v10: u16 = (raw >> 10) & 1;
        let v9: u16 = (raw >> 9) & 1;
        let v8: u16 = (raw >> 8) & 1;
        let v7: u16 = (raw >> 7) & 1;
        let vid: u16 = (raw >> 0) & 0xF;
        lemma_mask_bound(raw, 10, 1);
        lemma_mask_bound(raw, 9, 1);
        lemma_mask_bound(raw, 8, 1);
        lemma_mask_bound(raw, 7, 1);
        lemma_flag_bits_inverse(v10);
        lemma_flag_bits_inverse(v9);
        lemma_flag_bits_inverse(v8);
        lemma_flag_bits_inverse(v7);
        assert((raw & 0xF870) | (v10 << 10) | (v9 << 9) | (v8 << 8) | (v7 << 7) | ((((vid as u8))
            as u16) << 0) == raw) by (bit_vector)
            requires
                v10 == (raw >> 10) & 1,
                v9 == (raw >> 9) & 1,
                v8 == (raw >> 8) & 1,
                v7 == (raw >> 7) & 1,
                vid == (raw >> 0) & 0xF,
        ;
    }

    proof fn lemma_decode_of_encode(r: Self) {
        let b: u16 = r.bits;
        let v10: u16 = r.temp1.spec_bits();
        let v9: u16 = r.temp2.spec_bits();
        let v8: u16 = r.temp3.spec_bits();
        let v7: u16 = r.gvdd_ov.spec_bits();
        let vid8: u8 = r.device_id;
        let vid: u16 = r.device_id as u16;
        let d: u16 = r.spec_data();
        assert(((d >> 10) & 1) == v10 && ((d >> 9) & 1) == v9 && ((d >> 8) & 1) == v8 && ((d >> 7)
            & 1) == v7 && (((d >> 0) & 0xF) as u8) == vid8) by (bit_vector)
            requires
                d == (b & 0xF870) | (v10 << 10) | (v9 << 9) | (v8 << 8) | (v7 << 7) | (vid << 0),
                vid == vid8 as u16,
                v10 <= 1,
                v9 <= 1,
                v8 <= 1,
                v7 <= 1,
                vid8 < 16,
        ;
        lemma_flag_roundtrip(r.temp1);
        lemma_flag_roundtrip(r.temp2);
        lemma_flag_roundtrip(r.temp3);
        lemma_flag_roundtrip(r.gvdd_ov);
    }
}

/// Control register 1: over-current threshold and protection mode, PWM
/// scheme, gate reset and gate drive current. Bus address 0x2.
#[derive(Clone, Copy, Debug, PartialEq, Eq, Structural)]
pub struct ControlRegister1 {
    /// The raw 16-bit word the value was decoded from (or last encoded to).
    pub bits: u16,
    pub oc_adj_set: u8,
    pub ocp_mode: u8,
    pub pwm_mode: PwmMode,
    pub gate_reset: Flag,
    pub gate_current: u8,
}

impl Register for ControlRegister1 {
    open spec fn spec_addr() -> u8 {
        0x2
    }

    open spec fn spec_parse(raw: u16) -> Self {
        ControlRegister1 {
            bits: raw,
            oc_adj_set: (((raw >> 6) & 0x1F) as u8),
            ocp_mode: (((raw >> 4) & 0x3) as u8),
            pwm_mode: PwmMode::spec_from_bits((raw >> 3) & 1),
            gate_reset: Flag::spec_from_bits((raw >> 2) & 1),
            gate_current: (((raw >> 0) & 0x3) as u8),
        }
    }

    open spec fn spec_data(self) -> u16 {
        (self.bits & 0xF800) | ((self.oc_adj_set as u16) << 6) | ((self.ocp_mode as u16) << 4) | (
        self.pwm_mode.spec_bits() << 3) | (self.gate_reset.spec_bits() << 2) | ((self.gate_current
            as u16) << 0)
    }

    open spec fn wf(self) -> bool {
        self.oc_adj_set < 32 && self.ocp_mode < 4 && self.gate_current < 4
    }

    open spec fn same_fields(self, other: Self) -> bool {
        self.oc_adj_set == other.oc_adj_set && self.ocp_mode == other.ocp_mode && self.pwm_mode
            == other.pwm_mode && self.gate_reset == other.gate_reset && self.gate_current
            == other.gate_current
    }

    fn addr() -> (a: u8) {
        0x2
    }

    fn parse(raw: u16) -> (r: Self) {
        ControlRegister1 {
            bits: raw,
            oc_adj_set: (get_field(raw, 6, 0x1F) as u8),
            ocp_mode: (get_field(raw, 4, 0x3) as u8),
            pwm_mode: PwmMode::from_bits(get_field(raw, 3, 1)),
            gate_reset: Flag::from_bits(get_field(raw, 2, 1)),
            gate_current: (get_field(raw, 0, 0x3) as u8),
        }
    }

    fn data(&self) -> (d: u16) {
        (self.bits & 0xF800) | ((self.oc_adj_set as u16) << 6) | ((self.ocp_mode as u16) << 4) | (
        self.pwm_mode.bits() << 3) | (self.gate_reset.bits() << 2) | ((self.gate_current as u16)
            << 0)
    }

    proof fn lemma_parse_wf(raw: u16) {
        assert((((raw >> 6) & 0x1F) as u8) < 32 && (((raw >> 4) & 0x3) as u8) < 4 && (((raw >> 0)
            & 0x3) as u8) < 4) by (bit_vector);
    }

    proof fn lemma_encode_of_decode(raw: u16) {
        let va: u16 = (raw >> 6) & 0x1F;
        let vo: u16 = (raw >> 4) & 0x3;
        let vp: u16 = (raw >> 3) & 1;
        let vg: u16 = (raw >> 2) & 1;
        let vc: u16 = (raw >> 0) & 0x3;
        lemma_mask_bound(raw, 3, 1);
        lemma_mask_bound(raw, 2, 1);
        lemma_pwm_bits_inverse(vp);
        lemma_flag_bits_inverse(vg);
        assert((raw & 0xF800) | (((va as u8) as u16) << 6) | (((vo as u8) as u16) << 4) | (vp << 3)
            | (vg << 2) | (((vc as u8) as u16) << 0) == raw) by (bit_vector)
            requires
                va == (raw >> 6) & 0x1F,
                vo == (raw >> 4) & 0x3,
                vp == (raw >> 3) & 1,
                vg == (raw >> 2) & 1,
                vc == (raw >> 0) & 0x3,
        ;
    }

    proof fn lemma_decode_of_encode(r: Self) {
        let b: u16 = r.bits;
        let va8: u8 = r.oc_adj_set;
        let vo8: u8 = r.ocp_mode;
        let vp: u16 = r.pwm_mode.spec_bits();
        let vg: u16 = r.gate_reset.spec_bits();
        let vc8: u8 = r.gate_current;
        let d: u16 = r.spec_data();
        assert((((d >> 6) & 0x1F) as u8) == va8 && (((d >> 4) & 0x3) as u8) == vo8 && ((d >> 3)
            & 1) == vp && ((d >> 2) & 1) == vg && (((d >> 0) & 0x3) as u8) == vc8) by (bit_vector)
            requires
                d == (b & 0xF800) | ((va8 as u16) << 6) | ((vo8 as u16) << 4) | (vp << 3) | (vg
                    << 2) | ((vc8 as u16) << 0),
                va8 < 32,
                vo8 < 4,
                vc8 < 4,
                vp <= 1,
                vg <= 1,
        ;
        lemma_pwm_roundtrip(r.pwm_mode);
        lemma_flag_roundtrip(r.gate_reset);
    }
}

/// Control register 2: over-current off-time, amplifier calibration, shunt
/// amplifier gain and warning-pin report mode. Bus address 0x3.
#[derive(Clone, Copy, Debug, PartialEq, Eq, Structural)]
pub struct ControlRegister2 {
    /// The raw 16-bit word the value was decoded from (or last encoded to).
    pub bits: u16,
    pub oc_toff: Flag,
    pub dc_cal_ch2: Flag,
    pub dc_cal_ch1: Flag,
    pub shunt_gain: u8,
    pub octw_mode: u8,
}

impl Register for ControlRegister2 {
    open spec fn spec_addr() -> u8 {
        0x3
    }

    open spec fn spec_parse(raw: u16) -> Self {
        ControlRegister2 {
            bits: raw,
            oc_toff: Flag::spec_from_bits((raw >> 6) & 1),
            dc_cal_ch2: Flag::spec_from_bits((raw >> 5) & 1),
            dc_cal_ch1: Flag::spec_from_bits((raw >> 4) & 1),
            shunt_gain: (((raw >> 2) & 0x3) as u8),
            octw_mode: (((raw >> 0) & 0x3) as u8),
        }
    }

    open spec fn spec_data(self) -> u16 {
        (self.bits & 0xFF80) | (self.oc_toff.spec_bits() << 6) | (self.dc_cal_ch2.spec_bits() << 5)
            | (self.dc_cal_ch1.spec_bits() << 4) | ((self.shunt_gain as u16) << 2) | ((
        self.octw_mode as u16) << 0)
    }

    open spec fn wf(self) -> bool {
        self.shunt_gain < 4 && self.octw_mode < 4
    }

    open spec fn same_fields(self, other: Self) -> bool {
        self.oc_toff == other.oc_toff && self.dc_cal_ch2 == other.dc_cal_ch2 && self.dc_cal_ch1
            == other.dc_cal_ch1 && self.shunt_gain == other.shunt_gain && self.octw_mode
            == other.octw_mode
    }

    fn addr() -> (a: u8) {
        0x3
    }

    fn parse(raw: u16) -> (r: Self) {
        ControlRegister2 {
            bits: raw,
            oc_toff: Flag::from_bits(get_field(raw, 6, 1)),
            dc_cal_ch2: Flag::from_bits(get_field(raw, 5, 1)),
            dc_cal_ch1: Flag::from_bits(get_field(raw, 4, 1)),
            shunt_gain: (get_field(raw, 2, 0x3) as u8),
            octw_mode: (get_field(raw, 0, 0x3) as u8),
        }
    }

    fn data(&self) -> (d: u16) {
        (self.bits & 0xFF80) | (self.oc_toff.bits() << 6) | (self.dc_cal_ch2.bits() << 5) | (
        self.dc_cal_ch1.bits() << 4) | ((self.shunt_gain as u16) << 2) | ((self.octw_mode as u16)
            << 0)
    }

    proof fn lemma_parse_wf(raw: u16) {
        assert((((raw >> 2) & 0x3) as u8) < 4 && (((raw >> 0) & 0x3) as u8) < 4) by (bit_vector);
    }

    proof fn lemma_encode_of_decode(raw: u16) {
        let v6: u16 = (raw >> 6) & 1;
        let v5: u16 = (raw >> 5) & 1;
        let v4: u16 = (raw >> 4) & 1;
        let vs: u16 = (raw >> 2) & 0x3;
        let vm: u16 = (raw >> 0) & 0x3;
        lemma_mask_bound(raw, 6, 1);
        lemma_mask_bound(raw, 5, 1);
        lemma_mask_bound(raw, 4, 1);
        lemma_flag_bits_inverse(v6);
        lemma_flag_bits_inverse(v5);
        lemma_flag_bits_inverse(v4);
        assert((raw & 0xFF80) | (v6 << 6) | (v5 << 5) | (v4 << 4) | (((vs as u8) as u16) << 2) | ((
        (vm as u8) as u16) << 0) == raw) by (bit_vector)
            requires
                v6 == (raw >> 6) & 1,
                v5 == (raw >> 5) & 1,
                v4 == (raw >> 4) & 1,
                vs == (raw >> 2) & 0x3,
                vm == (raw >> 0) & 0x3,
        ;
    }

    proof fn lemma_decode_of_encode(r: Self) {
        let b: u16 = r.bits;
        let v6: u16 = r.oc_toff.spec_bits();
        let v5: u16 = r.dc_cal_ch2.spec_bits();
        let v4: u16 = r.dc_cal_ch1.spec_bits();
        let vs8: u8 = r.shunt_gain;
        let vm8: u8 = r.octw_mode;
        let d: u16 = r.spec_data();
        assert(((d >> 6) & 1) == v6 && ((d >> 5) & 1) == v5 && ((d >> 4) & 1) == v4 && (((d >> 2)
            & 0x3) as u8) == vs8 && (((d >> 0) & 0x3) as u8) == vm8) by (bit_vector)
            requires
                d == (b & 0xFF80) | (v6 << 6) | (v5 << 5) | (v4 << 4) | ((vs8 as u16) << 2) | ((vm8
                    as u16) << 0),
                v6 <= 1,
                v5 <= 1,
                v4 <= 1,
                vs8 < 4,
                vm8 < 4,
        ;
        lemma_flag_roundtrip(r.oc_toff);
        lemma_flag_roundtrip(r.dc_cal_ch2);
        lemma_flag_roundtrip(r.dc_cal_ch1);
    }
}

impl StatusRegister1 {
    /// A copy of the register with only `fault` replaced.
    pub fn fault(self, fault: Flag) -> (r: Self)
        ensures
            r == (Self { fault, ..self }),
    {
        Self { fault, ..self }
    }

    /// A copy of the register with only `gvdd_uv` replaced.
    pub fn gvdd_uv(self, gvdd_uv: Flag) -> (r: Self)
        ensures
            r == (Self { gvdd_uv, ..self }),
    {
        Self { gvdd_uv, ..self }
    }

    /// A copy of the register with only `pvdd_uv` replaced.
    pub fn pvdd_uv(self, pvdd_uv: Flag) -> (r: Self)
        ensures
            r == (Self { pvdd_uv, ..self }),
    {
        Self { pvdd_uv, ..self }
    }

    /// A copy of the register with only `otsd` replaced.
    pub fn otsd(self, otsd: Flag) -> (r: Self)
        ensures
            r == (Self { otsd, ..self }),
    {
        Self { otsd, ..self }
    }

    /// A copy of the register with only `otw` replaced.
    pub fn otw(self, otw: Flag) -> (r: Self)
        ensures
            r == (Self { otw, ..self }),
    {
        Self { otw, ..self }
    }

    /// A copy of the register with only `fetha_oc` replaced.
    pub fn fetha_oc(self, fetha_oc: Flag) -> (r: Self)
        ensures
            r == (Self { fetha_oc, ..self }),
    {
        Self { fetha_oc, ..self }
    }

    /// A copy of the register with only `fetla_oc` replaced.
    pub fn fetla_oc(self, fetla_oc: Flag) -> (r: Self)
        ensures
            r == (Self { fetla_oc, ..self }),
    {
        Self { fetla_oc, ..self }
    }

    /// A copy of the register with only `fethb_oc` replaced.
    pub fn fethb_oc(self, fethb_oc: Flag) -> (r: Self)
        ensures
            r == (Self { fethb_oc, ..self }),
    {
        Self { fethb_oc, ..self }
    }

    /// A copy of the register with only `fetlb_oc` replaced.
    pub fn fetlb_oc(self, fetlb_oc: Flag) -> (r: Self)
        ensures
            r == (Self { fetlb_oc, ..self }),
    {
        Self { fetlb_oc, ..self }
    }

    /// A copy of the register with only `fethc_oc` replaced.
    pub fn fethc_oc(self, fethc_oc: Flag) -> (r: Self)
        ensures
            r == (Self { fethc_oc, ..self }),
    {
        Self { fethc_oc, ..self }
    }

    /// A copy of the register with only `fetlc_oc` replaced.
    pub fn fetlc_oc(self, fetlc_oc: Flag) -> (r: Self)
        ensures
            r == (Self { fetlc_oc, ..self }),
    {
        Self { fetlc_oc, ..self }
    }
}

impl StatusRegister2 {
    /// A copy of the register with only `temp1` replaced.
    pub fn temp1(self, temp1: Flag) -> (r: Self)
        ensures
            r == (Self { temp1, ..self }),
    {
        Self { temp1, ..self }
    }

    /// A copy of the register with only `temp2` replaced.
    pub fn temp2(self, temp2: Flag) -> (r: Self)
        ensures
            r == (Self { temp2, ..self }),
    {
        Self { temp2, ..self }
    }

    /// A copy of the register with only `temp3` replaced.
    pub fn temp3(self, temp3: Flag) -> (r: Self)
        ensures
            r == (Self { temp3, ..self }),
    {
        Self { temp3, ..self }
    }

    /// A copy of the register with only `gvdd_ov` replaced.
    pub fn gvdd_ov(self, gvdd_ov: Flag) -> (r: Self)
        ensures
            r == (Self { gvdd_ov, ..self }),
    {
        Self { gvdd_ov, ..self }
    }

    /// A copy of the register with only `device_id` replaced. The value
    /// must fit the field's four bits.
    pub fn device_id(self, device_id: u8) -> (r: Self)
        requires
            device_id < 16,
        ensures
            r == (Self { device_id, ..self }),
    {
        Self { device_id, ..self }
    }
}

impl ControlRegister1 {
    /// A copy of the register with only `oc_adj_set` replaced. The value
    /// must fit the field's five bits.
    pub fn oc_adj_set(self, oc_adj_set: u8) -> (r: Self)
        requires
            oc_adj_set < 32,
        ensures
            r == (Self { oc_adj_set, ..self }),
    {
        Self { oc_adj_set, ..self }
    }

    /// A copy of the register with only `ocp_mode` replaced. The value
    /// must fit the field's two bits.
    pub fn ocp_mode(self, ocp_mode: u8) -> (r: Self)
        requires
            ocp_mode < 4,
        ensures
            r == (Self { ocp_mode, ..self }),
    {
        Self { ocp_mode, ..self }
    }

    /// A copy of the register with only `pwm_mode` replaced.
    pub fn pwm_mode(self, pwm_mode: PwmMode) -> (r: Self)
        ensures
            r == (Self { pwm_mode, ..self }),
    {
        Self { pwm_mode, ..self }
    }

    /// A copy of the register with only `gate_reset` replaced.
    pub fn gate_reset(self, gate_reset: Flag) -> (r: Self)
        ensures
            r == (Self { gate_reset, ..self }),
    {
        Self { gate_reset, ..self }
    }

    /// A copy of the register with only `gate_current` replaced. The value
    /// must fit the field's two bits.
    pub fn gate_current(self, gate_current: u8) -> (r: Self)
        requires
            gate_current < 4,
        ensures
            r == (Self { gate_current, ..self }),
    {
        Self { gate_current, ..self }
    }
}

impl ControlRegister2 {
    /// A copy of the register with only `oc_toff` replaced.
    pub fn oc_toff(self, oc_toff: Flag) -> (r: Self)
        ensures
            r == (Self { oc_toff, ..self }),
    {
        Self { oc_toff, ..self }
    }

    /// A copy of the register with only `dc_cal_ch2` replaced.
    pub fn dc_cal_ch2(self, dc_cal_ch2: Flag) -> (r: Self)
        ensures
            r == (Self { dc_cal_ch2, ..self }),
    {
        Self { dc_cal_ch2, ..self }
    }

    /// A copy of the register with only `dc_cal_ch1` replaced.
    pub fn dc_cal_ch1(self, dc_cal_ch1: Flag) -> (r: Self)
        ensures
            r == (Self { dc_cal_ch1, ..self }),
    {
        Self { dc_cal_ch1, ..self }
    }

    /// A copy of the register with only `shunt_gain` replaced. The value
    /// must fit the field's two bits.
    pub fn shunt_gain(self, shunt_gain: u8) -> (r: Self)
        requires
            shunt_gain < 4,
        ensures
            r == (Self { shunt_gain, ..self }),
    {
        Self { shunt_gain, ..self }
    }

    /// A copy of the register with only `octw_mode` replaced. The value
    /// must fit the field's two bits.
    pub fn octw_mode(self, octw_mode: u8) -> (r: Self)
        requires
            octw_mode < 4,
        ensures
            r == (Self { octw_mode, ..self }),
    {
        Self { octw_mode, ..self }
    }
}

/// Read-modify-write preserves untouched fields: replacing one field of a
/// decoded control register and encoding the result leaves every other
/// field's decoded value at its prior value.
pub proof fn lemma_rmw_preserves_fields(r: ControlRegister1, gate_current: u8)
    requires
        r.wf(),
        gate_current < 4,
    ensures
        ({
            let back = ControlRegister1::spec_parse(
                (ControlRegister1 { gate_current, ..r }).spec_data(),
            );
            back.gate_current == gate_current && back.oc_adj_set == r.oc_adj_set && back.ocp_mode
                == r.ocp_mode && back.pwm_mode == r.pwm_mode && back.gate_reset == r.gate_reset
        }),
{
    ControlRegister1::lemma_decode_of_encode(ControlRegister1 { gate_current, ..r });
}

} // verus!

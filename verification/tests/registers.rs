use drv8301::register::{
    ControlRegister1, ControlRegister2, Flag, OcpMode, PwmMode, Register, StatusRegister1,
    StatusRegister2,
};

fn flag_of(b: bool) -> Flag {
    if b {
        Flag::Enable
    } else {
        Flag::Disable
    }
}

#[test]
fn register_addresses() {
    assert_eq!(StatusRegister1::addr(), 0x0);
    assert_eq!(StatusRegister2::addr(), 0x1);
    assert_eq!(ControlRegister1::addr(), 0x2);
    assert_eq!(ControlRegister2::addr(), 0x3);
}

#[test]
fn encode_of_decode_every_raw_word() {
    // Every 16-bit pattern decodes, and encoding the result reproduces it
    // exactly, reserved bits included.
    for raw in 0..=0xFFFFu16 {
        assert_eq!(StatusRegister1::parse(raw).data(), raw);
        assert_eq!(StatusRegister2::parse(raw).data(), raw);
        assert_eq!(ControlRegister1::parse(raw).data(), raw);
        assert_eq!(ControlRegister2::parse(raw).data(), raw);
    }
}

#[test]
fn decode_of_encode_status1() {
    // All 2048 assignments of the eleven one-bit fields.
    for combo in 0..2048u16 {
        let r = StatusRegister1 {
            bits: 0x1234,
            fault: flag_of(combo & (1 << 10) != 0),
            gvdd_uv: flag_of(combo & (1 << 9) != 0),
            pvdd_uv: flag_of(combo & (1 << 8) != 0),
            otsd: flag_of(combo & (1 << 7) != 0),
            otw: flag_of(combo & (1 << 6) != 0),
            fetha_oc: flag_of(combo & (1 << 5) != 0),
            fetla_oc: flag_of(combo & (1 << 4) != 0),
            fethb_oc: flag_of(combo & (1 << 3) != 0),
            fetlb_oc: flag_of(combo & (1 << 2) != 0),
            fethc_oc: flag_of(combo & (1 << 1) != 0),
            fetlc_oc: flag_of(combo & 1 != 0),
        };
        let back = StatusRegister1::parse(r.data());
        assert_eq!(back.fault, r.fault);
        assert_eq!(back.gvdd_uv, r.gvdd_uv);
        assert_eq!(back.pvdd_uv, r.pvdd_uv);
        assert_eq!(back.otsd, r.otsd);
        assert_eq!(back.otw, r.otw);
        assert_eq!(back.fetha_oc, r.fetha_oc);
        assert_eq!(back.fetla_oc, r.fetla_oc);
        assert_eq!(back.fethb_oc, r.fethb_oc);
        assert_eq!(back.fetlb_oc, r.fetlb_oc);
        assert_eq!(back.fethc_oc, r.fethc_oc);
        assert_eq!(back.fetlc_oc, r.fetlc_oc);
    }
}

#[test]
fn decode_of_encode_status2() {
    for combo in 0..16u16 {
        for device_id in 0..16u8 {
            let r = StatusRegister2 {
                bits: 0xFFFF,
                temp1: flag_of(combo & 8 != 0),
                temp2: flag_of(combo & 4 != 0),
                temp3: flag_of(combo & 2 != 0),
                gvdd_ov: flag_of(combo & 1 != 0),
                device_id,
            };
            let back = StatusRegister2::parse(r.data());
            assert_eq!(back.temp1, r.temp1);
            assert_eq!(back.temp2, r.temp2);
            assert_eq!(back.temp3, r.temp3);
            assert_eq!(back.gvdd_ov, r.gvdd_ov);
            assert_eq!(back.device_id, r.device_id);
        }
    }
}

#[test]
fn decode_of_encode_control1() {
    for oc_adj_set in 0..32u8 {
        for ocp_mode in 0..4u8 {
            for pwm_mode in [PwmMode::Six, PwmMode::Three] {
                for gate_reset in [Flag::Disable, Flag::Enable] {
                    for gate_current in 0..4u8 {
                        let r = ControlRegister1 {
                            bits: 0xA800,
                            oc_adj_set,
                            ocp_mode,
                            pwm_mode,
                            gate_reset,
                            gate_current,
                        };
                        let back = ControlRegister1::parse(r.data());
                        assert_eq!(back.oc_adj_set, oc_adj_set);
                        assert_eq!(back.ocp_mode, ocp_mode);
                        assert_eq!(back.pwm_mode, pwm_mode);
                        assert_eq!(back.gate_reset, gate_reset);
                        assert_eq!(back.gate_current, gate_current);
                    }
                }
            }
        }
    }
}

#[test]
fn decode_of_encode_control2() {
    for combo in 0..8u16 {
        for shunt_gain in 0..4u8 {
            for octw_mode in 0..4u8 {
                let r = ControlRegister2 {
                    bits: 0x07FF,
                    oc_toff: flag_of(combo & 4 != 0),
                    dc_cal_ch2: flag_of(combo & 2 != 0),
                    dc_cal_ch1: flag_of(combo & 1 != 0),
                    shunt_gain,
                    octw_mode,
                };
                let back = ControlRegister2::parse(r.data());
                assert_eq!(back.oc_toff, r.oc_toff);
                assert_eq!(back.dc_cal_ch2, r.dc_cal_ch2);
                assert_eq!(back.dc_cal_ch1, r.dc_cal_ch1);
                assert_eq!(back.shunt_gain, shunt_gain);
                assert_eq!(back.octw_mode, octw_mode);
            }
        }
    }
}

#[test]
fn encode_preserves_reserved_bits() {
    // Control register 2 covers only bits 0-6; bits 7-10 of the raw word
    // are reserved and must survive a decode-encode round trip.
    let r = ControlRegister2::parse(0x0780);
    assert_eq!(r.data(), 0x0780);
}

#[test]
fn rmw_preserves_untouched_fields() {
    // Decoded control register 1 with oc_adj_set=15, ocp_mode=0,
    // pwm_mode=Six, gate_reset=Disable, gate_current=0.
    let r = ControlRegister1::parse(0x03C0);
    assert_eq!(r.oc_adj_set, 15);
    assert_eq!(r.ocp_mode, 0);
    assert_eq!(r.pwm_mode, PwmMode::Six);
    assert_eq!(r.gate_reset, Flag::Disable);
    assert_eq!(r.gate_current, 0);
    // Updating only gate_current leaves every other field at its prior
    // value after encode.
    let back = ControlRegister1::parse(r.gate_current(2).data());
    assert_eq!(back.gate_current, 2);
    assert_eq!(back.oc_adj_set, 15);
    assert_eq!(back.ocp_mode, 0);
    assert_eq!(back.pwm_mode, PwmMode::Six);
    assert_eq!(back.gate_reset, Flag::Disable);
}

#[test]
fn builders_replace_one_field() {
    let r = ControlRegister1::parse(0x0000);
    let r2 = r.oc_adj_set(31).gate_reset(Flag::Enable);
    assert_eq!(r2.oc_adj_set, 31);
    assert_eq!(r2.gate_reset, Flag::Enable);
    assert_eq!(r2.ocp_mode, 0);
    assert_eq!(r2.gate_current, 0);
    let s = StatusRegister1::parse(0x0000).fault(Flag::Enable).otsd(Flag::Enable);
    assert_eq!(s.fault, Flag::Enable);
    assert_eq!(s.otsd, Flag::Enable);
    assert_eq!(s.gvdd_uv, Flag::Disable);
    let s2 = StatusRegister2::parse(0x0000).device_id(9).temp1(Flag::Enable);
    assert_eq!(s2.device_id, 9);
    assert_eq!(s2.temp1, Flag::Enable);
    let c2 = ControlRegister2::parse(0x0000).shunt_gain(2).oc_toff(Flag::Enable);
    assert_eq!(c2.shunt_gain, 2);
    assert_eq!(c2.oc_toff, Flag::Enable);
    assert_eq!(c2.octw_mode, 0);
}

#[test]
fn flag_conversions() {
    assert!(Flag::Enable.enabled());
    assert!(!Flag::Disable.enabled());
    assert_eq!(Flag::Enable.bits(), 1);
    assert_eq!(Flag::Disable.bits(), 0);
    assert_eq!(Flag::from_bits(1), Flag::Enable);
    assert_eq!(Flag::from_bits(0), Flag::Disable);
}

#[test]
fn pwm_mode_conversions() {
    assert_eq!(PwmMode::Six.bits(), 0);
    assert_eq!(PwmMode::Three.bits(), 1);
    assert_eq!(PwmMode::from_bits(0), PwmMode::Six);
    assert_eq!(PwmMode::from_bits(1), PwmMode::Three);
}

#[test]
fn ocp_mode_conversions() {
    let modes = [
        OcpMode::CurrentLimit,
        OcpMode::OcLatchShutdown,
        OcpMode::ReportOnly,
        OcpMode::OcDisabled,
    ];
    for (i, m) in modes.into_iter().enumerate() {
        assert_eq!(m.bits(), i as u16);
        assert_eq!(OcpMode::from_bits(i as u16), m);
    }
}

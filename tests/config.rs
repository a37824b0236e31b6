use stm32_touch_sense::config::{tsc_config_field, TouchSenseConfig, TscConfigError};
use stm32_touch_sense::regs::{ControlReg, RegAccess, TscRegs, G8_IO2, G8_IO3};

fn applied(c: TouchSenseConfig) -> TscRegs {
    c.config(TscRegs::reset()).into_inner()
}

fn default_control() -> ControlReg {
    ControlReg {
        ctph: 1,
        ctpl: 2,
        ssd: 0,
        sse: false,
        sspsc: false,
        pgpsc: 0,
        mcv: 6,
        iodef: true,
        syncpol: false,
        am: false,
        start: false,
        tsce: true,
    }
}

#[test]
fn config_field_width() {
    assert_eq!(tsc_config_field::<4>(15), Ok(15));
    assert_eq!(tsc_config_field::<4>(16), Err(TscConfigError));
    assert_eq!(tsc_config_field::<3>(7), Ok(7));
    assert_eq!(tsc_config_field::<3>(8), Err(TscConfigError));
    assert_eq!(tsc_config_field::<6>(63), Ok(63));
    assert_eq!(tsc_config_field::<6>(64), Err(TscConfigError));
    assert_eq!(tsc_config_field::<8>(255), Ok(255));
    assert_eq!(tsc_config_field::<8>(256), Err(TscConfigError));
    assert_eq!(tsc_config_field::<0>(0), Ok(0));
    assert_eq!(tsc_config_field::<0>(1), Err(TscConfigError));
}

#[test]
fn timing_out_of_width_is_rejected_and_leaves_config_unchanged() {
    let mut c = TouchSenseConfig::default();
    assert!(c.set_timing(16, 2, 0).is_err());
    assert!(c.set_timing(1, 16, 0).is_err());
    assert!(c.set_timing(1, 2, 8).is_err());
    assert!(c.set_timing(u32::MAX, u32::MAX, u32::MAX).is_err());
    assert!(c.set_timing(0, 15, u32::MAX).is_err());
    assert_eq!(applied(c).cr, default_control());
}

#[test]
fn timing_sum_constraint() {
    let mut c = TouchSenseConfig::default();
    assert_eq!(c.set_timing(0, 0, 0).err(), Some(TscConfigError));
    assert!(c.set_timing(0, 2, 0).is_ok());
    assert!(c.set_timing(0, 0, 2).is_ok());
    assert!(c.set_timing(3, 1, 0).is_err());
    assert!(c.set_timing(0, 1, 1).is_ok());
    let r = applied(c);
    assert_eq!(r.cr.ctph, 0);
    assert_eq!(r.cr.ctpl, 1);
    assert_eq!(r.cr.pgpsc, 1);
}

#[test]
fn timing_upper_boundary() {
    let mut c = TouchSenseConfig::default();
    assert!(c.set_timing(15, 15, 7).is_ok());
    let r = applied(c);
    assert_eq!((r.cr.ctph, r.cr.ctpl, r.cr.pgpsc), (15, 15, 7));
}

#[test]
fn max_acq_count_range() {
    let mut c = TouchSenseConfig::default();
    assert!(c.set_max_acq_count(6).is_ok());
    assert!(c.set_max_acq_count(0).is_ok());
    assert_eq!(c.set_max_acq_count(7).err(), Some(TscConfigError));
    assert!(c.set_max_acq_count(u32::MAX).is_err());
    assert_eq!(applied(c).cr.mcv, 0);
}

#[test]
fn spread_spectrum_range() {
    let mut c = TouchSenseConfig::default();
    assert_eq!(c.set_spread_spectrum(64, true).err(), Some(TscConfigError));
    assert_eq!(applied(c).cr, default_control());

    let mut c = TouchSenseConfig::default();
    assert!(c.set_spread_spectrum(63, true).is_ok());
    let r = applied(c);
    assert!(r.cr.sse);
    assert_eq!(r.cr.ssd, 63);
    assert!(r.cr.sspsc);
    assert_eq!(r.cr.ctph, 1);
}

#[test]
fn spread_spectrum_without_prescaler_halving() {
    let mut c = TouchSenseConfig::default();
    assert!(c.set_spread_spectrum(0, false).is_ok());
    let r = applied(c);
    assert!(r.cr.sse);
    assert_eq!(r.cr.ssd, 0);
    assert!(!r.cr.sspsc);
}

#[test]
fn mode_flags_and_chaining() {
    let mut c = TouchSenseConfig::default();
    c.set_io_default_mode(false)
        .set_sync_pin_polarity(true)
        .set_sync_acq_mode(true);
    c.set_timing(2, 3, 4)
        .unwrap()
        .set_max_acq_count(3)
        .unwrap()
        .set_spread_spectrum(10, false)
        .unwrap();
    let r = applied(c);
    assert_eq!(
        r.cr,
        ControlReg {
            ctph: 2,
            ctpl: 3,
            ssd: 10,
            sse: true,
            sspsc: false,
            pgpsc: 4,
            mcv: 3,
            iodef: false,
            syncpol: true,
            am: true,
            start: false,
            tsce: true,
        }
    );
}

#[test]
fn default_config_applies() {
    let r = applied(TouchSenseConfig::default());
    assert_eq!(r.cr, default_control());
    assert_eq!(r.ioccr, G8_IO2);
    assert_eq!(r.iohcr, !(G8_IO2 | G8_IO3));
    assert_eq!(r.ioascr, G8_IO2);
    assert_eq!(r.ioscr, G8_IO3);
    assert_eq!(r.iogcsr, 0);
}

#[test]
fn config_keeps_other_pins() {
    let mut tsc = TscRegs::reset();
    tsc.ioccr = 0x1;
    tsc.ioascr = 0x2;
    tsc.ioscr = 0x4;
    tsc.iohcr = 0x6000_0001;
    let r = TouchSenseConfig::default().config(tsc).into_inner();
    assert_eq!(r.ioccr, 0x2000_0001);
    assert_eq!(r.ioascr, 0x2000_0002);
    assert_eq!(r.ioscr, 0x4000_0004);
    assert_eq!(r.iohcr, 0x1);
}

#[test]
fn programming_sequence_default() {
    let c = TouchSenseConfig::default();
    let tsc = TscRegs::reset();
    let seq = c.programming_sequence(&tsc);
    assert_eq!(
        seq,
        vec![
            RegAccess::Control(default_control()),
            RegAccess::Channel(G8_IO2),
            RegAccess::Hysteresis(!G8_IO2),
            RegAccess::Hysteresis(!(G8_IO2 | G8_IO3)),
            RegAccess::AnalogSwitch(G8_IO2),
            RegAccess::Sampling(G8_IO3),
        ]
    );
}

#[test]
fn programming_sequence_with_spread_spectrum() {
    let mut c = TouchSenseConfig::default();
    c.set_spread_spectrum(20, true).unwrap();
    let seq = c.programming_sequence(&TscRegs::reset());
    assert_eq!(seq.len(), 7);
    assert_eq!(seq[0], RegAccess::Control(default_control()));
    assert_eq!(
        seq[1],
        RegAccess::Control(ControlReg {
            ssd: 20,
            sse: true,
            sspsc: true,
            ..default_control()
        })
    );
    assert_eq!(seq[6], RegAccess::Sampling(G8_IO3));
}

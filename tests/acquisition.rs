use stm32_touch_sense::config::TouchSenseConfig;
use stm32_touch_sense::regs::{ControlReg, RegAccess, TscRegs, G8E, G8_IO2, G8_IO3};
use stm32_touch_sense::{TouchSense, TscState};

fn driver() -> TouchSense {
    TouchSenseConfig::default().config(TscRegs::reset())
}

#[test]
fn new_programs_fixed_settings() {
    let r = TouchSense::new(TscRegs::reset()).into_inner();
    assert_eq!(
        r.cr,
        ControlReg {
            ctph: 0,
            ctpl: 4,
            ssd: 0x7f,
            sse: false,
            sspsc: false,
            pgpsc: 0,
            mcv: 6,
            iodef: false,
            syncpol: false,
            am: false,
            start: false,
            tsce: true,
        }
    );
    assert_eq!(r.ioccr, G8_IO2);
    assert_eq!(r.iohcr, !(G8_IO2 | G8_IO3));
    assert_eq!(r.ioascr, G8_IO2 | G8_IO3);
    assert_eq!(r.ioscr, G8_IO3);
}

#[test]
fn start_sequence() {
    let mut d = driver();
    let mut waited = false;
    {
        let h = d.start(|| waited = true);
        assert!(h.0.cr.iodef);
        assert!(h.0.cr.start);
        assert_eq!(h.0.iogcsr & G8E, G8E);
        assert!(!h.0.isr.eoaf);
        assert!(!h.0.isr.mcef);
    }
    assert!(waited);
    let r = d.into_inner();
    assert!(r.cr.start);
    assert!(r.cr.tsce);
}

#[test]
fn poll_busy_then_done() {
    let mut d = driver();
    let mut h = d.start(|| {});
    for _ in 0..5 {
        assert_eq!(h.poll(), TscState::Busy);
    }
    h.0.signal_end_of_acquisition(1234);
    assert_eq!(h.poll(), TscState::Done(1234));
    assert_eq!(h.poll(), TscState::Done(1234));
}

#[test]
fn poll_done_edges() {
    let mut d = driver();
    let mut h = d.start(|| {});
    h.0.signal_end_of_acquisition(0);
    assert_eq!(h.poll(), TscState::Done(0));
    let mut h = d.start(|| {});
    h.0.signal_end_of_acquisition(16383);
    assert_eq!(h.poll(), TscState::Done(16383));
}

#[test]
fn poll_reads_only_the_count_field() {
    let mut d = driver();
    let mut h = d.start(|| {});
    h.0.iog8cr = 0xffff_c00f;
    h.0.isr.eoaf = true;
    assert_eq!(h.poll(), TscState::Done(0xf));
}

#[test]
fn poll_overrun() {
    let mut d = driver();
    let mut h = d.start(|| {});
    assert_eq!(h.poll(), TscState::Busy);
    h.0.signal_max_count_error();
    assert_eq!(h.poll(), TscState::Overrun);
}

#[test]
fn overrun_wins_over_done() {
    let mut d = driver();
    let mut h = d.start(|| {});
    h.0.signal_end_of_acquisition(1234);
    h.0.signal_max_count_error();
    assert_eq!(h.poll(), TscState::Overrun);
}

#[test]
fn restart_clears_previous_flags() {
    let mut d = driver();
    {
        let mut h = d.start(|| {});
        h.0.signal_end_of_acquisition(77);
        assert_eq!(h.poll(), TscState::Done(77));
    }
    {
        let mut h = d.start(|| {});
        assert_eq!(h.poll(), TscState::Busy);
        h.0.signal_max_count_error();
        assert_eq!(h.poll(), TscState::Overrun);
    }
    {
        let mut h = d.start(|| {});
        assert_eq!(h.poll(), TscState::Busy);
        h.0.signal_end_of_acquisition(5);
        assert_eq!(h.poll(), TscState::Done(5));
    }
}

#[test]
fn clear_flags_is_write_one_to_clear() {
    let mut r = TscRegs::reset();
    r.signal_end_of_acquisition(9);
    r.signal_max_count_error();
    r.clear_flags(false, true);
    assert!(r.isr.mcef);
    assert!(!r.isr.eoaf);
    r.clear_flags(true, false);
    assert!(!r.isr.mcef);
}

#[test]
fn registers_show_the_programmed_file() {
    let d = driver();
    assert!(d.registers().cr.tsce);
    assert_eq!(d.registers().ioccr, G8_IO2);
    assert!(!d.registers().cr.start);
}

#[test]
fn start_sequence_order() {
    let d = driver();
    let cr = d.registers().cr;
    let seq = d.start_sequence();
    let released = ControlReg { iodef: true, ..cr };
    assert_eq!(
        seq,
        vec![
            RegAccess::Control(ControlReg { iodef: false, ..cr }),
            RegAccess::DischargeWait,
            RegAccess::Control(released),
            RegAccess::ClearFlags { mceic: true, eoaic: true },
            RegAccess::GroupControl(G8E),
            RegAccess::Control(ControlReg { start: true, ..released }),
        ]
    );
}

#[test]
fn start_sequence_matches_start() {
    let mut d = driver();
    let seq = d.start_sequence();
    let last = match seq[5] {
        RegAccess::Control(c) => c,
        _ => panic!("the start bit is set by a control write"),
    };
    let h = d.start(|| {});
    assert_eq!(h.0.cr, last);
    assert_eq!(h.0.iogcsr, G8E);
}

#[test]
fn new_sets_both_analog_switches() {
    let mut tsc = TscRegs::reset();
    tsc.ioascr = 0x1;
    let r = TouchSense::new(tsc).into_inner();
    assert_eq!(r.ioascr, 0x1 | G8_IO2 | G8_IO3);
}

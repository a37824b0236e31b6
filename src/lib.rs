//! Driver for the touch-sensing controller of the STM32F3: a validated
//! configuration builder that programs the controller once, and an
//! acquisition state machine that starts a measurement cycle and polls it to
//! completion.
//!
//! The driver works on a register file model (`regs::TscRegs`); the
//! controller's own registers are bound to it at the edge of the program.
pub mod config;
pub mod regs;

use vstd::prelude::*;

use crate::regs::{
    ControlReg, RegAccess, TscRegs, CNT_MASK, G8E, G8_IO3, MAX_COUNT, group_count, lemma_count_fits,
    with_analog_switch, with_control, with_discharge_wait, with_flags_cleared, with_group_control, with_group_io,
};

verus! {

/// What a poll of an acquisition observed.
#[derive(Debug, Clone, Copy, PartialEq, Eq, Structural)]
pub enum TscState {
    /// The acquisition is still running.
    Busy,
    /// The acquisition completed with this count (0..=16383).
    Done(u16),
    /// The acquisition exceeded the maximum count.
    Overrun,
}

/// The driver, idle: owns the register file.
pub struct TouchSense(TscRegs);

/// An acquisition in flight: borrows the register file from the driver
/// until it is dropped.
///
/// The field gives the register file's other side (the hardware, or a
/// simulation of it) access while the acquisition runs.
pub struct TouchSenseRead<'a>(pub &'a mut TscRegs);

/// The control register as `TouchSense::new` programs it.
pub open spec fn new_control() -> ControlReg {
    ControlReg {
        ctph: 0,
        ctpl: 4,
        ssd: 0x7f,
        sse: false,
        sspsc: false,
        pgpsc: 0,
        mcv: 6,
        iodef: false,
        syncpol: false,
        am: false,
        start: false,
        tsce: true,
    }
}

/// The register file once an acquisition was started from `r`, step by
/// step: I/O default mode cleared to discharge the sampling capacitor, the
/// caller's wait, I/O default mode set again, both flags of the previous
/// cycle cleared, group 8 enabled, and last the start bit set.
pub open spec fn started(r: TscRegs) -> TscRegs {
    let discharging = with_control(r, ControlReg { iodef: false, ..r.cr });
    let waited = with_discharge_wait(discharging);
    let released = with_control(waited, ControlReg { iodef: true, ..r.cr });
    let cleared = with_flags_cleared(released, true, true);
    let enabled = with_group_control(cleared, r.iogcsr | G8E);
    with_control(enabled, ControlReg { iodef: true, start: true, ..r.cr })
}

/// What a poll of the register file `r` reports. A max count error wins
/// over a completed acquisition, since it invalidates the count.
pub open spec fn outcome(r: TscRegs) -> TscState {
    if r.isr.mcef {
        TscState::Overrun
    } else if r.isr.eoaf {
        TscState::Done(group_count(r))
    } else {
        TscState::Busy
    }
}

/// Polling gives priority to faults: a set max count error flag reads as
/// `Overrun` whatever the end of acquisition flag holds; otherwise a set end
/// of acquisition flag reads as `Done` with the group's count; with neither
/// flag set the acquisition reads as `Busy`.
pub proof fn lemma_poll_priority(r: TscRegs)
    ensures
        r.isr.mcef ==> outcome(r) == TscState::Overrun,
        !r.isr.mcef && r.isr.eoaf ==> outcome(r) == TscState::Done(group_count(r)),
        !r.isr.mcef && !r.isr.eoaf ==> outcome(r) == TscState::Busy,
        outcome(r) matches TscState::Done(v) ==> v <= MAX_COUNT,
{
    lemma_count_fits(r.iog8cr);
}

/// Starting an acquisition clears the outcome of the previous one: whatever
/// flags the last cycle left, the first poll of the new cycle reads `Busy`
/// until the hardware raises a flag again.
pub proof fn lemma_start_clears_previous_outcome(r: TscRegs)
    ensures
        outcome(started(r)) == TscState::Busy,
{
}

/// The order of a start: the sampling I/O is forced low before the caller's
/// wait and released after it; the flags of the previous cycle are cleared
/// and the group enabled before the start bit is set, by the last access.
pub proof fn lemma_start_order(r: TscRegs)
    ensures
        ({
            let n = r.log@.len() as int;
            let log = started(r).log@;
            &&& log.len() == n + 6
            &&& log.subrange(0, n) == r.log@
            &&& log[n] matches RegAccess::Control(c) && !c.iodef
            &&& log[n + 1] == RegAccess::DischargeWait
            &&& log[n + 2] matches RegAccess::Control(c) && c.iodef
            &&& log[n + 3] == (RegAccess::ClearFlags { mceic: true, eoaic: true })
            &&& log[n + 4] == RegAccess::GroupControl(r.iogcsr | G8E)
            &&& log[n + 5] matches RegAccess::Control(c) && c.iodef && c.start
        }),
{
    let n = r.log@.len() as int;
    let log = started(r).log@;
    let released = ControlReg { iodef: true, ..r.cr };
    assert(log == r.log@.push(RegAccess::Control(ControlReg { iodef: false, ..r.cr })).push(
        RegAccess::DischargeWait,
    ).push(RegAccess::Control(released)).push(
        RegAccess::ClearFlags { mceic: true, eoaic: true },
    ).push(RegAccess::GroupControl(r.iogcsr | G8E)).push(
        RegAccess::Control(ControlReg { start: true, ..released }),
    ));
    assert(log.subrange(0, n) =~= r.log@);
}

impl TouchSense {
    /// The register file that the driver owns.
    pub closed spec fn model(self) -> TscRegs {
        self.0
    }

    /// Programs the controller with fixed settings (pulse high 0, pulse low
    /// 4, no spread spectrum, max count code 6), the I/O configuration of
    /// group 8, and last the analog switch of the sampling pin as well.
    pub fn new(tsc: TscRegs) -> (r: TouchSense)
        ensures
            ({
                let io = with_group_io(with_control(tsc, new_control()));
                r.model() == with_analog_switch(io, io.ioascr | G8_IO3)
            }),
    {
        let mut tsc = tsc;
        tsc.write_control(ControlReg {
            ctph: 0x0,
            ctpl: 0x4,
            ssd: 0x7f,
            sse: false,
            sspsc: false,
            pgpsc: 0x0,
            mcv: 0x6,
            iodef: false,
            syncpol: false,
            am: false,
            start: false,
            tsce: true,
        });
        tsc.configure_group_io();
        // Analog switch of the group input.
        tsc.write_analog_switch(tsc.ioascr | G8_IO3);
        TouchSense(tsc)
    }

    /// The register file, for reading.
    pub fn registers(&self) -> (r: &TscRegs)
        ensures
            *r == self.model(),
    {
        &self.0
    }

    /// Gives the register file back.
    pub fn into_inner(self) -> (r: TscRegs)
        ensures
            r == self.model(),
    {
        self.0
    }

    /// The accesses that `start` makes on the register file, in order, the
    /// caller's wait included: for a program that copies them to the
    /// controller's registers one by one.
    pub fn start_sequence(&self) -> (v: Vec<RegAccess>)
        ensures
            started(self.model()).log@ == self.model().log@ + v@,
    {
        let cr = self.0.cr;
        let released = ControlReg { iodef: true, ..cr };
        let mut v: Vec<RegAccess> = Vec::new();
        v.push(RegAccess::Control(ControlReg { iodef: false, ..cr }));
        v.push(RegAccess::DischargeWait);
        v.push(RegAccess::Control(released));
        v.push(RegAccess::ClearFlags { mceic: true, eoaic: true });
        v.push(RegAccess::GroupControl(self.0.iogcsr | G8E));
        v.push(RegAccess::Control(ControlReg { start: true, ..released }));
        assert(started(self.model()).log@ =~= self.model().log@ + v@);
        v
    }

    /// Starts an acquisition: clears the I/O default mode to discharge the
    /// sampling capacitor, calls `discharge_wait`, which must wait until it
    /// is discharged, sets the I/O default mode again, clears the flags of
    /// the previous cycle, enables group 8 and sets the start bit. The wait
    /// has run, once, when `start` returns.
    pub fn start<F: FnOnce()>(&mut self, discharge_wait: F) -> (r: TouchSenseRead<'_>)
        requires
            discharge_wait.requires(()),
        ensures
            discharge_wait.ensures((), ()),
            *r.0 == started(old(self).model()),
            final(self).model() == *final(r.0),
    {
        let tsc = &mut self.0;

        // Discharge the capacitors.
        tsc.write_control(ControlReg { iodef: false, ..tsc.cr });
        discharge_wait();
        tsc.note_discharge_wait();
        tsc.write_control(ControlReg { iodef: true, ..tsc.cr });

        // Clear the events of the last acquisition.
        tsc.clear_flags(true, true);

        // Enable the acquisition of group 8.
        tsc.write_group_control(tsc.iogcsr | G8E);

        // Start an acquisition.
        tsc.write_control(ControlReg { start: true, ..tsc.cr });

        TouchSenseRead(tsc)
    }
}

impl<'a> TouchSenseRead<'a> {
    /// Reports the state of the acquisition, without touching any register:
    /// `Overrun` when the max count error flag is set, else `Done` with the
    /// group's count when the end of acquisition flag is set, else `Busy`.
    /// The borrowed register file is left as it was, and so is what the
    /// borrow hands back to the driver.
    pub fn poll(&mut self) -> (r: TscState)
        ensures
            r == outcome(*old(self).0),
            r matches TscState::Done(v) ==> v <= MAX_COUNT,
            *final(self).0 == *old(self).0,
            *final(final(self).0) == *final(old(self).0),
    {
        let tsc = &*self.0;
        // Check for an overrun first: it invalidates the count.
        if tsc.isr.mcef {
            return TscState::Overrun;
        }
        if tsc.isr.eoaf {
            let cnt: u32 = tsc.iog8cr & CNT_MASK;
            proof {
                lemma_count_fits(tsc.iog8cr);
            }
            return TscState::Done(cnt as u16);
        }
        TscState::Busy
    }
}

} // verus!

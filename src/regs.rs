//! In-memory model of the touch-sensing controller's register file.
//!
//! Registers whose fields the driver programs one by one (the control and
//! interrupt status registers) are held as named fields; registers that hold
//! one bit per I/O pin or per group are held as 32-bit words with the
//! controller's bit layout.
use vstd::prelude::*;

verus! {

/// Bit of group 8, I/O 2 in the per-pin I/O registers (the channel pin).
pub const G8_IO2: u32 = 0x2000_0000;

/// Bit of group 8, I/O 3 in the per-pin I/O registers (the sampling pin).
pub const G8_IO3: u32 = 0x4000_0000;

/// Acquisition enable bit of group 8 in the group control/status register.
pub const G8E: u32 = 0x80;

/// Acquisition status bit of group 8 in the group control/status register.
pub const G8S: u32 = 0x80_0000;

/// The counter field of a group count register (14 bits).
pub const CNT_MASK: u32 = 0x3fff;

/// Largest value a group counter can hold.
pub const MAX_COUNT: u16 = 16383;

/// Fields of the control register.
#[derive(Clone, Copy, Debug, PartialEq, Eq, Structural)]
pub struct ControlReg {
    /// Charge transfer pulse high (4 bits).
    pub ctph: u8,
    /// Charge transfer pulse low (4 bits).
    pub ctpl: u8,
    /// Spread spectrum deviation (7 bits).
    pub ssd: u8,
    /// Spread spectrum enable.
    pub sse: bool,
    /// Spread spectrum prescaler halving.
    pub sspsc: bool,
    /// Pulse generator prescaler (3 bits).
    pub pgpsc: u8,
    /// Max count value code (3 bits).
    pub mcv: u8,
    /// I/O default mode.
    pub iodef: bool,
    /// Synchronization pin polarity.
    pub syncpol: bool,
    /// Acquisition mode (synchronized when set).
    pub am: bool,
    /// Start of acquisition.
    pub start: bool,
    /// Controller enable.
    pub tsce: bool,
}

/// Flags of the interrupt status register.
#[derive(Clone, Copy, Debug, PartialEq, Eq, Structural)]
pub struct StatusReg {
    /// End of acquisition.
    pub eoaf: bool,
    /// Max count error.
    pub mcef: bool,
}

/// One step the driver takes on the register file, with the value that a
/// written register holds afterwards.
#[derive(Clone, Copy, Debug, PartialEq, Eq, Structural)]
pub enum RegAccess {
    /// A write or read-modify-write of the control register.
    Control(ControlReg),
    /// A write of the interrupt clear register (write 1 to clear).
    ClearFlags { mceic: bool, eoaic: bool },
    /// A modification of the I/O channel control register.
    Channel(u32),
    /// A modification of the I/O hysteresis control register.
    Hysteresis(u32),
    /// A modification of the I/O analog switch control register.
    AnalogSwitch(u32),
    /// A modification of the I/O sampling control register.
    Sampling(u32),
    /// A modification of the I/O group control/status register.
    GroupControl(u32),
    /// The caller's wait for the sampling capacitors to discharge.
    DischargeWait,
}

/// The register file of the controller.
pub struct TscRegs {
    pub cr: ControlReg,
    pub isr: StatusReg,
    /// I/O hysteresis control (a set bit enables the Schmitt trigger).
    pub iohcr: u32,
    /// I/O analog switch control.
    pub ioascr: u32,
    /// I/O sampling control.
    pub ioscr: u32,
    /// I/O channel control.
    pub ioccr: u32,
    /// I/O group control/status: enable bits 0..7, status bits 16..23.
    pub iogcsr: u32,
    /// Group 8 counter.
    pub iog8cr: u32,
    /// The driver's accesses to the register file, oldest first.
    pub log: Ghost<Seq<RegAccess>>,
}

/// The control register as it reads after reset.
pub open spec fn control_reset() -> ControlReg {
    ControlReg {
        ctph: 0,
        ctpl: 0,
        ssd: 0,
        sse: false,
        sspsc: false,
        pgpsc: 0,
        mcv: 0,
        iodef: false,
        syncpol: false,
        am: false,
        start: false,
        tsce: false,
    }
}

/// The register file as it reads after reset.
pub open spec fn regs_reset() -> TscRegs {
    TscRegs {
        cr: control_reset(),
        isr: StatusReg { eoaf: false, mcef: false },
        iohcr: 0xffff_ffff,
        ioascr: 0,
        ioscr: 0,
        ioccr: 0,
        iogcsr: 0,
        iog8cr: 0,
        log: Ghost(Seq::empty()),
    }
}

/// The I/O configuration of group 8: I/O 2 becomes the channel pin, I/O 3
/// the sampling capacitor pin; both lose their Schmitt trigger and the
/// channel pin's analog switch is set. Other pins keep their bits. Five
/// modifications, in this order.
pub open spec fn with_group_io(r: TscRegs) -> TscRegs {
    TscRegs {
        ioccr: r.ioccr | G8_IO2,
        iohcr: r.iohcr & !G8_IO2 & !G8_IO3,
        ioascr: r.ioascr | G8_IO2,
        ioscr: r.ioscr | G8_IO3,
        log: Ghost(r.log@ + group_io_accesses(r)),
        ..r
    }
}

/// The five modifications that the I/O configuration of group 8 makes on
/// `r`, each with the value it leaves.
pub open spec fn group_io_accesses(r: TscRegs) -> Seq<RegAccess> {
    seq![
        RegAccess::Channel(r.ioccr | G8_IO2),
        RegAccess::Hysteresis(r.iohcr & !G8_IO2),
        RegAccess::Hysteresis(r.iohcr & !G8_IO2 & !G8_IO3),
        RegAccess::AnalogSwitch(r.ioascr | G8_IO2),
        RegAccess::Sampling(r.ioscr | G8_IO3),
    ]
}

/// `r` with its control register written to `cr`.
pub open spec fn with_control(r: TscRegs, cr: ControlReg) -> TscRegs {
    TscRegs { cr, log: Ghost(r.log@.push(RegAccess::Control(cr))), ..r }
}

/// `r` after a write of the interrupt clear register.
pub open spec fn with_flags_cleared(r: TscRegs, mceic: bool, eoaic: bool) -> TscRegs {
    TscRegs {
        isr: StatusReg { mcef: r.isr.mcef && !mceic, eoaf: r.isr.eoaf && !eoaic },
        log: Ghost(r.log@.push(RegAccess::ClearFlags { mceic, eoaic })),
        ..r
    }
}

/// `r` with `w` written to the group control/status register.
pub open spec fn with_group_control(r: TscRegs, w: u32) -> TscRegs {
    TscRegs { iogcsr: w, log: Ghost(r.log@.push(RegAccess::GroupControl(w))), ..r }
}

/// `r` with `w` written to the I/O analog switch control register.
pub open spec fn with_analog_switch(r: TscRegs, w: u32) -> TscRegs {
    TscRegs { ioascr: w, log: Ghost(r.log@.push(RegAccess::AnalogSwitch(w))), ..r }
}

/// `r` once the caller's discharge wait was recorded.
pub open spec fn with_discharge_wait(r: TscRegs) -> TscRegs {
    TscRegs { log: Ghost(r.log@.push(RegAccess::DischargeWait)), ..r }
}

/// The count held in the group 8 counter.
pub open spec fn group_count(r: TscRegs) -> u16 {
    (r.iog8cr & CNT_MASK) as u16
}

/// A count read from a counter register never exceeds the counter's width.
pub proof fn lemma_count_fits(w: u32)
    ensures
        w & CNT_MASK <= MAX_COUNT as u32,
{
    assert(w & 0x3fff <= 0x3fff) by (bit_vector);
}

impl TscRegs {
    /// A register file in its reset state.
    pub fn reset() -> (r: TscRegs)
        ensures
            r == regs_reset(),
    {
        TscRegs {
            cr: ControlReg {
                ctph: 0,
                ctpl: 0,
                ssd: 0,
                sse: false,
                sspsc: false,
                pgpsc: 0,
                mcv: 0,
                iodef: false,
                syncpol: false,
                am: false,
                start: false,
                tsce: false,
            },
            isr: StatusReg { eoaf: false, mcef: false },
            iohcr: 0xffff_ffff,
            ioascr: 0,
            ioscr: 0,
            ioccr: 0,
            iogcsr: 0,
            iog8cr: 0,
            log: Ghost(Seq::empty()),
        }
    }

    /// Writes the control register.
    pub fn write_control(&mut self, cr: ControlReg)
        ensures
            *final(self) == with_control(*old(self), cr),
    {
        self.cr = cr;
        self.log = Ghost(self.log@.push(RegAccess::Control(cr)));
    }

    /// Writes the group control/status register.
    pub fn write_group_control(&mut self, w: u32)
        ensures
            *final(self) == with_group_control(*old(self), w),
    {
        self.iogcsr = w;
        self.log = Ghost(self.log@.push(RegAccess::GroupControl(w)));
    }

    /// Writes the I/O analog switch control register.
    pub fn write_analog_switch(&mut self, w: u32)
        ensures
            *final(self) == with_analog_switch(*old(self), w),
    {
        self.ioascr = w;
        self.log = Ghost(self.log@.push(RegAccess::AnalogSwitch(w)));
    }

    /// Records that the caller's discharge wait took place.
    pub fn note_discharge_wait(&mut self)
        ensures
            *final(self) == with_discharge_wait(*old(self)),
    {
        self.log = Ghost(self.log@.push(RegAccess::DischargeWait));
    }

    /// Writes the interrupt clear register: each set bit clears its flag.
    pub fn clear_flags(&mut self, mceic: bool, eoaic: bool)
        ensures
            *final(self) == with_flags_cleared(*old(self), mceic, eoaic),
    {
        if mceic {
            self.isr.mcef = false;
        }
        if eoaic {
            self.isr.eoaf = false;
        }
        self.log = Ghost(self.log@.push(RegAccess::ClearFlags { mceic, eoaic }));
    }

    /// The accesses that the I/O configuration of group 8 makes on this
    /// register file, in order.
    pub fn group_io_sequence(&self) -> (v: Vec<RegAccess>)
        ensures
            v@ == group_io_accesses(*self),
    {
        let mut v: Vec<RegAccess> = Vec::new();
        v.push(RegAccess::Channel(self.ioccr | G8_IO2));
        v.push(RegAccess::Hysteresis(self.iohcr & !G8_IO2));
        v.push(RegAccess::Hysteresis(self.iohcr & !G8_IO2 & !G8_IO3));
        v.push(RegAccess::AnalogSwitch(self.ioascr | G8_IO2));
        v.push(RegAccess::Sampling(self.ioscr | G8_IO3));
        assert(v@ =~= group_io_accesses(*self));
        v
    }

    /// Applies the I/O configuration of group 8 (see `with_group_io`).
    pub fn configure_group_io(&mut self)
        ensures
            *final(self) == with_group_io(*old(self)),
    {
        // Use the group pin as channel I/O.
        self.ioccr = self.ioccr | G8_IO2;
        self.log = Ghost(self.log@.push(RegAccess::Channel(self.ioccr)));
        // Disable the Schmitt trigger of the group pin and of the sampling pin.
        self.iohcr = self.iohcr & !G8_IO2;
        self.log = Ghost(self.log@.push(RegAccess::Hysteresis(self.iohcr)));
        self.iohcr = self.iohcr & !G8_IO3;
        self.log = Ghost(self.log@.push(RegAccess::Hysteresis(self.iohcr)));
        // Analog switch of the group pin.
        self.ioascr = self.ioascr | G8_IO2;
        self.log = Ghost(self.log@.push(RegAccess::AnalogSwitch(self.ioascr)));
        // Use the group input as sampling capacitor.
        self.ioscr = self.ioscr | G8_IO3;
        self.log = Ghost(self.log@.push(RegAccess::Sampling(self.ioscr)));
        assert(self.log@ =~= old(self).log@ + group_io_accesses(*old(self)));
    }

    /// What the hardware does when an acquisition of group 8 completes with
    /// `count` pulses: the count lands in the counter, the group status bit
    /// and the end-of-acquisition flag are set, the start bit drops.
    pub fn signal_end_of_acquisition(&mut self, count: u16)
        requires
            count <= MAX_COUNT,
        ensures
            final(self).isr == (StatusReg { eoaf: true, ..old(self).isr }),
            final(self).iog8cr == count as u32,
            group_count(*final(self)) == count,
            final(self).iogcsr == old(self).iogcsr | G8S,
            final(self).cr == (ControlReg { start: false, ..old(self).cr }),
            final(self).iohcr == old(self).iohcr,
            final(self).ioascr == old(self).ioascr,
            final(self).ioscr == old(self).ioscr,
            final(self).ioccr == old(self).ioccr,
            final(self).log == old(self).log,
    {
        self.iog8cr = count as u32;
        self.iogcsr = self.iogcsr | G8S;
        self.isr.eoaf = true;
        self.cr.start = false;
        let c: u32 = count as u32;
        assert(c & 0x3fff == c) by (bit_vector)
            requires
                c <= 16383,
        ;
    }

    /// What the hardware does when an acquisition exceeds the maximum count:
    /// the max-count-error flag is set and the start bit drops.
    pub fn signal_max_count_error(&mut self)
        ensures
            final(self).isr == (StatusReg { mcef: true, ..old(self).isr }),
            *final(self) == (TscRegs {
                isr: final(self).isr,
                cr: ControlReg { start: false, ..old(self).cr },
                ..*old(self)
            }),
    {
        self.isr.mcef = true;
        self.cr.start = false;
    }
}

} // verus!

//! Validated configuration of the controller, applied to the register file
//! in one programming sequence.
use vstd::prelude::*;

use crate::regs::{
    ControlReg, RegAccess, TscRegs, group_io_accesses, with_control, with_group_io,
};
use crate::TouchSense;

verus! {

/// Spread spectrum settings.
#[derive(Clone, Copy, Debug, PartialEq, Eq, Structural)]
pub struct Ss {
    /// Deviation (6 bits).
    pub ssd: u8,
    /// Halve the spread spectrum prescaler.
    pub sspsc: bool,
}

/// Charge transfer timing.
#[derive(Clone, Copy, Debug, PartialEq, Eq, Structural)]
pub struct Timing {
    /// Charge transfer pulse high (4 bits).
    pub ctph: u8,
    /// Charge transfer pulse low (4 bits).
    pub ctpl: u8,
    /// Pulse generator prescaler (3 bits).
    pub pgpsc: u8,
}

/// Staged configuration of the controller.
///
/// Each setter validates its own arguments and, on failure, leaves the whole
/// configuration as it was; there is no rollback across several setters.
#[derive(Debug)]
pub struct TouchSenseConfig {
    timing: Timing,
    ss: Option<Ss>,
    mcv: u8,
    iodef: bool,
    syncpol: bool,
    am: bool,
}

/// What a configuration holds, field by field.
#[derive(Clone, Copy, Debug, PartialEq, Eq, Structural)]
pub struct TouchSenseConfigView {
    pub timing: Timing,
    /// Spread spectrum settings; `None` when spread spectrum is off.
    pub ss: Option<Ss>,
    /// Max count code.
    pub mcv: u8,
    /// I/O default mode.
    pub iodef: bool,
    /// Sync pin polarity.
    pub syncpol: bool,
    /// Acquisition mode (synchronized when set).
    pub am: bool,
}

impl View for TouchSenseConfig {
    type V = TouchSenseConfigView;

    closed spec fn view(&self) -> TouchSenseConfigView {
        TouchSenseConfigView {
            timing: self.timing,
            ss: self.ss,
            mcv: self.mcv,
            iodef: self.iodef,
            syncpol: self.syncpol,
            am: self.am,
        }
    }
}

/// A configuration value outside its allowed range.
#[derive(Clone, Copy, Debug, PartialEq, Eq, Structural)]
pub struct TscConfigError;

/// Whether `v` fits in a field of `n` bits.
pub open spec fn fits(v: u32, n: u32) -> bool {
    (v as int) < vstd::arithmetic::power2::pow2(n as nat)
}

/// The charge transfer timing that the controller accepts: each value fits
/// its field and pulse low plus prescaler is at least 2.
pub open spec fn timing_ok(ctph: u32, ctpl: u32, pgpsc: u32) -> bool {
    ctph < 16 && ctpl < 16 && pgpsc < 8 && ctpl + pgpsc >= 2
}

/// The largest max-count code.
pub const MAX_MCV: u32 = 6;

/// Checks that `val` fits in a field of `N` bits.
pub fn tsc_config_field<const N: u32>(val: u32) -> (r: Result<u8, TscConfigError>)
    requires
        N <= 8,
    ensures
        r is Ok <==> fits(val, N),
        r is Ok ==> r->Ok_0 == val,
{
    proof {
        vstd::arithmetic::power2::lemma2_to64();
        if N < 8 {
            vstd::arithmetic::power2::lemma_pow2_strictly_increases(N as nat, 8);
        }
        vstd::bits::lemma_u32_pow2_no_overflow(N as nat);
        vstd::bits::lemma_u32_shl_is_mul(1, N);
    }
    let limit: u32 = 1u32 << N;
    if val < limit {
        Ok(val as u8)
    } else {
        Err(TscConfigError)
    }
}

impl TouchSenseConfig {
    pub open spec fn timing(self) -> Timing {
        self@.timing
    }

    pub open spec fn spread_spectrum(self) -> Option<Ss> {
        self@.ss
    }

    pub open spec fn max_count(self) -> u8 {
        self@.mcv
    }

    pub open spec fn io_default(self) -> bool {
        self@.iodef
    }

    pub open spec fn sync_polarity(self) -> bool {
        self@.syncpol
    }

    pub open spec fn sync_acq_mode(self) -> bool {
        self@.am
    }

    /// Every numeric field fits its width and the timing is one that the
    /// controller accepts.
    pub open spec fn wf(self) -> bool {
        &&& timing_ok(
            self.timing().ctph as u32,
            self.timing().ctpl as u32,
            self.timing().pgpsc as u32,
        )
        &&& self.max_count() <= MAX_MCV
        &&& (self.spread_spectrum() matches Some(s) ==> s.ssd < 64)
    }

    /// The control register once the configuration is applied: the staged
    /// fields, spread spectrum as configured (deviation 0 and no halving when
    /// it is off), start bit clear, controller enabled.
    pub open spec fn control(self) -> ControlReg {
        ControlReg {
            ctph: self.timing().ctph,
            ctpl: self.timing().ctpl,
            ssd: match self.spread_spectrum() {
                Some(s) => s.ssd,
                None => 0,
            },
            sse: self.spread_spectrum() is Some,
            sspsc: self.spread_spectrum() matches Some(s) && s.sspsc,
            pgpsc: self.timing().pgpsc,
            mcv: self.max_count(),
            iodef: self.io_default(),
            syncpol: self.sync_polarity(),
            am: self.sync_acq_mode(),
            start: false,
            tsce: true,
        }
    }

    /// What the first, single write of the control register holds: the
    /// staged fields with spread spectrum off.
    pub open spec fn control_written(self) -> ControlReg {
        ControlReg { ssd: 0, sse: false, sspsc: false, ..self.control() }
    }

    /// The register file once the configuration is applied to `tsc`: one
    /// write of the whole control register; then, with spread spectrum
    /// configured, a modification that enables it; then the I/O
    /// configuration of group 8.
    pub open spec fn programmed(self, tsc: TscRegs) -> TscRegs {
        let written = with_control(tsc, self.control_written());
        let spread = if self.spread_spectrum() is Some {
            with_control(written, self.control())
        } else {
            written
        };
        with_group_io(spread)
    }
}

/// A well-formed configuration programs each control register field within
/// its width and meets the minimum charge transfer timing.
pub proof fn lemma_control_fits(c: TouchSenseConfig)
    requires
        c.wf(),
    ensures
        c.control().ctph < 16,
        c.control().ctpl < 16,
        c.control().pgpsc < 8,
        c.control().ctpl + c.control().pgpsc >= 2,
        c.control().ssd < 64,
        c.control().mcv <= MAX_MCV,
        c.control().tsce,
        !c.control().start,
{
}

/// Applying a configuration leaves its control register in place and
/// touches the I/O registers only after the control write that enables the
/// controller, which is the first access.
pub proof fn lemma_programmed_order(c: TouchSenseConfig, tsc: TscRegs)
    ensures
        ({
            let n = tsc.log@.len() as int;
            let p = c.programmed(tsc);
            let k: int = if c.spread_spectrum() is Some { 2 } else { 1 };
            &&& p.cr == c.control()
            &&& p.log@.len() == n + k + 5
            &&& p.log@.subrange(0, n) == tsc.log@
            &&& p.log@[n] == RegAccess::Control(c.control_written())
            &&& c.control_written().tsce
            &&& forall|i: int|
                n <= i < n + k ==> #[trigger] p.log@[i] is Control
            &&& forall|i: int|
                n + k <= i < n + k + 5 ==> !(#[trigger] p.log@[i] is Control)
        }),
{
    let n = tsc.log@.len();
    assert(c.programmed(tsc).log@.subrange(0, n as int) =~= tsc.log@);
}

impl Default for TouchSenseConfig {
    /// The controller's recommended settings: pulse high 1, pulse low 2,
    /// prescaler 0, no spread spectrum, max count code 6 (16383 pulses), I/O
    /// default mode set, sync polarity and acquisition mode cleared.
    fn default() -> (r: Self)
        ensures
            r.timing() == (Timing { ctph: 1, ctpl: 2, pgpsc: 0 }),
            r.spread_spectrum() is None,
            r.max_count() == 6,
            r.io_default(),
            !r.sync_polarity(),
            !r.sync_acq_mode(),
            r.wf(),
    {
        Self {
            timing: Timing { ctph: 1, ctpl: 2, pgpsc: 0 },
            ss: None,
            mcv: 6,
            iodef: true,
            syncpol: false,
            am: false,
        }
    }
}

impl TouchSenseConfig {
    /// Sets the charge transfer timing, all three values at once.
    ///
    /// Fails, leaving the configuration unchanged, unless pulse high and
    /// pulse low fit in 4 bits, the prescaler fits in 3 bits, and pulse low
    /// plus prescaler is at least 2.
    pub fn set_timing(&mut self, ctph: u32, ctpl: u32, pgpsc: u32) -> (r: Result<
        &mut Self,
        TscConfigError,
    >)
        ensures
            r is Ok <==> timing_ok(ctph, ctpl, pgpsc),
            r is Ok ==> (*r->Ok_0)@ == (TouchSenseConfigView {
                timing: Timing { ctph: ctph as u8, ctpl: ctpl as u8, pgpsc: pgpsc as u8 },
                ..old(self)@
            }) && *final(self) == *final(r->Ok_0),
            r is Err ==> *final(self) == *old(self),
            r is Ok && old(self).wf() ==> r->Ok_0.wf(),
    {
        proof {
            vstd::arithmetic::power2::lemma2_to64();
        }
        let ctph = match tsc_config_field::<4>(ctph) {
            Ok(v) => v,
            Err(e) => return Err(e),
        };
        let ctpl = match tsc_config_field::<4>(ctpl) {
            Ok(v) => v,
            Err(e) => return Err(e),
        };
        let pgpsc = match tsc_config_field::<3>(pgpsc) {
            Ok(v) => v,
            Err(e) => return Err(e),
        };
        if (ctpl as u32) + (pgpsc as u32) < 2 {
            return Err(TscConfigError);
        }
        self.timing = Timing { ctph, ctpl, pgpsc };
        Ok(self)
    }

    /// Enables spread spectrum with the given deviation and prescaler
    /// halving.
    ///
    /// Fails, leaving the configuration unchanged, unless the deviation fits
    /// in 6 bits.
    pub fn set_spread_spectrum(&mut self, ssd: u32, sspsc: bool) -> (r: Result<
        &mut Self,
        TscConfigError,
    >)
        ensures
            r is Ok <==> ssd < 64,
            r is Ok ==> (*r->Ok_0)@ == (TouchSenseConfigView {
                ss: Some(Ss { ssd: ssd as u8, sspsc }),
                ..old(self)@
            }) && *final(self) == *final(r->Ok_0),
            r is Err ==> *final(self) == *old(self),
            r is Ok && old(self).wf() ==> r->Ok_0.wf(),
    {
        proof {
            vstd::arithmetic::power2::lemma2_to64();
        }
        let ssd = match tsc_config_field::<6>(ssd) {
            Ok(v) => v,
            Err(e) => return Err(e),
        };
        self.ss = Some(Ss { ssd, sspsc });
        Ok(self)
    }

    /// Sets the max count code, which selects the count ceiling (255 pulses
    /// for code 0, doubling with each step up to 16383 for code 6).
    ///
    /// Fails, leaving the configuration unchanged, unless the code is at
    /// most 6.
    pub fn set_max_acq_count(&mut self, mcv: u32) -> (r: Result<&mut Self, TscConfigError>)
        ensures
            r is Ok <==> mcv <= MAX_MCV,
            r is Ok ==> (*r->Ok_0)@ == (TouchSenseConfigView { mcv: mcv as u8, ..old(self)@ })
                && *final(self) == *final(r->Ok_0),
            r is Err ==> *final(self) == *old(self),
            r is Ok && old(self).wf() ==> r->Ok_0.wf(),
    {
        if mcv > MAX_MCV {
            return Err(TscConfigError);
        }
        self.mcv = mcv as u8;
        Ok(self)
    }

    /// Sets the I/O default mode.
    pub fn set_io_default_mode(&mut self, iodef: bool) -> (r: &mut Self)
        ensures
            (*r)@ == (TouchSenseConfigView { iodef, ..old(self)@ }),
            *final(self) == *final(r),
            old(self).wf() ==> r.wf(),
    {
        self.iodef = iodef;
        self
    }

    /// Sets the sync pin polarity.
    pub fn set_sync_pin_polarity(&mut self, syncpol: bool) -> (r: &mut Self)
        ensures
            (*r)@ == (TouchSenseConfigView { syncpol, ..old(self)@ }),
            *final(self) == *final(r),
            old(self).wf() ==> r.wf(),
    {
        self.syncpol = syncpol;
        self
    }

    /// Sets the acquisition mode (synchronized when set).
    pub fn set_sync_acq_mode(&mut self, am: bool) -> (r: &mut Self)
        ensures
            (*r)@ == (TouchSenseConfigView { am, ..old(self)@ }),
            *final(self) == *final(r),
            old(self).wf() ==> r.wf(),
    {
        self.am = am;
        self
    }

    /// The control register once the configuration is applied (see
    /// `control`).
    pub fn control_value(&self) -> (c: ControlReg)
        ensures
            c == self.control(),
    {
        let (ssd, sse, sspsc) = match self.ss {
            Some(ss) => (ss.ssd, true, ss.sspsc),
            None => (0, false, false),
        };
        ControlReg {
            ctph: self.timing.ctph,
            ctpl: self.timing.ctpl,
            ssd,
            sse,
            sspsc,
            pgpsc: self.timing.pgpsc,
            mcv: self.mcv,
            iodef: self.iodef,
            syncpol: self.syncpol,
            am: self.am,
            start: false,
            tsce: true,
        }
    }

    /// The accesses that applying the configuration to `tsc` makes, in
    /// order, as `config` makes them: for a program that copies them to the
    /// controller's registers one by one.
    pub fn programming_sequence(&self, tsc: &TscRegs) -> (v: Vec<RegAccess>)
        ensures
            self.programmed(*tsc).log@ == tsc.log@ + v@,
    {
        let c = self.control_value();
        let written = ControlReg { ssd: 0, sse: false, sspsc: false, ..c };
        let mut v: Vec<RegAccess> = Vec::new();
        v.push(RegAccess::Control(written));
        if self.ss.is_some() {
            v.push(RegAccess::Control(c));
        }
        let io = tsc.group_io_sequence();
        let ghost head = v@;
        let mut io = io;
        v.append(&mut io);
        proof {
            let w = with_control(*tsc, self.control_written());
            let spread = if self.spread_spectrum() is Some {
                with_control(w, self.control())
            } else {
                w
            };
            assert(spread.log@ =~= tsc.log@ + head);
            assert(group_io_accesses(spread) == group_io_accesses(*tsc));
            assert(self.programmed(*tsc).log@ =~= tsc.log@ + v@);
        }
        v
    }

    /// Programs the controller and gives the driver. First one write of
    /// the whole control register (spread spectrum off, start bit clear,
    /// controller enabled); then, if spread spectrum is configured, a
    /// modification that enables it; then the I/O configuration of group 8.
    pub fn config(self, tsc: TscRegs) -> (r: TouchSense)
        ensures
            r.model() == self.programmed(tsc),
    {
        let mut tsc = tsc;
        tsc.write_control(ControlReg {
            ctph: self.timing.ctph,
            ctpl: self.timing.ctpl,
            ssd: 0,
            sse: false,
            sspsc: false,
            pgpsc: self.timing.pgpsc,
            mcv: self.mcv,
            iodef: self.iodef,
            syncpol: self.syncpol,
            am: self.am,
            start: false,
            tsce: true,
        });
        if let Some(ss) = self.ss {
            tsc.write_control(ControlReg { sse: true, ssd: ss.ssd, sspsc: ss.sspsc, ..tsc.cr });
        }
        tsc.configure_group_io();
        TouchSense(tsc)
    }
}

} // verus!

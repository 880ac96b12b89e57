//! Timer_B register model.
//!
//! A `TimerRegs` value is the handle of one Timer_B peripheral: its control
//! register, its expansion divider and one capture/compare block per channel.
//! Channel 0 holds the period shared by every other channel of the peripheral.
use vstd::prelude::*;

verus! {

/// Clock source of a timer.
#[derive(Clone, Copy, Debug, PartialEq, Eq, Structural)]
pub enum Tbssel {
    Tbxclk,
    Aclk,
    Smclk,
    Inclk,
}

/// First stage of the clock divider.
#[allow(non_camel_case_types)]
#[derive(Clone, Copy, Debug, PartialEq, Eq, Structural)]
pub enum ID {
    _1,
    _2,
    _4,
    _8,
}

/// Second stage of the clock divider.
#[allow(non_camel_case_types)]
#[derive(Clone, Copy, Debug, PartialEq, Eq, Structural)]
pub enum Tbidex {
    _1,
    _2,
    _3,
    _4,
    _5,
    _6,
    _7,
    _8,
}

/// Output action of a capture/compare channel in compare mode.
#[derive(Clone, Copy, Debug, PartialEq, Eq, Structural)]
pub enum Outmod {
    Out,
    SetOutput,
    ToggleReset,
    SetReset,
    Toggle,
    Reset,
    ToggleSet,
    ResetSet,
}

/// Edge on which a channel in capture mode records the counter.
#[derive(Clone, Copy, Debug, PartialEq, Eq, Structural)]
pub enum CapMode {
    NoCap,
    RisingEdge,
    FallingEdge,
    BothEdges,
}

/// External input of a channel in capture mode.
#[derive(Clone, Copy, Debug, PartialEq, Eq, Structural)]
pub enum CapSelect {
    InputA,
    InputB,
}

/// Counting mode of a timer.
#[derive(Clone, Copy, Debug, PartialEq, Eq, Structural)]
pub enum CountMode {
    Stop,
    Up,
    Continuous,
}

/// Which Timer_B instance a register block belongs to.
#[derive(Clone, Copy, Debug, PartialEq, Eq, Structural)]
pub enum TimerInstance {
    Tb0,
    Tb1,
    Tb2,
    Tb3,
}

/// Capture/compare channel 0: holds the period.
pub struct CCR0;

/// Capture/compare channel 1.
pub struct CCR1;

/// Capture/compare channel 2.
pub struct CCR2;

/// Capture/compare channel 3.
pub struct CCR3;

/// Capture/compare channel 4.
pub struct CCR4;

/// Capture/compare channel 5.
pub struct CCR5;

/// Capture/compare channel 6.
pub struct CCR6;

/// Number of capture/compare channels of a timer instance.
pub open spec fn spec_channel_count(t: TimerInstance) -> nat {
    match t {
        TimerInstance::Tb3 => 7,
        _ => 3,
    }
}

/// Number of capture/compare channels of a timer instance.
pub fn channel_count(t: TimerInstance) -> (r: usize)
    ensures
        r == spec_channel_count(t),
{
    match t {
        TimerInstance::Tb3 => 7,
        _ => 3,
    }
}

/// Control and data registers of one capture/compare channel.
#[derive(Clone, Copy, Debug, PartialEq, Eq, Structural)]
pub struct CcrRegs {
    /// Compare threshold (or captured count in capture mode).
    pub ccr: u16,
    /// Output action in compare mode.
    pub outmod: Outmod,
    /// Whether the channel is in capture mode.
    pub capture: bool,
    /// Capture edge.
    pub cm: CapMode,
    /// Capture input.
    pub ccis: CapSelect,
    /// Pending interrupt flag.
    pub ccifg: bool,
    /// Interrupt enable.
    pub ccie: bool,
    /// Capture overflow flag.
    pub cov: bool,
}

/// Control register of a channel right after a compare-mode write of `outmod`.
pub open spec fn cmp_ctl(c: CcrRegs, outmod: Outmod) -> CcrRegs {
    CcrRegs {
        ccr: c.ccr,
        outmod,
        capture: false,
        cm: CapMode::NoCap,
        ccis: CapSelect::InputA,
        ccifg: false,
        ccie: false,
        cov: false,
    }
}

/// Control register of a channel right after a capture-mode write.
pub open spec fn cap_ctl(c: CcrRegs, cm: CapMode, ccis: CapSelect) -> CcrRegs {
    CcrRegs {
        ccr: c.ccr,
        outmod: Outmod::Out,
        capture: true,
        cm,
        ccis,
        ccifg: false,
        ccie: false,
        cov: false,
    }
}

/// A channel block as it comes out of reset.
pub open spec fn blank_ccr() -> CcrRegs {
    CcrRegs {
        ccr: 0,
        outmod: Outmod::Out,
        capture: false,
        cm: CapMode::NoCap,
        ccis: CapSelect::InputA,
        ccifg: false,
        ccie: false,
        cov: false,
    }
}

/// The register block of one Timer_B peripheral.
pub struct TimerRegs {
    /// The instance these registers belong to.
    pub instance: TimerInstance,
    /// Clock source.
    pub tbssel: Tbssel,
    /// First divider stage.
    pub id: ID,
    /// Second divider stage.
    pub tbidex: Tbidex,
    /// Counting mode.
    pub mc: CountMode,
    /// Current count.
    pub counter: u16,
    /// Overflow interrupt flag.
    pub tbifg: bool,
    /// Overflow interrupt enable.
    pub tbie: bool,
    /// One block per capture/compare channel, channel 0 first.
    pub ccrs: Vec<CcrRegs>,
}

impl TimerRegs {
    /// The block has exactly as many channels as its instance.
    pub open spec fn wf(&self) -> bool {
        self.ccrs@.len() == spec_channel_count(self.instance)
    }

    /// Number of channels, as a spec value.
    pub open spec fn n_channels(&self) -> nat {
        self.ccrs@.len()
    }

    /// Compare register of channel `n`.
    pub open spec fn ccr_of(&self, n: int) -> u16 {
        self.ccrs@[n].ccr
    }

    /// The period: channel 0's compare register.
    pub open spec fn period(&self) -> u16 {
        self.ccrs@[0].ccr
    }

    /// Everything but the channel blocks is equal in `a` and `b`.
    pub open spec fn same_ctl(a: &TimerRegs, b: &TimerRegs) -> bool {
        &&& a.instance == b.instance
        &&& a.tbssel == b.tbssel
        &&& a.id == b.id
        &&& a.tbidex == b.tbidex
        &&& a.mc == b.mc
        &&& a.counter == b.counter
        &&& a.tbifg == b.tbifg
        &&& a.tbie == b.tbie
    }

    /// Registers as they come out of reset.
    pub fn new(instance: TimerInstance) -> (r: TimerRegs)
        ensures
            r.wf(),
            r.instance == instance,
            r.mc == CountMode::Stop,
            r.counter == 0,
            !r.tbifg,
            !r.tbie,
            forall|i: int| 0 <= i < r.ccrs@.len() ==> r.ccrs@[i] == blank_ccr(),
    {
        let n: usize = channel_count(instance);
        let blank = CcrRegs {
            ccr: 0,
            outmod: Outmod::Out,
            capture: false,
            cm: CapMode::NoCap,
            ccis: CapSelect::InputA,
            ccifg: false,
            ccie: false,
            cov: false,
        };
        let mut ccrs: Vec<CcrRegs> = Vec::new();
        let mut i: usize = 0;
        while i < n
            invariant
                i <= n,
                ccrs@.len() == i,
                forall|j: int| 0 <= j < i ==> ccrs@[j] == blank,
            decreases n - i,
        {
            ccrs.push(blank);
            i = i + 1;
        }
        assert(ccrs@.len() == spec_channel_count(instance));
        TimerRegs {
            instance,
            tbssel: Tbssel::Tbxclk,
            id: ID::_1,
            tbidex: Tbidex::_1,
            mc: CountMode::Stop,
            counter: 0,
            tbifg: false,
            tbie: false,
            ccrs,
        }
    }

    /// Replaces the block of channel `n`.
    fn put_ccr(&mut self, n: usize, c: CcrRegs)
        requires
            n < old(self).ccrs@.len(),
        ensures
            final(self).ccrs@ == old(self).ccrs@.update(n as int, c),
            TimerRegs::same_ctl(final(self), old(self)),
    {
        self.ccrs[n] = c;
    }

    // ---- capture/compare channel driver ----

    /// Writes the compare register of channel `n`. No range check: the
    /// hardware saturates.
    pub fn set_ccrn(&mut self, n: usize, count: u16)
        requires
            n < old(self).ccrs@.len(),
        ensures
            final(self).ccrs@ == old(self).ccrs@.update(
                n as int,
                CcrRegs { ccr: count, ..old(self).ccrs@[n as int] },
            ),
            TimerRegs::same_ctl(final(self), old(self)),
    {
        let c = CcrRegs { ccr: count, ..self.ccrs[n] };
        self.put_ccr(n, c);
    }

    /// Reads the compare register of channel `n` (the threshold, not the
    /// running count).
    pub fn get_ccrn(&self, n: usize) -> (r: u16)
        requires
            n < self.ccrs@.len(),
        ensures
            r == self.ccr_of(n as int),
    {
        self.ccrs[n].ccr
    }

    /// Puts channel `n` in compare mode with output action `outmod`.
    pub fn config_cmp_mode(&mut self, n: usize, outmod: Outmod)
        requires
            n < old(self).ccrs@.len(),
        ensures
            final(self).ccrs@ == old(self).ccrs@.update(
                n as int,
                cmp_ctl(old(self).ccrs@[n as int], outmod),
            ),
            TimerRegs::same_ctl(final(self), old(self)),
    {
        let c = CcrRegs {
            ccr: self.ccrs[n].ccr,
            outmod,
            capture: false,
            cm: CapMode::NoCap,
            ccis: CapSelect::InputA,
            ccifg: false,
            ccie: false,
            cov: false,
        };
        self.put_ccr(n, c);
    }

    /// Puts channel `n` in capture mode on edge `cm` of input `ccis`.
    pub fn config_cap_mode(&mut self, n: usize, cm: CapMode, ccis: CapSelect)
        requires
            n < old(self).ccrs@.len(),
        ensures
            final(self).ccrs@ == old(self).ccrs@.update(
                n as int,
                cap_ctl(old(self).ccrs@[n as int], cm, ccis),
            ),
            TimerRegs::same_ctl(final(self), old(self)),
    {
        let c = CcrRegs {
            ccr: self.ccrs[n].ccr,
            outmod: Outmod::Out,
            capture: true,
            cm,
            ccis,
            ccifg: false,
            ccie: false,
            cov: false,
        };
        self.put_ccr(n, c);
    }

    /// Pending interrupt flag of channel `n`. Reading does not clear it.
    pub fn ccifg_rd(&self, n: usize) -> (r: bool)
        requires
            n < self.ccrs@.len(),
        ensures
            r == self.ccrs@[n as int].ccifg,
    {
        self.ccrs[n].ccifg
    }

    /// Clears the pending interrupt flag of channel `n`.
    pub fn ccifg_clr(&mut self, n: usize)
        requires
            n < old(self).ccrs@.len(),
        ensures
            final(self).ccrs@ == old(self).ccrs@.update(
                n as int,
                CcrRegs { ccifg: false, ..old(self).ccrs@[n as int] },
            ),
            TimerRegs::same_ctl(final(self), old(self)),
    {
        let c = CcrRegs { ccifg: false, ..self.ccrs[n] };
        self.put_ccr(n, c);
    }

    /// Enables the interrupt of channel `n`.
    pub fn ccie_set(&mut self, n: usize)
        requires
            n < old(self).ccrs@.len(),
        ensures
            final(self).ccrs@ == old(self).ccrs@.update(
                n as int,
                CcrRegs { ccie: true, ..old(self).ccrs@[n as int] },
            ),
            TimerRegs::same_ctl(final(self), old(self)),
    {
        let c = CcrRegs { ccie: true, ..self.ccrs[n] };
        self.put_ccr(n, c);
    }

    /// Disables the interrupt of channel `n`.
    pub fn ccie_clr(&mut self, n: usize)
        requires
            n < old(self).ccrs@.len(),
        ensures
            final(self).ccrs@ == old(self).ccrs@.update(
                n as int,
                CcrRegs { ccie: false, ..old(self).ccrs@[n as int] },
            ),
            TimerRegs::same_ctl(final(self), old(self)),
    {
        let c = CcrRegs { ccie: false, ..self.ccrs[n] };
        self.put_ccr(n, c);
    }

    /// Capture overflow flag of channel `n`.
    pub fn cov_rd(&self, n: usize) -> (r: bool)
        requires
            n < self.ccrs@.len(),
        ensures
            r == self.ccrs@[n as int].cov,
    {
        self.ccrs[n].cov
    }

    /// Clears the capture overflow flag and the pending flag of channel `n`.
    pub fn cov_ccifg_clr(&mut self, n: usize)
        requires
            n < old(self).ccrs@.len(),
        ensures
            final(self).ccrs@ == old(self).ccrs@.update(
                n as int,
                CcrRegs { cov: false, ccifg: false, ..old(self).ccrs@[n as int] },
            ),
            TimerRegs::same_ctl(final(self), old(self)),
    {
        let c = CcrRegs { cov: false, ccifg: false, ..self.ccrs[n] };
        self.put_ccr(n, c);
    }

    // ---- timer control ----

    /// Clears the counter; allowed in every state.
    pub fn reset(&mut self)
        ensures
            *final(self) == (TimerRegs { counter: 0, ..*old(self) }),
    {
        self.counter = 0;
    }

    /// Clears the counter and the overflow flag and counts from 0 up to the
    /// period, then wraps.
    pub fn upmode(&mut self)
        ensures
            *final(self) == (TimerRegs {
                counter: 0,
                tbifg: false,
                mc: CountMode::Up,
                ..*old(self)
            }),
    {
        self.counter = 0;
        self.tbifg = false;
        self.mc = CountMode::Up;
    }

    /// Clears the counter and the overflow flag and counts from 0 to 0xFFFF,
    /// then wraps.
    pub fn continuous(&mut self)
        ensures
            *final(self) == (TimerRegs {
                counter: 0,
                tbifg: false,
                mc: CountMode::Continuous,
                ..*old(self)
            }),
    {
        self.counter = 0;
        self.tbifg = false;
        self.mc = CountMode::Continuous;
    }

    /// Writes the control register with clock source `tbssel` and first
    /// divider stage `div`; the timer is left stopped with its interrupt off.
    pub fn config_clock(&mut self, tbssel: Tbssel, div: ID)
        ensures
            *final(self) == (TimerRegs {
                tbssel,
                id: div,
                mc: CountMode::Stop,
                tbifg: false,
                tbie: false,
                ..*old(self)
            }),
    {
        self.tbssel = tbssel;
        self.id = div;
        self.mc = CountMode::Stop;
        self.tbifg = false;
        self.tbie = false;
    }

    /// Whether the timer is stopped.
    pub fn is_stopped(&self) -> (r: bool)
        ensures
            r == (self.mc == CountMode::Stop),
    {
        match self.mc {
            CountMode::Stop => true,
            _ => false,
        }
    }

    /// Halts counting; the counter keeps its value.
    pub fn stop(&mut self)
        ensures
            *final(self) == (TimerRegs { mc: CountMode::Stop, ..*old(self) }),
    {
        self.mc = CountMode::Stop;
    }

    /// Sets the second divider stage.
    pub fn set_tbidex(&mut self, tbidex: Tbidex)
        ensures
            *final(self) == (TimerRegs { tbidex, ..*old(self) }),
    {
        self.tbidex = tbidex;
    }

    /// Overflow interrupt flag. Reading does not clear it.
    pub fn tbifg_rd(&self) -> (r: bool)
        ensures
            r == self.tbifg,
    {
        self.tbifg
    }

    /// Clears the overflow interrupt flag.
    pub fn tbifg_clr(&mut self)
        ensures
            *final(self) == (TimerRegs { tbifg: false, ..*old(self) }),
    {
        self.tbifg = false;
    }

    /// Enables the overflow interrupt.
    pub fn tbie_set(&mut self)
        ensures
            *final(self) == (TimerRegs { tbie: true, ..*old(self) }),
    {
        self.tbie = true;
    }

    /// Disables the overflow interrupt.
    pub fn tbie_clr(&mut self)
        ensures
            *final(self) == (TimerRegs { tbie: false, ..*old(self) }),
    {
        self.tbie = false;
    }
}

} // verus!

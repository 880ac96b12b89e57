//! PWM ports.
//!
//! A PWM port is made from a timer. TB0, TB1 and TB2 give two channels, TB3
//! gives six. Each channel has its own duty cycle and shares the period of its
//! timer, held in channel 0. A channel starts unbound (`PwmUninit`) and becomes
//! usable (`Pwm`) only by taking ownership of the one pin wired to it.
use core::marker::PhantomData;
use vstd::prelude::*;

use crate::gpio::{alt_sel, gpio_sel, Alt, GpioPin, PinSel, PortRegs};
use crate::timerb::{
    cmp_ctl, spec_channel_count, channel_count, CcrRegs, CountMode, Outmod, Tbidex, Tbssel,
    TimerInstance, TimerRegs, CCR1, CCR2, CCR3, CCR4, CCR5, CCR6, ID,
};

verus! {

/// A capture/compare channel named by a type.
pub trait CcrIndex {
    /// The channel number.
    spec fn spec_index() -> nat;

    /// The channel number.
    fn index() -> (r: usize)
        ensures
            r == Self::spec_index(),
            1 <= r <= 6,
    ;
}

impl CcrIndex for CCR1 {
    open spec fn spec_index() -> nat {
        1
    }

    fn index() -> (r: usize) {
        1
    }
}

impl CcrIndex for CCR2 {
    open spec fn spec_index() -> nat {
        2
    }

    fn index() -> (r: usize) {
        2
    }
}

impl CcrIndex for CCR3 {
    open spec fn spec_index() -> nat {
        3
    }

    fn index() -> (r: usize) {
        3
    }
}

impl CcrIndex for CCR4 {
    open spec fn spec_index() -> nat {
        4
    }

    fn index() -> (r: usize) {
        4
    }
}

impl CcrIndex for CCR5 {
    open spec fn spec_index() -> nat {
        5
    }

    fn index() -> (r: usize) {
        5
    }
}

impl CcrIndex for CCR6 {
    open spec fn spec_index() -> nat {
        6
    }

    fn index() -> (r: usize) {
        6
    }
}

/// The pin wired to a PWM channel and the alternate function that hands it
/// to the timer.
#[derive(Clone, Copy, Debug, PartialEq, Eq, Structural)]
pub struct PwmPinId {
    pub port: u8,
    pub num: u8,
    pub alt: Alt,
}

/// The pin wired to channel `ch` of timer `t`, for `1 <= ch < channel count`.
pub open spec fn spec_pwm_pin(t: TimerInstance, ch: nat) -> PwmPinId {
    match t {
        TimerInstance::Tb0 => PwmPinId { port: 1, num: (5 + ch) as u8, alt: Alt::Alt2 },
        TimerInstance::Tb1 => PwmPinId { port: 2, num: (ch - 1) as u8, alt: Alt::Alt1 },
        TimerInstance::Tb2 => PwmPinId { port: 5, num: (ch - 1) as u8, alt: Alt::Alt1 },
        TimerInstance::Tb3 => PwmPinId { port: 6, num: (ch - 1) as u8, alt: Alt::Alt1 },
    }
}

/// The pin wired to channel `ch` of timer `t`.
pub fn pwm_pin(t: TimerInstance, ch: usize) -> (r: PwmPinId)
    requires
        1 <= ch < spec_channel_count(t),
    ensures
        r == spec_pwm_pin(t, ch as nat),
{
    let c: u8 = ch as u8;
    match t {
        TimerInstance::Tb0 => PwmPinId { port: 1, num: 5 + c, alt: Alt::Alt2 },
        TimerInstance::Tb1 => PwmPinId { port: 2, num: c - 1, alt: Alt::Alt1 },
        TimerInstance::Tb2 => PwmPinId { port: 5, num: c - 1, alt: Alt::Alt1 },
        TimerInstance::Tb3 => PwmPinId { port: 6, num: c - 1, alt: Alt::Alt1 },
    }
}

/// Hands `pin` to the timer through alternate function `alt`.
pub fn to_alt(gpio: &mut PortRegs, pin: &GpioPin, alt: Alt)
    requires
        old(gpio).wf(),
        pin.wf(),
    ensures
        final(gpio).pins@ == old(gpio).pins@.update(pin.index(), alt_sel(alt)),
{
    let s = match alt {
        Alt::Alt1 => PinSel { sel0: true, sel1: false },
        Alt::Alt2 => PinSel { sel0: false, sel1: true },
    };
    gpio.set_sel(pin, s);
}

/// Returns `pin` to plain digital I/O.
pub fn to_gpio(gpio: &mut PortRegs, pin: &GpioPin)
    requires
        old(gpio).wf(),
        pin.wf(),
    ensures
        final(gpio).pins@ == old(gpio).pins@.update(pin.index(), gpio_sel()),
{
    gpio.set_sel(pin, PinSel { sel0: false, sel1: false });
}

/// Clock configuration of a timer.
#[derive(Clone, Copy, Debug, PartialEq, Eq, Structural)]
pub struct TimerConfig {
    /// Clock source.
    pub tbssel: Tbssel,
    /// First divider stage (1, 2, 4 or 8).
    pub id: ID,
    /// Second divider stage (1 to 8).
    pub tbidex: Tbidex,
}

impl TimerConfig {
    /// A configuration with clock source `tbssel` divided by `id` then by `tbidex`.
    pub fn new(tbssel: Tbssel, id: ID, tbidex: Tbidex) -> (r: TimerConfig)
        ensures
            r == (TimerConfig { tbssel, id, tbidex }),
    {
        TimerConfig { tbssel, id, tbidex }
    }

    /// Writes the clock source and both divider stages; the timer is left
    /// stopped.
    pub fn write_regs(&self, timer: &mut TimerRegs)
        ensures
            *final(timer) == (TimerRegs {
                tbssel: self.tbssel,
                id: self.id,
                tbidex: self.tbidex,
                mc: CountMode::Stop,
                tbifg: false,
                tbie: false,
                ..*old(timer)
            }),
    {
        timer.config_clock(self.tbssel, self.id);
        timer.set_tbidex(self.tbidex);
    }
}

/// An unbound PWM channel `C` of a timer: nothing can be read or written
/// through it until it is bound to its pin.
pub struct PwmUninit<C: CcrIndex> {
    instance: TimerInstance,
    _ccr: PhantomData<C>,
}

impl<C: CcrIndex> PwmUninit<C> {
    /// The timer this channel belongs to.
    pub closed spec fn instance(&self) -> TimerInstance {
        self.instance
    }

    /// The channel exists on its timer.
    pub open spec fn wf(&self) -> bool {
        C::spec_index() < spec_channel_count(self.instance())
    }

    /// Binds the channel to `pin`, the one pin wired to it, and hands the pin
    /// to the timer. No other pin is touched.
    pub fn init(self, pin: GpioPin, gpio: &mut PortRegs) -> (r: Pwm<C>)
        requires
            self.wf(),
            old(gpio).wf(),
            pin.port == spec_pwm_pin(self.instance(), C::spec_index()).port,
            pin.num == spec_pwm_pin(self.instance(), C::spec_index()).num,
        ensures
            r.wf(),
            r.instance() == self.instance(),
            r.pin_index() == pin.index(),
            r.alt() == spec_pwm_pin(self.instance(), C::spec_index()).alt,
            final(gpio).pins@ == old(gpio).pins@.update(
                pin.index(),
                alt_sel(spec_pwm_pin(self.instance(), C::spec_index()).alt),
            ),
    {
        let id = pwm_pin(self.instance, C::index());
        to_alt(gpio, &pin, id.alt);
        Pwm { instance: self.instance, pin, alt: id.alt, _ccr: PhantomData }
    }
}

/// A PWM channel `C` bound to its pin.
pub struct Pwm<C: CcrIndex> {
    instance: TimerInstance,
    pin: GpioPin,
    alt: Alt,
    _ccr: PhantomData<C>,
}

impl<C: CcrIndex> Pwm<C> {
    /// The timer this channel belongs to.
    pub closed spec fn instance(&self) -> TimerInstance {
        self.instance
    }

    /// Position of the bound pin among all pins.
    pub closed spec fn pin_index(&self) -> int {
        self.pin.index()
    }

    /// Alternate function of the bound pin.
    pub closed spec fn alt(&self) -> Alt {
        self.alt
    }

    /// The channel exists on its timer and owns its pin.
    pub closed spec fn wf(&self) -> bool {
        &&& C::spec_index() < spec_channel_count(self.instance)
        &&& self.pin.wf()
        &&& self.pin.port == spec_pwm_pin(self.instance, C::spec_index()).port
        &&& self.pin.num == spec_pwm_pin(self.instance, C::spec_index()).num
        &&& self.alt == spec_pwm_pin(self.instance, C::spec_index()).alt
    }

    /// The channel number.
    pub open spec fn channel(&self) -> nat {
        C::spec_index()
    }

    /// The timer this channel belongs to.
    pub fn timer_instance(&self) -> (r: TimerInstance)
        ensures
            r == self.instance(),
    {
        self.instance
    }

    /// Sets the duty cycle in timer counts. A duty above the period keeps the
    /// output asserted for the whole period.
    pub fn set_duty(&mut self, timer: &mut TimerRegs, duty: u16)
        requires
            old(self).wf(),
            old(timer).wf(),
            old(timer).instance == old(self).instance(),
        ensures
            *final(self) == *old(self),
            final(timer).wf(),
            final(timer).ccrs@ == old(timer).ccrs@.update(
                old(self).channel() as int,
                CcrRegs { ccr: duty, ..old(timer).ccrs@[old(self).channel() as int] },
            ),
            TimerRegs::same_ctl(final(timer), old(timer)),
    {
        timer.set_ccrn(C::index(), duty);
    }

    /// The duty cycle in timer counts.
    pub fn get_duty(&self, timer: &TimerRegs) -> (r: u16)
        requires
            self.wf(),
            timer.wf(),
            timer.instance == self.instance(),
        ensures
            r == timer.ccr_of(self.channel() as int),
    {
        timer.get_ccrn(C::index())
    }

    /// The period shared by every channel of the timer; the largest duty
    /// cycle that still leaves the output low for part of a period.
    pub fn get_max_duty(&self, timer: &TimerRegs) -> (r: u16)
        requires
            self.wf(),
            timer.wf(),
            timer.instance == self.instance(),
        ensures
            r == timer.period(),
    {
        timer.get_ccrn(0)
    }

    /// Returns the pin to plain digital I/O; the output stays at its last
    /// level. Neither the duty cycle nor the timer is touched.
    pub fn disable(&mut self, gpio: &mut PortRegs)
        requires
            old(self).wf(),
            old(gpio).wf(),
        ensures
            *final(self) == *old(self),
            final(gpio).pins@ == old(gpio).pins@.update(old(self).pin_index(), gpio_sel()),
    {
        to_gpio(gpio, &self.pin);
    }

    /// Hands the pin back to the timer, resuming the output. Neither the duty
    /// cycle nor the timer is touched.
    pub fn enable(&mut self, gpio: &mut PortRegs)
        requires
            old(self).wf(),
            old(gpio).wf(),
        ensures
            *final(self) == *old(self),
            final(gpio).pins@ == old(gpio).pins@.update(
                old(self).pin_index(),
                alt_sel(old(self).alt()),
            ),
    {
        to_alt(gpio, &self.pin, self.alt);
    }
}


/// The unbound channels of a timer with three capture/compare channels.
pub struct ThreeCCRnPins {
    /// Channel 1.
    pub pwm1: PwmUninit<CCR1>,
    /// Channel 2.
    pub pwm2: PwmUninit<CCR2>,
}

/// The unbound channels of a timer with seven capture/compare channels.
pub struct SevenCCRnPins {
    /// Channel 1.
    pub pwm1: PwmUninit<CCR1>,
    /// Channel 2.
    pub pwm2: PwmUninit<CCR2>,
    /// Channel 3.
    pub pwm3: PwmUninit<CCR3>,
    /// Channel 4.
    pub pwm4: PwmUninit<CCR4>,
    /// Channel 5.
    pub pwm5: PwmUninit<CCR5>,
    /// Channel 6.
    pub pwm6: PwmUninit<CCR6>,
}

/// The unbound channels handed out for one timer.
pub enum PwmPins {
    Three(ThreeCCRnPins),
    Seven(SevenCCRnPins),
}

impl PwmPins {
    /// Every channel belongs to timer `t`, and there is one for each channel
    /// of `t` but channel 0.
    pub open spec fn of_timer(&self, t: TimerInstance) -> bool {
        match self {
            PwmPins::Three(p) => {
                &&& spec_channel_count(t) == 3
                &&& p.pwm1.instance() == t
                &&& p.pwm2.instance() == t
            },
            PwmPins::Seven(p) => {
                &&& spec_channel_count(t) == 7
                &&& p.pwm1.instance() == t
                &&& p.pwm2.instance() == t
                &&& p.pwm3.instance() == t
                &&& p.pwm4.instance() == t
                &&& p.pwm5.instance() == t
                &&& p.pwm6.instance() == t
            },
        }
    }
}

/// Channel registers right after a timer is set up for PWM with `period`:
/// channel 0 holds the period and toggles, every other channel is in
/// reset/set mode, with its compare register kept.
pub open spec fn pwm_channels(before: Seq<CcrRegs>, period: u16) -> Seq<CcrRegs> {
    Seq::new(
        before.len(),
        |i: int|
            if i == 0 {
                cmp_ctl(CcrRegs { ccr: period, ..before[0] }, Outmod::Toggle)
            } else {
                cmp_ctl(before[i], Outmod::ResetSet)
            },
    )
}

/// An unbound channel of timer `t`.
fn uninit<C: CcrIndex>(t: TimerInstance) -> (r: PwmUninit<C>)
    ensures
        r.instance() == t,
{
    PwmUninit { instance: t, _ccr: PhantomData }
}

/// Sets `timer` up for PWM with `period` and hands out all its channels but
/// channel 0, unbound.
///
/// The clock is configured first, then the period is written and channel 0
/// set to toggle, then every other channel put in reset/set mode (output set
/// at the period boundary, reset at the channel's own compare match); the
/// timer starts counting up only after that. No pin is touched.
pub fn to_pwm(timer: &mut TimerRegs, config: &TimerConfig, period: u16) -> (r: PwmPins)
    requires
        old(timer).wf(),
        period > 0,
    ensures
        final(timer).wf(),
        final(timer).instance == old(timer).instance,
        final(timer).tbssel == config.tbssel,
        final(timer).id == config.id,
        final(timer).tbidex == config.tbidex,
        final(timer).mc == CountMode::Up,
        final(timer).counter == 0,
        !final(timer).tbifg,
        !final(timer).tbie,
        final(timer).ccrs@ == pwm_channels(old(timer).ccrs@, period),
        final(timer).period() == period,
        r.of_timer(final(timer).instance),
{
    let ghost old_ccrs = timer.ccrs@;
    config.write_regs(timer);
    timer.set_ccrn(0, period);
    timer.config_cmp_mode(0, Outmod::Toggle);
    let n: usize = channel_count(timer.instance);
    let mut i: usize = 1;
    while i < n
        invariant
            1 <= i <= n,
            n == timer.ccrs@.len(),
            timer.wf(),
            timer.instance == old(timer).instance,
            timer.tbssel == config.tbssel,
            timer.id == config.id,
            timer.tbidex == config.tbidex,
            timer.mc == CountMode::Stop,
            !timer.tbifg,
            !timer.tbie,
            old_ccrs == old(timer).ccrs@,
            old_ccrs.len() == n,
            forall|j: int|
                0 <= j < i ==> timer.ccrs@[j] == pwm_channels(old_ccrs, period)[j],
            forall|j: int| i <= j < n ==> timer.ccrs@[j] == old_ccrs[j],
        decreases n - i,
    {
        timer.config_cmp_mode(i, Outmod::ResetSet);
        assert(timer.ccrs@[i as int] == pwm_channels(old_ccrs, period)[i as int]);
        i = i + 1;
    }
    timer.upmode();
    assert(timer.ccrs@ =~= pwm_channels(old_ccrs, period));
    match timer.instance {
        TimerInstance::Tb3 => PwmPins::Seven(
            SevenCCRnPins {
                pwm1: uninit(timer.instance),
                pwm2: uninit(timer.instance),
                pwm3: uninit(timer.instance),
                pwm4: uninit(timer.instance),
                pwm5: uninit(timer.instance),
                pwm6: uninit(timer.instance),
            },
        ),
        _ => PwmPins::Three(
            ThreeCCRnPins { pwm1: uninit(timer.instance), pwm2: uninit(timer.instance) },
        ),
    }
}

/// Level of a reset/set channel with compare value `duty` at count `t` of a
/// period: asserted from the period boundary until the count reaches `duty`.
pub open spec fn output_high(duty: nat, t: nat) -> bool {
    t < duty
}

/// Number of counts among the first `n` of a period at which a channel with
/// compare value `duty` is asserted.
pub open spec fn asserted_ticks(duty: nat, n: nat) -> nat
    decreases n,
{
    if n == 0 {
        0
    } else {
        asserted_ticks(duty, (n - 1) as nat) + if output_high(duty, (n - 1) as nat) {
            1nat
        } else {
            0nat
        }
    }
}

/// Level of a reset/set channel with compare value `duty` at count `tick`.
pub fn output_level(duty: u16, tick: u16) -> (r: bool)
    ensures
        r == output_high(duty as nat, tick as nat),
{
    tick < duty
}

/// Number of counts of a `period` during which a channel with compare value
/// `duty` is asserted.
pub fn asserted_per_period(period: u16, duty: u16) -> (r: u16)
    ensures
        r == asserted_ticks(duty as nat, period as nat),
{
    proof {
        lemma_asserted_ticks(duty as nat, period as nat);
    }
    if duty <= period {
        duty
    } else {
        period
    }
}

proof fn lemma_asserted_ticks(duty: nat, n: nat)
    ensures
        asserted_ticks(duty, n) == if duty <= n {
            duty
        } else {
            n
        },
    decreases n,
{
    if n > 0 {
        lemma_asserted_ticks(duty, (n - 1) as nat);
    }
}

/// Over one period `p > 0` a channel with duty `d` is asserted for exactly
/// `d` counts when `d <= p`, and for the whole period when `d > p`.
pub proof fn lemma_duty_fraction(period: nat, duty: nat)
    requires
        period > 0,
    ensures
        duty <= period ==> asserted_ticks(duty, period) == duty,
        duty > period ==> asserted_ticks(duty, period) == period,
        duty > period ==> forall|t: nat| t < period ==> #[trigger] output_high(duty, t),
{
    lemma_asserted_ticks(duty, period);
}

/// Binding channel `ch` of timer `t` hands exactly its own pin to the timer,
/// through its own alternate function, and leaves every other pin alone; the
/// pins of distinct channels of a timer are distinct.
pub proof fn lemma_bind_touches_one_pin(t: TimerInstance, ch: nat, pins: Seq<PinSel>)
    requires
        1 <= ch < spec_channel_count(t),
        pins.len() == crate::gpio::PORTS * crate::gpio::PINS_PER_PORT,
    ensures
        ({
            let id = spec_pwm_pin(t, ch);
            let pin = GpioPin { port: id.port, num: id.num };
            let after = pins.update(pin.index(), alt_sel(id.alt));
            &&& pin.wf()
            &&& after[pin.index()] == alt_sel(id.alt)
            &&& forall|j: int| 0 <= j < pins.len() && j != pin.index() ==> after[j] == pins[j]
        }),
        forall|c: nat|
            1 <= c < spec_channel_count(t) && c != ch ==> {
                let a = spec_pwm_pin(t, ch);
                let b = #[trigger] spec_pwm_pin(t, c);
                a.port != b.port || a.num != b.num
            },
{
}

/// Reading a channel's duty after writing `duty` to it gives `duty` back; the
/// pin state plays no part, and enabling or disabling touches no timer
/// register.
pub proof fn lemma_duty_round_trip(ccrs: Seq<CcrRegs>, ch: int, duty: u16)
    requires
        0 <= ch < ccrs.len(),
    ensures
        ccrs.update(ch, CcrRegs { ccr: duty, ..ccrs[ch] })[ch].ccr == duty,
{
}

/// Duty writes `(channel, value)` applied in order to channel registers.
pub open spec fn apply_duties(ccrs: Seq<CcrRegs>, writes: Seq<(nat, u16)>) -> Seq<CcrRegs>
    decreases writes.len(),
{
    if writes.len() == 0 {
        ccrs
    } else {
        let prev = apply_duties(ccrs, writes.drop_last());
        let (ch, d) = writes.last();
        prev.update(ch as int, CcrRegs { ccr: d, ..prev[ch as int] })
    }
}

/// After a timer is set up with `period`, the period stays what was written
/// through any sequence of duty writes on its PWM channels, so every channel
/// reports it as its maximum duty.
pub proof fn lemma_period_kept(before: Seq<CcrRegs>, period: u16, writes: Seq<(nat, u16)>)
    requires
        before.len() > 0,
        forall|k: int| 0 <= k < writes.len() ==> 1 <= (#[trigger] writes[k]).0 < before.len(),
    ensures
        apply_duties(pwm_channels(before, period), writes).len() == before.len(),
        apply_duties(pwm_channels(before, period), writes)[0].ccr == period,
    decreases writes.len(),
{
    if writes.len() > 0 {
        let w = writes.drop_last();
        assert forall|k: int| 0 <= k < w.len() implies 1 <= (#[trigger] w[k]).0 < before.len() by {
            assert(w[k] == writes[k]);
        }
        lemma_period_kept(before, period, w);
        assert(writes.last() == writes[writes.len() - 1]);
    }
}

/// Disabling and then enabling a bound, enabled channel leaves every pin as
/// it was; the timer registers, the duty among them, are not involved.
pub proof fn lemma_disable_enable(pins: Seq<PinSel>, i: int, alt: Alt)
    requires
        0 <= i < pins.len(),
        pins[i] == alt_sel(alt),
    ensures
        pins.update(i, gpio_sel()).update(i, alt_sel(alt)) == pins,
{
    assert(pins.update(i, gpio_sel()).update(i, alt_sel(alt)) =~= pins);
}

} // verus!

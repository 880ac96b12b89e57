//! Analog-to-digital converter.
//!
//! `AdcRegs` is the register handle of the converter. `Adc::read` starts a
//! conversion on its first call and hands the result back on a later call,
//! once the converter is no longer busy.
use vstd::prelude::*;

use crate::gpio::GpioPin;

verus! {

/// Sample-and-hold time, in converter clock cycles.
#[allow(non_camel_case_types)]
#[derive(Clone, Copy, Debug, PartialEq, Eq, Structural)]
pub enum SampleTime {
    _4,
    _8,
    _16,
    _32,
    _64,
    _96,
    _128,
    _192,
    _256,
    _384,
    _512,
    _768,
    _1024,
}

impl SampleTime {
    /// Number of clock cycles.
    pub open spec fn cycles(self) -> nat {
        match self {
            SampleTime::_4 => 4,
            SampleTime::_8 => 8,
            SampleTime::_16 => 16,
            SampleTime::_32 => 32,
            SampleTime::_64 => 64,
            SampleTime::_96 => 96,
            SampleTime::_128 => 128,
            SampleTime::_192 => 192,
            SampleTime::_256 => 256,
            SampleTime::_384 => 384,
            SampleTime::_512 => 512,
            SampleTime::_768 => 768,
            SampleTime::_1024 => 1024,
        }
    }

    /// Field value that selects this sample time.
    pub fn adcsht(self) -> (r: u8)
        ensures
            r < 13,
            sht_cycles(r) == self.cycles(),
    {
        proof {
            reveal_with_fuel(pow2, 11);
        }
        match self {
            SampleTime::_4 => 0b000,
            SampleTime::_8 => 0b001,
            SampleTime::_16 => 0b010,
            SampleTime::_32 => 0b011,
            SampleTime::_64 => 0b100,
            SampleTime::_96 => 0b101,
            SampleTime::_128 => 0b110,
            SampleTime::_192 => 0b111,
            SampleTime::_256 => 0b1000,
            SampleTime::_384 => 0b1001,
            SampleTime::_512 => 0b1010,
            SampleTime::_768 => 0b1011,
            SampleTime::_1024 => 0b1100,
        }
    }
}

/// Sample time, in clock cycles, that field value `code` selects: a doubling
/// sequence from 4 in which every step from 64 on is split in two.
pub open spec fn sht_cycles(code: u8) -> nat {
    if code < 4 {
        pow2(code as nat + 2)
    } else if code % 2 == 0 {
        pow2(((code - 4) / 2 + 6) as nat)
    } else {
        3 * pow2(((code - 5) / 2 + 5) as nat)
    }
}

/// `2` to the power `n`.
pub open spec fn pow2(n: nat) -> nat
    decreases n,
{
    if n == 0 {
        1
    } else {
        2 * pow2((n - 1) as nat)
    }
}

/// Divider of the converter clock.
#[allow(non_camel_case_types)]
#[derive(Clone, Copy, Debug, PartialEq, Eq, Structural)]
pub enum ClockDivider {
    _1,
    _2,
    _3,
    _4,
    _5,
    _6,
    _7,
    _8,
}

impl ClockDivider {
    /// The divisor, 1 to 8.
    pub open spec fn divisor(self) -> nat {
        match self {
            ClockDivider::_1 => 1,
            ClockDivider::_2 => 2,
            ClockDivider::_3 => 3,
            ClockDivider::_4 => 4,
            ClockDivider::_5 => 5,
            ClockDivider::_6 => 6,
            ClockDivider::_7 => 7,
            ClockDivider::_8 => 8,
        }
    }

    /// Field value that selects this divider: the divisor less one.
    pub fn adcdiv(self) -> (r: u8)
        ensures
            r + 1 == self.divisor(),
    {
        match self {
            ClockDivider::_1 => 0b000,
            ClockDivider::_2 => 0b001,
            ClockDivider::_3 => 0b010,
            ClockDivider::_4 => 0b011,
            ClockDivider::_5 => 0b100,
            ClockDivider::_6 => 0b101,
            ClockDivider::_7 => 0b110,
            ClockDivider::_8 => 0b111,
        }
    }
}

/// Clock of the converter.
#[allow(clippy::upper_case_acronyms)]
#[derive(Clone, Copy, Debug, PartialEq, Eq, Structural)]
pub enum ClockSource {
    MODCLK,
    ACLK,
    SMCLK,
}

impl ClockSource {
    /// Field value that selects this clock.
    pub fn adcssel(self) -> (r: u8)
        ensures
            r == match self {
                ClockSource::MODCLK => 0u8,
                ClockSource::ACLK => 1u8,
                ClockSource::SMCLK => 2u8,
            },
    {
        match self {
            ClockSource::MODCLK => 0b00,
            ClockSource::ACLK => 0b01,
            ClockSource::SMCLK => 0b10,
        }
    }
}

/// Divider applied before the clock divider.
#[allow(non_camel_case_types)]
#[derive(Clone, Copy, Debug, PartialEq, Eq, Structural)]
pub enum Predivider {
    _1,
    _4,
    _64,
}

impl Predivider {
    /// The divisor.
    pub open spec fn divisor(self) -> nat {
        match self {
            Predivider::_1 => 1,
            Predivider::_4 => 4,
            Predivider::_64 => 64,
        }
    }

    /// Field value that selects this predivider.
    pub fn adcpdiv(self) -> (r: u8)
        ensures
            r < 3,
            pdiv_divisor(r) == self.divisor(),
    {
        match self {
            Predivider::_1 => 0b00,
            Predivider::_4 => 0b01,
            Predivider::_64 => 0b10,
        }
    }
}

/// Predivider that field value `code` selects.
pub open spec fn pdiv_divisor(code: u8) -> nat {
    if code == 0 {
        1
    } else if code == 1 {
        4
    } else {
        64
    }
}

/// Bits per conversion result.
#[allow(non_camel_case_types)]
#[derive(Clone, Copy, Debug, PartialEq, Eq, Structural)]
pub enum Resolution {
    _8BIT,
    _10BIT,
    _12BIT,
}

impl Resolution {
    /// Number of bits.
    pub open spec fn bits(self) -> nat {
        match self {
            Resolution::_8BIT => 8,
            Resolution::_10BIT => 10,
            Resolution::_12BIT => 12,
        }
    }

    /// Field value that selects this resolution.
    pub fn adcres(self) -> (r: u8)
        ensures
            8 + 2 * r == self.bits(),
    {
        match self {
            Resolution::_8BIT => 0b00,
            Resolution::_10BIT => 0b01,
            Resolution::_12BIT => 0b10,
        }
    }
}

/// Largest sampling rate the converter buffer is set up for.
#[allow(non_camel_case_types)]
#[derive(Clone, Copy, Debug, PartialEq, Eq, Structural)]
pub enum SamplingRate {
    _50KSPS,
    _200KSPS,
}

impl SamplingRate {
    /// The rate-limit bit: set for 50 ksps.
    pub fn adcsr(self) -> (r: bool)
        ensures
            r == (self == SamplingRate::_50KSPS),
    {
        match self {
            SamplingRate::_200KSPS => false,
            SamplingRate::_50KSPS => true,
        }
    }
}

/// Input channel of the converter that `pin` is wired to, if any: pins 0 to 7
/// of port 1 are channels 0 to 7, pins 0 to 3 of port 5 channels 8 to 11.
pub open spec fn spec_adc_channel(port: u8, num: u8) -> Option<u8> {
    if port == 1 && num < 8 {
        Some(num)
    } else if port == 5 && num < 4 {
        Some((num + 8) as u8)
    } else {
        None
    }
}

/// Input channel of the converter that `pin` is wired to, if any.
pub fn adc_channel(pin: &GpioPin) -> (r: Option<u8>)
    ensures
        r == spec_adc_channel(pin.port, pin.num),
{
    if pin.port == 1 && pin.num < 8 {
        Some(pin.num)
    } else if pin.port == 5 && pin.num < 4 {
        Some(pin.num + 8)
    } else {
        None
    }
}

/// Registers of the converter.
#[derive(Clone, Copy, Debug, PartialEq, Eq, Structural)]
pub struct AdcRegs {
    /// Converter on.
    pub adcon: bool,
    /// Conversion enable.
    pub adcenc: bool,
    /// Start conversion.
    pub adcsc: bool,
    /// Sample-and-hold time field.
    pub adcsht: u8,
    /// Clock source field.
    pub adcssel: u8,
    /// Sampling timer in use.
    pub adcshp: bool,
    /// Clock divider field.
    pub adcdiv: u8,
    /// Predivider field.
    pub adcpdiv: u8,
    /// Resolution field.
    pub adcres: u8,
    /// Sampling-rate limit.
    pub adcsr: bool,
    /// Input channel.
    pub adcinch: u8,
    /// Set by the hardware while sampling or converting.
    pub adcbusy: bool,
    /// Latest conversion result.
    pub adcmem0: u16,
}

/// Configuration of the converter.
#[derive(Clone, Copy, Debug, PartialEq, Eq, Structural)]
pub struct AdcConfig {
    pub clock_source: ClockSource,
    pub clock_divider: ClockDivider,
    pub predivider: Predivider,
    pub resolution: Resolution,
    pub sampling_rate: SamplingRate,
    pub sample_time: SampleTime,
}

impl AdcConfig {
    /// A configuration from its parts.
    pub fn new(
        clock_source: ClockSource,
        clock_divider: ClockDivider,
        predivider: Predivider,
        resolution: Resolution,
        sampling_rate: SamplingRate,
        sample_time: SampleTime,
    ) -> (r: AdcConfig)
        ensures
            r == (AdcConfig {
                clock_source,
                clock_divider,
                predivider,
                resolution,
                sampling_rate,
                sample_time,
            }),
    {
        AdcConfig {
            clock_source,
            clock_divider,
            predivider,
            resolution,
            sampling_rate,
            sample_time,
        }
    }

    /// Turns the converter off and writes this configuration into `regs`;
    /// returns the converter, idle.
    pub fn config_hw(self, regs: AdcRegs) -> (r: Adc)
        ensures
            !r.is_waiting(),
            r.regs() == (AdcRegs {
                adcon: false,
                adcenc: false,
                adcsc: false,
                adcsht: r.regs().adcsht,
                adcssel: r.regs().adcssel,
                adcshp: true,
                adcdiv: r.regs().adcdiv,
                adcpdiv: r.regs().adcpdiv,
                adcres: r.regs().adcres,
                adcsr: self.sampling_rate == SamplingRate::_50KSPS,
                ..regs
            }),
            sht_cycles(r.regs().adcsht) == self.sample_time.cycles(),
            r.regs().adcssel as nat == match self.clock_source {
                ClockSource::MODCLK => 0nat,
                ClockSource::ACLK => 1nat,
                ClockSource::SMCLK => 2nat,
            },
            r.regs().adcdiv + 1 == self.clock_divider.divisor(),
            pdiv_divisor(r.regs().adcpdiv) == self.predivider.divisor(),
            8 + 2 * r.regs().adcres == self.resolution.bits(),
    {
        let mut regs = regs;
        regs.adcenc = false;
        regs.adcon = false;
        regs.adcsc = false;
        regs.adcsht = self.sample_time.adcsht();
        regs.adcssel = self.clock_source.adcssel();
        regs.adcshp = true;
        regs.adcdiv = self.clock_divider.adcdiv();
        regs.adcpdiv = self.predivider.adcpdiv();
        regs.adcres = self.resolution.adcres();
        regs.adcsr = self.sampling_rate.adcsr();
        Adc { adc_reg: regs, is_waiting: false }
    }
}

/// The converter and whether a conversion it started is still to be
/// collected.
pub struct Adc {
    adc_reg: AdcRegs,
    is_waiting: bool,
}

impl Adc {
    /// The registers.
    pub closed spec fn regs(&self) -> AdcRegs {
        self.adc_reg
    }

    /// A conversion was started and its result not yet handed out.
    pub closed spec fn is_waiting(&self) -> bool {
        self.is_waiting
    }

    /// The converter with the registers as they stand, idle.
    pub fn new(regs: AdcRegs) -> (r: Adc)
        ensures
            r.regs() == regs,
            !r.is_waiting(),
    {
        Adc { adc_reg: regs, is_waiting: false }
    }

    /// The registers, as the hardware should hold them.
    pub fn registers(&self) -> (r: AdcRegs)
        ensures
            r == self.regs(),
    {
        self.adc_reg
    }

    /// Takes in what the hardware reports: the busy flag and the latest
    /// result.
    pub fn update_status(&mut self, busy: bool, result: u16)
        ensures
            final(self).regs() == (AdcRegs { adcbusy: busy, adcmem0: result, ..old(self).regs() }),
            final(self).is_waiting() == old(self).is_waiting(),
    {
        self.adc_reg.adcbusy = busy;
        self.adc_reg.adcmem0 = result;
    }

    /// Turns the converter on.
    pub fn adc_enable(&mut self)
        ensures
            final(self).regs() == (AdcRegs { adcon: true, ..old(self).regs() }),
            final(self).is_waiting() == old(self).is_waiting(),
    {
        self.adc_reg.adcon = true;
    }

    /// Turns the converter off to save power.
    pub fn adc_disable(&mut self)
        ensures
            final(self).regs() == (AdcRegs { adcon: false, adcenc: false, ..old(self).regs() }),
            final(self).is_waiting() == old(self).is_waiting(),
    {
        self.adc_reg.adcon = false;
        self.adc_reg.adcenc = false;
    }

    /// Starts a conversion.
    pub fn adc_start_conversion(&mut self)
        ensures
            final(self).regs() == (AdcRegs { adcenc: true, adcsc: true, ..old(self).regs() }),
            final(self).is_waiting() == old(self).is_waiting(),
    {
        self.adc_reg.adcenc = true;
        self.adc_reg.adcsc = true;
    }

    /// Whether the converter is sampling or converting.
    pub fn adc_is_busy(&self) -> (r: bool)
        ensures
            r == self.regs().adcbusy,
    {
        self.adc_reg.adcbusy
    }

    /// The latest conversion result.
    pub fn adc_get_result(&self) -> (r: u16)
        ensures
            r == self.regs().adcmem0,
    {
        self.adc_reg.adcmem0
    }

    /// Selects the pin to sample; only while the converter is not busy.
    pub fn adc_set_pin(&mut self, pin: &GpioPin)
        requires
            spec_adc_channel(pin.port, pin.num) is Some,
        ensures
            final(self).regs() == (AdcRegs {
                adcinch: spec_adc_channel(pin.port, pin.num)->Some_0,
                ..old(self).regs()
            }),
            final(self).is_waiting() == old(self).is_waiting(),
    {
        match adc_channel(pin) {
            Some(ch) => {
                self.adc_reg.adcinch = ch;
            },
            None => {},
        }
    }

    /// One non-blocking read of `pin`. With no conversion under way, starts
    /// one on `pin` and returns `None`. With one under way, returns `None`
    /// while the converter is busy, and its result once it is not.
    pub fn read(&mut self, pin: &GpioPin) -> (r: Option<u16>)
        requires
            spec_adc_channel(pin.port, pin.num) is Some,
        ensures
            old(self).is_waiting() && old(self).regs().adcbusy ==> {
                &&& r is None
                &&& *final(self) == *old(self)
            },
            old(self).is_waiting() && !old(self).regs().adcbusy ==> {
                &&& r == Some(old(self).regs().adcmem0)
                &&& final(self).regs() == old(self).regs()
                &&& !final(self).is_waiting()
            },
            !old(self).is_waiting() ==> {
                &&& r is None
                &&& final(self).is_waiting()
                &&& final(self).regs() == (AdcRegs {
                    adcon: true,
                    adcenc: true,
                    adcsc: true,
                    adcinch: spec_adc_channel(pin.port, pin.num)->Some_0,
                    ..old(self).regs()
                })
            },
    {
        if self.is_waiting {
            if self.adc_is_busy() {
                return None;
            } else {
                self.is_waiting = false;
                return Some(self.adc_get_result());
            }
        }
        self.adc_disable();
        self.adc_set_pin(pin);
        self.adc_enable();
        self.adc_start_conversion();
        self.is_waiting = true;
        None
    }
}

} // verus!

//! SPI bus on an eUSCI.
//!
//! A bus configuration must have a clock selected before it can be applied;
//! the two states are two types. Applying it takes one pin of each role wired
//! to that eUSCI and returns the bus.
use core::marker::PhantomData;
use vstd::prelude::*;

verus! {

/// An eUSCI able to run SPI, with the pin type of each role.
pub trait SpiUsci {
    /// Master in, slave out.
    type MISO;
    /// Master out, slave in.
    type MOSI;
    /// Serial clock.
    type SCLK;
    /// Slave transmit enable.
    type STE;
}

/// eUSCI A0.
pub struct UsciA0;

/// eUSCI A1.
pub struct UsciA1;

/// eUSCI B0.
pub struct UsciB0;

/// eUSCI B1.
pub struct UsciB1;

/// SPI MISO pin for eUSCI A0 (port 1 pin 7).
pub struct UsciA0MISOPin;

/// SPI MOSI pin for eUSCI A0 (port 1 pin 6).
pub struct UsciA0MOSIPin;

/// SPI SCLK pin for eUSCI A0 (port 1 pin 5).
pub struct UsciA0SCLKPin;

/// SPI STE pin for eUSCI A0 (port 1 pin 4).
pub struct UsciA0STEPin;

/// SPI MISO pin for eUSCI A1 (port 4 pin 3).
pub struct UsciA1MISOPin;

/// SPI MOSI pin for eUSCI A1 (port 4 pin 2).
pub struct UsciA1MOSIPin;

/// SPI SCLK pin for eUSCI A1 (port 4 pin 1).
pub struct UsciA1SCLKPin;

/// SPI STE pin for eUSCI A1 (port 4 pin 0).
pub struct UsciA1STEPin;

/// SPI MISO pin for eUSCI B0 (port 1 pin 3).
pub struct UsciB0MISOPin;

/// SPI MOSI pin for eUSCI B0 (port 1 pin 2).
pub struct UsciB0MOSIPin;

/// SPI SCLK pin for eUSCI B0 (port 1 pin 1).
pub struct UsciB0SCLKPin;

/// SPI STE pin for eUSCI B0 (port 1 pin 0).
pub struct UsciB0STEPin;

/// SPI MISO pin for eUSCI B1 (port 4 pin 7).
pub struct UsciB1MISOPin;

/// SPI MOSI pin for eUSCI B1 (port 4 pin 6).
pub struct UsciB1MOSIPin;

/// SPI SCLK pin for eUSCI B1 (port 4 pin 5).
pub struct UsciB1SCLKPin;

/// SPI STE pin for eUSCI B1 (port 4 pin 4).
pub struct UsciB1STEPin;

impl SpiUsci for UsciA0 {
    type MISO = UsciA0MISOPin;
    type MOSI = UsciA0MOSIPin;
    type SCLK = UsciA0SCLKPin;
    type STE = UsciA0STEPin;
}

impl SpiUsci for UsciA1 {
    type MISO = UsciA1MISOPin;
    type MOSI = UsciA1MOSIPin;
    type SCLK = UsciA1SCLKPin;
    type STE = UsciA1STEPin;
}

impl SpiUsci for UsciB0 {
    type MISO = UsciB0MISOPin;
    type MOSI = UsciB0MOSIPin;
    type SCLK = UsciB0SCLKPin;
    type STE = UsciB0STEPin;
}

impl SpiUsci for UsciB1 {
    type MISO = UsciB1MISOPin;
    type MOSI = UsciB1MOSIPin;
    type SCLK = UsciB1SCLKPin;
    type STE = UsciB1STEPin;
}

/// Seals `ClockConfigState`: no other state can be added.
pub trait Sealed {}

/// State of a bus configuration: whether a clock is selected.
pub trait ClockConfigState: Sealed {}

/// A configuration with no clock selected.
pub struct NoClockSet;

/// A configuration with a clock selected.
pub struct ClockSet;

impl Sealed for NoClockSet {}

impl Sealed for ClockSet {}

impl ClockConfigState for NoClockSet {}

impl ClockConfigState for ClockSet {}

/// Clock phase.
#[derive(Clone, Copy, Debug, PartialEq, Eq, Structural)]
pub enum Phase {
    CaptureOnFirstTransition,
    CaptureOnSecondTransition,
}

/// Clock polarity.
#[derive(Clone, Copy, Debug, PartialEq, Eq, Structural)]
pub enum Polarity {
    IdleLow,
    IdleHigh,
}

/// SPI mode: phase and polarity.
#[derive(Clone, Copy, Debug, PartialEq, Eq, Structural)]
pub struct Mode {
    pub polarity: Polarity,
    pub phase: Phase,
}

/// eUSCI mode field.
#[derive(Clone, Copy, Debug, PartialEq, Eq, Structural)]
pub enum Ucmode {
    ThreePinSPI,
    FourPinSPI1,
    FourPinSPI0,
    I2C,
}

/// eUSCI clock source.
#[derive(Clone, Copy, Debug, PartialEq, Eq, Structural)]
pub enum Ucssel {
    Uclk,
    Aclk,
    Smclk,
}

/// Control word 0 of an eUSCI in SPI mode.
#[derive(Clone, Copy, Debug, PartialEq, Eq, Structural)]
pub struct UcxSpiCtw0 {
    pub ucckph: bool,
    pub ucckpl: bool,
    pub ucmsb: bool,
    pub uc7bit: bool,
    pub ucmst: bool,
    pub ucsync: bool,
    pub ucstem: bool,
    pub ucswrst: bool,
    pub ucmode: Ucmode,
    pub ucssel: Ucssel,
}

/// Registers of an eUSCI in SPI mode.
#[derive(Clone, Copy, Debug, PartialEq, Eq, Structural)]
pub struct UsciRegs {
    /// Control word 0.
    pub ctlw0: UcxSpiCtw0,
    /// Held in reset.
    pub swrst: bool,
    /// Bit-rate prescaler.
    pub brw: u16,
    /// Loopback.
    pub uclisten: bool,
    /// Receive interrupt enable.
    pub rxie: bool,
    /// Transmit interrupt enable.
    pub txie: bool,
    /// A byte has been received.
    pub rxifg: bool,
    /// The transmit buffer is empty.
    pub txifg: bool,
    /// Receive buffer.
    pub rxbuf: u8,
    /// Transmit buffer.
    pub txbuf: u8,
}

/// Control word for a master in four-pin SPI mode 0 with clock `ssel`.
pub open spec fn spi_ctlw0(mode: Mode, msb_first: bool, ssel: Ucssel) -> UcxSpiCtw0 {
    UcxSpiCtw0 {
        ucckph: mode.phase == Phase::CaptureOnFirstTransition,
        ucckpl: mode.polarity == Polarity::IdleHigh,
        ucmsb: msb_first,
        uc7bit: false,
        ucmst: true,
        ucsync: true,
        ucstem: true,
        ucswrst: true,
        ucmode: Ucmode::FourPinSPI0,
        ucssel: ssel,
    }
}

/// A bus configuration for eUSCI `USCI` in clock state `STATE`.
pub struct SpiBusConfig<USCI: SpiUsci, STATE: ClockConfigState> {
    usci: UsciRegs,
    prescaler: u16,
    ctlw0: UcxSpiCtw0,
    _usci: PhantomData<USCI>,
    _state: PhantomData<STATE>,
}

impl<USCI: SpiUsci, STATE: ClockConfigState> SpiBusConfig<USCI, STATE> {
    /// The eUSCI registers.
    pub closed spec fn regs(&self) -> UsciRegs {
        self.usci
    }

    /// The clock prescaler.
    pub closed spec fn spec_prescaler(&self) -> u16 {
        self.prescaler
    }

    /// The control word to write.
    pub closed spec fn spec_ctlw0(&self) -> UcxSpiCtw0 {
        self.ctlw0
    }
}

impl<USCI: SpiUsci> SpiBusConfig<USCI, NoClockSet> {
    /// A configuration for a master in four-pin SPI mode with `mode` and bit
    /// order `msb_first`; no clock selected yet.
    pub fn new(usci: UsciRegs, mode: Mode, msb_first: bool) -> (r: Self)
        ensures
            r.regs() == usci,
            r.spec_prescaler() == 0,
            r.spec_ctlw0() == spi_ctlw0(mode, msb_first, Ucssel::Smclk),
    {
        let ctlw0 = UcxSpiCtw0 {
            ucckph: match mode.phase {
                Phase::CaptureOnFirstTransition => true,
                Phase::CaptureOnSecondTransition => false,
            },
            ucckpl: match mode.polarity {
                Polarity::IdleLow => false,
                Polarity::IdleHigh => true,
            },
            ucmsb: msb_first,
            uc7bit: false,
            ucmst: true,
            ucsync: true,
            ucstem: true,
            ucswrst: true,
            ucmode: Ucmode::FourPinSPI0,
            ucssel: Ucssel::Smclk,
        };
        SpiBusConfig {
            usci,
            prescaler: 0,
            ctlw0,
            _usci: PhantomData,
            _state: PhantomData,
        }
    }

    /// Selects SMCLK divided by `clk_divisor`.
    pub fn use_smclk(self, clk_divisor: u16) -> (r: SpiBusConfig<USCI, ClockSet>)
        ensures
            r.regs() == self.regs(),
            r.spec_prescaler() == clk_divisor,
            r.spec_ctlw0() == (UcxSpiCtw0 { ucssel: Ucssel::Smclk, ..self.spec_ctlw0() }),
    {
        let ctlw0 = UcxSpiCtw0 { ucssel: Ucssel::Smclk, ..self.ctlw0 };
        SpiBusConfig {
            usci: self.usci,
            prescaler: clk_divisor,
            ctlw0,
            _usci: PhantomData,
            _state: PhantomData,
        }
    }

    /// Selects ACLK divided by `clk_divisor`.
    pub fn use_aclk(self, clk_divisor: u16) -> (r: SpiBusConfig<USCI, ClockSet>)
        ensures
            r.regs() == self.regs(),
            r.spec_prescaler() == clk_divisor,
            r.spec_ctlw0() == (UcxSpiCtw0 { ucssel: Ucssel::Aclk, ..self.spec_ctlw0() }),
    {
        let ctlw0 = UcxSpiCtw0 { ucssel: Ucssel::Aclk, ..self.ctlw0 };
        SpiBusConfig {
            usci: self.usci,
            prescaler: clk_divisor,
            ctlw0,
            _usci: PhantomData,
            _state: PhantomData,
        }
    }
}

/// eUSCI registers after a configuration with control word `ctlw0` and
/// prescaler `prescaler` has been applied to `regs`.
pub open spec fn configured(regs: UsciRegs, ctlw0: UcxSpiCtw0, prescaler: u16) -> UsciRegs {
    UsciRegs {
        ctlw0,
        swrst: false,
        brw: prescaler,
        uclisten: false,
        rxie: false,
        txie: false,
        ..regs
    }
}

impl<USCI: SpiUsci> SpiBusConfig<USCI, ClockSet> {
    /// Applies the configuration, taking one pin of each role, and returns
    /// the bus.
    pub fn configure(
        &mut self,
        _miso: USCI::MISO,
        _mosi: USCI::MOSI,
        _sclk: USCI::SCLK,
        _cs: USCI::STE,
    ) -> (r: SpiBus<USCI>)
        ensures
            final(self).regs() == configured(
                old(self).regs(),
                old(self).spec_ctlw0(),
                old(self).spec_prescaler(),
            ),
            final(self).spec_ctlw0() == old(self).spec_ctlw0(),
            final(self).spec_prescaler() == old(self).spec_prescaler(),
            r.regs() == final(self).regs(),
    {
        self.configure_hw();
        SpiBus { usci: self.usci, _usci: PhantomData }
    }

    /// Holds the eUSCI in reset, writes the control word and prescaler,
    /// turns loopback off, releases the reset and turns both interrupts off.
    fn configure_hw(&mut self)
        ensures
            final(self).regs() == configured(
                old(self).regs(),
                old(self).spec_ctlw0(),
                old(self).spec_prescaler(),
            ),
            final(self).spec_ctlw0() == old(self).spec_ctlw0(),
            final(self).spec_prescaler() == old(self).spec_prescaler(),
    {
        self.usci.swrst = true;
        self.usci.ctlw0 = self.ctlw0;
        self.usci.brw = self.prescaler;
        self.usci.uclisten = false;
        self.usci.swrst = false;
        self.usci.txie = false;
        self.usci.rxie = false;
    }
}

/// A configured SPI bus.
pub struct SpiBus<USCI: SpiUsci> {
    usci: UsciRegs,
    _usci: PhantomData<USCI>,
}

/// SPI transmit/receive errors.
#[derive(Clone, Copy, Debug, PartialEq, Eq, Structural)]
pub enum SPIErr {
    /// Function not implemented.
    Unimplemented,
}

impl<USCI: SpiUsci> SpiBus<USCI> {
    /// The eUSCI registers.
    pub closed spec fn regs(&self) -> UsciRegs {
        self.usci
    }

    /// The registers, as the hardware should hold them.
    pub fn registers(&self) -> (r: UsciRegs)
        ensures
            r == self.regs(),
    {
        self.usci
    }

    /// Takes in what the hardware reports: both flags and the receive buffer.
    pub fn update_status(&mut self, rxifg: bool, txifg: bool, rxbuf: u8)
        ensures
            final(self).regs() == (UsciRegs { rxifg, txifg, rxbuf, ..old(self).regs() }),
    {
        self.usci.rxifg = rxifg;
        self.usci.txifg = txifg;
        self.usci.rxbuf = rxbuf;
    }

    /// Enables the receive interrupt.
    pub fn set_rx_interrupt(&mut self)
        ensures
            final(self).regs() == (UsciRegs { rxie: true, ..old(self).regs() }),
    {
        self.usci.rxie = true;
    }

    /// Disables the receive interrupt.
    pub fn clear_rx_interrupt(&mut self)
        ensures
            final(self).regs() == (UsciRegs { rxie: false, ..old(self).regs() }),
    {
        self.usci.rxie = false;
    }

    /// Enables the transmit interrupt.
    pub fn set_tx_interrupt(&mut self)
        ensures
            final(self).regs() == (UsciRegs { txie: true, ..old(self).regs() }),
    {
        self.usci.txie = true;
    }

    /// Disables the transmit interrupt.
    pub fn clear_tx_interrupt(&mut self)
        ensures
            final(self).regs() == (UsciRegs { txie: false, ..old(self).regs() }),
    {
        self.usci.txie = false;
    }

    /// Writes `val` to the transmit buffer without looking whether it is
    /// empty; unsent data may be lost.
    pub fn write_no_check(&mut self, val: u8)
        ensures
            final(self).regs() == (UsciRegs { txbuf: val, ..old(self).regs() }),
    {
        self.usci.txbuf = val;
    }

    /// Reads the receive buffer without looking whether a byte arrived.
    pub fn read_no_check(&mut self) -> (r: u8)
        ensures
            r == old(self).regs().rxbuf,
            *final(self) == *old(self),
    {
        self.usci.rxbuf
    }

    /// The received byte if one has arrived, else `None` (try again).
    pub fn read(&mut self) -> (r: Option<u8>)
        ensures
            r == if old(self).regs().rxifg {
                Some(old(self).regs().rxbuf)
            } else {
                None
            },
            *final(self) == *old(self),
    {
        if self.usci.rxifg {
            Some(self.usci.rxbuf)
        } else {
            None
        }
    }

    /// Puts `word` in the transmit buffer if it is empty and returns `true`;
    /// else changes nothing and returns `false` (try again).
    pub fn send(&mut self, word: u8) -> (r: bool)
        ensures
            r == old(self).regs().txifg,
            final(self).regs() == if r {
                UsciRegs { txbuf: word, ..old(self).regs() }
            } else {
                old(self).regs()
            },
    {
        if self.usci.txifg {
            self.usci.txbuf = word;
            true
        } else {
            false
        }
    }
}

} // verus!

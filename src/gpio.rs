//! Pin function selection.
//!
//! Each pin of ports 1 to 6 has two select bits. With both clear the pin is
//! plain digital I/O; with one set it is driven by a peripheral.
use vstd::prelude::*;

verus! {

/// Number of ports.
pub const PORTS: u8 = 6;

/// Pins per port.
pub const PINS_PER_PORT: u8 = 8;

/// Which alternate function a pin is switched to.
#[derive(Clone, Copy, Debug, PartialEq, Eq, Structural)]
pub enum Alt {
    Alt1,
    Alt2,
}

/// The two select bits of one pin.
#[derive(Clone, Copy, Debug, PartialEq, Eq, Structural)]
pub struct PinSel {
    pub sel0: bool,
    pub sel1: bool,
}

/// Select bits of a pin in plain digital I/O.
pub open spec fn gpio_sel() -> PinSel {
    PinSel { sel0: false, sel1: false }
}

/// Select bits of a pin switched to alternate function `alt`.
pub open spec fn alt_sel(alt: Alt) -> PinSel {
    match alt {
        Alt::Alt1 => PinSel { sel0: true, sel1: false },
        Alt::Alt2 => PinSel { sel0: false, sel1: true },
    }
}

/// Ownership of one pin, `num` of port `port`.
pub struct GpioPin {
    pub port: u8,
    pub num: u8,
}

impl GpioPin {
    /// The pin exists.
    pub open spec fn wf(&self) -> bool {
        1 <= self.port <= PORTS && self.num < PINS_PER_PORT
    }

    /// Position of the pin among all pins.
    pub open spec fn index(&self) -> int {
        pin_index(self.port, self.num)
    }
}

/// Position of pin `num` of port `port` among all pins.
pub open spec fn pin_index(port: u8, num: u8) -> int {
    (port - 1) * PINS_PER_PORT + num
}

/// Position of `pin` among all pins, as an index.
fn pin_offset(pin: &GpioPin) -> (r: usize)
    requires
        pin.wf(),
    ensures
        r == pin.index(),
        r < PORTS * PINS_PER_PORT,
{
    let p: usize = (pin.port - 1) as usize;
    assert(p * 8 + pin.num < 48) by (nonlinear_arith)
        requires
            p < 6,
            pin.num < 8,
    ;
    p * 8 + (pin.num as usize)
}

/// Select registers of all ports.
pub struct PortRegs {
    /// One entry per pin, port 1 pin 0 first.
    pub pins: Vec<PinSel>,
}

impl PortRegs {
    /// One entry for each pin of each port.
    pub open spec fn wf(&self) -> bool {
        self.pins@.len() == PORTS * PINS_PER_PORT
    }

    /// Every pin in plain digital I/O.
    pub fn new() -> (r: PortRegs)
        ensures
            r.wf(),
            forall|i: int| 0 <= i < r.pins@.len() ==> r.pins@[i] == gpio_sel(),
    {
        let n: usize = (PORTS as usize) * (PINS_PER_PORT as usize);
        let mut pins: Vec<PinSel> = Vec::new();
        let mut i: usize = 0;
        while i < n
            invariant
                i <= n,
                n == PORTS * PINS_PER_PORT,
                pins@.len() == i,
                forall|j: int| 0 <= j < i ==> pins@[j] == gpio_sel(),
            decreases n - i,
        {
            pins.push(PinSel { sel0: false, sel1: false });
            i = i + 1;
        }
        PortRegs { pins }
    }

    /// Select bits of `pin`.
    pub fn sel(&self, pin: &GpioPin) -> (r: PinSel)
        requires
            self.wf(),
            pin.wf(),
        ensures
            r == self.pins@[pin.index()],
    {
        let i: usize = pin_offset(pin);
        self.pins[i]
    }

    /// Writes the select bits of `pin`, leaving every other pin alone.
    pub fn set_sel(&mut self, pin: &GpioPin, s: PinSel)
        requires
            old(self).wf(),
            pin.wf(),
        ensures
            final(self).pins@ == old(self).pins@.update(pin.index(), s),
    {
        let i: usize = pin_offset(pin);
        self.pins[i] = s;
    }
}

} // verus!

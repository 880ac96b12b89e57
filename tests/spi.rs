use msp430_pwm::spi::{
    Mode, Phase, Polarity, SpiBusConfig, UcxSpiCtw0, Ucmode, Ucssel, UsciA0, UsciA0MISOPin,
    UsciA0MOSIPin, UsciA0SCLKPin, UsciA0STEPin, UsciB1, UsciB1MISOPin, UsciB1MOSIPin,
    UsciB1SCLKPin, UsciB1STEPin, UsciRegs,
};

fn regs() -> UsciRegs {
    UsciRegs {
        ctlw0: UcxSpiCtw0 {
            ucckph: false,
            ucckpl: false,
            ucmsb: false,
            uc7bit: false,
            ucmst: false,
            ucsync: false,
            ucstem: false,
            ucswrst: true,
            ucmode: Ucmode::ThreePinSPI,
            ucssel: Ucssel::Uclk,
        },
        swrst: true,
        brw: 0,
        uclisten: true,
        rxie: true,
        txie: true,
        rxifg: false,
        txifg: false,
        rxbuf: 0,
        txbuf: 0,
    }
}

#[test]
fn configure_writes_control_word() {
    let mode = Mode { polarity: Polarity::IdleHigh, phase: Phase::CaptureOnFirstTransition };
    let cfg = SpiBusConfig::<UsciA0, _>::new(regs(), mode, true);
    let mut cfg = cfg.use_aclk(16);
    let bus = cfg.configure(UsciA0MISOPin, UsciA0MOSIPin, UsciA0SCLKPin, UsciA0STEPin);
    let r = bus.registers();
    assert!(r.ctlw0.ucckph);
    assert!(r.ctlw0.ucckpl);
    assert!(r.ctlw0.ucmsb);
    assert!(r.ctlw0.ucmst && r.ctlw0.ucsync && r.ctlw0.ucstem);
    assert_eq!(r.ctlw0.ucmode, Ucmode::FourPinSPI0);
    assert_eq!(r.ctlw0.ucssel, Ucssel::Aclk);
    assert_eq!(r.brw, 16);
    assert!(!r.swrst && !r.uclisten && !r.rxie && !r.txie);
}

#[test]
fn smclk_mode_zero_lsb_first() {
    let mode = Mode { polarity: Polarity::IdleLow, phase: Phase::CaptureOnSecondTransition };
    let mut cfg = SpiBusConfig::<UsciB1, _>::new(regs(), mode, false).use_smclk(3);
    let bus = cfg.configure(UsciB1MISOPin, UsciB1MOSIPin, UsciB1SCLKPin, UsciB1STEPin);
    let r = bus.registers();
    assert!(!r.ctlw0.ucckph && !r.ctlw0.ucckpl && !r.ctlw0.ucmsb);
    assert_eq!(r.ctlw0.ucssel, Ucssel::Smclk);
    assert_eq!(r.brw, 3);
}

#[test]
fn read_and_send_wait_for_flags() {
    let mode = Mode { polarity: Polarity::IdleLow, phase: Phase::CaptureOnFirstTransition };
    let mut cfg = SpiBusConfig::<UsciA0, _>::new(regs(), mode, true).use_smclk(1);
    let mut bus = cfg.configure(UsciA0MISOPin, UsciA0MOSIPin, UsciA0SCLKPin, UsciA0STEPin);
    assert_eq!(bus.read(), None);
    assert!(!bus.send(0x55));
    assert_eq!(bus.registers().txbuf, 0);
    bus.update_status(true, true, 0xA5);
    assert_eq!(bus.read(), Some(0xA5));
    assert!(bus.send(0x55));
    assert_eq!(bus.registers().txbuf, 0x55);
    assert_eq!(bus.read_no_check(), 0xA5);
    bus.write_no_check(7);
    assert_eq!(bus.registers().txbuf, 7);
}

#[test]
fn interrupt_enables() {
    let mode = Mode { polarity: Polarity::IdleLow, phase: Phase::CaptureOnFirstTransition };
    let mut cfg = SpiBusConfig::<UsciB1, _>::new(regs(), mode, true).use_aclk(2);
    let mut bus = cfg.configure(UsciB1MISOPin, UsciB1MOSIPin, UsciB1SCLKPin, UsciB1STEPin);
    bus.set_rx_interrupt();
    bus.set_tx_interrupt();
    assert!(bus.registers().rxie && bus.registers().txie);
    bus.clear_rx_interrupt();
    assert!(!bus.registers().rxie && bus.registers().txie);
    bus.clear_tx_interrupt();
    assert!(!bus.registers().txie);
}

use msp430_pwm::gpio::{Alt, GpioPin, PinSel, PortRegs};
use msp430_pwm::pwm::{
    asserted_per_period, output_level, pwm_pin, to_pwm, PwmPins, SevenCCRnPins, ThreeCCRnPins,
    TimerConfig,
};
use msp430_pwm::timerb::{CountMode, Outmod, Tbidex, Tbssel, TimerInstance, TimerRegs, ID};

fn smclk() -> TimerConfig {
    TimerConfig::new(Tbssel::Smclk, ID::_1, Tbidex::_1)
}

fn three(pins: PwmPins) -> ThreeCCRnPins {
    match pins {
        PwmPins::Three(p) => p,
        PwmPins::Seven(_) => panic!("expected three channels"),
    }
}

fn seven(pins: PwmPins) -> SevenCCRnPins {
    match pins {
        PwmPins::Seven(p) => p,
        PwmPins::Three(_) => panic!("expected seven channels"),
    }
}

fn idx(port: u8, num: u8) -> usize {
    (port as usize - 1) * 8 + num as usize
}

#[test]
fn scenario_three_channel_period_1000() {
    let mut timer = TimerRegs::new(TimerInstance::Tb0);
    let mut gpio = PortRegs::new();
    let pins = three(to_pwm(&mut timer, &smclk(), 1000));
    let mut pwm1 = pins.pwm1.init(GpioPin { port: 1, num: 6 }, &mut gpio);
    pwm1.set_duty(&mut timer, 250);
    assert_eq!(pwm1.get_duty(&timer), 250);
    assert_eq!(pwm1.get_max_duty(&timer), 1000);
    pwm1.enable(&mut gpio);
    pwm1.disable(&mut gpio);
    assert_eq!(pwm1.get_duty(&timer), 250);
}

#[test]
fn duty_above_period_is_always_asserted() {
    let mut timer = TimerRegs::new(TimerInstance::Tb1);
    let mut gpio = PortRegs::new();
    let pins = three(to_pwm(&mut timer, &smclk(), 1000));
    let mut pwm2 = pins.pwm2.init(GpioPin { port: 2, num: 1 }, &mut gpio);
    pwm2.set_duty(&mut timer, 1500);
    assert_eq!(pwm2.get_duty(&timer), 1500);
    let period = pwm2.get_max_duty(&timer);
    assert_eq!(asserted_per_period(period, pwm2.get_duty(&timer)), 1000);
    for t in 0..period {
        assert!(output_level(1500, t));
    }
}

#[test]
fn duty_fraction_of_period() {
    assert_eq!(asserted_per_period(1000, 250), 250);
    assert_eq!(asserted_per_period(1000, 1000), 1000);
    assert_eq!(asserted_per_period(1000, 0), 0);
    assert_eq!(asserted_per_period(1, 65535), 1);
    let high = (0..1000u16).filter(|t| output_level(250, *t)).count();
    assert_eq!(high, 250);
    assert!(output_level(250, 249));
    assert!(!output_level(250, 250));
}

#[test]
fn binding_switches_only_designated_pin() {
    let mut timer = TimerRegs::new(TimerInstance::Tb0);
    let mut gpio = PortRegs::new();
    let before = gpio.pins.clone();
    let pins = three(to_pwm(&mut timer, &smclk(), 100));
    let _pwm = pins.pwm2.init(GpioPin { port: 1, num: 7 }, &mut gpio);
    for i in 0..gpio.pins.len() {
        if i == idx(1, 7) {
            assert_eq!(gpio.pins[i], PinSel { sel0: false, sel1: true });
        } else {
            assert_eq!(gpio.pins[i], before[i]);
        }
    }
}

#[test]
fn binding_table_for_every_channel() {
    let expected = [
        (TimerInstance::Tb0, 1usize, 1u8, 6u8, Alt::Alt2),
        (TimerInstance::Tb0, 2, 1, 7, Alt::Alt2),
        (TimerInstance::Tb1, 1, 2, 0, Alt::Alt1),
        (TimerInstance::Tb1, 2, 2, 1, Alt::Alt1),
        (TimerInstance::Tb2, 1, 5, 0, Alt::Alt1),
        (TimerInstance::Tb2, 2, 5, 1, Alt::Alt1),
        (TimerInstance::Tb3, 1, 6, 0, Alt::Alt1),
        (TimerInstance::Tb3, 2, 6, 1, Alt::Alt1),
        (TimerInstance::Tb3, 3, 6, 2, Alt::Alt1),
        (TimerInstance::Tb3, 4, 6, 3, Alt::Alt1),
        (TimerInstance::Tb3, 5, 6, 4, Alt::Alt1),
        (TimerInstance::Tb3, 6, 6, 5, Alt::Alt1),
    ];
    for (t, ch, port, num, alt) in expected {
        let id = pwm_pin(t, ch);
        assert_eq!((id.port, id.num, id.alt), (port, num, alt));
    }
}

#[test]
fn seven_channel_timer_binds_all_six() {
    let mut timer = TimerRegs::new(TimerInstance::Tb3);
    let mut gpio = PortRegs::new();
    let p = seven(to_pwm(&mut timer, &smclk(), 500));
    let mut c1 = p.pwm1.init(GpioPin { port: 6, num: 0 }, &mut gpio);
    let mut c6 = p.pwm6.init(GpioPin { port: 6, num: 5 }, &mut gpio);
    let c3 = p.pwm3.init(GpioPin { port: 6, num: 2 }, &mut gpio);
    c1.set_duty(&mut timer, 10);
    c6.set_duty(&mut timer, 60);
    assert_eq!(c1.get_duty(&timer), 10);
    assert_eq!(c6.get_duty(&timer), 60);
    assert_eq!(c3.get_duty(&timer), 0);
    assert_eq!(c3.get_max_duty(&timer), 500);
    for n in [0u8, 2, 5] {
        assert_eq!(gpio.pins[idx(6, n)], PinSel { sel0: true, sel1: false });
    }
    assert_eq!(gpio.pins[idx(6, 1)], PinSel { sel0: false, sel1: false });
}

#[test]
fn max_duty_shared_by_all_channels() {
    let mut timer = TimerRegs::new(TimerInstance::Tb2);
    let mut gpio = PortRegs::new();
    let p = three(to_pwm(&mut timer, &smclk(), 777));
    let mut a = p.pwm1.init(GpioPin { port: 5, num: 0 }, &mut gpio);
    let mut b = p.pwm2.init(GpioPin { port: 5, num: 1 }, &mut gpio);
    a.set_duty(&mut timer, 100);
    b.set_duty(&mut timer, 900);
    a.set_duty(&mut timer, 0);
    assert_eq!(a.get_max_duty(&timer), 777);
    assert_eq!(b.get_max_duty(&timer), 777);
    timer.set_ccrn(0, 321);
    assert_eq!(a.get_max_duty(&timer), 321);
    assert_eq!(b.get_max_duty(&timer), 321);
}

#[test]
fn duty_round_trip_while_disabled() {
    let mut timer = TimerRegs::new(TimerInstance::Tb0);
    let mut gpio = PortRegs::new();
    let p = three(to_pwm(&mut timer, &smclk(), 1000));
    let mut c = p.pwm1.init(GpioPin { port: 1, num: 6 }, &mut gpio);
    c.disable(&mut gpio);
    assert_eq!(gpio.pins[idx(1, 6)], PinSel { sel0: false, sel1: false });
    c.set_duty(&mut timer, 42);
    assert_eq!(c.get_duty(&timer), 42);
    c.enable(&mut gpio);
    assert_eq!(gpio.pins[idx(1, 6)], PinSel { sel0: false, sel1: true });
    assert_eq!(c.get_duty(&timer), 42);
    c.set_duty(&mut timer, u16::MAX);
    assert_eq!(c.get_duty(&timer), u16::MAX);
}

#[test]
fn disable_then_enable_restores_pins() {
    let mut timer = TimerRegs::new(TimerInstance::Tb1);
    let mut gpio = PortRegs::new();
    let p = three(to_pwm(&mut timer, &smclk(), 1000));
    let mut c = p.pwm1.init(GpioPin { port: 2, num: 0 }, &mut gpio);
    c.set_duty(&mut timer, 300);
    let before = gpio.pins.clone();
    c.disable(&mut gpio);
    c.enable(&mut gpio);
    assert_eq!(gpio.pins, before);
    assert_eq!(c.get_duty(&timer), 300);
}

#[test]
fn to_pwm_programs_timer() {
    let mut timer = TimerRegs::new(TimerInstance::Tb3);
    timer.set_ccrn(4, 99);
    timer.counter = 1234;
    let cfg = TimerConfig::new(Tbssel::Aclk, ID::_4, Tbidex::_3);
    let _ = to_pwm(&mut timer, &cfg, 2000);
    assert_eq!(timer.tbssel, Tbssel::Aclk);
    assert_eq!(timer.id, ID::_4);
    assert_eq!(timer.tbidex, Tbidex::_3);
    assert_eq!(timer.mc, CountMode::Up);
    assert_eq!(timer.counter, 0);
    assert!(!timer.tbifg);
    assert_eq!(timer.ccrs.len(), 7);
    assert_eq!(timer.ccrs[0].ccr, 2000);
    assert_eq!(timer.ccrs[0].outmod, Outmod::Toggle);
    for i in 1..7 {
        assert_eq!(timer.ccrs[i].outmod, Outmod::ResetSet);
        assert!(!timer.ccrs[i].capture);
    }
    assert_eq!(timer.ccrs[4].ccr, 99);
}

#[test]
fn to_pwm_three_channel_timers() {
    for t in [TimerInstance::Tb0, TimerInstance::Tb1, TimerInstance::Tb2] {
        let mut timer = TimerRegs::new(t);
        let pins = to_pwm(&mut timer, &smclk(), 1);
        assert!(matches!(pins, PwmPins::Three(_)));
        assert_eq!(timer.ccrs.len(), 3);
        assert_eq!(timer.ccrs[0].ccr, 1);
    }
}

use msp430_pwm::adc::{
    adc_channel, Adc, AdcConfig, AdcRegs, ClockDivider, ClockSource, Predivider, Resolution,
    SampleTime, SamplingRate,
};
use msp430_pwm::gpio::GpioPin;

fn blank() -> AdcRegs {
    AdcRegs {
        adcon: true,
        adcenc: true,
        adcsc: false,
        adcsht: 0,
        adcssel: 0,
        adcshp: false,
        adcdiv: 0,
        adcpdiv: 0,
        adcres: 0,
        adcsr: false,
        adcinch: 0,
        adcbusy: false,
        adcmem0: 0,
    }
}

#[test]
fn field_encodings() {
    assert_eq!(SampleTime::_4.adcsht(), 0);
    assert_eq!(SampleTime::_96.adcsht(), 5);
    assert_eq!(SampleTime::_192.adcsht(), 7);
    assert_eq!(SampleTime::_1024.adcsht(), 12);
    assert_eq!(ClockDivider::_1.adcdiv(), 0);
    assert_eq!(ClockDivider::_8.adcdiv(), 7);
    assert_eq!(ClockSource::MODCLK.adcssel(), 0);
    assert_eq!(ClockSource::ACLK.adcssel(), 1);
    assert_eq!(ClockSource::SMCLK.adcssel(), 2);
    assert_eq!(Predivider::_1.adcpdiv(), 0);
    assert_eq!(Predivider::_4.adcpdiv(), 1);
    assert_eq!(Predivider::_64.adcpdiv(), 2);
    assert_eq!(Resolution::_8BIT.adcres(), 0);
    assert_eq!(Resolution::_12BIT.adcres(), 2);
    assert!(SamplingRate::_50KSPS.adcsr());
    assert!(!SamplingRate::_200KSPS.adcsr());
}

#[test]
fn adc_pin_channels() {
    assert_eq!(adc_channel(&GpioPin { port: 1, num: 0 }), Some(0));
    assert_eq!(adc_channel(&GpioPin { port: 1, num: 7 }), Some(7));
    assert_eq!(adc_channel(&GpioPin { port: 5, num: 3 }), Some(11));
    assert_eq!(adc_channel(&GpioPin { port: 5, num: 4 }), None);
    assert_eq!(adc_channel(&GpioPin { port: 2, num: 0 }), None);
}

#[test]
fn config_writes_fields_and_turns_off() {
    let cfg = AdcConfig::new(
        ClockSource::SMCLK,
        ClockDivider::_3,
        Predivider::_64,
        Resolution::_10BIT,
        SamplingRate::_50KSPS,
        SampleTime::_16,
    );
    let adc = cfg.config_hw(blank());
    let r = adc.registers();
    assert!(!r.adcon && !r.adcenc && !r.adcsc);
    assert_eq!(r.adcsht, 2);
    assert_eq!(r.adcssel, 2);
    assert!(r.adcshp);
    assert_eq!(r.adcdiv, 2);
    assert_eq!(r.adcpdiv, 2);
    assert_eq!(r.adcres, 1);
    assert!(r.adcsr);
}

#[test]
fn read_starts_then_waits_then_returns() {
    let mut adc = Adc::new(blank());
    let pin = GpioPin { port: 5, num: 1 };
    assert_eq!(adc.read(&pin), None);
    let r = adc.registers();
    assert!(r.adcon && r.adcenc && r.adcsc);
    assert_eq!(r.adcinch, 9);
    adc.update_status(true, 0);
    assert_eq!(adc.read(&pin), None);
    adc.update_status(false, 0x0ABC);
    assert_eq!(adc.read(&pin), Some(0x0ABC));
    assert_eq!(adc.read(&pin), None);
}

#[test]
fn enable_disable_and_start() {
    let mut adc = Adc::new(blank());
    adc.adc_disable();
    assert!(!adc.registers().adcon && !adc.registers().adcenc);
    adc.adc_enable();
    assert!(adc.registers().adcon);
    adc.adc_start_conversion();
    assert!(adc.registers().adcenc && adc.registers().adcsc);
    adc.adc_set_pin(&GpioPin { port: 1, num: 4 });
    assert_eq!(adc.registers().adcinch, 4);
    adc.update_status(true, 5);
    assert!(adc.adc_is_busy());
    assert_eq!(adc.adc_get_result(), 5);
}

//! Timer_B PWM driver for the MSP430FR2355, with verified register models of
//! the timers, the pin select registers, the ADC and the eUSCI in SPI mode.
pub mod adc;
pub mod gpio;
pub mod pwm;
pub mod spi;
pub mod timerb;

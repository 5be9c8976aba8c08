//! Board support logic for the Teensy 4: the ISO-TP transport over CAN,
//! the bounds rules of the emulated EEPROM, and the pad multiplexer
//! register of pad GPIO_B1_04.

pub mod eeprom;
pub mod isotp;
pub mod sw_mux_ctl_pad_gpio_b1_04;

//! LinTx transmitter-side logic: stick calibration and channel mixing with
//! the AUX channel map, the STM32 serial frame protocol, RC button to UI
//! event mapping, USB HID gamepad reports and the gamepad controller, the UI
//! pages (control, ELRS, AUX map, USB pad, about) and the on-screen keyboard
//! overlay.

pub mod config;
pub mod control;
pub mod input;
pub mod messages;
pub mod output;
pub mod stm32_serial;
pub mod ui;
pub mod usb_gamepad;

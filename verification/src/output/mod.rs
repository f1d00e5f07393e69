pub mod usb_gamepad;

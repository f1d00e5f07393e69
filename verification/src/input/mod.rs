pub mod calibrate;
pub mod rc_button;

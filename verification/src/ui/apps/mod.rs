//! The UI pages: how each reacts to input and what it shows.

use vstd::prelude::*;

use crate::ui::model::AppId;

pub mod about;
pub mod control;
pub mod scripts;
pub mod trainer;
pub mod usb_gamepad;

verus! {

/// How a page appears in the launcher: its id, title, icon text and accent
/// colour (red, green, blue).
#[derive(Debug, Clone, Copy, PartialEq, Eq)]
pub struct AppSpec {
    pub id: AppId,
    pub title: &'static str,
    pub icon_text: &'static str,
    pub accent: (u8, u8, u8),
}

} // verus!

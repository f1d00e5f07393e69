//! The ABOUT page: product, team and version.

use vstd::prelude::*;

use crate::ui::apps::AppSpec;
use crate::ui::input::UiInputEvent;
use crate::ui::model::{AppId, UiFrame};

verus! {

/// The ABOUT page in the launcher.
pub fn app_spec() -> (res: AppSpec)
    ensures
        res.id == AppId::About,
        res.title@ == "ABOUT"@,
        res.icon_text@ == "ABT"@,
        res.accent == (160u8, 196u8, 255u8),
{
    AppSpec { id: AppId::About, title: "ABOUT", icon_text: "ABT", accent: (160, 196, 255) }
}

/// The ABOUT page module; it ignores input.
pub struct AboutApp;

/// The text of the ABOUT page.
pub open spec fn about_text() -> Seq<char> {
    "LinTx\n\nTeam: HumpbackLab\nProduct: LinTx\nVersion: 0.0.1 preview\n\nEsc Back"@
}

impl AboutApp {
    /// The ABOUT page ignores input.
    pub fn on_event(&self, frame: &mut UiFrame, event: UiInputEvent)
        ensures
            *final(frame) == *old(frame),
    {
    }

    /// The ABOUT page's text: product, team and version, whatever the frame.
    pub fn render_terminal_detail(&self, frame: &UiFrame) -> (res: String)
        ensures
            res@ == about_text(),
    {
        "LinTx\n\nTeam: HumpbackLab\nProduct: LinTx\nVersion: 0.0.1 preview\n\nEsc Back".to_owned()
    }
}

} // verus!

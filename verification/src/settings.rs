//! The settings of the application.

use vstd::prelude::*;

verus! {

#[derive(Debug, Clone, Copy, PartialEq, Eq, Structural)]
pub enum PreferredImageFormat {
    Original,
    Png,
    Jpeg,
}

#[derive(Debug, Clone, Copy, PartialEq, Eq, Structural)]
pub enum Theme {
    System,
    Dark,
    Light,
}

#[derive(Debug, Clone, Copy, PartialEq, Eq, Structural)]
pub struct Settings {
    pub preferred_image_format: PreferredImageFormat,
    pub theme: Theme,
}

impl Default for Settings {
    /// Images as they come, and the theme of the system.
    fn default() -> (settings: Self)
        ensures
            settings.preferred_image_format == PreferredImageFormat::Original,
            settings.theme == Theme::System,
    {
        Settings { preferred_image_format: PreferredImageFormat::Original, theme: Theme::System }
    }
}

} // verus!

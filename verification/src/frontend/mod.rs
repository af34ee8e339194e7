//! State of the presentation layer that is plain data: which page is
//! shown, and what a modal holds.

use vstd::prelude::*;

pub mod modals;

verus! {

/// A page of the application.
#[derive(Debug, Clone)]
pub enum ClientFrontendPage {
    LandingPage,
    TimelinePage,
    FeedPage(String),
    ProfilePage(String),
    SettingsPage,
}

/// The modal that is open.
#[derive(Debug)]
pub enum ClientFrontendModalVariant {
    LoginModal(modals::LoginModal),
    ImportantErrorModal(modals::ImportantErrorModal),
    DeceptiveLink(modals::DeceptiveLinkModal),
}

/// What a view tells the stack of views that draws it.
#[derive(Debug, Clone)]
pub struct ViewStackReturnInfo {
    /// The title to draw for the view.
    pub title: Option<String>,
    /// Draw a back button, and go back when it is used.
    pub render_back_button: bool,
    /// Go back on the usual input even where no back button is drawn.
    pub handle_back_logic: bool,
    /// The view has a back button of its own, and it was used.
    pub force_back: bool,
}

} // verus!

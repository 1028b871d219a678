//! Window configuration of the Rock 3D application.

use vstd::prelude::*;
use crate::backend::BackendKind;

verus! {

broadcast use vstd::string::group_string_axioms;

/// Default window title.
pub open spec fn spec_default_title() -> Seq<char> {
    "Rock 3D — Competitive Stone Throwing"@
}

/// What the application window is opened with.
pub struct AppConfigView {
    pub title: Seq<char>,
    pub width: u32,
    pub height: u32,
    pub backend: BackendKind,
}

/// Window title, size and graphics backend of the game.
pub struct Rock3DApp {
    title: String,
    width: u32,
    height: u32,
    backend: BackendKind,
}

impl View for Rock3DApp {
    type V = AppConfigView;

    closed spec fn view(&self) -> AppConfigView {
        AppConfigView {
            title: self.title@,
            width: self.width,
            height: self.height,
            backend: self.backend,
        }
    }
}

impl Rock3DApp {
    /// The default configuration, 1280×720, on `backend` (the caller reads the
    /// backend setting, see `BackendKind::from_env_value`).
    pub fn new(backend: BackendKind) -> (a: Self)
        ensures
            a@ == (AppConfigView {
                title: spec_default_title(),
                width: 1280,
                height: 720,
                backend,
            }),
    {
        Self {
            title: "Rock 3D — Competitive Stone Throwing".to_string(),
            width: 1280,
            height: 720,
            backend,
        }
    }

    /// The same configuration with another title.
    pub fn with_title(self, title: String) -> (a: Self)
        ensures
            a@ == (AppConfigView { title: title@, ..self@ }),
    {
        let mut s = self;
        s.title = title;
        s
    }

    /// The same configuration with another window size.
    pub fn with_size(self, w: u32, h: u32) -> (a: Self)
        ensures
            a@ == (AppConfigView { width: w, height: h, ..self@ }),
    {
        let mut s = self;
        s.width = w;
        s.height = h;
        s
    }

    /// The window title.
    pub fn title(&self) -> (t: &str)
        ensures
            t@ == self@.title,
    {
        self.title.as_str()
    }

    /// The window width.
    pub fn width(&self) -> (w: u32)
        ensures
            w == self@.width,
    {
        self.width
    }

    /// The window height.
    pub fn height(&self) -> (h: u32)
        ensures
            h == self@.height,
    {
        self.height
    }

    /// The graphics backend.
    pub fn backend(&self) -> (b: BackendKind)
        ensures
            b == self@.backend,
    {
        self.backend
    }
}

} // verus!

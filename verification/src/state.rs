//! Screen state: which screen is active, and what each screen remembers
//! between renders.

use vstd::prelude::*;
use crate::buttons::ArrowKeys;
use crate::scene::ButtonId;
use crate::Screen;

verus! {

/// The value of a [`ScreenState`].
pub struct ScreenModel {
    pub active: Screen,
    pub demo_hovered: bool,
    pub blog_hovered: bool,
    pub contact_hovered: bool,
    pub last_key: Option<ArrowKeys>,
    /// Every direction key pressed on the demo screen, newest last.
    pub history: Seq<ArrowKeys>,
}

impl ScreenModel {
    /// The state at launch: the startup screen, nothing hovered, no key seen.
    pub open spec fn initial() -> ScreenModel {
        ScreenModel {
            active: Screen::Startup,
            demo_hovered: false,
            blog_hovered: false,
            contact_hovered: false,
            last_key: None,
            history: Seq::empty(),
        }
    }

    /// The hover flag of the button `id`.
    pub open spec fn hovered(self, id: ButtonId) -> bool {
        match id {
            ButtonId::Demo => self.demo_hovered,
            ButtonId::Blog => self.blog_hovered,
            ButtonId::Contact => self.contact_hovered,
        }
    }

    /// The state with `screen` active; what the screens remember stays.
    pub open spec fn activated(self, screen: Screen) -> ScreenModel {
        ScreenModel { active: screen, ..self }
    }

    /// The state with the hover flag of `id` set to `hovered`.
    pub open spec fn with_hover(self, id: ButtonId, hovered: bool) -> ScreenModel {
        match id {
            ButtonId::Demo => ScreenModel { demo_hovered: hovered, ..self },
            ButtonId::Blog => ScreenModel { blog_hovered: hovered, ..self },
            ButtonId::Contact => ScreenModel { contact_hovered: hovered, ..self },
        }
    }

    /// The state after the direction key `key`: it is the last key, and the
    /// newest entry of the history.
    pub open spec fn pressed(self, key: ArrowKeys) -> ScreenModel {
        ScreenModel { last_key: Some(key), history: self.history.push(key), ..self }
    }
}

/// Which screen is active, the home screen's hover flags, and the demo
/// screen's last key and key history. A screen's fields outlive its being
/// active: nothing but the calls that name them changes them.
#[derive(Debug, Clone, PartialEq, Eq)]
pub struct ScreenState {
    active: Screen,
    demo_hovered: bool,
    blog_hovered: bool,
    contact_hovered: bool,
    last_key: Option<ArrowKeys>,
    history: Vec<ArrowKeys>,
}

impl View for ScreenState {
    type V = ScreenModel;

    closed spec fn view(&self) -> ScreenModel {
        ScreenModel {
            active: self.active,
            demo_hovered: self.demo_hovered,
            blog_hovered: self.blog_hovered,
            contact_hovered: self.contact_hovered,
            last_key: self.last_key,
            history: self.history@,
        }
    }
}

impl ScreenState {
    /// The state at launch.
    pub fn new() -> (state: ScreenState)
        ensures
            state@ == ScreenModel::initial(),
    {
        ScreenState {
            active: Screen::Startup,
            demo_hovered: false,
            blog_hovered: false,
            contact_hovered: false,
            last_key: None,
            history: Vec::new(),
        }
    }

    /// The active screen.
    pub fn active_screen(&self) -> (screen: Screen)
        ensures
            screen == self@.active,
    {
        self.active
    }

    /// Makes `screen` the active one and leaves every other field alone.
    pub fn set_active_screen(&mut self, screen: Screen)
        ensures
            final(self)@ == old(self)@.activated(screen),
    {
        self.active = screen;
    }

    /// Whether the pointer was last seen over the button `id`.
    pub fn is_hovered(&self, id: ButtonId) -> (hovered: bool)
        ensures
            hovered == self@.hovered(id),
    {
        match id {
            ButtonId::Demo => self.demo_hovered,
            ButtonId::Blog => self.blog_hovered,
            ButtonId::Contact => self.contact_hovered,
        }
    }

    /// Whether the pointer was last seen over any button.
    pub fn any_hovered(&self) -> (hovered: bool)
        ensures
            hovered == (self@.demo_hovered || self@.blog_hovered || self@.contact_hovered),
    {
        self.demo_hovered || self.blog_hovered || self.contact_hovered
    }

    /// Sets the hover flag of the button `id`.
    pub fn set_hovered(&mut self, id: ButtonId, hovered: bool)
        ensures
            final(self)@ == old(self)@.with_hover(id, hovered),
    {
        match id {
            ButtonId::Demo => {
                self.demo_hovered = hovered;
            },
            ButtonId::Blog => {
                self.blog_hovered = hovered;
            },
            ButtonId::Contact => {
                self.contact_hovered = hovered;
            },
        }
    }

    /// The direction key pressed last on the demo screen, if any was.
    pub fn last_key(&self) -> (key: Option<ArrowKeys>)
        ensures
            key == self@.last_key,
    {
        self.last_key
    }

    /// Every direction key pressed on the demo screen, newest last.
    pub fn history(&self) -> (keys: &Vec<ArrowKeys>)
        ensures
            keys@ == self@.history,
    {
        &self.history
    }

    /// Records the direction key `key` as pressed.
    pub fn record_key(&mut self, key: ArrowKeys)
        ensures
            final(self)@ == old(self)@.pressed(key),
    {
        self.last_key = Some(key);
        self.history.push(key);
    }
}

} // verus!

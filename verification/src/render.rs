//! The screen renderer: from a screen, the state and the surface area to the
//! paint tree and the clickable regions.

use vstd::prelude::*;
use crate::demo::{demo_scene, DemoLayout, DemoScreen};
use crate::geometry::Rect;
use crate::home::{home_scene, HomeLayout, HomeScreen};
use crate::scene::{Scene, SceneView};
use crate::startup::{startup_scene, StartupLayout, StartupScreen};
use crate::state::{ScreenModel, ScreenState};
use crate::Screen;

verus! {

/// Where one screen draws.
#[derive(Debug, Clone, Copy, PartialEq, Eq, Structural)]
pub enum ScreenLayout {
    Startup(StartupLayout),
    Home(HomeLayout),
    Demo(DemoLayout),
}

impl ScreenLayout {
    /// The screen that this layout is for.
    pub open spec fn spec_screen(&self) -> Screen {
        match *self {
            ScreenLayout::Startup(_) => Screen::Startup,
            ScreenLayout::Home(_) => Screen::Home,
            ScreenLayout::Demo(_) => Screen::Demo,
        }
    }

    /// The screen that this layout is for.
    #[verifier::when_used_as_spec(spec_screen)]
    pub fn screen(&self) -> (screen: Screen)
        ensures
            screen == self.spec_screen(),
    {
        match *self {
            ScreenLayout::Startup(_) => Screen::Startup,
            ScreenLayout::Home(_) => Screen::Home,
            ScreenLayout::Demo(_) => Screen::Demo,
        }
    }

    /// What every layout of this layout's screen in `area` has.
    pub open spec fn fits(self, area: Rect) -> bool {
        match self {
            ScreenLayout::Startup(layout) => layout.fits(area),
            ScreenLayout::Home(layout) => layout.fits(area),
            ScreenLayout::Demo(layout) => layout.fits(area),
        }
    }

    /// Lays `screen` out in `area`.
    pub fn of(screen: Screen, area: Rect) -> (layout: ScreenLayout)
        ensures
            layout.screen() == screen,
            layout.fits(area),
    {
        match screen {
            Screen::Startup => ScreenLayout::Startup(StartupScreen::layout(area)),
            Screen::Home => ScreenLayout::Home(HomeScreen::layout(area)),
            Screen::Demo => ScreenLayout::Demo(DemoScreen::layout(area)),
        }
    }
}

/// The screen of `layout` as drawn for `state` into `layout`. Of the state
/// only the fields of that screen are read; which screen is active is not.
pub open spec fn scene_of(state: ScreenModel, layout: ScreenLayout) -> SceneView {
    match layout {
        ScreenLayout::Startup(layout) => startup_scene(layout),
        ScreenLayout::Home(layout) => home_scene(state, layout),
        ScreenLayout::Demo(layout) => demo_scene(state, layout),
    }
}

/// Draws the screen of `layout` for `state` into `layout`.
pub fn compose(state: &ScreenState, layout: &ScreenLayout) -> (scene: Scene)
    ensures
        scene@ == scene_of(state@, *layout),
{
    match layout {
        ScreenLayout::Startup(layout) => StartupScreen::compose(layout),
        ScreenLayout::Home(layout) => HomeScreen::compose(state, layout),
        ScreenLayout::Demo(layout) => DemoScreen::compose(state, layout),
    }
}

/// Renders `screen` for `state` into `area`. The scene is that of some layout
/// of the screen in the area; nothing but the three arguments is read.
pub fn render(screen: Screen, state: &ScreenState, area: Rect) -> (scene: Scene)
    ensures
        exists|layout: ScreenLayout|
            layout.screen() == screen && #[trigger] layout.fits(area) && scene@ == scene_of(
                state@,
                layout,
            ),
{
    let layout = ScreenLayout::of(screen, area);
    compose(state, &layout)
}

} // verus!

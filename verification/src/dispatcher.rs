//! The input dispatcher: a state machine over the three screens. It takes
//! raw host events, tests pointer positions against the regions of the last
//! render, updates the screen state, and says what the host has to do next:
//! nothing, draw the active screen again, or show another screen.

use vstd::prelude::*;
use crate::buttons::{same_text, ArrowKeys};
use crate::error::EngineError;
use crate::geometry::{grid_col, grid_row, to_grid_coords, Rect};
use crate::registry::{EventKind, ListenerHandle, ListenerRegistry, RegistryModel};
use crate::render::{compose, scene_of, ScreenLayout};
use crate::scene::{Activation, ButtonId, InteractiveRegion, Scene, SceneView};
use crate::state::{ScreenModel, ScreenState};
use crate::transition::{acquire_all, lemma_rewired_listens, release_all, rewired};
use crate::Screen;

verus! {

/// The name of the key that leaves the demo screen.
pub const CANCEL_KEY: &'static str = "Escape";

/// A raw event from the host.
#[derive(Debug, Clone, PartialEq, Eq)]
pub enum InputEvent {
    /// The startup delay has elapsed.
    Timeout,
    /// The pointer moved to the pixel `(x, y)`.
    PointerMove { x: i32, y: i32 },
    /// The pointer was pressed at the pixel `(x, y)`.
    PointerDown { x: i32, y: i32 },
    /// The key of the given name was pressed.
    KeyDown(String),
}

/// What the host has to do after an event.
#[derive(Debug, Clone, Copy, PartialEq, Eq, Structural)]
pub enum Reaction {
    /// Nothing: the event changed nothing.
    Ignored,
    /// Nothing but to note that the button was chosen; it leads nowhere yet.
    Announce(ButtonId),
    /// Draw the active screen again: its state has changed.
    Rerender,
    /// Show the given screen.
    Navigate(Screen),
}

/// Some region of the button `id` covers the cell `(col, row)`.
pub open spec fn hovering(regions: Seq<InteractiveRegion>, id: ButtonId, col: int, row: int) -> bool {
    exists|i: int|
        0 <= i < regions.len() && (#[trigger] regions[i]).id == id && regions[i].rect.covers(col, row)
}

/// The first of `regions` that covers the cell `(col, row)`.
pub open spec fn first_hit(regions: Seq<InteractiveRegion>, col: int, row: int) -> Option<InteractiveRegion>
    decreases regions.len(),
{
    if regions.len() == 0 {
        None
    } else if regions[0].rect.covers(col, row) {
        Some(regions[0])
    } else {
        first_hit(regions.skip(1), col, row)
    }
}

/// Whether some region of the button `id` covers the cell `(col, row)`.
pub fn hovers(regions: &Vec<InteractiveRegion>, id: ButtonId, col: i32, row: i32) -> (over: bool)
    ensures
        over == hovering(regions@, id, col as int, row as int),
{
    let mut i: usize = 0;
    while i < regions.len()
        invariant
            i <= regions@.len(),
            forall|k: int|
                0 <= k < i ==> !((#[trigger] regions@[k]).id == id && regions@[k].rect.covers(
                    col as int,
                    row as int,
                )),
        decreases regions@.len() - i,
    {
        if regions[i].id == id && regions[i].rect.contains(col, row) {
            return true;
        }
        i = i + 1;
    }
    false
}

/// The first of `regions` that covers the cell `(col, row)`.
pub fn hit_test(regions: &Vec<InteractiveRegion>, col: i32, row: i32) -> (hit: Option<InteractiveRegion>)
    ensures
        hit == first_hit(regions@, col as int, row as int),
{
    let mut i: usize = 0;
    assert(regions@.skip(0) =~= regions@);
    while i < regions.len()
        invariant
            i <= regions@.len(),
            first_hit(regions@, col as int, row as int) == first_hit(
                regions@.skip(i as int),
                col as int,
                row as int,
            ),
        decreases regions@.len() - i,
    {
        if regions[i].rect.contains(col, row) {
            return Some(regions[i]);
        }
        assert(regions@.skip(i as int).skip(1) =~= regions@.skip(i + 1));
        i = i + 1;
    }
    None
}

/// What a presentation hands to the host: the scene to draw, and the
/// listeners to unsubscribe and to subscribe.
#[derive(Debug, Clone, PartialEq, Eq)]
pub struct Presentation {
    pub scene: Scene,
    pub detached: Vec<ListenerHandle>,
    pub attached: Vec<ListenerHandle>,
}

/// The contents of a [`Presentation`].
pub struct PresentationView {
    pub scene: SceneView,
    pub detached: Seq<ListenerHandle>,
    pub attached: Seq<ListenerHandle>,
}

impl View for Presentation {
    type V = PresentationView;

    open spec fn view(&self) -> PresentationView {
        PresentationView { scene: self.scene@, detached: self.detached@, attached: self.attached@ }
    }
}

/// The value of a [`Dispatcher`].
pub struct DispatcherModel {
    pub state: ScreenModel,
    pub registry: RegistryModel,
    /// The regions of the last render.
    pub regions: Seq<InteractiveRegion>,
}

impl DispatcherModel {
    /// The dispatcher at launch: the startup screen, no listener, no region.
    pub open spec fn initial() -> DispatcherModel {
        DispatcherModel {
            state: ScreenModel::initial(),
            registry: RegistryModel::empty(),
            regions: Seq::empty(),
        }
    }

    /// A listener is attached for exactly the kinds of events that the active
    /// screen listens to.
    pub open spec fn listens_as_active(self) -> bool {
        forall|kind: EventKind| self.registry.is_attached(kind) == self.state.active.listens(kind)
    }

    /// The startup delay elapses: the startup screen gives way to the home
    /// screen; any other screen stays.
    pub open spec fn on_timeout(self) -> (DispatcherModel, Reaction) {
        if self.state.active == Screen::Startup {
            (self, Reaction::Navigate(Screen::Home))
        } else {
            (self, Reaction::Ignored)
        }
    }

    /// The screen state with the hover flags that the pointer at the cell
    /// `(col, row)` gives.
    pub open spec fn hovered_at(self, col: int, row: int) -> ScreenModel {
        ScreenModel {
            demo_hovered: hovering(self.regions, ButtonId::Demo, col, row),
            blog_hovered: hovering(self.regions, ButtonId::Blog, col, row),
            contact_hovered: hovering(self.regions, ButtonId::Contact, col, row),
            ..self.state
        }
    }

    /// The pointer moves to the pixel `(x, y)`: on the home screen the hover
    /// flags follow the pointer, and the screen is drawn again if one of them
    /// changed. Otherwise nothing happens.
    pub open spec fn on_pointer_move(self, x: i32, y: i32) -> (DispatcherModel, Reaction) {
        let moved = self.hovered_at(grid_col(x), grid_row(y));
        if self.state.active != Screen::Home || moved == self.state {
            (self, Reaction::Ignored)
        } else {
            (DispatcherModel { state: moved, ..self }, Reaction::Rerender)
        }
    }

    /// The pointer is pressed at the pixel `(x, y)`: on the home screen the
    /// first region under it is activated. Nothing changes yet.
    pub open spec fn on_pointer_down(self, x: i32, y: i32) -> (DispatcherModel, Reaction) {
        if self.state.active != Screen::Home {
            (self, Reaction::Ignored)
        } else {
            match first_hit(self.regions, grid_col(x), grid_row(y)) {
                Some(region) => match region.on_activate {
                    Activation::Navigate(to) => (self, Reaction::Navigate(to)),
                    Activation::Announce => (self, Reaction::Announce(region.id)),
                },
                None => (self, Reaction::Ignored),
            }
        }
    }

    /// The key named `key` is pressed: on the demo screen the cancel key
    /// leads home, and a direction key is recorded and the screen drawn
    /// again. Any other key, and any key on another screen, is ignored.
    pub open spec fn on_key_down(self, key: Seq<char>) -> (DispatcherModel, Reaction) {
        if self.state.active != Screen::Demo {
            (self, Reaction::Ignored)
        } else if key == CANCEL_KEY@ {
            (self, Reaction::Navigate(Screen::Home))
        } else {
            match ArrowKeys::parse(key) {
                Some(pressed) => (
                    DispatcherModel { state: self.state.pressed(pressed), ..self },
                    Reaction::Rerender,
                ),
                None => (self, Reaction::Ignored),
            }
        }
    }

    /// The dispatcher after `event`, and what the host has to do.
    pub open spec fn react(self, event: InputEvent) -> (DispatcherModel, Reaction) {
        match event {
            InputEvent::Timeout => self.on_timeout(),
            InputEvent::PointerMove { x, y } => self.on_pointer_move(x, y),
            InputEvent::PointerDown { x, y } => self.on_pointer_down(x, y),
            InputEvent::KeyDown(key) => self.on_key_down(key@),
        }
    }

    /// What showing the screen of `layout` hands to the host: that screen
    /// drawn for the state as it is, and the handles of the hand-over.
    pub open spec fn presentation(self, layout: ScreenLayout) -> PresentationView {
        let wiring = rewired(self.registry, layout.screen());
        PresentationView {
            scene: scene_of(self.state, layout),
            detached: wiring.detached,
            attached: wiring.attached,
        }
    }

    /// The dispatcher after showing the screen of `layout`: that screen is
    /// active, the listeners are handed over to it, and the regions are those
    /// just drawn. What the screens remember stays.
    pub open spec fn presented(self, layout: ScreenLayout) -> DispatcherModel {
        DispatcherModel {
            state: self.state.activated(layout.screen()),
            registry: rewired(self.registry, layout.screen()).registry,
            regions: scene_of(self.state, layout).regions,
        }
    }

    /// Showing `to` in `area` leads from `self` to `after` and hands `shown`
    /// to the host: both are those of some layout of `to` in `area`.
    pub open spec fn shows(self, to: Screen, area: Rect, after: DispatcherModel, shown: PresentationView) -> bool {
        exists|layout: ScreenLayout|
            layout.screen() == to && #[trigger] layout.fits(area) && after == self.presented(layout)
                && shown == self.presentation(layout)
    }

    /// The dispatcher after the keys named `keys` were pressed one after the
    /// other.
    pub open spec fn after_keys(self, keys: Seq<Seq<char>>) -> DispatcherModel
        decreases keys.len(),
    {
        if keys.len() == 0 {
            self
        } else {
            self.after_keys(keys.drop_last()).on_key_down(keys.last()).0
        }
    }
}

/// The directions that the key names `keys` stand for.
pub open spec fn directions(keys: Seq<Seq<char>>) -> Seq<ArrowKeys> {
    keys.map_values(|key: Seq<char>| ArrowKeys::parse(key).unwrap())
}

/// At launch no listener is attached, as the startup screen wants it.
pub proof fn lemma_initial_listens()
    ensures
        DispatcherModel::initial().listens_as_active(),
{
}

/// After a screen is shown, whatever the dispatcher held before, a listener
/// is attached for exactly the kinds of events that the screen now active
/// listens to, and for no other kind.
pub proof fn lemma_presented_listens(model: DispatcherModel, layout: ScreenLayout)
    ensures
        model.presented(layout).state.active == layout.screen(),
        model.presented(layout).listens_as_active(),
{
    assert forall|kind: EventKind|
        model.presented(layout).registry.is_attached(kind) == layout.screen().listens(kind) by {
        lemma_rewired_listens(model.registry, layout.screen(), kind);
    }
}

/// No event changes which screen is active, which listeners are attached, or
/// the regions: only showing a screen does.
pub proof fn lemma_event_keeps_wiring(model: DispatcherModel, event: InputEvent)
    ensures
        model.react(event).0.state.active == model.state.active,
        model.react(event).0.registry == model.registry,
        model.react(event).0.regions == model.regions,
        model.listens_as_active() ==> model.react(event).0.listens_as_active(),
{
}

/// Showing a screen leaves alone what the screens remember: the hover flags,
/// the last key and the history.
pub proof fn lemma_presented_remembers(model: DispatcherModel, layout: ScreenLayout)
    ensures
        model.presented(layout).state == model.state.activated(layout.screen()),
        model.presented(layout).state.last_key == model.state.last_key,
        model.presented(layout).state.history == model.state.history,
{
}

/// A pointer move that gives every button the hover flag it has is ignored
/// and changes nothing; so of two moves in a row over the same buttons, or
/// over none, the second never asks for a redraw.
pub proof fn lemma_idle_pointer_ignored(model: DispatcherModel, x1: i32, y1: i32, x2: i32, y2: i32)
    requires
        forall|id: ButtonId|
            hovering(model.regions, id, grid_col(x1), grid_row(y1)) == hovering(
                model.regions,
                id,
                grid_col(x2),
                grid_row(y2),
            ),
    ensures
        model.on_pointer_move(x1, y1).0.on_pointer_move(x2, y2) == (
            model.on_pointer_move(x1, y1).0,
            Reaction::Ignored,
        ),
{
    let after = model.on_pointer_move(x1, y1).0;
    let c1 = grid_col(x1);
    let r1 = grid_row(y1);
    let c2 = grid_col(x2);
    let r2 = grid_row(y2);
    assert(hovering(model.regions, ButtonId::Demo, c1, r1) == hovering(model.regions, ButtonId::Demo, c2, r2));
    assert(hovering(model.regions, ButtonId::Blog, c1, r1) == hovering(model.regions, ButtonId::Blog, c2, r2));
    assert(hovering(model.regions, ButtonId::Contact, c1, r1) == hovering(
        model.regions,
        ButtonId::Contact,
        c2,
        r2,
    ));
    if model.state.active == Screen::Home {
        assert(after.state == model.hovered_at(c1, r1));
        assert(after.hovered_at(c2, r2) == after.state);
    }
}

/// The name of a direction key is not the name of the cancel key.
pub proof fn lemma_direction_is_not_cancel(key: Seq<char>)
    requires
        ArrowKeys::parse(key) is Some,
    ensures
        key != CANCEL_KEY@,
{
    reveal_strlit("ArrowUp");
    reveal_strlit("ArrowDown");
    reveal_strlit("ArrowLeft");
    reveal_strlit("ArrowRight");
    reveal_strlit("Escape");
    assert(CANCEL_KEY@.len() == 6);
    assert(key.len() != 6);
}

/// On the demo screen, pressing direction keys one after the other appends
/// them to the history in the order pressed: after N presses the history is
/// N keys longer, and the key pressed last is the last key. The screen stays.
pub proof fn lemma_history_after_keys(model: DispatcherModel, keys: Seq<Seq<char>>)
    requires
        model.state.active == Screen::Demo,
        forall|i: int| 0 <= i < keys.len() ==> ArrowKeys::parse(#[trigger] keys[i]) is Some,
    ensures
        model.after_keys(keys).state.active == Screen::Demo,
        model.after_keys(keys).state.history == model.state.history + directions(keys),
        model.after_keys(keys).state.history.len() == model.state.history.len() + keys.len(),
        keys.len() > 0 ==> model.after_keys(keys).state.last_key == Some(directions(keys).last()),
    decreases keys.len(),
{
    if keys.len() == 0 {
        assert(model.state.history + directions(keys) =~= model.state.history);
    } else {
        let earlier = keys.drop_last();
        lemma_history_after_keys(model, earlier);
        lemma_direction_is_not_cancel(keys.last());
        assert(directions(keys) =~= directions(earlier).push(ArrowKeys::parse(keys.last()).unwrap()));
        assert(model.after_keys(keys).state.history =~= model.state.history + directions(keys));
    }
}

/// The engine: the screen state, the listener registry, and the regions of
/// the last render.
#[derive(Debug, Clone, PartialEq, Eq)]
pub struct Dispatcher {
    state: ScreenState,
    registry: ListenerRegistry,
    regions: Vec<InteractiveRegion>,
}

impl View for Dispatcher {
    type V = DispatcherModel;

    closed spec fn view(&self) -> DispatcherModel {
        DispatcherModel { state: self.state@, registry: self.registry@, regions: self.regions@ }
    }
}

fn copied(regions: &Vec<InteractiveRegion>) -> (copy: Vec<InteractiveRegion>)
    ensures
        copy@ == regions@,
{
    let mut copy: Vec<InteractiveRegion> = Vec::new();
    let mut i: usize = 0;
    while i < regions.len()
        invariant
            i <= regions@.len(),
            copy@ == regions@.take(i as int),
        decreases regions@.len() - i,
    {
        copy.push(regions[i]);
        assert(copy@ =~= regions@.take(i + 1));
        i = i + 1;
    }
    assert(regions@.take(regions@.len() as int) =~= regions@);
    copy
}

impl Dispatcher {
    /// The engine at launch.
    pub fn new() -> (dispatcher: Dispatcher)
        ensures
            dispatcher@ == DispatcherModel::initial(),
    {
        Dispatcher { state: ScreenState::new(), registry: ListenerRegistry::new(), regions: Vec::new() }
    }

    /// The screen state.
    pub fn state(&self) -> (state: &ScreenState)
        ensures
            state@ == self@.state,
    {
        &self.state
    }

    /// The listener registry.
    pub fn registry(&self) -> (registry: &ListenerRegistry)
        ensures
            registry@ == self@.registry,
    {
        &self.registry
    }

    /// The regions of the last render.
    pub fn regions(&self) -> (regions: &Vec<InteractiveRegion>)
        ensures
            regions@ == self@.regions,
    {
        &self.regions
    }

    /// Handles the end of the startup delay.
    pub fn timeout(&self) -> (reaction: Reaction)
        ensures
            (self@, reaction) == self@.on_timeout(),
    {
        if self.state.active_screen() == Screen::Startup {
            Reaction::Navigate(Screen::Home)
        } else {
            Reaction::Ignored
        }
    }

    /// Handles a pointer move to the pixel `(x, y)`.
    pub fn pointer_move(&mut self, x: i32, y: i32) -> (reaction: Reaction)
        ensures
            (final(self)@, reaction) == old(self)@.on_pointer_move(x, y),
    {
        if self.state.active_screen() != Screen::Home {
            return Reaction::Ignored;
        }
        let (col, row) = to_grid_coords(x, y);
        let demo = hovers(&self.regions, ButtonId::Demo, col, row);
        let blog = hovers(&self.regions, ButtonId::Blog, col, row);
        let contact = hovers(&self.regions, ButtonId::Contact, col, row);
        let mut needs_redraw = false;
        if self.state.is_hovered(ButtonId::Demo) != demo {
            self.state.set_hovered(ButtonId::Demo, demo);
            needs_redraw = true;
        }
        if self.state.is_hovered(ButtonId::Blog) != blog {
            self.state.set_hovered(ButtonId::Blog, blog);
            needs_redraw = true;
        }
        if self.state.is_hovered(ButtonId::Contact) != contact {
            self.state.set_hovered(ButtonId::Contact, contact);
            needs_redraw = true;
        }
        proof {
            let moved = old(self)@.hovered_at(col as int, row as int);
            assert(self@.state.history =~= moved.history);
            assert(self@.state == moved);
        }
        if needs_redraw {
            Reaction::Rerender
        } else {
            Reaction::Ignored
        }
    }

    /// Handles a pointer press at the pixel `(x, y)`.
    pub fn pointer_down(&self, x: i32, y: i32) -> (reaction: Reaction)
        ensures
            (self@, reaction) == self@.on_pointer_down(x, y),
    {
        if self.state.active_screen() != Screen::Home {
            return Reaction::Ignored;
        }
        let (col, row) = to_grid_coords(x, y);
        match hit_test(&self.regions, col, row) {
            Some(region) => match region.on_activate {
                Activation::Navigate(to) => Reaction::Navigate(to),
                Activation::Announce => Reaction::Announce(region.id),
            },
            None => Reaction::Ignored,
        }
    }

    /// Handles a press of the key named `key`.
    pub fn key_down(&mut self, key: &str) -> (reaction: Reaction)
        ensures
            (final(self)@, reaction) == old(self)@.on_key_down(key@),
    {
        if self.state.active_screen() != Screen::Demo {
            return Reaction::Ignored;
        }
        if same_text(key, CANCEL_KEY) {
            return Reaction::Navigate(Screen::Home);
        }
        match ArrowKeys::from_key_string(key) {
            Some(pressed) => {
                self.state.record_key(pressed);
                Reaction::Rerender
            },
            None => Reaction::Ignored,
        }
    }

    /// Handles one host event: updates the state and says what the host has
    /// to do. An event that the active screen has no use for is ignored.
    pub fn dispatch(&mut self, event: &InputEvent) -> (reaction: Reaction)
        ensures
            (final(self)@, reaction) == old(self)@.react(*event),
    {
        match event {
            InputEvent::Timeout => self.timeout(),
            InputEvent::PointerMove { x, y } => self.pointer_move(*x, *y),
            InputEvent::PointerDown { x, y } => self.pointer_down(*x, *y),
            InputEvent::KeyDown(key) => self.key_down(key.as_str()),
        }
    }

    /// Shows the screen of `layout`, drawn into `layout`: the listeners that
    /// the screen has no use for are detached, the screen becomes the active
    /// one and is drawn for the state as it is, and the listeners it lacks
    /// are attached. Afterwards a listener is attached for exactly the kinds
    /// of events that the screen listens to.
    pub fn present(&mut self, layout: &ScreenLayout) -> (shown: Presentation)
        ensures
            final(self)@ == old(self)@.presented(*layout),
            shown@ == old(self)@.presentation(*layout),
            final(self)@.listens_as_active(),
    {
        let to = layout.screen();
        let detached = release_all(&mut self.registry, to);
        self.state.set_active_screen(to);
        let scene = compose(&self.state, layout);
        self.regions = copied(&scene.regions);
        let attached = acquire_all(&mut self.registry, to);
        proof {
            lemma_presented_listens(old(self)@, *layout);
        }
        Presentation { scene, detached, attached }
    }

    /// Shows the screen `to` on the surface that the host has acquired, of
    /// which `surface` is the area. Without a surface nothing changes and
    /// the call fails.
    pub fn show(&mut self, to: Screen, surface: Option<Rect>) -> (outcome: Result<Presentation, EngineError>)
        ensures
            surface is None ==> outcome is Err && outcome->Err_0 == EngineError::RenderSurfaceUnavailable
                && final(self)@ == old(self)@,
            surface matches Some(area) ==> outcome is Ok && old(self)@.shows(
                to,
                area,
                final(self)@,
                outcome->Ok_0@,
            ) && final(self)@.listens_as_active(),
    {
        match surface {
            None => Err(EngineError::RenderSurfaceUnavailable),
            Some(area) => {
                let layout = ScreenLayout::of(to, area);
                Ok(self.present(&layout))
            },
        }
    }
}

/// Shows the demo screen: the transition from the home screen, and the
/// redraw after a direction key.
pub fn show_demo_screen(dispatcher: &mut Dispatcher, surface: Option<Rect>) -> (outcome: Result<
    Presentation,
    EngineError,
>)
    ensures
        surface is None ==> outcome is Err && outcome->Err_0 == EngineError::RenderSurfaceUnavailable
            && final(dispatcher)@ == old(dispatcher)@,
        surface matches Some(area) ==> outcome is Ok && old(dispatcher)@.shows(
            Screen::Demo,
            area,
            final(dispatcher)@,
            outcome->Ok_0@,
        ) && final(dispatcher)@.listens_as_active(),
{
    dispatcher.show(Screen::Demo, surface)
}

/// Shows the home screen again after the demo screen was cancelled.
pub fn show_home_from_demo(dispatcher: &mut Dispatcher, surface: Option<Rect>) -> (outcome: Result<
    Presentation,
    EngineError,
>)
    ensures
        surface is None ==> outcome is Err && outcome->Err_0 == EngineError::RenderSurfaceUnavailable
            && final(dispatcher)@ == old(dispatcher)@,
        surface matches Some(area) ==> outcome is Ok && old(dispatcher)@.shows(
            Screen::Home,
            area,
            final(dispatcher)@,
            outcome->Ok_0@,
        ) && final(dispatcher)@.listens_as_active(),
{
    dispatcher.show(Screen::Home, surface)
}

} // verus!

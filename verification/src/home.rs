//! The home screen: a title band, three stacked buttons, a footer band. Each
//! button is drawn by its hover state and yields one clickable region.

use vstd::prelude::*;
use vstd::string::*;
use crate::geometry::Rect;
use crate::layout::{bands_within, inner, split_vertical, Constraint};
use crate::scene::{
    Activation, Border, ButtonId, Color, InteractiveRegion, Line, PaintCommand, PaintView, Panel, PanelView,
    Scene, SceneView, SpanView, TextStyle,
};
use crate::state::{ScreenModel, ScreenState};
use crate::Screen;

verus! {

/// The text of the title band.
pub const HOME_TITLE: &'static str = "AlertAngel";

/// The text of the footer band.
pub const HOME_FOOTER: &'static str = "Use keyboard shortcuts or click on buttons to navigate";

/// The title of the demo button.
pub const DEMO_LABEL: &'static str = "Demo";

/// The tooltip of the demo button.
pub const DEMO_TOOLTIP: &'static str = "Get a feel of the UI and workflow before buying the device";

/// The title of the blog button.
pub const BLOG_LABEL: &'static str = "Blog";

/// The tooltip of the blog button.
pub const BLOG_TOOLTIP: &'static str = "Coming Soon";

/// The title of the contact button.
pub const CONTACT_LABEL: &'static str = "Contact";

/// The tooltip of the contact button.
pub const CONTACT_TOOLTIP: &'static str = "Email : lorem@ipsummail.com";

/// Columns kept free to the left and to the right of the buttons.
pub const BUTTON_MARGIN_X: u16 = 20;

/// Rows kept free above and below the buttons.
pub const BUTTON_MARGIN_Y: u16 = 2;

/// How a button is drawn: by whether the pointer is over it.
#[derive(Debug, Clone, Copy, PartialEq, Eq, Structural)]
pub enum ButtonState {
    Normal,
    Hovered,
}

impl ButtonState {
    /// The state of a button with the given hover flag.
    pub open spec fn of(hovered: bool) -> ButtonState {
        if hovered {
            ButtonState::Hovered
        } else {
            ButtonState::Normal
        }
    }

    /// The state of a button with the given hover flag.
    pub fn from_hover(hovered: bool) -> (state: ButtonState)
        ensures
            state == ButtonState::of(hovered),
    {
        if hovered {
            ButtonState::Hovered
        } else {
            ButtonState::Normal
        }
    }
}

/// The colors of one button.
#[derive(Debug, Clone, Copy, PartialEq, Eq, Structural)]
pub struct Palette {
    pub background: Color,
    pub border: Color,
    pub text: Color,
    pub tooltip: Color,
}

impl Palette {
    /// The colors of a button whose accent is `color`: at rest the accent
    /// draws the border; under the pointer it fills the button.
    pub open spec fn of(color: Color, state: ButtonState) -> Palette {
        match state {
            ButtonState::Normal => Palette {
                background: Color::Reset,
                border: color,
                text: Color::White,
                tooltip: Color::Gray,
            },
            ButtonState::Hovered => Palette {
                background: color,
                border: Color::White,
                text: Color::Black,
                tooltip: Color::DarkGray,
            },
        }
    }

    /// The colors of a button whose accent is `color`.
    pub fn pick(color: Color, state: ButtonState) -> (palette: Palette)
        ensures
            palette == Palette::of(color, state),
    {
        match state {
            ButtonState::Normal => Palette {
                background: Color::Reset,
                border: color,
                text: Color::White,
                tooltip: Color::Gray,
            },
            ButtonState::Hovered => Palette {
                background: color,
                border: Color::White,
                text: Color::Black,
                tooltip: Color::DarkGray,
            },
        }
    }
}

/// The panel of a button: its title, padded by two spaces on either side and
/// bold; an empty line; its tooltip in italics; all in a filled box.
pub open spec fn button_panel(title: Seq<char>, tooltip: Seq<char>, color: Color, state: ButtonState) -> PanelView {
    let palette = Palette::of(color, state);
    PanelView {
        lines: seq![
            seq![SpanView::run("  "@ + title + "  "@, TextStyle::strong(palette.text))],
            seq![],
            seq![SpanView::run(tooltip, TextStyle::slanted(palette.tooltip))],
        ],
        style: TextStyle::plain(),
        border: Some(Border { color: palette.border, fill: Some(palette.background) }),
    }
}

/// Where the home screen draws.
#[derive(Debug, Clone, Copy, PartialEq, Eq, Structural)]
pub struct HomeLayout {
    pub title: Rect,
    pub demo: Rect,
    pub blog: Rect,
    pub contact: Rect,
    pub footer: Rect,
}

/// The heights that the bands of the home screen ask for: six rows for the
/// title, twenty or more for the buttons, three for the footer.
pub open spec fn home_bands() -> Seq<Constraint> {
    seq![Constraint::Length(6), Constraint::Min(20), Constraint::Length(3)]
}

/// The heights that the rows inside the button area ask for: five rows for
/// each button, one row between two buttons, and the rest below.
pub open spec fn home_button_rows() -> Seq<Constraint> {
    seq![
        Constraint::Length(5),
        Constraint::Length(1),
        Constraint::Length(5),
        Constraint::Length(1),
        Constraint::Length(5),
        Constraint::Min(0),
    ]
}

impl HomeLayout {
    /// The area of the buttons, given the bands of the screen: the middle
    /// band less the button margins.
    pub open spec fn button_area(bands: Seq<Rect>) -> Rect {
        bands[1].shrunk(BUTTON_MARGIN_X, BUTTON_MARGIN_Y)
    }

    /// The layout made of the bands of the screen and the rows of the button
    /// area: the first band is the title and the third the footer; the
    /// first, third and fifth row are the demo, blog and contact button.
    pub open spec fn picked(bands: Seq<Rect>, rows: Seq<Rect>) -> HomeLayout {
        HomeLayout { title: bands[0], demo: rows[0], blog: rows[2], contact: rows[4], footer: bands[2] }
    }

    /// This layout, given the band `middle` between title and footer: the
    /// three bands span the area's columns and lie within its rows, and each
    /// button spans the columns and lies within the rows of the middle band
    /// less the button margins.
    pub open spec fn fits_around(self, area: Rect, middle: Rect) -> bool {
        let inside = middle.shrunk(BUTTON_MARGIN_X, BUTTON_MARGIN_Y);
        &&& self.title.band_of(area)
        &&& middle.band_of(area)
        &&& self.footer.band_of(area)
        &&& self.demo.band_of(inside)
        &&& self.blog.band_of(inside)
        &&& self.contact.band_of(inside)
    }

    /// What every layout of the home screen in `area` has.
    pub open spec fn fits(self, area: Rect) -> bool {
        exists|middle: Rect| #[trigger] self.fits_around(area, middle)
    }

    /// The rectangle of the button `id`.
    pub open spec fn button(self, id: ButtonId) -> Rect {
        match id {
            ButtonId::Demo => self.demo,
            ButtonId::Blog => self.blog,
            ButtonId::Contact => self.contact,
        }
    }
}

/// The clickable regions of the home screen drawn into `layout`: the three
/// buttons from top to bottom. The demo button leads to the demo screen; the
/// other two lead nowhere yet.
pub open spec fn home_regions(layout: HomeLayout) -> Seq<InteractiveRegion> {
    seq![
        InteractiveRegion {
            id: ButtonId::Demo,
            rect: layout.demo,
            on_activate: Activation::Navigate(Screen::Demo),
        },
        InteractiveRegion { id: ButtonId::Blog, rect: layout.blog, on_activate: Activation::Announce },
        InteractiveRegion {
            id: ButtonId::Contact,
            rect: layout.contact,
            on_activate: Activation::Announce,
        },
    ]
}

/// The home screen as drawn for `state` into `layout`.
pub open spec fn home_scene(state: ScreenModel, layout: HomeLayout) -> SceneView {
    SceneView {
        paint: seq![
            PaintView {
                area: layout.title,
                panel: PanelView::caption(HOME_TITLE@, TextStyle::strong(Color::LightYellow)),
            },
            PaintView {
                area: layout.demo,
                panel: button_panel(
                    DEMO_LABEL@,
                    DEMO_TOOLTIP@,
                    Color::Cyan,
                    ButtonState::of(state.demo_hovered),
                ),
            },
            PaintView {
                area: layout.blog,
                panel: button_panel(
                    BLOG_LABEL@,
                    BLOG_TOOLTIP@,
                    Color::Magenta,
                    ButtonState::of(state.blog_hovered),
                ),
            },
            PaintView {
                area: layout.contact,
                panel: button_panel(
                    CONTACT_LABEL@,
                    CONTACT_TOOLTIP@,
                    Color::Green,
                    ButtonState::of(state.contact_hovered),
                ),
            },
            PaintView {
                area: layout.footer,
                panel: PanelView::caption(HOME_FOOTER@, TextStyle::colored(Color::Gray)),
            },
        ],
        regions: home_regions(layout),
    }
}

/// Each button has one region: no two regions of the home screen share an
/// id.
pub proof fn lemma_home_region_ids_unique(layout: HomeLayout)
    ensures
        forall|i: int, j: int|
            0 <= i < j < home_regions(layout).len() ==> home_regions(layout)[i].id != home_regions(
                layout,
            )[j].id,
{
}

/// A layout picked from a split of `area` into the home screen's bands, and
/// from a split of its button area into the button rows, fits the area.
pub proof fn lemma_picked_home_layout_fits(bands: Seq<Rect>, rows: Seq<Rect>, area: Rect)
    requires
        bands_within(bands, home_bands().len(), area),
        bands_within(rows, home_button_rows().len(), HomeLayout::button_area(bands)),
    ensures
        HomeLayout::picked(bands, rows).fits(area),
{
    assert(bands[0].band_of(area) && bands[1].band_of(area) && bands[2].band_of(area));
    let inside = HomeLayout::button_area(bands);
    assert(rows[0].band_of(inside) && rows[2].band_of(inside) && rows[4].band_of(inside));
    assert(HomeLayout::picked(bands, rows).fits_around(area, bands[1]));
}

pub struct HomeScreen;

impl HomeScreen {
    /// Builds the panel of one button.
    pub fn create_button(title: &str, tooltip: &str, color: Color, state: ButtonState) -> (panel: Panel)
        ensures
            panel@ == button_panel(title@, tooltip@, color, state),
    {
        let palette = Palette::pick(color, state);
        let mut padded = String::from_str("  ");
        padded.append(title);
        padded.append("  ");
        let mut lines: Vec<Line> = Vec::new();
        lines.push(Line::styled(padded.as_str(), TextStyle::fg(palette.text).bold()));
        lines.push(Line::blank());
        lines.push(Line::styled(tooltip, TextStyle::fg(palette.tooltip).italic()));
        let panel = Panel {
            lines,
            style: TextStyle { fg: None, bold: false, italic: false },
            border: Some(Border { color: palette.border, fill: Some(palette.background) }),
        };
        assert(panel@.lines =~= button_panel(title@, tooltip@, color, state).lines);
        panel
    }

    /// The heights that the bands of the home screen ask for.
    pub fn bands() -> (wishes: Vec<Constraint>)
        ensures
            wishes@ == home_bands(),
    {
        let mut wishes: Vec<Constraint> = Vec::new();
        wishes.push(Constraint::Length(6));
        wishes.push(Constraint::Min(20));
        wishes.push(Constraint::Length(3));
        assert(wishes@ =~= home_bands());
        wishes
    }

    /// The heights that the rows inside the button area ask for.
    pub fn button_rows() -> (wishes: Vec<Constraint>)
        ensures
            wishes@ == home_button_rows(),
    {
        let mut wishes: Vec<Constraint> = Vec::new();
        wishes.push(Constraint::Length(5));
        wishes.push(Constraint::Length(1));
        wishes.push(Constraint::Length(5));
        wishes.push(Constraint::Length(1));
        wishes.push(Constraint::Length(5));
        wishes.push(Constraint::Min(0));
        assert(wishes@ =~= home_button_rows());
        wishes
    }

    /// The area of the buttons, given the bands of the screen: the middle
    /// band less the button margins.
    pub fn button_area(bands: &Vec<Rect>) -> (inside: Rect)
        requires
            bands@.len() == home_bands().len(),
        ensures
            inside == HomeLayout::button_area(bands@),
    {
        inner(bands[1], BUTTON_MARGIN_X, BUTTON_MARGIN_Y)
    }

    /// Makes the layout of the bands of the screen and the rows of the
    /// button area: the first band is the title and the third the footer;
    /// the first, third and fifth row are the demo, blog and contact button.
    pub fn pick(bands: &Vec<Rect>, rows: &Vec<Rect>) -> (layout: HomeLayout)
        requires
            bands@.len() == home_bands().len(),
            rows@.len() == home_button_rows().len(),
        ensures
            layout == HomeLayout::picked(bands@, rows@),
    {
        HomeLayout { title: bands[0], demo: rows[0], blog: rows[2], contact: rows[4], footer: bands[2] }
    }

    /// Splits `area` into the home screen's bands and buttons: hands the area
    /// and the heights of the bands to the layout engine, then the button
    /// area and the heights of its rows, and picks the layout from what
    /// comes back.
    pub fn layout(area: Rect) -> (layout: HomeLayout)
        ensures
            layout.fits(area),
    {
        let bands = split_vertical(&Self::bands(), area);
        let rows = split_vertical(&Self::button_rows(), Self::button_area(&bands));
        proof {
            lemma_picked_home_layout_fits(bands@, rows@, area);
        }
        Self::pick(&bands, &rows)
    }

    /// Draws the home screen for `state` into the rectangles of `layout`.
    pub fn compose(state: &ScreenState, layout: &HomeLayout) -> (scene: Scene)
        ensures
            scene@ == home_scene(state@, *layout),
    {
        let mut paint: Vec<PaintCommand> = Vec::new();
        paint.push(
            PaintCommand {
                area: layout.title,
                panel: Panel::caption(HOME_TITLE, TextStyle::fg(Color::LightYellow).bold()),
            },
        );
        paint.push(
            PaintCommand {
                area: layout.demo,
                panel: Self::create_button(
                    DEMO_LABEL,
                    DEMO_TOOLTIP,
                    Color::Cyan,
                    ButtonState::from_hover(state.is_hovered(ButtonId::Demo)),
                ),
            },
        );
        paint.push(
            PaintCommand {
                area: layout.blog,
                panel: Self::create_button(
                    BLOG_LABEL,
                    BLOG_TOOLTIP,
                    Color::Magenta,
                    ButtonState::from_hover(state.is_hovered(ButtonId::Blog)),
                ),
            },
        );
        paint.push(
            PaintCommand {
                area: layout.contact,
                panel: Self::create_button(
                    CONTACT_LABEL,
                    CONTACT_TOOLTIP,
                    Color::Green,
                    ButtonState::from_hover(state.is_hovered(ButtonId::Contact)),
                ),
            },
        );
        paint.push(
            PaintCommand {
                area: layout.footer,
                panel: Panel::caption(HOME_FOOTER, TextStyle::fg(Color::Gray)),
            },
        );

        let mut regions: Vec<InteractiveRegion> = Vec::new();
        regions.push(
            InteractiveRegion {
                id: ButtonId::Demo,
                rect: layout.demo,
                on_activate: Activation::Navigate(Screen::Demo),
            },
        );
        regions.push(
            InteractiveRegion { id: ButtonId::Blog, rect: layout.blog, on_activate: Activation::Announce },
        );
        regions.push(
            InteractiveRegion {
                id: ButtonId::Contact,
                rect: layout.contact,
                on_activate: Activation::Announce,
            },
        );

        let scene = Scene { paint, regions };
        assert(scene@.paint =~= home_scene(state@, *layout).paint);
        assert(scene@.regions =~= home_scene(state@, *layout).regions);
        scene
    }

    /// Renders the home screen for `state` into `area`: lays the rectangles
    /// out and draws into them.
    pub fn start(state: &ScreenState, area: Rect) -> (scene: Scene)
        ensures
            exists|layout: HomeLayout| #[trigger] layout.fits(area) && scene@ == home_scene(state@, layout),
    {
        let layout = Self::layout(area);
        Self::compose(state, &layout)
    }
}

} // verus!

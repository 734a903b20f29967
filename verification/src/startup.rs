//! The startup screen: the logo, centered, and nothing to click. The caller
//! leaves it for the home screen after a delay of its own.

use vstd::prelude::*;
use crate::geometry::Rect;
use crate::layout::{bands_within, split_vertical, Constraint};
use crate::scene::{Color, Line, PaintCommand, PaintView, Panel, PanelView, Scene, SceneView, SpanView, TextStyle};

verus! {

// The logo, row by row from the top.
pub const LOGO_ROW_01: &'static str = " █████╗ ██╗     ███████╗██████╗ ████████╗";
pub const LOGO_ROW_02: &'static str = "██╔══██╗██║     ██╔════╝██╔══██╗╚══██╔══╝";
pub const LOGO_ROW_03: &'static str = "███████║██║     █████╗  ██████╔╝   ██║   ";
pub const LOGO_ROW_04: &'static str = "██╔══██║██║     ██╔══╝  ██╔══██╗   ██║   ";
pub const LOGO_ROW_05: &'static str = "██║  ██║███████╗███████╗██║  ██║   ██║   ";
pub const LOGO_ROW_06: &'static str = "╚═╝  ╚═╝╚══════╝╚══════╝╚═╝  ╚═╝   ╚═╝   ";
pub const LOGO_ROW_07: &'static str = " █████╗ ███╗   ██╗ ██████╗ ███████╗██╗     ";
pub const LOGO_ROW_08: &'static str = "██╔══██╗████╗  ██║██╔════╝ ██╔════╝██║     ";
pub const LOGO_ROW_09: &'static str = "███████║██╔██╗ ██║██║  ███╗█████╗  ██║     ";
pub const LOGO_ROW_10: &'static str = "██╔══██║██║╚██╗██║██║   ██║██╔══╝  ██║     ";
pub const LOGO_ROW_11: &'static str = "██║  ██║██║ ╚████║╚██████╔╝███████╗███████╗";
pub const LOGO_ROW_12: &'static str = "╚═╝  ╚═╝╚═╝  ╚═══╝ ╚═════╝ ╚══════╝╚══════╝";

/// The rows of the logo panel: an empty line, then the twelve rows of the
/// logo, each one unstyled run.
pub open spec fn logo_lines() -> Seq<Seq<SpanView>> {
    seq![
        seq![],
        seq![SpanView::run(LOGO_ROW_01@, TextStyle::plain())],
        seq![SpanView::run(LOGO_ROW_02@, TextStyle::plain())],
        seq![SpanView::run(LOGO_ROW_03@, TextStyle::plain())],
        seq![SpanView::run(LOGO_ROW_04@, TextStyle::plain())],
        seq![SpanView::run(LOGO_ROW_05@, TextStyle::plain())],
        seq![SpanView::run(LOGO_ROW_06@, TextStyle::plain())],
        seq![SpanView::run(LOGO_ROW_07@, TextStyle::plain())],
        seq![SpanView::run(LOGO_ROW_08@, TextStyle::plain())],
        seq![SpanView::run(LOGO_ROW_09@, TextStyle::plain())],
        seq![SpanView::run(LOGO_ROW_10@, TextStyle::plain())],
        seq![SpanView::run(LOGO_ROW_11@, TextStyle::plain())],
        seq![SpanView::run(LOGO_ROW_12@, TextStyle::plain())],
    ]
}

/// Where the startup screen draws: the band of the logo.
#[derive(Debug, Clone, Copy, PartialEq, Eq, Structural)]
pub struct StartupLayout {
    pub logo: Rect,
}

/// The heights that the bands of the startup screen ask for: thirty rows or
/// more for the logo, between two margins of two fifths of the height each.
pub open spec fn startup_bands() -> Seq<Constraint> {
    seq![Constraint::Percentage(40), Constraint::Min(30), Constraint::Percentage(40)]
}

impl StartupLayout {
    /// The layout made of the bands of a split: the second is the logo's.
    pub open spec fn picked(bands: Seq<Rect>) -> StartupLayout {
        StartupLayout { logo: bands[1] }
    }

    /// What every layout of the startup screen in `area` has: the logo band
    /// spans the area's columns and lies within its rows.
    pub open spec fn fits(self, area: Rect) -> bool {
        self.logo.band_of(area)
    }
}

/// A layout picked from a split of `area` into the startup screen's bands
/// fits the area.
pub proof fn lemma_picked_startup_layout_fits(bands: Seq<Rect>, area: Rect)
    requires
        bands_within(bands, startup_bands().len(), area),
    ensures
        StartupLayout::picked(bands).fits(area),
{
    assert(bands[1].band_of(area));
}

/// The startup screen as drawn into `layout`: the logo in bold light yellow,
/// and no region.
pub open spec fn startup_scene(layout: StartupLayout) -> SceneView {
    SceneView {
        paint: seq![
            PaintView {
                area: layout.logo,
                panel: PanelView {
                    lines: logo_lines(),
                    style: TextStyle::strong(Color::LightYellow),
                    border: None,
                },
            },
        ],
        regions: Seq::empty(),
    }
}

pub struct StartupScreen;

impl StartupScreen {
    /// The heights that the bands of the startup screen ask for.
    pub fn bands() -> (wishes: Vec<Constraint>)
        ensures
            wishes@ == startup_bands(),
    {
        let mut wishes: Vec<Constraint> = Vec::new();
        wishes.push(Constraint::Percentage(40));
        wishes.push(Constraint::Min(30));
        wishes.push(Constraint::Percentage(40));
        assert(wishes@ =~= startup_bands());
        wishes
    }

    /// Makes the layout of the bands of a split: the second is the logo's.
    pub fn pick(bands: &Vec<Rect>) -> (layout: StartupLayout)
        requires
            bands@.len() == startup_bands().len(),
        ensures
            layout == StartupLayout::picked(bands@),
    {
        StartupLayout { logo: bands[1] }
    }

    /// Splits `area` into the startup screen's bands: hands the area and the
    /// heights asked for to the layout engine and picks the layout from what
    /// comes back.
    pub fn layout(area: Rect) -> (layout: StartupLayout)
        ensures
            layout.fits(area),
    {
        let wishes = Self::bands();
        let bands = split_vertical(&wishes, area);
        proof {
            lemma_picked_startup_layout_fits(bands@, area);
        }
        Self::pick(&bands)
    }

    /// Draws the startup screen into the band of `layout`.
    pub fn compose(layout: &StartupLayout) -> (scene: Scene)
        ensures
            scene@ == startup_scene(*layout),
    {
        let plain = TextStyle { fg: None, bold: false, italic: false };
        let mut lines: Vec<Line> = Vec::new();
        lines.push(Line::blank());
        lines.push(Line::styled(LOGO_ROW_01, plain));
        lines.push(Line::styled(LOGO_ROW_02, plain));
        lines.push(Line::styled(LOGO_ROW_03, plain));
        lines.push(Line::styled(LOGO_ROW_04, plain));
        lines.push(Line::styled(LOGO_ROW_05, plain));
        lines.push(Line::styled(LOGO_ROW_06, plain));
        lines.push(Line::styled(LOGO_ROW_07, plain));
        lines.push(Line::styled(LOGO_ROW_08, plain));
        lines.push(Line::styled(LOGO_ROW_09, plain));
        lines.push(Line::styled(LOGO_ROW_10, plain));
        lines.push(Line::styled(LOGO_ROW_11, plain));
        lines.push(Line::styled(LOGO_ROW_12, plain));
        let logo = Panel { lines, style: TextStyle::fg(Color::LightYellow).bold(), border: None };
        assert(logo@.lines =~= logo_lines());

        let mut paint: Vec<PaintCommand> = Vec::new();
        paint.push(PaintCommand { area: layout.logo, panel: logo });
        let scene = Scene { paint, regions: Vec::new() };
        assert(scene@.paint =~= startup_scene(*layout).paint);
        assert(scene@.regions =~= startup_scene(*layout).regions);
        scene
    }

    /// Renders the startup screen into `area`: lays the logo band out and
    /// draws into it.
    pub fn start(area: Rect) -> (scene: Scene)
        ensures
            exists|layout: StartupLayout| #[trigger] layout.fits(area) && scene@ == startup_scene(layout),
    {
        let layout = Self::layout(area);
        Self::compose(&layout)
    }
}

} // verus!

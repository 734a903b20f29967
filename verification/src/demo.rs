//! The demo screen: shows the direction key pressed last and the most recent
//! keys of the history. It has no clickable element.

use vstd::prelude::*;
use vstd::string::*;
use crate::buttons::ArrowKeys;
use crate::geometry::Rect;
use crate::layout::{bands_within, split_vertical, Constraint};
use crate::scene::{
    Border, Color, Line, PaintCommand, PaintView, Panel, PanelView, Scene, SceneView, Span, SpanView,
    TextStyle,
};
use crate::state::{ScreenModel, ScreenState};

verus! {

/// How many keys of the history the demo screen shows.
pub const HISTORY_SHOWN: usize = 10;

/// The text of the title band.
pub const DEMO_TITLE: &'static str = "AlertAngel - Demo";

/// The heading of the content panel.
pub const DEMO_HEADING: &'static str = "🎮 Demo Mode";

/// The line that asks for keys.
pub const DEMO_PROMPT: &'static str = "Press Arrow Keys to interact";

/// The label before the last key.
pub const LAST_KEY_LABEL: &'static str = "Last Key Pressed: ";

/// What stands for the last key while none was pressed.
pub const NO_KEY: &'static str = "None";

/// The label above the history.
pub const HISTORY_LABEL: &'static str = "Key History: ";

/// What stands for the history while it is empty.
pub const NO_HISTORY: &'static str = "No keys pressed yet";

/// The label above the legend of keys.
pub const CONTROLS_LABEL: &'static str = "Arrow Key Controls:";

/// The legend of keys.
pub const CONTROLS: &'static str = "  ↑ Up  |  ↓ Down  |  ← Left  |  → Right";

/// The text of the footer band.
pub const DEMO_FOOTER: &'static str = "Press ESC to go back to home";

/// Where the demo screen draws: a title band, the content panel, a footer
/// band.
#[derive(Debug, Clone, Copy, PartialEq, Eq, Structural)]
pub struct DemoLayout {
    pub title: Rect,
    pub content: Rect,
    pub footer: Rect,
}

/// The heights that the bands of the demo screen ask for: three rows for the
/// title, ten or more for the content, three for the footer.
pub open spec fn demo_bands() -> Seq<Constraint> {
    seq![Constraint::Length(3), Constraint::Min(10), Constraint::Length(3)]
}

impl DemoLayout {
    /// The layout made of the bands of a split, from the top: title, content,
    /// footer.
    pub open spec fn picked(bands: Seq<Rect>) -> DemoLayout {
        DemoLayout { title: bands[0], content: bands[1], footer: bands[2] }
    }

    /// What every layout of the demo screen in `area` has: each band spans
    /// the area's columns and lies within its rows.
    pub open spec fn fits(self, area: Rect) -> bool {
        &&& self.title.band_of(area)
        &&& self.content.band_of(area)
        &&& self.footer.band_of(area)
    }
}

/// A layout picked from a split of `area` into the demo screen's bands fits
/// the area.
pub proof fn lemma_picked_demo_layout_fits(bands: Seq<Rect>, area: Rect)
    requires
        bands_within(bands, demo_bands().len(), area),
    ensures
        DemoLayout::picked(bands).fits(area),
{
    assert(bands[0].band_of(area) && bands[1].band_of(area) && bands[2].band_of(area));
}

/// The keys that the demo screen shows of `history`: its last ten at most,
/// the most recent first.
pub open spec fn trail(history: Seq<ArrowKeys>) -> Seq<ArrowKeys> {
    let from = if history.len() > HISTORY_SHOWN { history.len() - HISTORY_SHOWN } else { 0 };
    history.subrange(from, history.len() as int).reverse()
}

/// The glyphs of `keys`, in order, with one space between neighbours.
pub open spec fn glyph_row(keys: Seq<ArrowKeys>) -> Seq<char>
    decreases keys.len(),
{
    if keys.len() == 0 {
        Seq::empty()
    } else if keys.len() == 1 {
        keys[0].symbol()
    } else {
        glyph_row(keys.drop_last()) + " "@ + keys.last().symbol()
    }
}

/// The text shown for the last key: its glyph and, in brackets, its name.
pub open spec fn last_key_text(last_key: Option<ArrowKeys>) -> Seq<char> {
    match last_key {
        Some(key) => key.symbol() + " ("@ + key.name() + ")"@,
        None => NO_KEY@,
    }
}

/// The text shown for the history: the glyphs of its trail, or a notice
/// while it is empty.
pub open spec fn history_text(history: Seq<ArrowKeys>) -> Seq<char> {
    if history.len() == 0 {
        NO_HISTORY@
    } else {
        glyph_row(trail(history))
    }
}

/// The lines of the content panel.
pub open spec fn demo_lines(state: ScreenModel) -> Seq<Seq<SpanView>> {
    seq![
        seq![SpanView::run(DEMO_HEADING@, TextStyle::strong(Color::Cyan))],
        seq![],
        seq![SpanView::run(DEMO_PROMPT@, TextStyle::colored(Color::White))],
        seq![],
        seq![
            SpanView::run(LAST_KEY_LABEL@, TextStyle::colored(Color::Gray)),
            SpanView::run(last_key_text(state.last_key), TextStyle::strong(Color::Green)),
        ],
        seq![],
        seq![SpanView::run(HISTORY_LABEL@, TextStyle::colored(Color::Gray))],
        seq![SpanView::run(history_text(state.history), TextStyle::colored(Color::Magenta))],
        seq![],
        seq![SpanView::run(CONTROLS_LABEL@, TextStyle::colored(Color::Yellow))],
        seq![SpanView::run(CONTROLS@, TextStyle::colored(Color::White))],
    ]
}

/// The demo screen as drawn for `state` into `layout`: title, content panel
/// in a cyan box, footer hint; no region.
pub open spec fn demo_scene(state: ScreenModel, layout: DemoLayout) -> SceneView {
    SceneView {
        paint: seq![
            PaintView {
                area: layout.title,
                panel: PanelView::caption(DEMO_TITLE@, TextStyle::strong(Color::LightYellow)),
            },
            PaintView {
                area: layout.content,
                panel: PanelView {
                    lines: demo_lines(state),
                    style: TextStyle::plain(),
                    border: Some(Border { color: Color::Cyan, fill: None }),
                },
            },
            PaintView {
                area: layout.footer,
                panel: PanelView::caption(DEMO_FOOTER@, TextStyle::colored(Color::Gray)),
            },
        ],
        regions: Seq::empty(),
    }
}

/// The trail of a history of N keys holds its last ten keys at most, and
/// the key at place `k` of the trail is the one pressed `k` presses before the
/// last.
pub proof fn lemma_trail_most_recent_first(history: Seq<ArrowKeys>)
    ensures
        trail(history).len() == if history.len() > HISTORY_SHOWN {
            HISTORY_SHOWN as int
        } else {
            history.len() as int
        },
        forall|k: int| 0 <= k < trail(history).len() ==> trail(history)[k] == history[history.len() - 1 - k],
{
}

/// What the demo screen shows of the keys pressed: the line of the history
/// holds, for a history of N > 0 keys, the glyphs of the keys from place
/// max(0, N - 10) up to place N, in reverse, the most recent first; for an
/// empty history, the notice.
pub proof fn lemma_demo_shows_trail(state: ScreenModel, layout: DemoLayout)
    ensures
        demo_scene(state, layout).paint[1].panel.lines[7] == seq![
            SpanView::run(history_text(state.history), TextStyle::colored(Color::Magenta)),
        ],
        state.history.len() == 0 ==> history_text(state.history) == NO_HISTORY@,
        state.history.len() > 0 ==> history_text(state.history) == glyph_row(
            state.history.subrange(
                if state.history.len() > 10 {
                    state.history.len() - 10
                } else {
                    0
                },
                state.history.len() as int,
            ).reverse(),
        ),
{
}

pub struct DemoScreen;

impl DemoScreen {
    /// The keys to show of `history`: its last ten at most, the most recent
    /// first.
    pub fn recent(history: &Vec<ArrowKeys>) -> (keys: Vec<ArrowKeys>)
        ensures
            keys@ == trail(history@),
    {
        let n = history.len();
        let from = if n > HISTORY_SHOWN { n - HISTORY_SHOWN } else { 0 };
        let mut keys: Vec<ArrowKeys> = Vec::new();
        let mut i = n;
        while i > from
            invariant
                from <= i <= n,
                n == history@.len(),
                keys@.len() == n - i,
                forall|k: int| 0 <= k < keys@.len() ==> keys@[k] == history@[n - 1 - k],
            decreases i,
        {
            i = i - 1;
            keys.push(history[i]);
        }
        assert(keys@ =~= trail(history@));
        keys
    }

    /// The text shown for the last key.
    pub fn last_key_display(last_key: Option<ArrowKeys>) -> (text: String)
        ensures
            text@ == last_key_text(last_key),
    {
        match last_key {
            Some(key) => {
                let mut text = String::from_str(key.as_symbol());
                text.append(" (");
                text.append(key.as_name());
                text.append(")");
                text
            },
            None => String::from_str(NO_KEY),
        }
    }

    /// The text shown for the history.
    pub fn history_display(history: &Vec<ArrowKeys>) -> (text: String)
        ensures
            text@ == history_text(history@),
    {
        if history.len() == 0 {
            return String::from_str(NO_HISTORY);
        }
        let keys = Self::recent(history);
        let mut text = String::new();
        let mut i: usize = 0;
        while i < keys.len()
            invariant
                i <= keys@.len(),
                text@ == glyph_row(keys@.take(i as int)),
            decreases keys@.len() - i,
        {
            if i > 0 {
                text.append(" ");
            }
            text.append(keys[i].as_symbol());
            proof {
                let before = keys@.take(i as int);
                let now = keys@.take(i + 1);
                assert(now.drop_last() =~= before);
                assert(now.last() == keys@[i as int]);
                if i == 0 {
                    assert(glyph_row(before) =~= Seq::<char>::empty());
                    assert(text@ =~= keys@[0].symbol());
                }
            }
            i = i + 1;
        }
        assert(keys@.take(keys@.len() as int) =~= keys@);
        text
    }

    /// The heights that the bands of the demo screen ask for.
    pub fn bands() -> (wishes: Vec<Constraint>)
        ensures
            wishes@ == demo_bands(),
    {
        let mut wishes: Vec<Constraint> = Vec::new();
        wishes.push(Constraint::Length(3));
        wishes.push(Constraint::Min(10));
        wishes.push(Constraint::Length(3));
        assert(wishes@ =~= demo_bands());
        wishes
    }

    /// Makes the layout of the bands of a split: the first is the title, the
    /// second the content, the third the footer.
    pub fn pick(bands: &Vec<Rect>) -> (layout: DemoLayout)
        requires
            bands@.len() == demo_bands().len(),
        ensures
            layout == DemoLayout::picked(bands@),
    {
        DemoLayout { title: bands[0], content: bands[1], footer: bands[2] }
    }

    /// Splits `area` into the demo screen's bands: hands the area and the
    /// heights asked for to the layout engine and picks the layout from what
    /// comes back.
    pub fn layout(area: Rect) -> (layout: DemoLayout)
        ensures
            layout.fits(area),
    {
        let wishes = Self::bands();
        let bands = split_vertical(&wishes, area);
        proof {
            lemma_picked_demo_layout_fits(bands@, area);
        }
        Self::pick(&bands)
    }

    /// Draws the demo screen for `state` into the bands of `layout`.
    pub fn compose(state: &ScreenState, layout: &DemoLayout) -> (scene: Scene)
        ensures
            scene@ == demo_scene(state@, *layout),
    {
        let mut lines: Vec<Line> = Vec::new();
        lines.push(Line::styled(DEMO_HEADING, TextStyle::fg(Color::Cyan).bold()));
        lines.push(Line::blank());
        lines.push(Line::styled(DEMO_PROMPT, TextStyle::fg(Color::White)));
        lines.push(Line::blank());
        let last_key = Self::last_key_display(state.last_key());
        lines.push(
            Line::pair(
                Span::styled(LAST_KEY_LABEL, TextStyle::fg(Color::Gray)),
                Span::styled(last_key.as_str(), TextStyle::fg(Color::Green).bold()),
            ),
        );
        lines.push(Line::blank());
        lines.push(Line::styled(HISTORY_LABEL, TextStyle::fg(Color::Gray)));
        let history = Self::history_display(state.history());
        lines.push(Line::styled(history.as_str(), TextStyle::fg(Color::Magenta)));
        lines.push(Line::blank());
        lines.push(Line::styled(CONTROLS_LABEL, TextStyle::fg(Color::Yellow)));
        lines.push(Line::styled(CONTROLS, TextStyle::fg(Color::White)));
        let content = Panel {
            lines,
            style: TextStyle { fg: None, bold: false, italic: false },
            border: Some(Border { color: Color::Cyan, fill: None }),
        };
        assert(content@.lines =~= demo_lines(state@));

        let mut paint: Vec<PaintCommand> = Vec::new();
        paint.push(
            PaintCommand {
                area: layout.title,
                panel: Panel::caption(DEMO_TITLE, TextStyle::fg(Color::LightYellow).bold()),
            },
        );
        paint.push(PaintCommand { area: layout.content, panel: content });
        paint.push(
            PaintCommand {
                area: layout.footer,
                panel: Panel::caption(DEMO_FOOTER, TextStyle::fg(Color::Gray)),
            },
        );
        let scene = Scene { paint, regions: Vec::new() };
        assert(scene@.paint =~= demo_scene(state@, *layout).paint);
        assert(scene@.regions =~= demo_scene(state@, *layout).regions);
        scene
    }

    /// Renders the demo screen for `state` into `area`: lays the bands out
    /// and draws into them.
    pub fn start(state: &ScreenState, area: Rect) -> (scene: Scene)
        ensures
            exists|layout: DemoLayout| #[trigger] layout.fits(area) && scene@ == demo_scene(state@, layout),
    {
        let layout = Self::layout(area);
        Self::compose(state, &layout)
    }
}

} // verus!

//! What a render call hands back: the paint tree for the host to draw, and
//! the regions that pointer input is tested against until the next render.

use vstd::prelude::*;
use vstd::string::*;
use crate::geometry::Rect;
use crate::Screen;

verus! {

/// The colors that the screens paint with.
#[derive(Debug, Clone, Copy, PartialEq, Eq, Structural)]
pub enum Color {
    Reset,
    Black,
    White,
    Gray,
    DarkGray,
    Cyan,
    Magenta,
    Green,
    Yellow,
    LightYellow,
}

/// How a run of text is drawn. Without a foreground of its own it takes that
/// of the panel around it.
#[derive(Debug, Clone, Copy, PartialEq, Eq, Structural)]
pub struct TextStyle {
    pub fg: Option<Color>,
    pub bold: bool,
    pub italic: bool,
}

impl TextStyle {
    /// No foreground, no emphasis.
    pub open spec fn plain() -> TextStyle {
        TextStyle { fg: None, bold: false, italic: false }
    }

    /// The foreground `color`, no emphasis.
    pub open spec fn colored(color: Color) -> TextStyle {
        TextStyle { fg: Some(color), bold: false, italic: false }
    }

    /// The foreground `color`, bold.
    pub open spec fn strong(color: Color) -> TextStyle {
        TextStyle { fg: Some(color), bold: true, italic: false }
    }

    /// The foreground `color`, italic.
    pub open spec fn slanted(color: Color) -> TextStyle {
        TextStyle { fg: Some(color), bold: false, italic: true }
    }

    /// The style with the foreground `color` and no emphasis.
    pub fn fg(color: Color) -> (style: TextStyle)
        ensures
            style == TextStyle::colored(color),
    {
        TextStyle { fg: Some(color), bold: false, italic: false }
    }

    /// This style, bold.
    pub fn bold(self) -> (style: TextStyle)
        ensures
            style == (TextStyle { bold: true, ..self }),
    {
        TextStyle { fg: self.fg, bold: true, italic: self.italic }
    }

    /// This style, italic.
    pub fn italic(self) -> (style: TextStyle)
        ensures
            style == (TextStyle { italic: true, ..self }),
    {
        TextStyle { fg: self.fg, bold: self.bold, italic: true }
    }
}

/// A run of text in one style.
#[derive(Debug, Clone, PartialEq, Eq)]
pub struct Span {
    pub text: String,
    pub style: TextStyle,
}

/// The contents of a [`Span`].
pub struct SpanView {
    pub text: Seq<char>,
    pub style: TextStyle,
}

impl View for Span {
    type V = SpanView;

    open spec fn view(&self) -> SpanView {
        SpanView { text: self.text@, style: self.style }
    }
}

impl SpanView {
    /// The run `text` in `style`.
    pub open spec fn run(text: Seq<char>, style: TextStyle) -> SpanView {
        SpanView { text, style }
    }
}

impl Span {
    /// The run `text` in `style`.
    pub fn styled(text: &str, style: TextStyle) -> (span: Span)
        ensures
            span@ == SpanView::run(text@, style),
    {
        Span { text: String::from_str(text), style }
    }
}

/// One line of a panel: its spans, left to right.
#[derive(Debug, Clone, PartialEq, Eq)]
pub struct Line {
    pub spans: Vec<Span>,
}

impl View for Line {
    type V = Seq<SpanView>;

    open spec fn view(&self) -> Seq<SpanView> {
        self.spans@.map_values(|s: Span| s@)
    }
}

impl Line {
    /// The line without text.
    pub fn blank() -> (line: Line)
        ensures
            line@ == Seq::<SpanView>::empty(),
    {
        let line = Line { spans: Vec::new() };
        assert(line@ =~= Seq::<SpanView>::empty());
        line
    }

    /// The line that holds `span` alone.
    pub fn of(span: Span) -> (line: Line)
        ensures
            line@ == seq![span@],
    {
        let mut spans: Vec<Span> = Vec::new();
        spans.push(span);
        let line = Line { spans };
        assert(line@ =~= seq![span@]);
        line
    }

    /// The line that holds `text` in `style`.
    pub fn styled(text: &str, style: TextStyle) -> (line: Line)
        ensures
            line@ == seq![SpanView::run(text@, style)],
    {
        Line::of(Span::styled(text, style))
    }

    /// The line of `first` followed by `second`.
    pub fn pair(first: Span, second: Span) -> (line: Line)
        ensures
            line@ == seq![first@, second@],
    {
        let mut spans: Vec<Span> = Vec::new();
        spans.push(first);
        spans.push(second);
        let line = Line { spans };
        assert(line@ =~= seq![first@, second@]);
        line
    }
}

/// The box drawn round a panel on all four sides.
#[derive(Debug, Clone, Copy, PartialEq, Eq, Structural)]
pub struct Border {
    /// The color of the box's lines.
    pub color: Color,
    /// The background inside the box, if the panel sets one.
    pub fill: Option<Color>,
}

/// A block of centered text, drawn into one rectangle.
#[derive(Debug, Clone, PartialEq, Eq)]
pub struct Panel {
    pub lines: Vec<Line>,
    /// The style that the panel's text has where a span sets none.
    pub style: TextStyle,
    pub border: Option<Border>,
}

/// The contents of a [`Panel`].
pub struct PanelView {
    pub lines: Seq<Seq<SpanView>>,
    pub style: TextStyle,
    pub border: Option<Border>,
}

impl View for Panel {
    type V = PanelView;

    open spec fn view(&self) -> PanelView {
        PanelView {
            lines: self.lines@.map_values(|l: Line| l@),
            style: self.style,
            border: self.border,
        }
    }
}

impl PanelView {
    /// The panel of one line of text, without a border; the text takes the
    /// panel's style.
    pub open spec fn caption(text: Seq<char>, style: TextStyle) -> PanelView {
        PanelView {
            lines: seq![seq![SpanView::run(text, TextStyle::plain())]],
            style,
            border: None,
        }
    }
}

impl Panel {
    /// The panel of one line of text, without a border.
    pub fn caption(text: &str, style: TextStyle) -> (panel: Panel)
        ensures
            panel@ == PanelView::caption(text@, style),
    {
        let plain = TextStyle { fg: None, bold: false, italic: false };
        let mut lines: Vec<Line> = Vec::new();
        lines.push(Line::styled(text, plain));
        let panel = Panel { lines, style, border: None };
        assert(panel@.lines =~= PanelView::caption(text@, style).lines);
        panel
    }
}

/// One step of painting: a panel and the rectangle it is drawn into.
#[derive(Debug, Clone, PartialEq, Eq)]
pub struct PaintCommand {
    pub area: Rect,
    pub panel: Panel,
}

/// The contents of a [`PaintCommand`].
pub struct PaintView {
    pub area: Rect,
    pub panel: PanelView,
}

impl View for PaintCommand {
    type V = PaintView;

    open spec fn view(&self) -> PaintView {
        PaintView { area: self.area, panel: self.panel@ }
    }
}

/// The clickable elements of the home screen.
#[derive(Debug, Clone, Copy, PartialEq, Eq, Hash, Structural)]
pub enum ButtonId {
    Demo,
    Blog,
    Contact,
}

/// What activating a region asks for.
#[derive(Debug, Clone, Copy, PartialEq, Eq, Structural)]
pub enum Activation {
    /// Leave for the given screen.
    Navigate(Screen),
    /// Nothing changes; the host may note that the element was chosen.
    Announce,
}

/// A clickable element: which one, where it was drawn, what it asks for.
#[derive(Debug, Clone, Copy, PartialEq, Eq, Structural)]
pub struct InteractiveRegion {
    pub id: ButtonId,
    pub rect: Rect,
    pub on_activate: Activation,
}

/// The result of rendering one screen.
#[derive(Debug, Clone, PartialEq, Eq)]
pub struct Scene {
    /// The panels to draw, in drawing order.
    pub paint: Vec<PaintCommand>,
    /// The clickable elements, in the order they were drawn.
    pub regions: Vec<InteractiveRegion>,
}

/// The contents of a [`Scene`].
pub struct SceneView {
    pub paint: Seq<PaintView>,
    pub regions: Seq<InteractiveRegion>,
}

impl View for Scene {
    type V = SceneView;

    open spec fn view(&self) -> SceneView {
        SceneView { paint: self.paint@.map_values(|c: PaintCommand| c@), regions: self.regions@ }
    }
}

} // verus!

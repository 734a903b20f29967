use alertangel::buttons::ArrowKeys;
use alertangel::demo::{DemoLayout, DemoScreen};
use alertangel::geometry::Rect;
use alertangel::home::{ButtonState, HomeLayout, HomeScreen, Palette};
use alertangel::layout::Constraint;
use alertangel::render::{compose, render, ScreenLayout};
use alertangel::scene::{Activation, Border, ButtonId, Color, InteractiveRegion, Line, Panel, Span, TextStyle};
use alertangel::startup::{StartupLayout, StartupScreen};
use alertangel::state::ScreenState;
use alertangel::Screen;

fn rect(x: u16, y: u16, width: u16, height: u16) -> Rect {
    Rect { x, y, width, height }
}

fn style(fg: Option<Color>, bold: bool, italic: bool) -> TextStyle {
    TextStyle { fg, bold, italic }
}

fn line(text: &str, style: TextStyle) -> Line {
    Line { spans: vec![Span { text: text.to_string(), style }] }
}

fn blank() -> Line {
    Line { spans: vec![] }
}

fn caption(text: &str, panel_style: TextStyle) -> Panel {
    Panel { lines: vec![line(text, style(None, false, false))], style: panel_style, border: None }
}

fn pressed(keys: &[ArrowKeys]) -> ScreenState {
    let mut state = ScreenState::new();
    for key in keys {
        state.record_key(*key);
    }
    state
}

const UP: ArrowKeys = ArrowKeys::TopArrow;
const DOWN: ArrowKeys = ArrowKeys::BottomArrow;
const LEFT: ArrowKeys = ArrowKeys::LeftArrow;
const RIGHT: ArrowKeys = ArrowKeys::RightArrow;

#[test]
fn text_styles_build_up() {
    assert_eq!(TextStyle::fg(Color::Cyan), style(Some(Color::Cyan), false, false));
    assert_eq!(TextStyle::fg(Color::Cyan).bold(), style(Some(Color::Cyan), true, false));
    assert_eq!(TextStyle::fg(Color::Gray).italic(), style(Some(Color::Gray), false, true));
    assert_eq!(TextStyle::fg(Color::Gray).italic().bold(), style(Some(Color::Gray), true, true));
}

#[test]
fn lines_hold_their_spans_in_order() {
    assert_eq!(Line::blank(), blank());
    let a = Span::styled("a", TextStyle::fg(Color::Gray));
    let b = Span::styled("b", TextStyle::fg(Color::Green).bold());
    assert_eq!(a.text, "a");
    assert_eq!(Line::of(a.clone()).spans, vec![a.clone()]);
    assert_eq!(Line::pair(a.clone(), b.clone()).spans, vec![a, b]);
    assert_eq!(Line::styled("x", TextStyle::fg(Color::White)), line("x", style(Some(Color::White), false, false)));
    assert_eq!(Panel::caption("t", TextStyle::fg(Color::Gray)), caption("t", style(Some(Color::Gray), false, false)));
}

#[test]
fn recent_keys_are_the_last_ten_reversed() {
    assert_eq!(DemoScreen::recent(&vec![]), vec![]);
    assert_eq!(DemoScreen::recent(&vec![UP]), vec![UP]);
    assert_eq!(DemoScreen::recent(&vec![UP, LEFT]), vec![LEFT, UP]);
    let ten = vec![UP, UP, LEFT, LEFT, DOWN, DOWN, RIGHT, RIGHT, UP, DOWN];
    let mut reversed = ten.clone();
    reversed.reverse();
    assert_eq!(DemoScreen::recent(&ten), reversed);
    let mut twelve = vec![RIGHT, LEFT];
    twelve.extend(ten.iter().copied());
    assert_eq!(DemoScreen::recent(&twelve), reversed);
    let mut eleven = vec![LEFT];
    eleven.extend(ten.iter().copied());
    assert_eq!(DemoScreen::recent(&eleven), reversed);
}

#[test]
fn recent_keys_follow_history_for_every_length() {
    let cycle = [UP, RIGHT, DOWN, LEFT, LEFT];
    let mut history: Vec<ArrowKeys> = Vec::new();
    for n in 0..40 {
        let from = if n > 10 { n - 10 } else { 0 };
        let mut expected: Vec<ArrowKeys> = history[from..n].to_vec();
        expected.reverse();
        assert_eq!(DemoScreen::recent(&history), expected);
        assert_eq!(history.len(), n);
        history.push(cycle[n % cycle.len()]);
    }
}

#[test]
fn last_key_display_shows_glyph_and_name() {
    assert_eq!(DemoScreen::last_key_display(None), "None");
    assert_eq!(DemoScreen::last_key_display(Some(UP)), "↑ (Up)");
    assert_eq!(DemoScreen::last_key_display(Some(DOWN)), "↓ (Down)");
    assert_eq!(DemoScreen::last_key_display(Some(LEFT)), "← (Left)");
    assert_eq!(DemoScreen::last_key_display(Some(RIGHT)), "→ (Right)");
}

#[test]
fn history_display_joins_glyphs_with_spaces() {
    assert_eq!(DemoScreen::history_display(&vec![]), "No keys pressed yet");
    assert_eq!(DemoScreen::history_display(&vec![UP]), "↑");
    assert_eq!(DemoScreen::history_display(&vec![UP, LEFT]), "← ↑");
    assert_eq!(DemoScreen::history_display(&vec![UP, LEFT, RIGHT, DOWN]), "↓ → ← ↑");
    let twelve = vec![UP, UP, LEFT, LEFT, LEFT, LEFT, LEFT, LEFT, LEFT, LEFT, RIGHT, DOWN];
    assert_eq!(DemoScreen::history_display(&twelve), "↓ → ← ← ← ← ← ← ← ←");
}

#[test]
fn demo_scene_for_a_fresh_state() {
    let layout = DemoLayout { title: rect(0, 0, 80, 3), content: rect(0, 3, 80, 18), footer: rect(0, 21, 80, 3) };
    let scene = DemoScreen::compose(&ScreenState::new(), &layout);
    assert!(scene.regions.is_empty());
    assert_eq!(scene.paint.len(), 3);
    assert_eq!(scene.paint[0].area, layout.title);
    assert_eq!(scene.paint[0].panel, caption("AlertAngel - Demo", style(Some(Color::LightYellow), true, false)));
    assert_eq!(scene.paint[1].area, layout.content);
    assert_eq!(scene.paint[2].area, layout.footer);
    assert_eq!(scene.paint[2].panel, caption("Press ESC to go back to home", style(Some(Color::Gray), false, false)));

    let content = &scene.paint[1].panel;
    assert_eq!(content.style, style(None, false, false));
    assert_eq!(content.border, Some(Border { color: Color::Cyan, fill: None }));
    let gray = style(Some(Color::Gray), false, false);
    let white = style(Some(Color::White), false, false);
    assert_eq!(
        content.lines,
        vec![
            line("🎮 Demo Mode", style(Some(Color::Cyan), true, false)),
            blank(),
            line("Press Arrow Keys to interact", white),
            blank(),
            Line {
                spans: vec![
                    Span { text: "Last Key Pressed: ".to_string(), style: gray },
                    Span { text: "None".to_string(), style: style(Some(Color::Green), true, false) },
                ],
            },
            blank(),
            line("Key History: ", gray),
            line("No keys pressed yet", style(Some(Color::Magenta), false, false)),
            blank(),
            line("Arrow Key Controls:", style(Some(Color::Yellow), false, false)),
            line("  ↑ Up  |  ↓ Down  |  ← Left  |  → Right", white),
        ]
    );
}

#[test]
fn demo_scene_shows_last_key_and_trail() {
    let layout = DemoLayout { title: rect(0, 0, 80, 3), content: rect(0, 3, 80, 18), footer: rect(0, 21, 80, 3) };
    let state = pressed(&[UP, LEFT]);
    let scene = DemoScreen::compose(&state, &layout);
    let content = &scene.paint[1].panel;
    assert_eq!(content.lines.len(), 11);
    assert_eq!(content.lines[4].spans[1].text, "← (Left)");
    assert_eq!(content.lines[7].spans[0].text, "← ↑");

    let mut keys = Vec::new();
    for n in 0..13 {
        keys.push([UP, DOWN, LEFT, RIGHT][n % 4]);
    }
    let scene = DemoScreen::compose(&pressed(&keys), &layout);
    assert_eq!(scene.paint[1].panel.lines[4].spans[1].text, "↑ (Up)");
    assert_eq!(scene.paint[1].panel.lines[7].spans[0].text, "↑ → ← ↓ ↑ → ← ↓ ↑ →");
}

#[test]
fn demo_layout_has_three_bands() {
    let layout = DemoScreen::layout(rect(0, 0, 80, 24));
    assert_eq!(layout.title, rect(0, 0, 80, 3));
    assert_eq!(layout.content, rect(0, 3, 80, 18));
    assert_eq!(layout.footer, rect(0, 21, 80, 3));
    let shifted = DemoScreen::layout(rect(4, 2, 60, 30));
    assert_eq!(shifted.title, rect(4, 2, 60, 3));
    assert_eq!(shifted.content, rect(4, 5, 60, 24));
    assert_eq!(shifted.footer, rect(4, 29, 60, 3));
}

#[test]
fn demo_start_lays_out_and_draws() {
    let state = pressed(&[RIGHT]);
    let area = rect(0, 0, 80, 24);
    let scene = DemoScreen::start(&state, area);
    assert_eq!(scene, DemoScreen::compose(&state, &DemoScreen::layout(area)));
    assert_eq!(scene.paint[1].area, rect(0, 3, 80, 18));
    assert_eq!(scene.paint[1].panel.lines[7].spans[0].text, "→");
}

#[test]
fn palette_follows_the_button_state() {
    assert_eq!(
        Palette::pick(Color::Cyan, ButtonState::Normal),
        Palette { background: Color::Reset, border: Color::Cyan, text: Color::White, tooltip: Color::Gray }
    );
    assert_eq!(
        Palette::pick(Color::Cyan, ButtonState::Hovered),
        Palette { background: Color::Cyan, border: Color::White, text: Color::Black, tooltip: Color::DarkGray }
    );
    assert_eq!(ButtonState::from_hover(false), ButtonState::Normal);
    assert_eq!(ButtonState::from_hover(true), ButtonState::Hovered);
}

#[test]
fn button_panel_at_rest() {
    let panel = HomeScreen::create_button("Demo", "Try it", Color::Cyan, ButtonState::Normal);
    assert_eq!(
        panel,
        Panel {
            lines: vec![
                line("  Demo  ", style(Some(Color::White), true, false)),
                blank(),
                line("Try it", style(Some(Color::Gray), false, true)),
            ],
            style: style(None, false, false),
            border: Some(Border { color: Color::Cyan, fill: Some(Color::Reset) }),
        }
    );
}

#[test]
fn button_panel_under_the_pointer() {
    let panel = HomeScreen::create_button("Blog", "Coming Soon", Color::Magenta, ButtonState::Hovered);
    assert_eq!(
        panel,
        Panel {
            lines: vec![
                line("  Blog  ", style(Some(Color::Black), true, false)),
                blank(),
                line("Coming Soon", style(Some(Color::DarkGray), false, true)),
            ],
            style: style(None, false, false),
            border: Some(Border { color: Color::White, fill: Some(Color::Magenta) }),
        }
    );
}

fn home_layout() -> HomeLayout {
    HomeLayout {
        title: rect(0, 0, 80, 6),
        demo: rect(20, 8, 40, 5),
        blog: rect(20, 14, 40, 5),
        contact: rect(20, 20, 40, 5),
        footer: rect(0, 37, 80, 3),
    }
}

#[test]
fn home_layout_stacks_the_buttons_inside_the_margins() {
    assert_eq!(HomeScreen::layout(rect(0, 0, 80, 40)), home_layout());
    let shifted = HomeScreen::layout(rect(3, 1, 100, 50));
    assert_eq!(shifted.title, rect(3, 1, 100, 6));
    assert_eq!(shifted.footer, rect(3, 48, 100, 3));
    assert_eq!(shifted.demo, rect(23, 9, 60, 5));
    assert_eq!(shifted.blog, rect(23, 15, 60, 5));
    assert_eq!(shifted.contact, rect(23, 21, 60, 5));
}

#[test]
fn home_layout_of_a_narrow_area_has_empty_buttons() {
    let layout = HomeScreen::layout(rect(0, 0, 39, 40));
    assert_eq!(layout.title, rect(0, 0, 39, 6));
    assert_eq!((layout.demo.x, layout.demo.width), (0, 0));
    assert_eq!((layout.blog.x, layout.blog.width), (0, 0));
    assert_eq!((layout.contact.x, layout.contact.width), (0, 0));
    assert!(!layout.demo.contains(0, 0));
}

#[test]
fn home_layout_at_the_end_of_the_grid_saturates() {
    let layout = HomeScreen::layout(rect(65530, 0, 100, 40));
    assert_eq!((layout.title.x, layout.title.width), (65530, 100));
    assert_eq!((layout.demo.x, layout.demo.width), (65535, 60));
    assert_eq!((layout.blog.x, layout.blog.width), (65535, 60));
    assert_eq!((layout.contact.x, layout.contact.width), (65535, 60));
}

#[test]
fn home_layout_of_a_flat_area_has_empty_buttons() {
    let layout = HomeScreen::layout(rect(0, 0, 80, 3));
    assert_eq!((layout.demo.x, layout.demo.width), (0, 0));
    assert_eq!((layout.blog.x, layout.blog.width), (0, 0));
    assert_eq!((layout.contact.x, layout.contact.width), (0, 0));
}

#[test]
fn demo_and_startup_layouts_of_a_small_area_raise_no_error() {
    for (width, height) in [(0, 0), (1, 1), (10, 5), (80, 2), (3, 200)] {
        let area = rect(2, 1, width, height);
        let demo = DemoScreen::start(&ScreenState::new(), area);
        assert_eq!(demo.paint.len(), 3);
        for command in &demo.paint {
            assert_eq!((command.area.x, command.area.width), (2, width));
        }
        let startup = StartupScreen::start(area);
        assert_eq!(startup.paint.len(), 1);
        assert_eq!((startup.paint[0].area.x, startup.paint[0].area.width), (2, width));
    }
}

#[test]
fn home_layout_of_a_small_area_raises_no_error() {
    for (width, height) in [(0, 0), (1, 1), (40, 4), (40, 10), (80, 12), (200, 3)] {
        let area = rect(0, 0, width, height);
        let scene = HomeScreen::start(&ScreenState::new(), area);
        assert_eq!(scene.paint.len(), 5);
        assert_eq!(scene.regions.len(), 3);
        assert_eq!((scene.paint[0].area.x, scene.paint[0].area.width), (0, width));
        assert_eq!((scene.paint[4].area.x, scene.paint[4].area.width), (0, width));
    }
}

#[test]
fn home_scene_draws_title_buttons_and_footer() {
    let layout = home_layout();
    let mut state = ScreenState::new();
    state.set_hovered(ButtonId::Blog, true);
    let scene = HomeScreen::compose(&state, &layout);
    assert_eq!(scene.paint.len(), 5);
    assert_eq!(scene.paint[0].area, layout.title);
    assert_eq!(scene.paint[0].panel, caption("AlertAngel", style(Some(Color::LightYellow), true, false)));
    assert_eq!(scene.paint[1].area, layout.demo);
    assert_eq!(
        scene.paint[1].panel,
        HomeScreen::create_button(
            "Demo",
            "Get a feel of the UI and workflow before buying the device",
            Color::Cyan,
            ButtonState::Normal
        )
    );
    assert_eq!(scene.paint[2].area, layout.blog);
    assert_eq!(
        scene.paint[2].panel,
        HomeScreen::create_button("Blog", "Coming Soon", Color::Magenta, ButtonState::Hovered)
    );
    assert_eq!(scene.paint[3].area, layout.contact);
    assert_eq!(
        scene.paint[3].panel,
        HomeScreen::create_button("Contact", "Email : lorem@ipsummail.com", Color::Green, ButtonState::Normal)
    );
    assert_eq!(scene.paint[4].area, layout.footer);
    assert_eq!(
        scene.paint[4].panel,
        caption("Use keyboard shortcuts or click on buttons to navigate", style(Some(Color::Gray), false, false))
    );
}

#[test]
fn home_scene_yields_one_region_for_each_button() {
    let layout = home_layout();
    let scene = HomeScreen::compose(&ScreenState::new(), &layout);
    assert_eq!(
        scene.regions,
        vec![
            InteractiveRegion {
                id: ButtonId::Demo,
                rect: layout.demo,
                on_activate: Activation::Navigate(Screen::Demo)
            },
            InteractiveRegion { id: ButtonId::Blog, rect: layout.blog, on_activate: Activation::Announce },
            InteractiveRegion { id: ButtonId::Contact, rect: layout.contact, on_activate: Activation::Announce },
        ]
    );
}

#[test]
fn home_start_lays_out_and_draws() {
    let mut state = ScreenState::new();
    state.set_hovered(ButtonId::Demo, true);
    let area = rect(0, 0, 80, 40);
    let scene = HomeScreen::start(&state, area);
    assert_eq!(scene, HomeScreen::compose(&state, &home_layout()));
}

#[test]
fn startup_scene_is_the_logo() {
    let layout = StartupLayout { logo: rect(0, 10, 80, 30) };
    let scene = StartupScreen::compose(&layout);
    assert!(scene.regions.is_empty());
    assert_eq!(scene.paint.len(), 1);
    assert_eq!(scene.paint[0].area, layout.logo);
    let logo = &scene.paint[0].panel;
    assert_eq!(logo.style, style(Some(Color::LightYellow), true, false));
    assert_eq!(logo.border, None);
    assert_eq!(logo.lines.len(), 13);
    assert_eq!(logo.lines[0], blank());
    assert_eq!(logo.lines[1], line(" █████╗ ██╗     ███████╗██████╗ ████████╗", style(None, false, false)));
    assert_eq!(logo.lines[6], line("╚═╝  ╚═╝╚══════╝╚══════╝╚═╝  ╚═╝   ╚═╝   ", style(None, false, false)));
    assert_eq!(logo.lines[12], line("╚═╝  ╚═╝╚═╝  ╚═══╝ ╚═════╝ ╚══════╝╚══════╝", style(None, false, false)));
    for row in &logo.lines[1..7] {
        assert_eq!(row.spans[0].text.chars().count(), 41);
    }
    for row in &logo.lines[7..13] {
        assert_eq!(row.spans[0].text.chars().count(), 43);
    }
}

#[test]
fn startup_layout_centers_the_logo_band() {
    let layout = StartupScreen::layout(rect(0, 0, 80, 200));
    assert_eq!(layout.logo, rect(0, 80, 80, 40));
    let shifted = StartupScreen::layout(rect(5, 0, 70, 100));
    assert_eq!((shifted.logo.x, shifted.logo.width), (5, 70));
    let scene = StartupScreen::start(rect(0, 0, 80, 200));
    assert_eq!(scene, StartupScreen::compose(&layout));
}

#[test]
fn render_picks_the_screen() {
    let mut state = pressed(&[DOWN]);
    state.set_hovered(ButtonId::Contact, true);
    assert_eq!(render(Screen::Startup, &state, rect(0, 0, 80, 200)), StartupScreen::start(rect(0, 0, 80, 200)));
    assert_eq!(render(Screen::Home, &state, rect(0, 0, 80, 40)), HomeScreen::start(&state, rect(0, 0, 80, 40)));
    assert_eq!(render(Screen::Demo, &state, rect(0, 0, 80, 24)), DemoScreen::start(&state, rect(0, 0, 80, 24)));
}

#[test]
fn render_reads_the_passed_state_only() {
    let state = pressed(&[UP, UP]);
    let area = rect(0, 0, 80, 24);
    let first = render(Screen::Demo, &state, area);
    let mut other = ScreenState::new();
    other.record_key(LEFT);
    let _ = render(Screen::Demo, &other, area);
    let _ = render(Screen::Home, &other, rect(0, 0, 90, 50));
    assert_eq!(render(Screen::Demo, &state, area), first);
}

#[test]
fn screen_layout_knows_its_screen() {
    assert_eq!(ScreenLayout::of(Screen::Startup, rect(0, 0, 80, 40)).screen(), Screen::Startup);
    assert_eq!(ScreenLayout::of(Screen::Home, rect(0, 0, 80, 40)), ScreenLayout::Home(home_layout()));
    assert_eq!(ScreenLayout::of(Screen::Demo, rect(0, 0, 80, 40)).screen(), Screen::Demo);
    let state = ScreenState::new();
    assert_eq!(
        compose(&state, &ScreenLayout::Home(home_layout())),
        HomeScreen::compose(&state, &home_layout())
    );
}

fn within(band: Rect, area: Rect) -> bool {
    band.x == area.x
        && band.width == area.width
        && area.y <= band.y
        && band.y as u32 + band.height as u32 <= area.y as u32 + area.height as u32
}

fn areas() -> Vec<Rect> {
    let mut areas = Vec::new();
    for (x, y) in [(0, 0), (3, 7), (65000, 65000)] {
        for width in [0, 1, 39, 40, 41, 80, 200] {
            for height in [0, 1, 2, 3, 4, 5, 8, 9, 10, 17, 24, 28, 29, 30, 31, 40, 75, 100, 200, 600] {
                areas.push(rect(x, y, width, height));
            }
        }
    }
    areas
}

#[test]
fn screens_ask_for_their_bands() {
    assert_eq!(
        StartupScreen::bands(),
        vec![Constraint::Percentage(40), Constraint::Min(30), Constraint::Percentage(40)]
    );
    assert_eq!(HomeScreen::bands(), vec![Constraint::Length(6), Constraint::Min(20), Constraint::Length(3)]);
    assert_eq!(
        HomeScreen::button_rows(),
        vec![
            Constraint::Length(5),
            Constraint::Length(1),
            Constraint::Length(5),
            Constraint::Length(1),
            Constraint::Length(5),
            Constraint::Min(0),
        ]
    );
    assert_eq!(DemoScreen::bands(), vec![Constraint::Length(3), Constraint::Min(10), Constraint::Length(3)]);
}

#[test]
fn layouts_are_picked_from_the_bands_in_order() {
    let bands = vec![rect(0, 0, 9, 1), rect(0, 1, 9, 2), rect(0, 3, 9, 3)];
    let rows: Vec<Rect> = (0..6).map(|n| rect(2, 10 + n, 5, 1)).collect();
    assert_eq!(StartupScreen::pick(&bands), StartupLayout { logo: bands[1] });
    assert_eq!(DemoScreen::pick(&bands), DemoLayout { title: bands[0], content: bands[1], footer: bands[2] });
    assert_eq!(
        HomeScreen::pick(&bands, &rows),
        HomeLayout { title: bands[0], demo: rows[0], blog: rows[2], contact: rows[4], footer: bands[2] }
    );
}

#[test]
fn button_area_is_the_middle_band_less_the_margins() {
    let bands = vec![rect(0, 0, 80, 6), rect(0, 6, 80, 31), rect(0, 37, 80, 3)];
    assert_eq!(HomeScreen::button_area(&bands), rect(20, 8, 40, 27));
    let narrow = vec![rect(0, 0, 39, 6), rect(0, 6, 39, 31), rect(0, 37, 39, 3)];
    assert_eq!(HomeScreen::button_area(&narrow), rect(0, 0, 0, 0));
    let flat = vec![rect(0, 0, 80, 0), rect(0, 0, 80, 3), rect(0, 3, 80, 0)];
    assert_eq!(HomeScreen::button_area(&flat), rect(0, 0, 0, 0));
    let exact = vec![rect(5, 0, 40, 0), rect(5, 9, 40, 4), rect(5, 13, 40, 0)];
    assert_eq!(HomeScreen::button_area(&exact), rect(25, 11, 0, 0));
}

#[test]
fn every_band_lies_within_its_area() {
    for area in areas() {
        let startup = StartupScreen::layout(area);
        assert!(within(startup.logo, area), "{:?} in {:?}", startup, area);
        let demo = DemoScreen::layout(area);
        for band in [demo.title, demo.content, demo.footer] {
            assert!(within(band, area), "{:?} in {:?}", demo, area);
        }
        let home = HomeScreen::layout(area);
        for band in [home.title, home.footer] {
            assert!(within(band, area), "{:?} in {:?}", home, area);
        }
        assert!(home.demo.x == home.blog.x && home.blog.x == home.contact.x);
        assert!(home.demo.width == home.blog.width && home.blog.width == home.contact.width);
        for button in [home.demo, home.blog, home.contact] {
            assert!(button.width <= area.width);
            assert!(button.y as u32 + button.height as u32 <= area.y as u32 + area.height as u32);
        }
    }
}

#[test]
fn home_buttons_are_stacked_where_they_fit() {
    for (width, height) in [(80, 40), (80, 30), (41, 30), (120, 75), (200, 600)] {
        let area = rect(2, 1, width, height);
        let home = HomeScreen::layout(area);
        assert_eq!((home.title.y, home.title.height), (1, 6));
        assert_eq!((home.footer.y, home.footer.height), (1 + height - 3, 3));
        assert_eq!((home.demo.y, home.demo.height), (9, 5));
        assert_eq!((home.blog.y, home.blog.height), (15, 5));
        assert_eq!((home.contact.y, home.contact.height), (21, 5));
        for (col, row) in [(22 + (width - 40) / 2, 9), (22, 13), (22 + width - 41, 11)] {
            assert!(home.demo.contains(col as i32, row as i32));
            assert!(!home.blog.contains(col as i32, row as i32));
            assert!(!home.contact.contains(col as i32, row as i32));
        }
    }
}

use bcachefs_tui::app::{App, KeyCode, KeyEvent, KeyEventKind};
use bcachefs_tui::render::{Cell, Color, Grid, Style};

fn line_text(g: &Grid, y: usize) -> String {
    g.rows[y].iter().map(|c| c.ch).collect()
}

fn cell_style(g: &Grid, x: usize, y: usize) -> Style {
    g.rows[y][x].style
}

const PLAIN: Style = Style { bold: false, color: Color::Plain };
const TITLE: Style = Style { bold: true, color: Color::Plain };
const KEY: Style = Style { bold: true, color: Color::Blue };
const VALUE: Style = Style { bold: false, color: Color::Yellow };

#[test]
fn render() {
    let app = App::default();
    let g = app.render(50, 4);

    let expected = [
        "\u{250f}\u{2501}\u{2501}\u{2501}\u{2501}\u{2501}\u{2501}\u{2501}\u{2501}\u{2501}\u{2501}\u{2501}\u{2501}\u{2501}\u{2501}\u{2501}\u{2501}\u{2501} Bcachefs TUI \u{2501}\u{2501}\u{2501}\u{2501}\u{2501}\u{2501}\u{2501}\u{2501}\u{2501}\u{2501}\u{2501}\u{2501}\u{2501}\u{2501}\u{2501}\u{2501}\u{2501}\u{2513}",
        "\u{2503}                    Value: 0                    \u{2503}",
        "\u{2503}                                                \u{2503}",
        "\u{2517}\u{2501}\u{2501}\u{2501}\u{2501}\u{2501} Decrement <j> Increment <k> Quit <q>\u{2501}\u{2501}\u{2501}\u{2501}\u{2501}\u{2501}\u{251b}",
    ];
    assert_eq!(g.rows.len(), 4);
    for y in 0..4usize {
        assert_eq!(line_text(&g, y), expected[y], "row {y}");
    }

    // The title, the numeral, and the three key tokens carry their own
    // styles; everything else is plain.
    for y in 0..4usize {
        for x in 0..50usize {
            let want = if y == 0 && (18..32).contains(&x) {
                TITLE
            } else if y == 1 && x == 28 {
                VALUE
            } else if y == 3 && ((17..20).contains(&x) || (31..34).contains(&x) || (40..43).contains(&x)) {
                KEY
            } else {
                PLAIN
            };
            assert_eq!(cell_style(&g, x, y), want, "style at ({x}, {y})");
        }
    }
}

#[test]
fn render_is_idempotent() {
    let mut app = App::default();
    app.handle_key_event(KeyEvent { code: KeyCode::Char('k'), kind: KeyEventKind::Press })
        .unwrap();
    let first = app.render(50, 4);
    let second = app.render(50, 4);
    assert_eq!(first, second);

    let a = App::default().render(61, 7);
    let b = App::default().render(61, 7);
    assert_eq!(a, b);
}

#[test]
fn render_shows_the_counter_value() {
    let mut app = App::default();
    app.handle_key_event(KeyEvent { code: KeyCode::Char('k'), kind: KeyEventKind::Press })
        .unwrap();
    app.handle_key_event(KeyEvent { code: KeyCode::Char('k'), kind: KeyEventKind::Press })
        .unwrap();
    let g = app.render(50, 4);
    assert!(line_text(&g, 1).contains("Value: 2"));
    assert_eq!(cell_style(&g, 28, 1), VALUE);
}

#[test]
fn render_fills_other_sizes() {
    let app = App::default();
    let g = app.render(41, 6);
    assert_eq!(g.rows.len(), 6);
    for y in 0..6usize {
        assert_eq!(g.rows[y].len(), 41, "row {y} width");
    }
    assert!(line_text(&g, 0).contains(" Bcachefs TUI "));
    assert!(line_text(&g, 1).contains("Value: 0"));
    assert_eq!(line_text(&g, 2), format!("\u{2503}{}\u{2503}", " ".repeat(39)));
    assert_eq!(line_text(&g, 3), format!("\u{2503}{}\u{2503}", " ".repeat(39)));
    assert_eq!(line_text(&g, 4), format!("\u{2503}{}\u{2503}", " ".repeat(39)));
    assert!(line_text(&g, 5).contains(" Decrement <j> Increment <k> Quit <q>"));
}

#[test]
fn render_centers_the_content() {
    let app = App::default();
    let g = app.render(50, 4);
    let span = |y: usize, lo: usize, hi: usize| -> String {
        g.rows[y][lo..hi].iter().map(|c| c.ch).collect()
    };
    // Inside width 48; the title of 14 starts after 17 fill cells; the
    // counter line of 8 after 20 blanks; the instructions of 37 after 5.
    assert_eq!(span(0, 18, 32), " Bcachefs TUI ");
    assert_eq!(span(1, 21, 29), "Value: 0");
    assert_eq!(span(3, 6, 43), " Decrement <j> Increment <k> Quit <q>");
}

#[test]
fn cells_compare_by_contents() {
    let a = Cell { ch: 'x', style: PLAIN };
    let b = Cell { ch: 'x', style: PLAIN };
    let c = Cell { ch: 'x', style: KEY };
    assert_eq!(a, b);
    assert_ne!(a, c);
}

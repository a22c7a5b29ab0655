//! Rendering of the application state into a styled text grid.
//!
//! The grid is a pure function of the state and the target area: a panel
//! with a thick border, the application name centered in the top edge, the
//! key hints centered in the bottom edge, and the counter value centered on
//! the first inner line. Terminal I/O is not done here; the grid is plain
//! data that a caller can copy to any surface.

use crate::app::App;
use vstd::prelude::*;

verus! {

/// Foreground colour of a rendered cell.
#[derive(Debug, Clone, Copy, PartialEq, Eq, Structural)]
pub enum Color {
    Plain,
    Blue,
    Yellow,
}

/// Visual emphasis of a rendered cell.
#[derive(Debug, Clone, Copy, PartialEq, Eq, Structural)]
pub struct Style {
    pub bold: bool,
    pub color: Color,
}

/// One character of the grid together with its style.
#[derive(Debug, Clone, Copy, PartialEq, Eq, Structural)]
pub struct Cell {
    pub ch: char,
    pub style: Style,
}

/// The style of unemphasized text and of the border.
pub open spec fn plain_style() -> Style {
    Style { bold: false, color: Color::Plain }
}

/// The style of the panel title.
pub open spec fn title_style() -> Style {
    Style { bold: true, color: Color::Plain }
}

/// The style of the key tokens in the instruction line.
pub open spec fn key_style() -> Style {
    Style { bold: true, color: Color::Blue }
}

/// The style of the numeric counter value.
pub open spec fn value_style() -> Style {
    Style { bold: false, color: Color::Yellow }
}

/// A cell holding the character `c` in the style `st`.
pub open spec fn mk_cell(c: char, st: Style) -> Cell {
    Cell { ch: c, style: st }
}

/// The given text, one cell per character, all in one style.
pub open spec fn styled(text: Seq<char>, st: Style) -> Seq<Cell> {
    Seq::new(text.len(), |i: int| mk_cell(text[i], st))
}

/// The same cell, `n` times over.
pub open spec fn repeat_cell(c: Cell, n: nat) -> Seq<Cell> {
    Seq::new(n, |i: int| c)
}

/// The panel title shown in the top edge.
pub open spec fn title_text() -> Seq<char> {
    " Bcachefs TUI "@
}

/// The label shown before the counter value.
pub open spec fn value_label() -> Seq<char> {
    "Value: "@
}

/// The instruction line shown in the bottom edge: three hints whose key
/// tokens are emphasized relative to their labels.
pub open spec fn instruction_cells() -> Seq<Cell> {
    styled(" Decrement "@, plain_style()) + styled("<j>"@, key_style()) + styled(
        " Increment "@,
        plain_style(),
    ) + styled("<k>"@, key_style()) + styled(" Quit "@, plain_style()) + styled(
        "<q>"@,
        key_style(),
    )
}

/// The decimal digit `d` as a character.
pub open spec fn digit_char(d: nat) -> char {
    if d == 0 {
        '0'
    } else if d == 1 {
        '1'
    } else if d == 2 {
        '2'
    } else if d == 3 {
        '3'
    } else if d == 4 {
        '4'
    } else if d == 5 {
        '5'
    } else if d == 6 {
        '6'
    } else if d == 7 {
        '7'
    } else if d == 8 {
        '8'
    } else {
        '9'
    }
}

/// The decimal digits of a counter value, most significant first, without
/// leading zeros.
pub open spec fn counter_digits(n: nat) -> Seq<char> {
    if n < 10 {
        seq![digit_char(n)]
    } else if n < 100 {
        seq![digit_char(n / 10), digit_char(n % 10)]
    } else {
        seq![digit_char(n / 100), digit_char(n / 10 % 10), digit_char(n % 10)]
    }
}

/// The body of the counter line: the label in plain style, the digits
/// emphasized.
pub open spec fn value_cells(n: nat) -> Seq<Cell> {
    styled(value_label(), plain_style()) + styled(counter_digits(n), value_style())
}

/// A row of width `w`: a left edge character, the content centered between
/// runs of the fill cell, and a right edge character. A content shorter than
/// the inside gets the larger run on the right.
pub open spec fn framed_row(left: char, fill: Cell, content: Seq<Cell>, right: char, w: nat) -> Seq<
    Cell,
> {
    let lpad = ((w - 2 - content.len()) / 2) as nat;
    let rpad = ((w - 2) - content.len() - lpad) as nat;
    seq![Cell { ch: left, style: plain_style() }] + repeat_cell(fill, lpad) + content + repeat_cell(
        fill,
        rpad,
    ) + seq![Cell { ch: right, style: plain_style() }]
}

/// The horizontal bar cell of the border.
pub open spec fn hbar_cell() -> Cell {
    Cell { ch: '\u{2501}', style: plain_style() }
}

/// The blank fill cell of the panel body.
pub open spec fn space_cell() -> Cell {
    Cell { ch: ' ', style: plain_style() }
}

/// The top edge: corners, horizontal bars, and the centered title.
pub open spec fn top_row(w: nat) -> Seq<Cell> {
    framed_row('\u{250f}', hbar_cell(), styled(title_text(), title_style()), '\u{2513}', w)
}

/// The bottom edge: corners, horizontal bars, and the centered instructions.
pub open spec fn bottom_row(w: nat) -> Seq<Cell> {
    framed_row('\u{2517}', hbar_cell(), instruction_cells(), '\u{251b}', w)
}

/// The first inner line: the centered counter text between vertical bars.
pub open spec fn value_row(w: nat, n: nat) -> Seq<Cell> {
    framed_row('\u{2503}', space_cell(), value_cells(n), '\u{2503}', w)
}

/// Any further inner line: blank between vertical bars.
pub open spec fn blank_row(w: nat) -> Seq<Cell> {
    framed_row('\u{2503}', space_cell(), Seq::empty(), '\u{2503}', w)
}

/// The whole grid: the top edge, the counter line, blank filler lines, and
/// the bottom edge.
pub open spec fn render_spec(s: App, w: nat, h: nat) -> Seq<Seq<Cell>> {
    Seq::new(
        h,
        |y: int|
            if y == 0 {
                top_row(w)
            } else if y == h - 1 {
                bottom_row(w)
            } else if y == 1 {
                value_row(w, s.counter as nat)
            } else {
                blank_row(w)
            },
    )
}

/// Narrowest area the panel fits in: border, instructions and counter text.
pub const MIN_WIDTH: usize = 39;

/// Shortest area the panel fits in: both edges and the counter line.
pub const MIN_HEIGHT: usize = 3;

/// A rendered grid: rows of styled cells, all rows of one width.
#[derive(Debug, Clone, PartialEq, Eq)]
pub struct Grid {
    pub rows: Vec<Vec<Cell>>,
}

impl View for Grid {
    type V = Seq<Seq<Cell>>;

    open spec fn view(&self) -> Seq<Seq<Cell>> {
        Seq::new(self.rows@.len(), |i: int| self.rows@[i]@)
    }
}

/// The fill cell, `n` times over.
fn repeat_cells(c: Cell, n: usize) -> (v: Vec<Cell>)
    ensures
        v@ == repeat_cell(c, n as nat),
{
    let mut v: Vec<Cell> = Vec::new();
    let mut i: usize = 0;
    while i < n
        invariant
            i <= n,
            v@.len() == i,
            forall|j: int| 0 <= j < i ==> v@[j] == c,
        decreases n - i,
    {
        v.push(c);
        i = i + 1;
    }
    proof {
        assert(v@ =~= repeat_cell(c, n as nat));
    }
    v
}

/// The given text as cells, all in one style.
fn styled_cells(text: &str, st: Style) -> (v: Vec<Cell>)
    ensures
        v@ == styled(text@, st),
{
    let n = text.unicode_len();
    let mut v: Vec<Cell> = Vec::new();
    let mut i: usize = 0;
    while i < n
        invariant
            n == text@.len(),
            i <= n,
            v@.len() == i,
            forall|j: int| 0 <= j < i ==> v@[j] == (Cell { ch: text@[j], style: st }),
        decreases n - i,
    {
        let c = text.get_char(i);
        v.push(Cell { ch: c, style: st });
        i = i + 1;
    }
    proof {
        assert(v@ =~= styled(text@, st));
    }
    v
}

/// The decimal digit `d` as a character.
fn digit_to_char(d: u8) -> (c: char)
    requires
        d < 10,
    ensures
        c == digit_char(d as nat),
{
    match d {
        0 => '0',
        1 => '1',
        2 => '2',
        3 => '3',
        4 => '4',
        5 => '5',
        6 => '6',
        7 => '7',
        8 => '8',
        _ => '9',
    }
}

/// The decimal digits of the counter, as emphasized cells.
fn digit_cells(n: u8) -> (v: Vec<Cell>)
    ensures
        v@ == styled(counter_digits(n as nat), value_style()),
{
    let yellow = Style { bold: false, color: Color::Yellow };
    let mut v: Vec<Cell> = Vec::new();
    if n < 10 {
        v.push(Cell { ch: digit_to_char(n), style: yellow });
    } else if n < 100 {
        v.push(Cell { ch: digit_to_char(n / 10), style: yellow });
        v.push(Cell { ch: digit_to_char(n % 10), style: yellow });
    } else {
        v.push(Cell { ch: digit_to_char(n / 100), style: yellow });
        v.push(Cell { ch: digit_to_char(n / 10 % 10), style: yellow });
        v.push(Cell { ch: digit_to_char(n % 10), style: yellow });
    }
    proof {
        assert(v@ =~= styled(counter_digits(n as nat), value_style()));
    }
    v
}

/// Law: a framed row is exactly as wide as asked for — the edge characters
/// and the two padding runs fill the row around the content to `w` cells.
pub proof fn lemma_framed_row_len(left: char, fill: Cell, content: Seq<Cell>, right: char, w: nat)
    requires
        w >= 2,
        content.len() <= w - 2,
    ensures
        framed_row(left, fill, content, right, w).len() == w,
{
    let il = (w - 2) as int;
    let cl = content.len() as int;
    assert(0 <= (il - cl) / 2 <= il - cl) by (nonlinear_arith)
        requires
            0 <= cl <= il,
    ;
}

/// One row of the panel: the content centered between fill runs, framed by
/// the edge characters.
fn framed_row_vec(left: char, fill: Cell, content: Vec<Cell>, right: char, w: usize) -> (v: Vec<
    Cell,
>)
    requires
        w >= 2,
        content@.len() <= w - 2,
    ensures
        v@ == framed_row(left, fill, content@, right, w as nat),
{
    let inner = w - 2;
    proof {
        let il = (w - 2) as int;
        let cl = content@.len() as int;
        assert(0 <= (il - cl) / 2 <= il - cl) by (nonlinear_arith)
            requires
                0 <= cl <= il,
        ;
    }
    let lpad = (inner - content.len()) / 2;
    let rpad = inner - content.len() - lpad;
    let mut v: Vec<Cell> = Vec::new();
    v.push(Cell { ch: left, style: Style { bold: false, color: Color::Plain } });
    let mut seg = repeat_cells(fill, lpad);
    v.append(&mut seg);
    let mut mid = content;
    v.append(&mut mid);
    let mut seg2 = repeat_cells(fill, rpad);
    v.append(&mut seg2);
    v.push(Cell { ch: right, style: Style { bold: false, color: Color::Plain } });
    proof {
        assert(v@ =~= framed_row(left, fill, content@, right, w as nat));
    }
    v
}

/// The instruction line as cells: labels plain, key tokens emphasized.
fn instruction_cells_vec() -> (v: Vec<Cell>)
    ensures
        v@ == instruction_cells(),
{
    let plain = Style { bold: false, color: Color::Plain };
    let key = Style { bold: true, color: Color::Blue };
    let mut v = styled_cells(" Decrement ", plain);
    let mut seg = styled_cells("<j>", key);
    v.append(&mut seg);
    let mut seg2 = styled_cells(" Increment ", plain);
    v.append(&mut seg2);
    let mut seg3 = styled_cells("<k>", key);
    v.append(&mut seg3);
    let mut seg4 = styled_cells(" Quit ", plain);
    v.append(&mut seg4);
    let mut seg5 = styled_cells("<q>", key);
    v.append(&mut seg5);
    v
}

/// The counter line as cells: the label plain, the digits emphasized.
fn value_cells_vec(n: u8) -> (v: Vec<Cell>)
    ensures
        v@ == value_cells(n as nat),
{
    let mut v = styled_cells("Value: ", Style { bold: false, color: Color::Plain });
    let mut seg = digit_cells(n);
    v.append(&mut seg);
    v
}

impl App {
    /// Renders the state into a grid of `height` rows of `width` cells: a
    /// thick border, the title centered on top, the instructions centered at
    /// the bottom, and the counter value centered on the first inner line.
    /// The grid depends on nothing but the state and the area.
    pub fn render(&self, width: usize, height: usize) -> (g: Grid)
        requires
            width >= MIN_WIDTH,
            height >= MIN_HEIGHT,
        ensures
            g@ == render_spec(*self, width as nat, height as nat),
            g@.len() == height,
            forall|y: int| 0 <= y < height ==> #[trigger] g@[y].len() == width,
    {
        proof {
            lemma_render_spec_dims(*self, width as nat, height as nat);
        }
        proof {
            reveal_strlit(" Bcachefs TUI ");
            assert(title_text().len() == 14);
        }
        let hbar = Cell { ch: '\u{2501}', style: Style { bold: false, color: Color::Plain } };
        let space = Cell { ch: ' ', style: Style { bold: false, color: Color::Plain } };
        let ghost w = width as nat;
        let ghost h = height as nat;

        let mut rows: Vec<Vec<Cell>> = Vec::new();
        let title = styled_cells(" Bcachefs TUI ", Style { bold: true, color: Color::Plain });
        rows.push(framed_row_vec('\u{250f}', hbar, title, '\u{2513}', width));
        assert(rows@[0]@ == render_spec(*self, w, h)[0]);

        let mut y: usize = 1;
        while y < height - 1
            invariant
                width >= MIN_WIDTH,
                height >= MIN_HEIGHT,
                w == width as nat,
                h == height as nat,
                1 <= y <= height - 1,
                space == space_cell(),
                rows@.len() == y,
                forall|i: int| 0 <= i < y ==> rows@[i]@ == render_spec(*self, w, h)[i],
            decreases height - y,
        {
            if y == 1 {
                proof {
                    reveal_strlit("Value: ");
                    assert(value_label().len() == 7);
                    assert(counter_digits(self.counter as nat).len() <= 3);
                    assert(value_cells(self.counter as nat).len() <= 10);
                }
                let value = value_cells_vec(self.counter);
                let vrow = framed_row_vec('\u{2503}', space, value, '\u{2503}', width);
                proof {
                    assert(vrow@ == value_row(w, self.counter as nat));
                }
                rows.push(vrow);
            } else {
                let empty: Vec<Cell> = Vec::new();
                let brow = framed_row_vec('\u{2503}', space, empty, '\u{2503}', width);
                proof {
                    assert(brow@ == blank_row(w));
                }
                rows.push(brow);
            }
            proof {
                assert(rows@[y as int]@ == render_spec(*self, w, h)[y as int]);
            }
            y = y + 1;
        }

        proof {
            reveal_strlit(" Decrement ");
            reveal_strlit("<j>");
            reveal_strlit(" Increment ");
            reveal_strlit("<k>");
            reveal_strlit(" Quit ");
            reveal_strlit("<q>");
            assert(instruction_cells().len() == 37);
        }
        let instructions = instruction_cells_vec();
        rows.push(framed_row_vec('\u{2517}', hbar, instructions, '\u{251b}', width));
        proof {
            assert(rows@[h - 1]@ == render_spec(*self, w, h)[h - 1]);
        }
        let g = Grid { rows };
        proof {
            assert(g@ =~= render_spec(*self, w, h));
        }
        g
    }
}

/// Law: rendering is a pure, deterministic function of the state and the
/// area — any two grids rendered from the same state into the same area are
/// identical, cell for cell, style for style.
pub proof fn lemma_render_deterministic(
    s1: App,
    s2: App,
    w: nat,
    h: nat,
    g1: Seq<Seq<Cell>>,
    g2: Seq<Seq<Cell>>,
)
    requires
        s1 == s2,
        g1 == render_spec(s1, w, h),
        g2 == render_spec(s2, w, h),
    ensures
        g1 == g2,
{
}

/// Law: the rendered grid has exactly the asked-for dimensions: `h` rows,
/// each of `w` cells.
pub proof fn lemma_render_spec_dims(s: App, w: nat, h: nat)
    requires
        w >= MIN_WIDTH,
    ensures
        render_spec(s, w, h).len() == h,
        forall|y: int| 0 <= y < h ==> #[trigger] render_spec(s, w, h)[y].len() == w,
{
    reveal_strlit(" Bcachefs TUI ");
    reveal_strlit("Value: ");
    reveal_strlit(" Decrement ");
    reveal_strlit("<j>");
    reveal_strlit(" Increment ");
    reveal_strlit("<k>");
    reveal_strlit(" Quit ");
    reveal_strlit("<q>");
    assert(title_text().len() == 14);
    assert(value_label().len() == 7);
    assert(instruction_cells().len() == 37);
    assert forall|y: int| 0 <= y < h implies #[trigger] render_spec(s, w, h)[y].len() == w by {
        assert(counter_digits(s.counter as nat).len() <= 3);
        lemma_framed_row_len(
            '\u{250f}',
            hbar_cell(),
            styled(title_text(), title_style()),
            '\u{2513}',
            w,
        );
        lemma_framed_row_len('\u{2517}', hbar_cell(), instruction_cells(), '\u{251b}', w);
        lemma_framed_row_len(
            '\u{2503}',
            space_cell(),
            value_cells(s.counter as nat),
            '\u{2503}',
            w,
        );
        lemma_framed_row_len('\u{2503}', space_cell(), Seq::<Cell>::empty(), '\u{2503}', w);
    }
}

} // verus!


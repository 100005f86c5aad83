//! The hint grid: its layout, the selection state that typed hints build up,
//! and the screen positions that a selection stands for.

use vstd::prelude::*;
use vstd::arithmetic::div_mod::{
    lemma_fundamental_div_mod, lemma_fundamental_div_mod_converse, lemma_mod_bound,
};
use vstd::string::*;
use vstd::arithmetic::mul::{lemma_mul_inequality, lemma_mul_nonnegative};

verus! {

/// The layout of the hint grid for the current screen.
///
/// The screen is cut into `cols` × `rows` main cells; a main cell is labelled
/// by the hint of its column followed by the hint of its row. Each main cell
/// is cut again into `sub_cols` × `sub_rows` sub-cells; the sub-hint at index
/// `i` labels the sub-cell in column `i % sub_cols` and row `i / sub_cols`.
#[derive(Debug)]
pub struct Grid {
    pub cols: u32,
    pub rows: u32,
    pub sub_cols: u32,
    pub sub_rows: u32,
    pub hints: Vec<char>,
    pub sub_hints: Vec<char>,
}

impl Grid {
    /// A grid has at least one sub-column, and every hint index fits in a `u32`.
    pub open spec fn wf(&self) -> bool {
        &&& self.sub_cols >= 1
        &&& self.hints.len() <= u32::MAX
        &&& self.sub_hints.len() <= u32::MAX
    }
}

/// How far the selection has got.
#[derive(Clone, Copy, Debug, PartialEq, Eq, Structural)]
pub enum InputState {
    /// Nothing typed yet.
    First,
    /// The column hint has been typed.
    Second(char),
    /// A main cell is selected; a sub-hint may follow.
    SubFirst { col: u32, row: u32 },
    /// A sub-cell is selected.
    Ready { col: u32, row: u32, sub_col: u32, sub_row: u32 },
}

/// The width (or height) of one of `count` equal parts of `extent`.
pub open spec fn part(extent: u32, count: u32) -> int {
    extent as int / count as int
}

/// The centre of column `col`, at mid-height.
pub open spec fn column_center_spec(g: &Grid, width: u32, height: u32, col: u32) -> Option<(u32, u32)> {
    if col < g.cols {
        let cw = part(width, g.cols);
        Some(((col * cw + cw / 2) as u32, (height as int / 2) as u32))
    } else {
        None
    }
}

/// The centre of the main cell in column `col` and row `row`.
pub open spec fn main_cell_center_spec(
    g: &Grid,
    width: u32,
    height: u32,
    col: u32,
    row: u32,
) -> Option<(u32, u32)> {
    if col < g.cols && row < g.rows {
        let cw = part(width, g.cols);
        let ch = part(height, g.rows);
        Some(((col * cw + cw / 2) as u32, (row * ch + ch / 2) as u32))
    } else {
        None
    }
}

/// The centre of sub-cell (`sub_col`, `sub_row`) of the main cell (`col`, `row`).
pub open spec fn sub_cell_center_spec(
    g: &Grid,
    width: u32,
    height: u32,
    col: u32,
    row: u32,
    sub_col: u32,
    sub_row: u32,
) -> Option<(u32, u32)> {
    if col < g.cols && row < g.rows && sub_col < g.sub_cols && sub_row < g.sub_rows {
        let cw = part(width, g.cols);
        let ch = part(height, g.rows);
        let scw = cw / g.sub_cols as int;
        let sch = ch / g.sub_rows as int;
        Some((
            (col * cw + sub_col * scw + scw / 2) as u32,
            (row * ch + sub_row * sch + sch / 2) as u32,
        ))
    } else {
        None
    }
}

/// The index of the first occurrence of `c` in `s`, or 0 when it does not occur.
pub open spec fn index_or_zero(s: Seq<char>, c: char) -> int {
    match s.index_of_first(c) {
        Some(i) => i,
        None => 0,
    }
}

/// `count` parts of `extent`, plus one more, still fit inside `extent`.
pub proof fn lemma_parts_fit(extent: int, count: int, i: int)
    requires
        0 < count,
        0 <= i < count,
        0 <= extent,
    ensures
        0 <= extent / count,
        0 <= i * (extent / count),
        i * (extent / count) + extent / count <= extent,
        extent > 0 ==> i * (extent / count) + (extent / count) / 2 < extent,
{
    let q = extent / count;
    lemma_fundamental_div_mod(extent, count);
    lemma_mod_bound(extent, count);
    assert(0 <= q) by (nonlinear_arith)
        requires extent == count * q + extent % count, 0 <= extent % count < count, 0 < count, 0 <= extent;
    lemma_mul_nonnegative(i, q);
    lemma_mul_inequality(i + 1, count, q);
    assert((i + 1) * q == i * q + q) by (nonlinear_arith);
    assert(count * q <= extent);
    if q == 0 {
        assert(i * q == 0) by (nonlinear_arith) requires q == 0;
    }
}

/// The centre of column `col`, or `None` when there is no such column.
pub fn column_center(g: &Grid, width: u32, height: u32, col: u32) -> (r: Option<(u32, u32)>)
    ensures
        r == column_center_spec(g, width, height, col),
        r matches Some((x, y)) ==> (width > 0 ==> x < width) && (height > 0 ==> y < height),
{
    let ncols = g.cols;
    if col >= ncols {
        return None;
    }
    let cell_w = width / ncols;
    proof {
        lemma_parts_fit(width as int, ncols as int, col as int);
    }
    Some((col * cell_w + cell_w / 2, height / 2))
}

/// The centre of the main cell (`col`, `row`), or `None` when it lies outside the grid.
pub fn main_cell_center(g: &Grid, width: u32, height: u32, col: u32, row: u32) -> (r: Option<(u32, u32)>)
    ensures
        r == main_cell_center_spec(g, width, height, col, row),
        r matches Some((x, y)) ==> (width > 0 ==> x < width) && (height > 0 ==> y < height),
{
    let ncols = g.cols;
    let nrows = g.rows;
    if col >= ncols || row >= nrows {
        return None;
    }
    let cell_w = width / ncols;
    let cell_h = height / nrows;
    proof {
        lemma_parts_fit(width as int, ncols as int, col as int);
        lemma_parts_fit(height as int, nrows as int, row as int);
    }
    Some((col * cell_w + cell_w / 2, row * cell_h + cell_h / 2))
}

/// The centre of sub-cell (`sub_col`, `sub_row`) of main cell (`col`, `row`),
/// or `None` when either lies outside the grid.
pub fn sub_cell_center(
    g: &Grid,
    width: u32,
    height: u32,
    col: u32,
    row: u32,
    sub_col: u32,
    sub_row: u32,
) -> (r: Option<(u32, u32)>)
    ensures
        r == sub_cell_center_spec(g, width, height, col, row, sub_col, sub_row),
        r matches Some((x, y)) ==> {
            &&& col * part(width, g.cols) <= x
            &&& (part(width, g.cols) > 0 ==> x < col * part(width, g.cols) + part(width, g.cols))
            &&& row * part(height, g.rows) <= y
            &&& (part(height, g.rows) > 0 ==> y < row * part(height, g.rows) + part(height, g.rows))
            &&& (width > 0 ==> x < width)
            &&& (height > 0 ==> y < height)
        },
{
    let ncols = g.cols;
    let nrows = g.rows;
    if col >= ncols || row >= nrows {
        return None;
    }
    if sub_col >= g.sub_cols || sub_row >= g.sub_rows {
        return None;
    }
    let cell_w = width / ncols;
    let cell_h = height / nrows;
    let sub_cell_w = cell_w / g.sub_cols;
    let sub_cell_h = cell_h / g.sub_rows;
    proof {
        lemma_parts_fit(width as int, ncols as int, col as int);
        lemma_parts_fit(height as int, nrows as int, row as int);
        lemma_parts_fit(cell_w as int, g.sub_cols as int, sub_col as int);
        lemma_parts_fit(cell_h as int, g.sub_rows as int, sub_row as int);
    }
    Some((
        col * cell_w + sub_col * sub_cell_w + sub_cell_w / 2,
        row * cell_h + sub_row * sub_cell_h + sub_cell_h / 2,
    ))
}


/// Whether a selection only names cells whose hints exist: the indices it
/// holds point into the hint lists, and a sub-column lies inside the grid's
/// sub-columns.
pub open spec fn selection_valid(g: &Grid, s: InputState) -> bool {
    match s {
        InputState::First => true,
        InputState::Second(_) => true,
        InputState::SubFirst { col, row } => col < g.hints.len() && row < g.hints.len(),
        InputState::Ready { col, row, sub_col, sub_row } => {
            &&& col < g.hints.len()
            &&& row < g.hints.len()
            &&& sub_col < g.sub_cols
            &&& sub_row * g.sub_cols + sub_col < g.sub_hints.len()
        },
    }
}

/// The hints typed to reach a selection: the column hint, the row hint, and
/// the sub-hint, as far as the selection goes.
pub open spec fn keys_of(g: &Grid, s: InputState) -> Seq<char> {
    match s {
        InputState::First => Seq::empty(),
        InputState::Second(c) => seq![c],
        InputState::SubFirst { col, row } => seq![g.hints@[col as int], g.hints@[row as int]],
        InputState::Ready { col, row, sub_col, sub_row } => seq![
            g.hints@[col as int],
            g.hints@[row as int],
            g.sub_hints@[sub_row * g.sub_cols + sub_col],
        ],
    }
}

/// The screen position that a selection points at.
pub open spec fn selection_center(g: &Grid, width: u32, height: u32, s: InputState) -> Option<(u32, u32)> {
    match s {
        InputState::First => None,
        InputState::Second(c) => match g.hints@.index_of_first(c) {
            Some(col) => column_center_spec(g, width, height, col as u32),
            None => None,
        },
        InputState::SubFirst { col, row } => main_cell_center_spec(g, width, height, col, row),
        InputState::Ready { col, row, sub_col, sub_row } => sub_cell_center_spec(
            g, width, height, col, row, sub_col, sub_row),
    }
}

/// The screen position that a typed key sequence names: one hint names a
/// column, two name a main cell, and a third (a sub-hint) names a sub-cell.
pub open spec fn keys_position(g: &Grid, k: Seq<char>, width: u32, height: u32) -> Option<(u32, u32)> {
    if k.len() == 1 {
        match g.hints@.index_of_first(k[0]) {
            Some(col) => column_center_spec(g, width, height, col as u32),
            None => None,
        }
    } else if k.len() == 2 {
        match (g.hints@.index_of_first(k[0]), g.hints@.index_of_first(k[1])) {
            (Some(col), Some(row)) => main_cell_center_spec(g, width, height, col as u32, row as u32),
            _ => None,
        }
    } else if k.len() == 3 {
        match (
            g.hints@.index_of_first(k[0]),
            g.hints@.index_of_first(k[1]),
            g.sub_hints@.index_of_first(k[2]),
        ) {
            (Some(col), Some(row), Some(i)) => sub_cell_center_spec(
                g,
                width,
                height,
                col as u32,
                row as u32,
                (i % g.sub_cols as int) as u32,
                (i / g.sub_cols as int) as u32,
            ),
            _ => None,
        }
    } else {
        None
    }
}

/// `String::push`: appends the character `c` at the end of `s`, as std
/// documents it.
#[verifier::external_body]
fn push_char(s: &mut String, c: char)
    ensures
        final(s)@ == old(s)@.push(c),
{
    s.push(c);
}

/// The index of the first occurrence of `c` in `v`, if it occurs.
pub fn find_index(v: &Vec<char>, c: char) -> (r: Option<usize>)
    ensures
        match r {
            Some(i) => v@.index_of_first(c) == Some(i as int),
            None => v@.index_of_first(c) == None::<int>,
        },
        r matches Some(i) ==> i < v.len() && v@[i as int] == c,
        r is None ==> !v@.contains(c),
{
    let mut i: usize = 0;
    while i < v.len()
        invariant
            0 <= i <= v.len(),
            forall|j: int| 0 <= j < i ==> v@[j] != c,
        decreases v.len() - i,
    {
        if v[i] == c {
            proof {
                v@.index_of_first_ensures(c);
            }
            return Some(i);
        }
        i = i + 1;
    }
    proof {
        v@.index_of_first_ensures(c);
    }
    None
}

impl InputState {
    /// The hints typed to reach this selection, in order.
    pub fn keys(&self, g: &Grid) -> (r: String)
        requires
            selection_valid(g, *self),
        ensures
            r@ == keys_of(g, *self),
    {
        let mut s = String::new();
        match *self {
            InputState::First => {},
            InputState::Second(c) => {
                push_char(&mut s, c);
            },
            InputState::SubFirst { col, row } => {
                push_char(&mut s, g.hints[col as usize]);
                push_char(&mut s, g.hints[row as usize]);
            },
            InputState::Ready { col, row, sub_col, sub_row } => {
                push_char(&mut s, g.hints[col as usize]);
                push_char(&mut s, g.hints[row as usize]);
                let idx = (sub_row as usize) * (g.sub_cols as usize) + sub_col as usize;
                push_char(&mut s, g.sub_hints[idx]);
            },
        }
        assert(s@ =~= keys_of(g, *self));
        s
    }
}

/// The screen position that the key sequence `keys` names, if it names one.
pub fn keys_to_pos(g: &Grid, keys: &String, width: u32, height: u32) -> (r: Option<(u32, u32)>)
    requires
        g.wf(),
    ensures
        r == keys_position(g, keys@, width, height),
{
    let k = keys.as_str();
    let n = k.unicode_len();
    if n == 1 {
        match find_index(&g.hints, k.get_char(0)) {
            Some(col) => column_center(g, width, height, col as u32),
            None => None,
        }
    } else if n == 2 {
        let col = find_index(&g.hints, k.get_char(0));
        let row = find_index(&g.hints, k.get_char(1));
        match (col, row) {
            (Some(col), Some(row)) => main_cell_center(g, width, height, col as u32, row as u32),
            _ => None,
        }
    } else if n == 3 {
        let col = find_index(&g.hints, k.get_char(0));
        let row = find_index(&g.hints, k.get_char(1));
        let sub = find_index(&g.sub_hints, k.get_char(2));
        match (col, row, sub) {
            (Some(col), Some(row), Some(i)) => {
                let i = i as u32;
                sub_cell_center(g, width, height, col as u32, row as u32, i % g.sub_cols, i / g.sub_cols)
            },
            _ => None,
        }
    } else {
        None
    }
}

/// In a list without repeated entries, the first occurrence of the entry at
/// index `i` is at `i`.
pub proof fn lemma_first_index_of_distinct(s: Seq<char>, i: int)
    requires
        s.no_duplicates(),
        0 <= i < s.len(),
    ensures
        s.index_of_first(s[i]) == Some(i),
{
    s.index_of_first_ensures(s[i]);
}

/// Replaying the keys of a selection points where the selection points: the
/// key sequence of a valid selection names the same screen position as the
/// selection itself, provided no hint occurs twice.
pub proof fn lemma_keys_name_selection(g: &Grid, width: u32, height: u32, s: InputState)
    requires
        g.wf(),
        g.hints@.no_duplicates(),
        g.sub_hints@.no_duplicates(),
        selection_valid(g, s),
        s is Second ==> g.hints@.contains(s->Second_0),
    ensures
        keys_position(g, keys_of(g, s), width, height) == selection_center(g, width, height, s),
{
    match s {
        InputState::First => {},
        InputState::Second(c) => {},
        InputState::SubFirst { col, row } => {
            lemma_first_index_of_distinct(g.hints@, col as int);
            lemma_first_index_of_distinct(g.hints@, row as int);
        },
        InputState::Ready { col, row, sub_col, sub_row } => {
            lemma_first_index_of_distinct(g.hints@, col as int);
            lemma_first_index_of_distinct(g.hints@, row as int);
            let i = sub_row * g.sub_cols + sub_col;
            lemma_first_index_of_distinct(g.sub_hints@, i);
            lemma_fundamental_div_mod_converse(i, g.sub_cols as int, sub_row as int, sub_col as int);
        },
    }
}

/// Each centre lies in its cell: a column centre lies inside its column at
/// half the height, a main cell centre inside its cell, and a sub-cell
/// centre inside its sub-cell (when the cells are at least a pixel wide and
/// high).
pub proof fn lemma_centers_in_cells(
    g: &Grid,
    width: u32,
    height: u32,
    col: u32,
    row: u32,
    sub_col: u32,
    sub_row: u32,
)
    ensures
        column_center_spec(g, width, height, col) is Some <==> col < g.cols,
        main_cell_center_spec(g, width, height, col, row) is Some <==> col < g.cols && row < g.rows,
        sub_cell_center_spec(g, width, height, col, row, sub_col, sub_row) is Some <==> col < g.cols && row < g.rows
            && sub_col < g.sub_cols && sub_row < g.sub_rows,
        column_center_spec(g, width, height, col) matches Some((x, y)) ==> {
            let cw = part(width, g.cols);
            &&& col * cw <= x
            &&& (cw > 0 ==> x < col * cw + cw)
            &&& y == height / 2
        },
        main_cell_center_spec(g, width, height, col, row) matches Some((x, y)) ==> {
            let cw = part(width, g.cols);
            let ch = part(height, g.rows);
            &&& col * cw <= x
            &&& (cw > 0 ==> x < col * cw + cw)
            &&& row * ch <= y
            &&& (ch > 0 ==> y < row * ch + ch)
        },
        sub_cell_center_spec(g, width, height, col, row, sub_col, sub_row) matches Some((x, y)) ==> {
            let scw = part(width, g.cols) / g.sub_cols as int;
            let sch = part(height, g.rows) / g.sub_rows as int;
            let x0 = col * part(width, g.cols) + sub_col * scw;
            let y0 = row * part(height, g.rows) + sub_row * sch;
            &&& x0 <= x
            &&& (scw > 0 ==> x < x0 + scw)
            &&& y0 <= y
            &&& (sch > 0 ==> y < y0 + sch)
        },
{
    if col < g.cols {
        lemma_parts_fit(width as int, g.cols as int, col as int);
    }
    if row < g.rows {
        lemma_parts_fit(height as int, g.rows as int, row as int);
    }
    if col < g.cols && row < g.rows && sub_col < g.sub_cols && sub_row < g.sub_rows {
        let cw = part(width, g.cols);
        let ch = part(height, g.rows);
        lemma_parts_fit(cw, g.sub_cols as int, sub_col as int);
        lemma_parts_fit(ch, g.sub_rows as int, sub_row as int);
    }
}

} // verus!

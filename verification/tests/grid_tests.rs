use stochos::grid::{
    column_center, find_index, keys_to_pos, main_cell_center, sub_cell_center, Grid, InputState,
};

/// 4 × 3 main cells, 3 × 3 sub-cells.
pub fn grid() -> Grid {
    Grid {
        cols: 4,
        rows: 3,
        sub_cols: 3,
        sub_rows: 3,
        hints: vec!['a', 's', 'd', 'f', 'g'],
        sub_hints: vec!['q', 'w', 'e', 'r', 't', 'y', 'u', 'i', 'o'],
    }
}

#[test]
fn column_center_is_mid_column_mid_height() {
    let g = grid();
    assert_eq!(column_center(&g, 400, 300, 0), Some((50, 150)));
    assert_eq!(column_center(&g, 400, 300, 1), Some((150, 150)));
    assert_eq!(column_center(&g, 400, 300, 3), Some((350, 150)));
    assert_eq!(column_center(&g, 400, 300, 4), None);
}

#[test]
fn main_cell_center_is_mid_cell() {
    let g = grid();
    assert_eq!(main_cell_center(&g, 400, 300, 1, 2), Some((150, 250)));
    assert_eq!(main_cell_center(&g, 400, 300, 1, 3), None);
    assert_eq!(main_cell_center(&g, 400, 300, 4, 0), None);
    // Widths that do not divide evenly round each cell down.
    assert_eq!(main_cell_center(&g, 401, 301, 3, 2), Some((350, 250)));
}

#[test]
fn sub_cell_center_lies_in_its_main_cell() {
    let g = grid();
    // Cell (1, 2) is x 100..200, y 200..300; sub-cells are 33 × 33.
    assert_eq!(sub_cell_center(&g, 400, 300, 1, 2, 0, 2), Some((116, 282)));
    assert_eq!(sub_cell_center(&g, 400, 300, 1, 2, 3, 0), None);
    assert_eq!(sub_cell_center(&g, 400, 300, 1, 2, 0, 3), None);
    for sc in 0..3 {
        for sr in 0..3 {
            let (x, y) = sub_cell_center(&g, 400, 300, 1, 2, sc, sr).unwrap();
            assert!((100..200).contains(&x) && (200..300).contains(&y));
        }
    }
}

#[test]
fn tiny_screen_centres_stay_on_screen() {
    let g = grid();
    // Cells of width 0: every centre is at the left edge.
    assert_eq!(column_center(&g, 3, 1, 3), Some((0, 0)));
    assert_eq!(sub_cell_center(&g, 3, 2, 3, 2, 2, 2), Some((0, 0)));
}

#[test]
fn find_index_gives_first_occurrence() {
    let v = vec!['a', 'b', 'a'];
    assert_eq!(find_index(&v, 'a'), Some(0));
    assert_eq!(find_index(&v, 'b'), Some(1));
    assert_eq!(find_index(&v, 'z'), None);
}

#[test]
fn keys_spell_the_selection() {
    let g = grid();
    assert_eq!(InputState::First.keys(&g), "");
    assert_eq!(InputState::Second('s').keys(&g), "s");
    assert_eq!(InputState::SubFirst { col: 1, row: 2 }.keys(&g), "sd");
    assert_eq!(InputState::Ready { col: 1, row: 2, sub_col: 0, sub_row: 2 }.keys(&g), "sdu");
}

#[test]
fn keys_name_the_selected_position() {
    let g = grid();
    assert_eq!(keys_to_pos(&g, &String::from("s"), 400, 300), Some((150, 150)));
    assert_eq!(keys_to_pos(&g, &String::from("sd"), 400, 300), Some((150, 250)));
    assert_eq!(keys_to_pos(&g, &String::from("sdu"), 400, 300), Some((116, 282)));
    for s in [
        InputState::Second('f'),
        InputState::SubFirst { col: 3, row: 0 },
        InputState::Ready { col: 2, row: 1, sub_col: 2, sub_row: 1 },
    ] {
        let expected = match s {
            InputState::Second(_) => column_center(&g, 400, 300, 3),
            InputState::SubFirst { col, row } => main_cell_center(&g, 400, 300, col, row),
            InputState::Ready { col, row, sub_col, sub_row } => {
                sub_cell_center(&g, 400, 300, col, row, sub_col, sub_row)
            }
            InputState::First => None,
        };
        assert_eq!(keys_to_pos(&g, &s.keys(&g), 400, 300), expected);
    }
}

#[test]
fn keys_outside_the_grid_name_nothing() {
    let g = grid();
    assert_eq!(keys_to_pos(&g, &String::new(), 400, 300), None);
    assert_eq!(keys_to_pos(&g, &String::from("g"), 400, 300), None); // fifth column
    assert_eq!(keys_to_pos(&g, &String::from("sz"), 400, 300), None);
    assert_eq!(keys_to_pos(&g, &String::from("sdz"), 400, 300), None);
    assert_eq!(keys_to_pos(&g, &String::from("sdqq"), 400, 300), None);
}

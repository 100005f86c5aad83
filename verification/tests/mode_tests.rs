use stochos::backend::KeyEvent;
use stochos::grid::{Grid, InputState};
use stochos::macro_store::MacroAction;
use stochos::mode::{
    handle_char_input, replay_macro, BackendAction, Mode, ModeTransition, Reaction, Scene,
};

fn grid() -> Grid {
    Grid {
        cols: 4,
        rows: 3,
        sub_cols: 3,
        sub_rows: 3,
        hints: vec!['a', 's', 'd', 'f', 'g'],
        sub_hints: vec!['q', 'w', 'e', 'r', 't', 'y', 'u', 'i', 'o'],
    }
}

fn normal(input_state: InputState, target: Option<(u32, u32)>, drag_origin: Option<(u32, u32)>) -> Mode {
    Mode::Normal { input_state, target, drag_origin }
}

fn press(mode: &Mode, key: KeyEvent) -> Reaction {
    mode.handle_key(&grid(), 400, 300, &key).expect("selection modes handle keys")
}

fn enter(mode: Mode) -> ModeTransition {
    ModeTransition::Enter(mode)
}

#[test]
fn hints_select_column_cell_and_sub_cell() {
    let g = grid();
    let (s1, t1, m1) = handle_char_input(&g, 400, 300, &InputState::First, 's', None);
    assert_eq!((s1, t1, m1), (InputState::Second('s'), Some((150, 150)), Some((150, 150))));
    let (s2, t2, m2) = handle_char_input(&g, 400, 300, &s1, 'd', t1);
    assert_eq!((s2, t2, m2), (InputState::SubFirst { col: 1, row: 2 }, Some((150, 250)), Some((150, 250))));
    let (s3, t3, m3) = handle_char_input(&g, 400, 300, &s2, 'u', t2);
    assert_eq!(
        (s3, t3, m3),
        (InputState::Ready { col: 1, row: 2, sub_col: 0, sub_row: 2 }, Some((116, 282)), Some((116, 282)))
    );
    // A selection that is complete ignores further hints.
    assert_eq!(handle_char_input(&g, 400, 300, &s3, 'a', t3), (s3, t3, None));
}

#[test]
fn hints_outside_the_grid_select_nothing() {
    let g = grid();
    // 'g' is the fifth hint but there are only four columns.
    assert_eq!(
        handle_char_input(&g, 400, 300, &InputState::First, 'g', None),
        (InputState::Second('g'), None, None)
    );
    // Row 'f' (index 3) is outside the three rows.
    let s = InputState::Second('a');
    assert_eq!(handle_char_input(&g, 400, 300, &s, 'f', Some((50, 150))), (s, Some((50, 150)), None));
}

#[test]
fn normal_typing_a_hint_moves_the_pointer() {
    let r = press(&normal(InputState::First, None, None), KeyEvent::Char('s'));
    assert_eq!(r.actions, vec![BackendAction::MoveMouse(150, 150)]);
    assert_eq!(r.transition, enter(normal(InputState::Second('s'), Some((150, 150)), None)));
}

#[test]
fn normal_close_exits() {
    let r = press(&normal(InputState::Second('s'), Some((150, 150)), None), KeyEvent::Close);
    assert_eq!(r, Reaction { actions: vec![], transition: ModeTransition::Exit });
}

#[test]
fn normal_click_clicks_at_target_or_finishes_a_drag() {
    let r = press(&normal(InputState::SubFirst { col: 1, row: 2 }, Some((150, 250)), None), KeyEvent::Click);
    assert_eq!(r, Reaction { actions: vec![BackendAction::Click(150, 250)], transition: ModeTransition::Exit });
    let r = press(
        &normal(InputState::SubFirst { col: 1, row: 2 }, Some((150, 250)), Some((50, 50))),
        KeyEvent::DoubleClick,
    );
    assert_eq!(r.actions, vec![BackendAction::DragSelect(50, 50, 150, 250)]);
    let r = press(&normal(InputState::First, None, None), KeyEvent::DoubleClick);
    assert_eq!(r, Reaction { actions: vec![], transition: ModeTransition::Exit });
    let r = press(&normal(InputState::SubFirst { col: 1, row: 2 }, Some((150, 250)), None), KeyEvent::RightClick);
    assert_eq!(r.actions, vec![BackendAction::RightClick(150, 250)]);
    // Right click during a drag does nothing.
    let r = press(&normal(InputState::First, None, Some((1, 1))), KeyEvent::RightClick);
    assert_eq!(r, Reaction { actions: vec![], transition: ModeTransition::Stay });
}

#[test]
fn normal_back_undoes_one_hint() {
    let r = press(&normal(InputState::Ready { col: 1, row: 2, sub_col: 0, sub_row: 2 }, Some((116, 282)), None), KeyEvent::Back);
    assert_eq!(r.actions, vec![BackendAction::MoveMouse(150, 250)]);
    assert_eq!(r.transition, enter(normal(InputState::SubFirst { col: 1, row: 2 }, Some((150, 250)), None)));
    let r = press(&normal(InputState::SubFirst { col: 1, row: 2 }, Some((150, 250)), Some((7, 7))), KeyEvent::Back);
    assert_eq!(r.actions, vec![BackendAction::MoveMouse(150, 150)]);
    assert_eq!(r.transition, enter(normal(InputState::Second('s'), Some((150, 150)), Some((7, 7)))));
    let r = press(&normal(InputState::Second('s'), Some((150, 150)), None), KeyEvent::Back);
    assert_eq!(r, Reaction { actions: vec![], transition: enter(normal(InputState::First, None, None)) });
    let r = press(&normal(InputState::First, None, None), KeyEvent::Back);
    assert_eq!(r, Reaction { actions: vec![], transition: ModeTransition::Stay });
}

#[test]
fn normal_back_after_hint_returns_to_previous_selection() {
    let g = grid();
    for (s, t, ch) in [
        (InputState::First, None, 'd'),
        (InputState::Second('s'), Some((150, 150)), 'a'),
        (InputState::SubFirst { col: 1, row: 2 }, Some((150, 250)), 'o'),
    ] {
        let (s1, t1, _) = handle_char_input(&g, 400, 300, &s, ch, t);
        let r = press(&normal(s1, t1, None), KeyEvent::Back);
        assert_eq!(r.transition, enter(normal(s, t, None)));
    }
}

#[test]
fn normal_slash_starts_a_drag_from_the_target() {
    let r = press(&normal(InputState::SubFirst { col: 1, row: 2 }, Some((150, 250)), None), KeyEvent::Char('/'));
    assert_eq!(r.transition, enter(normal(InputState::First, None, Some((150, 250)))));
    let r = press(&normal(InputState::First, None, None), KeyEvent::Char('/'));
    assert_eq!(r.transition, ModeTransition::Stay);
}

#[test]
fn normal_opens_macro_screens() {
    let r = press(&normal(InputState::First, None, None), KeyEvent::Char('@'));
    assert_eq!(r.transition, enter(Mode::MacroReplayWait));
    let r = press(&normal(InputState::First, None, None), KeyEvent::MacroRecord);
    assert_eq!(
        r.transition,
        enter(Mode::MacroRecording {
            input_state: InputState::First,
            target: None,
            drag_origin: None,
            recorded_actions: vec![],
            drag_start_keys: String::new(),
        })
    );
    let r = press(&normal(InputState::First, None, None), KeyEvent::MacroMenu);
    assert_eq!(r.transition, enter(Mode::MacroSearch { query: vec![], selected: 0 }));
    let r = press(&normal(InputState::SubFirst { col: 1, row: 2 }, Some((150, 250)), None), KeyEvent::MacroMenu);
    assert_eq!(r.transition, enter(Mode::MacroBindKey { actions: vec![MacroAction::Click(String::from("sd"))] }));
    // Not during a drag.
    let r = press(&normal(InputState::First, None, Some((1, 1))), KeyEvent::MacroRecord);
    assert_eq!(r.transition, ModeTransition::Stay);
}

#[test]
fn normal_scroll_moves_to_target_then_scrolls() {
    let r = press(&normal(InputState::SubFirst { col: 1, row: 2 }, Some((150, 250)), None), KeyEvent::ScrollDown);
    assert_eq!(
        r,
        Reaction {
            actions: vec![BackendAction::MoveMouse(150, 250), BackendAction::ScrollDown],
            transition: ModeTransition::Redraw,
        }
    );
    let r = press(&normal(InputState::First, None, None), KeyEvent::ScrollLeft);
    assert_eq!(r.actions, vec![BackendAction::ScrollLeft]);
    let r = press(&normal(InputState::First, None, None), KeyEvent::Undo);
    assert_eq!(r.transition, ModeTransition::Back);
    let r = press(&normal(InputState::First, None, None), KeyEvent::Char('z'));
    assert_eq!(r.transition, ModeTransition::Stay);
}

fn recording(
    input_state: InputState,
    target: Option<(u32, u32)>,
    drag_origin: Option<(u32, u32)>,
    recorded_actions: Vec<MacroAction>,
    drag_start_keys: &str,
) -> Mode {
    Mode::MacroRecording { input_state, target, drag_origin, recorded_actions, drag_start_keys: drag_start_keys.to_string() }
}

#[test]
fn recording_click_performs_records_and_reopens() {
    let before = vec![MacroAction::Move(String::from("a"))];
    let m = recording(InputState::SubFirst { col: 1, row: 2 }, Some((150, 250)), None, before, "");
    let r = press(&m, KeyEvent::RightClick);
    assert_eq!(r.actions, vec![BackendAction::RightClick(150, 250), BackendAction::Reopen]);
    assert_eq!(
        r.transition,
        enter(recording(
            InputState::First,
            None,
            None,
            vec![MacroAction::Move(String::from("a")), MacroAction::RightClick(String::from("sd"))],
            "",
        ))
    );
}

#[test]
fn recording_drag_records_both_ends() {
    let m = recording(InputState::SubFirst { col: 0, row: 0 }, Some((50, 50)), None, vec![], "");
    let r = press(&m, KeyEvent::Char('/'));
    let dragging = recording(InputState::First, Some((50, 50)), Some((50, 50)), vec![], "aa");
    assert_eq!(r.transition, enter(dragging));
    let m = recording(InputState::SubFirst { col: 3, row: 2 }, Some((350, 250)), Some((50, 50)), vec![], "aa");
    let r = press(&m, KeyEvent::Click);
    assert_eq!(r.actions, vec![BackendAction::DragSelect(50, 50, 350, 250), BackendAction::Reopen]);
    assert_eq!(
        r.transition,
        enter(recording(
            InputState::First,
            None,
            None,
            vec![MacroAction::Drag(String::from("aa"), String::from("fd"))],
            "",
        ))
    );
    // A second '/' cancels the drag.
    let m = recording(InputState::First, Some((50, 50)), Some((50, 50)), vec![], "aa");
    assert_eq!(press(&m, KeyEvent::Char('/')).transition, enter(recording(InputState::First, None, None, vec![], "")));
}

#[test]
fn recording_stop_binds_or_returns() {
    let m = recording(InputState::First, None, None, vec![], "");
    assert_eq!(press(&m, KeyEvent::MacroRecord).transition, enter(normal(InputState::First, None, None)));
    let m = recording(InputState::First, None, None, vec![MacroAction::Click(String::from("sd"))], "");
    assert_eq!(
        press(&m, KeyEvent::MacroRecord).transition,
        enter(Mode::MacroBindKey { actions: vec![MacroAction::Click(String::from("sd"))] })
    );
    assert_eq!(press(&m, KeyEvent::Close).transition, enter(normal(InputState::First, None, None)));
}

#[test]
fn recording_menu_records_a_move() {
    let m = recording(InputState::SubFirst { col: 1, row: 2 }, Some((150, 250)), None, vec![], "");
    let r = press(&m, KeyEvent::MacroMenu);
    assert_eq!(r.actions, vec![]);
    assert_eq!(
        r.transition,
        enter(recording(InputState::First, None, None, vec![MacroAction::Move(String::from("sd"))], ""))
    );
}

#[test]
fn recording_hint_keeps_the_recorded_steps() {
    let m = recording(InputState::First, None, None, vec![MacroAction::Click(String::from("sd"))], "x");
    let r = press(&m, KeyEvent::Char('f'));
    assert_eq!(r.actions, vec![BackendAction::MoveMouse(350, 150)]);
    assert_eq!(
        r.transition,
        enter(recording(
            InputState::Second('f'),
            Some((350, 150)),
            None,
            vec![MacroAction::Click(String::from("sd"))],
            "x",
        ))
    );
}

#[test]
fn recorded_macro_replays_the_recorded_actions() {
    let g = grid();
    let m = recording(InputState::Ready { col: 1, row: 2, sub_col: 0, sub_row: 2 }, Some((116, 282)), None, vec![], "");
    let r = press(&m, KeyEvent::DoubleClick);
    let performed = r.actions[0];
    let recorded = match r.transition {
        ModeTransition::Enter(Mode::MacroRecording { recorded_actions, .. }) => recorded_actions,
        other => panic!("unexpected transition {:?}", other),
    };
    assert_eq!(replay_macro(&recorded, &g, 400, 300), vec![performed]);
}

#[test]
fn replay_skips_steps_whose_keys_name_nothing() {
    let g = grid();
    let steps = vec![
        MacroAction::Move(String::from("s")),
        MacroAction::Click(String::from("zz")),
        MacroAction::Drag(String::from("aa"), String::from("fd")),
        MacroAction::RightClick(String::from("sdu")),
    ];
    assert_eq!(
        replay_macro(&steps, &g, 400, 300),
        vec![
            BackendAction::MoveMouse(150, 150),
            BackendAction::DragSelect(50, 50, 350, 250),
            BackendAction::RightClick(116, 282),
        ]
    );
    assert_eq!(replay_macro(&vec![], &g, 400, 300), vec![]);
}

#[test]
fn macro_screens_are_not_handled_here() {
    let g = grid();
    for m in [
        Mode::MacroReplayWait,
        Mode::MacroBindKey { actions: vec![] },
        Mode::MacroName { bind_key: None, name: vec![], actions: vec![] },
        Mode::MacroSearch { query: vec![], selected: 0 },
    ] {
        assert_eq!(m.handle_key(&g, 400, 300, &KeyEvent::Close), None);
    }
}

#[test]
fn draw_shows_each_mode() {
    assert_eq!(
        normal(InputState::Second('s'), None, Some((1, 1))).draw(),
        Scene::Grid { input_state: InputState::Second('s'), dragging: true, recording: false }
    );
    assert_eq!(
        recording(InputState::First, None, None, vec![], "").draw(),
        Scene::Grid { input_state: InputState::First, dragging: false, recording: true }
    );
    assert_eq!(Mode::MacroBindKey { actions: vec![] }.draw(), Scene::BindKey);
    assert_eq!(
        Mode::MacroName { bind_key: Some('k'), name: vec!['m', 'y'], actions: vec![] }.draw(),
        Scene::Name { name: vec!['m', 'y'], bind_key: Some('k') }
    );
    assert_eq!(Mode::MacroReplayWait.draw(), Scene::ReplayWait);
    assert_eq!(
        Mode::MacroSearch { query: vec!['q'], selected: 2 }.draw(),
        Scene::Search { query: vec!['q'], selected: 2 }
    );
}

#[test]
fn recorded_drag_replays_the_performed_drag() {
    let g = grid();
    let m = recording(InputState::SubFirst { col: 3, row: 2 }, Some((350, 250)), Some((50, 50)), vec![], "aa");
    let r = press(&m, KeyEvent::DoubleClick);
    let performed = r.actions[0];
    let recorded = match r.transition {
        ModeTransition::Enter(Mode::MacroRecording { recorded_actions, .. }) => recorded_actions,
        other => panic!("unexpected transition {:?}", other),
    };
    assert_eq!(replay_macro(&recorded, &g, 400, 300), vec![performed]);
}

#[test]
fn normal_target_follows_selection() {
    let g = grid();
    let mut mode = normal(InputState::First, None, None);
    for key in [KeyEvent::Char('d'), KeyEvent::Char('a'), KeyEvent::Char('i'), KeyEvent::Back, KeyEvent::Back] {
        let r = mode.handle_key(&g, 400, 300, &key).unwrap();
        mode = match r.transition {
            ModeTransition::Enter(m) => m,
            other => panic!("unexpected transition {:?}", other),
        };
        if let Mode::Normal { input_state, target, .. } = &mode {
            let expected = match *input_state {
                InputState::First => None,
                InputState::Second(_) => stochos::grid::column_center(&g, 400, 300, 2),
                InputState::SubFirst { col, row } => stochos::grid::main_cell_center(&g, 400, 300, col, row),
                InputState::Ready { col, row, sub_col, sub_row } => {
                    stochos::grid::sub_cell_center(&g, 400, 300, col, row, sub_col, sub_row)
                }
            };
            assert_eq!(*target, expected);
        }
    }
}

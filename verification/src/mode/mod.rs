//! Interaction modes: how each mode reacts to a key, and what it shows.
//!
//! Handling a key yields a [`Reaction`]: the pointer actions to perform, in
//! order, and the transition to make once they have all succeeded.

pub mod normal;
pub mod recording;

use vstd::prelude::*;

use crate::backend::KeyEvent;
use crate::grid::{
    column_center, column_center_spec, find_index, index_or_zero, keys_position, keys_to_pos,
    main_cell_center, main_cell_center_spec, selection_valid, sub_cell_center,
    sub_cell_center_spec, Grid, InputState,
};
use crate::macro_store::{actions_view, ActionView, MacroAction};
use normal::normal_reaction;
use recording::recording_reaction;
use vstd::arithmetic::div_mod::{lemma_fundamental_div_mod, lemma_mod_bound};

verus! {

/// A pointer action for the platform backend to perform.
#[derive(Clone, Copy, Debug, PartialEq, Eq, Structural)]
pub enum BackendAction {
    MoveMouse(u32, u32),
    Click(u32, u32),
    DoubleClick(u32, u32),
    RightClick(u32, u32),
    /// Press at the first point, move to the second, release.
    DragSelect(u32, u32, u32, u32),
    ScrollUp,
    ScrollDown,
    ScrollLeft,
    ScrollRight,
    /// Show the overlay again after an action has taken it down.
    Reopen,
}

/// The current interaction mode and its state.
#[derive(Debug, PartialEq, Eq)]
pub enum Mode {
    /// Selecting a cell; `target` is where the pointer was last sent, and
    /// `drag_origin` is where a drag started, if one is under way.
    Normal {
        input_state: InputState,
        target: Option<(u32, u32)>,
        drag_origin: Option<(u32, u32)>,
    },
    /// Selecting a cell while recording a macro.
    MacroRecording {
        input_state: InputState,
        target: Option<(u32, u32)>,
        drag_origin: Option<(u32, u32)>,
        recorded_actions: Vec<MacroAction>,
        drag_start_keys: String,
    },
    /// Waiting for the key to bind a new macro to.
    MacroBindKey { actions: Vec<MacroAction> },
    /// Typing the name of a new macro.
    MacroName { bind_key: Option<char>, name: Vec<char>, actions: Vec<MacroAction> },
    /// Waiting for the key of the macro to replay.
    MacroReplayWait,
    /// Searching the stored macros.
    MacroSearch { query: Vec<char>, selected: usize },
}

/// What to do after a key has been handled.
#[derive(Debug, PartialEq, Eq)]
pub enum ModeTransition {
    /// Keep the current mode; nothing to redraw.
    Stay,
    /// Keep the current mode and draw it again.
    Redraw,
    /// Push a new mode.
    Enter(Mode),
    /// Return to the previous mode.
    Back,
    /// Close the overlay.
    Exit,
}

/// A mode, with its texts and macro steps as sequences.
pub enum ModeView {
    Normal { input_state: InputState, target: Option<(u32, u32)>, drag_origin: Option<(u32, u32)> },
    MacroRecording {
        input_state: InputState,
        target: Option<(u32, u32)>,
        drag_origin: Option<(u32, u32)>,
        recorded_actions: Seq<ActionView>,
        drag_start_keys: Seq<char>,
    },
    MacroBindKey { actions: Seq<ActionView> },
    MacroName { bind_key: Option<char>, name: Seq<char>, actions: Seq<ActionView> },
    MacroReplayWait,
    MacroSearch { query: Seq<char>, selected: usize },
}

pub enum TransitionView {
    Stay,
    Redraw,
    Enter(ModeView),
    Back,
    Exit,
}

impl View for Mode {
    type V = ModeView;

    open spec fn view(&self) -> ModeView {
        match self {
            Mode::Normal { input_state, target, drag_origin } => ModeView::Normal {
                input_state: *input_state,
                target: *target,
                drag_origin: *drag_origin,
            },
            Mode::MacroRecording { input_state, target, drag_origin, recorded_actions, drag_start_keys } =>
                ModeView::MacroRecording {
                input_state: *input_state,
                target: *target,
                drag_origin: *drag_origin,
                recorded_actions: actions_view(recorded_actions@),
                drag_start_keys: drag_start_keys@,
            },
            Mode::MacroBindKey { actions } => ModeView::MacroBindKey { actions: actions_view(actions@) },
            Mode::MacroName { bind_key, name, actions } => ModeView::MacroName {
                bind_key: *bind_key,
                name: name@,
                actions: actions_view(actions@),
            },
            Mode::MacroReplayWait => ModeView::MacroReplayWait,
            Mode::MacroSearch { query, selected } => ModeView::MacroSearch { query: query@, selected: *selected },
        }
    }
}

impl View for ModeTransition {
    type V = TransitionView;

    open spec fn view(&self) -> TransitionView {
        match self {
            ModeTransition::Stay => TransitionView::Stay,
            ModeTransition::Redraw => TransitionView::Redraw,
            ModeTransition::Enter(m) => TransitionView::Enter(m@),
            ModeTransition::Back => TransitionView::Back,
            ModeTransition::Exit => TransitionView::Exit,
        }
    }
}

/// The outcome of handling one key: first perform `actions` in order, then,
/// if all of them succeeded, make `transition`.
#[derive(Debug, PartialEq, Eq)]
pub struct Reaction {
    pub actions: Vec<BackendAction>,
    pub transition: ModeTransition,
}

impl View for Reaction {
    type V = (Seq<BackendAction>, TransitionView);

    open spec fn view(&self) -> (Seq<BackendAction>, TransitionView) {
        (self.actions@, self.transition@)
    }
}

/// Whether a mode only holds selections that name existing hints.
pub open spec fn mode_valid(g: &Grid, m: ModeView) -> bool {
    match m {
        ModeView::Normal { input_state, .. } => selection_valid(g, input_state),
        ModeView::MacroRecording { input_state, .. } => selection_valid(g, input_state),
        _ => true,
    }
}

/// Whether `ch` is a hint in the current selection step: a main hint, or,
/// once a main cell is selected, a sub-hint.
pub open spec fn is_hint_char(g: &Grid, s: InputState, ch: char) -> bool {
    g.hints@.contains(ch) || (s is SubFirst && g.sub_hints@.contains(ch))
}

/// The pointer move to `p`, if there is a point.
pub open spec fn move_to(p: Option<(u32, u32)>) -> Seq<BackendAction> {
    match p {
        Some((x, y)) => seq![BackendAction::MoveMouse(x, y)],
        None => Seq::empty(),
    }
}

/// The selection, target and pointer move that typing hint `ch` leads to.
pub open spec fn char_step(
    g: &Grid,
    width: u32,
    height: u32,
    s: InputState,
    ch: char,
    target: Option<(u32, u32)>,
) -> (InputState, Option<(u32, u32)>, Option<(u32, u32)>) {
    match s {
        InputState::First => {
            let col = index_or_zero(g.hints@, ch);
            if col < g.cols {
                let p = column_center_spec(g, width, height, col as u32);
                (InputState::Second(ch), p, p)
            } else {
                (InputState::Second(ch), target, None)
            }
        },
        InputState::Second(first) => {
            let col = index_or_zero(g.hints@, first);
            let row = index_or_zero(g.hints@, ch);
            if col >= g.cols || row >= g.rows {
                (s, target, None)
            } else {
                let p = main_cell_center_spec(g, width, height, col as u32, row as u32);
                (InputState::SubFirst { col: col as u32, row: row as u32 }, p, p)
            }
        },
        InputState::SubFirst { col, row } => match g.sub_hints@.index_of_first(ch) {
            Some(idx) => {
                let sub_col = (idx % g.sub_cols as int) as u32;
                let sub_row = (idx / g.sub_cols as int) as u32;
                match sub_cell_center_spec(g, width, height, col, row, sub_col, sub_row) {
                    Some(p) => (InputState::Ready { col, row, sub_col, sub_row }, Some(p), Some(p)),
                    None => (s, target, None),
                }
            },
            None => (s, target, None),
        },
        InputState::Ready { .. } => (s, target, None),
    }
}

/// Advances the selection by the typed hint `ch`.
///
/// Returns the new selection, the new target, and the point the pointer must
/// move to, if it moves. A column hint selects a column (when it lies inside
/// the grid), a row hint then selects a main cell, and a sub-hint then
/// selects a sub-cell; a key that selects nothing outside the grid leaves
/// selection and target unchanged.
pub fn handle_char_input(
    g: &Grid,
    width: u32,
    height: u32,
    input_state: &InputState,
    ch: char,
    target: Option<(u32, u32)>,
) -> (r: (InputState, Option<(u32, u32)>, Option<(u32, u32)>))
    requires
        g.wf(),
    ensures
        r == char_step(g, width, height, *input_state, ch, target),
        selection_valid(g, *input_state) && is_hint_char(g, *input_state, ch) ==> selection_valid(g, r.0),
{
    match *input_state {
        InputState::First => {
            let col = match find_index(&g.hints, ch) {
                Some(i) => i as u32,
                None => 0,
            };
            if col < g.cols {
                let p = column_center(g, width, height, col);
                (InputState::Second(ch), p, p)
            } else {
                (InputState::Second(ch), target, None)
            }
        },
        InputState::Second(first) => {
            let col = match find_index(&g.hints, first) {
                Some(i) => i as u32,
                None => 0,
            };
            let row = match find_index(&g.hints, ch) {
                Some(i) => i as u32,
                None => 0,
            };
            if col >= g.cols || row >= g.rows {
                return (*input_state, target, None);
            }
            let p = main_cell_center(g, width, height, col, row);
            (InputState::SubFirst { col, row }, p, p)
        },
        InputState::SubFirst { col, row } => {
            if let Some(idx) = find_index(&g.sub_hints, ch) {
                let idx = idx as u32;
                let sub_col = idx % g.sub_cols;
                let sub_row = idx / g.sub_cols;
                proof {
                    lemma_fundamental_div_mod(idx as int, g.sub_cols as int);
                    lemma_mod_bound(idx as int, g.sub_cols as int);
                    assert(sub_row * g.sub_cols + sub_col == idx) by (nonlinear_arith)
                        requires
                            idx as int == g.sub_cols as int * (idx as int / g.sub_cols as int) + idx as int % g.sub_cols as int,
                            sub_row as int == idx as int / g.sub_cols as int,
                            sub_col as int == idx as int % g.sub_cols as int;
                }
                if let Some(p) = sub_cell_center(g, width, height, col, row, sub_col, sub_row) {
                    return (InputState::Ready { col, row, sub_col, sub_row }, Some(p), Some(p));
                }
            }
            (*input_state, target, None)
        },
        InputState::Ready { .. } => (*input_state, target, None),
    }
}

/// Where stepping back from a selection leads: the previous selection and
/// the point the pointer returns to; `None` when nothing has been selected.
pub open spec fn back_step(g: &Grid, width: u32, height: u32, s: InputState) -> Option<(InputState, Option<(u32, u32)>)> {
    match s {
        InputState::First => None,
        InputState::Second(_) => Some((InputState::First, None)),
        InputState::SubFirst { col, .. } => Some((
            InputState::Second(g.hints@[col as int]),
            column_center_spec(g, width, height, col),
        )),
        InputState::Ready { col, row, .. } => Some((
            InputState::SubFirst { col, row },
            main_cell_center_spec(g, width, height, col, row),
        )),
    }
}

/// Steps the selection back by one hint.
pub fn back_selection(g: &Grid, width: u32, height: u32, s: &InputState) -> (r: Option<(InputState, Option<(u32, u32)>)>)
    requires
        selection_valid(g, *s),
    ensures
        r == back_step(g, width, height, *s),
        r matches Some((p, _)) ==> selection_valid(g, p),
{
    match *s {
        InputState::First => None,
        InputState::Second(_) => Some((InputState::First, None)),
        InputState::SubFirst { col, .. } => Some((
            InputState::Second(g.hints[col as usize]),
            column_center(g, width, height, col),
        )),
        InputState::Ready { col, row, .. } => Some((
            InputState::SubFirst { col, row },
            main_cell_center(g, width, height, col, row),
        )),
    }
}

/// The actions that send the pointer to `p`, if there is a point.
pub fn move_actions(p: Option<(u32, u32)>) -> (r: Vec<BackendAction>)
    ensures
        r@ == move_to(p),
{
    let mut v: Vec<BackendAction> = Vec::new();
    if let Some((x, y)) = p {
        v.push(BackendAction::MoveMouse(x, y));
    }
    assert(v@ =~= move_to(p));
    v
}

/// What a mode shows: the hint grid (with the selection so far, whether a
/// drag is under way, and whether a macro is being recorded), or one of the
/// macro screens with the text typed into it.
#[derive(Debug, PartialEq, Eq)]
pub enum Scene {
    Grid { input_state: InputState, dragging: bool, recording: bool },
    BindKey,
    Name { name: Vec<char>, bind_key: Option<char> },
    ReplayWait,
    Search { query: Vec<char>, selected: usize },
}

pub enum SceneView {
    Grid { input_state: InputState, dragging: bool, recording: bool },
    BindKey,
    Name { name: Seq<char>, bind_key: Option<char> },
    ReplayWait,
    Search { query: Seq<char>, selected: usize },
}

impl View for Scene {
    type V = SceneView;

    open spec fn view(&self) -> SceneView {
        match self {
            Scene::Grid { input_state, dragging, recording } => SceneView::Grid {
                input_state: *input_state,
                dragging: *dragging,
                recording: *recording,
            },
            Scene::BindKey => SceneView::BindKey,
            Scene::Name { name, bind_key } => SceneView::Name { name: name@, bind_key: *bind_key },
            Scene::ReplayWait => SceneView::ReplayWait,
            Scene::Search { query, selected } => SceneView::Search { query: query@, selected: *selected },
        }
    }
}

/// What mode `m` shows.
pub open spec fn scene_of(m: ModeView) -> SceneView {
    match m {
        ModeView::Normal { input_state, drag_origin, .. } => SceneView::Grid {
            input_state,
            dragging: drag_origin is Some,
            recording: false,
        },
        ModeView::MacroRecording { input_state, drag_origin, .. } => SceneView::Grid {
            input_state,
            dragging: drag_origin is Some,
            recording: true,
        },
        ModeView::MacroBindKey { .. } => SceneView::BindKey,
        ModeView::MacroName { bind_key, name, .. } => SceneView::Name { name, bind_key },
        ModeView::MacroReplayWait => SceneView::ReplayWait,
        ModeView::MacroSearch { query, selected } => SceneView::Search { query, selected },
    }
}

/// A copy of a list of characters.
pub fn copy_chars(v: &Vec<char>) -> (r: Vec<char>)
    ensures
        r@ == v@,
{
    let mut r: Vec<char> = Vec::new();
    let mut i: usize = 0;
    while i < v.len()
        invariant
            0 <= i <= v.len(),
            r@ == v@.take(i as int),
        decreases v.len() - i,
    {
        r.push(v[i]);
        assert(v@.take(i as int).push(v@[i as int]) =~= v@.take(i + 1));
        i = i + 1;
    }
    assert(v@.take(v.len() as int) =~= v@);
    r
}

impl Mode {
    /// Handles `key` in this mode.
    ///
    /// Selection and recording modes answer with a [`Reaction`]. The macro
    /// screens (binding a key, naming, waiting to replay, searching) are not
    /// handled by this library: for them the answer is `None`.
    pub fn handle_key(&self, g: &Grid, width: u32, height: u32, key: &KeyEvent) -> (r: Option<Reaction>)
        requires
            g.wf(),
            mode_valid(g, self@),
        ensures
            match self@ {
                ModeView::Normal { input_state, target, drag_origin } => r matches Some(x)
                    && x@ == normal_reaction(g, width, height, *key, input_state, target, drag_origin),
                ModeView::MacroRecording { input_state, target, drag_origin, recorded_actions, drag_start_keys } =>
                    r matches Some(x) && x@ == recording_reaction(
                    g,
                    width,
                    height,
                    *key,
                    input_state,
                    target,
                    drag_origin,
                    recorded_actions,
                    drag_start_keys,
                ),
                _ => r is None,
            },
            r matches Some(x) ==> (x.transition matches ModeTransition::Enter(m) ==> mode_valid(g, m@)),
    {
        match self {
            Mode::Normal { input_state, target, drag_origin } => Some(
                normal::handle_key(g, width, height, key, input_state, *target, *drag_origin),
            ),
            Mode::MacroRecording { input_state, target, drag_origin, recorded_actions, drag_start_keys } => Some(
                recording::handle_key(
                    g,
                    width,
                    height,
                    key,
                    input_state,
                    *target,
                    *drag_origin,
                    recorded_actions,
                    drag_start_keys,
                ),
            ),
            _ => None,
        }
    }

    /// What this mode shows.
    pub fn draw(&self) -> (r: Scene)
        ensures
            r@ == scene_of(self@),
    {
        match self {
            Mode::Normal { input_state, drag_origin, .. } => Scene::Grid {
                input_state: *input_state,
                dragging: drag_origin.is_some(),
                recording: false,
            },
            Mode::MacroRecording { input_state, drag_origin, .. } => Scene::Grid {
                input_state: *input_state,
                dragging: drag_origin.is_some(),
                recording: true,
            },
            Mode::MacroBindKey { .. } => Scene::BindKey,
            Mode::MacroName { bind_key, name, .. } => Scene::Name { name: copy_chars(name), bind_key: *bind_key },
            Mode::MacroReplayWait => Scene::ReplayWait,
            Mode::MacroSearch { query, selected } => Scene::Search { query: copy_chars(query), selected: *selected },
        }
    }
}

/// The pointer actions that replaying one macro step performs: the step's
/// action at the position its keys name, or nothing when they name none.
pub open spec fn replay_step(g: &Grid, a: ActionView, width: u32, height: u32) -> Seq<BackendAction> {
    match a {
        ActionView::Move(k) => match keys_position(g, k, width, height) {
            Some((x, y)) => seq![BackendAction::MoveMouse(x, y)],
            None => Seq::empty(),
        },
        ActionView::Click(k) => match keys_position(g, k, width, height) {
            Some((x, y)) => seq![BackendAction::Click(x, y)],
            None => Seq::empty(),
        },
        ActionView::DoubleClick(k) => match keys_position(g, k, width, height) {
            Some((x, y)) => seq![BackendAction::DoubleClick(x, y)],
            None => Seq::empty(),
        },
        ActionView::RightClick(k) => match keys_position(g, k, width, height) {
            Some((x, y)) => seq![BackendAction::RightClick(x, y)],
            None => Seq::empty(),
        },
        ActionView::Drag(s, e) => match (keys_position(g, s, width, height), keys_position(g, e, width, height)) {
            (Some((x1, y1)), Some((x2, y2))) => seq![BackendAction::DragSelect(x1, y1, x2, y2)],
            _ => Seq::empty(),
        },
    }
}

/// The pointer actions that replaying a macro performs: those of each step, in order.
pub open spec fn replay_plan(g: &Grid, steps: Seq<ActionView>, width: u32, height: u32) -> Seq<BackendAction>
    decreases steps.len(),
{
    if steps.len() == 0 {
        Seq::empty()
    } else {
        replay_plan(g, steps.drop_last(), width, height) + replay_step(g, steps.last(), width, height)
    }
}

/// The pointer actions that replay a recorded macro on a screen of the given size.
pub fn replay_macro(actions: &Vec<MacroAction>, g: &Grid, w: u32, h: u32) -> (r: Vec<BackendAction>)
    requires
        g.wf(),
    ensures
        r@ == replay_plan(g, actions_view(actions@), w, h),
{
    let mut out: Vec<BackendAction> = Vec::new();
    let ghost steps = actions_view(actions@);
    let mut i: usize = 0;
    while i < actions.len()
        invariant
            0 <= i <= actions.len(),
            steps == actions_view(actions@),
            g.wf(),
            out@ == replay_plan(g, steps.take(i as int), w, h),
        decreases actions.len() - i,
    {
        let ghost before = out@;
        match &actions[i] {
            MacroAction::Move(keys) => {
                if let Some((x, y)) = keys_to_pos(g, keys, w, h) {
                    out.push(BackendAction::MoveMouse(x, y));
                }
            },
            MacroAction::Click(keys) => {
                if let Some((x, y)) = keys_to_pos(g, keys, w, h) {
                    out.push(BackendAction::Click(x, y));
                }
            },
            MacroAction::DoubleClick(keys) => {
                if let Some((x, y)) = keys_to_pos(g, keys, w, h) {
                    out.push(BackendAction::DoubleClick(x, y));
                }
            },
            MacroAction::RightClick(keys) => {
                if let Some((x, y)) = keys_to_pos(g, keys, w, h) {
                    out.push(BackendAction::RightClick(x, y));
                }
            },
            MacroAction::Drag(start_keys, end_keys) => {
                let start = keys_to_pos(g, start_keys, w, h);
                let end = keys_to_pos(g, end_keys, w, h);
                if let (Some((x1, y1)), Some((x2, y2))) = (start, end) {
                    out.push(BackendAction::DragSelect(x1, y1, x2, y2));
                }
            },
        }
        proof {
            assert(steps.take(i + 1).drop_last() =~= steps.take(i as int));
            assert(steps.take(i + 1).last() == actions@[i as int]@);
            assert(out@ =~= before + replay_step(g, actions@[i as int]@, w, h));
        }
        i = i + 1;
    }
    assert(steps.take(actions.len() as int) =~= steps);
    out
}

/// Each kind of macro step replays as the same kind of pointer action at the
/// position its keys name: a move moves, a click clicks, a double click
/// double-clicks, a right click right-clicks, and a drag drags from the
/// position of its first keys to that of its second; a step whose keys name
/// no position does nothing.
pub proof fn lemma_replay_step_kinds(g: &Grid, width: u32, height: u32, k: Seq<char>, e: Seq<char>)
    ensures
        keys_position(g, k, width, height) matches Some((x, y)) ==> replay_step(g, ActionView::Move(k), width, height)
            =~= seq![BackendAction::MoveMouse(x, y)],
        keys_position(g, k, width, height) matches Some((x, y)) ==> replay_step(g, ActionView::Click(k), width, height)
            =~= seq![BackendAction::Click(x, y)],
        keys_position(g, k, width, height) matches Some((x, y)) ==> replay_step(g, ActionView::DoubleClick(k), width, height)
            =~= seq![BackendAction::DoubleClick(x, y)],
        keys_position(g, k, width, height) matches Some((x, y)) ==> replay_step(g, ActionView::RightClick(k), width, height)
            =~= seq![BackendAction::RightClick(x, y)],
        keys_position(g, k, width, height) is None ==> replay_step(g, ActionView::Click(k), width, height).len() == 0,
        keys_position(g, k, width, height) is None ==> replay_step(g, ActionView::Drag(k, e), width, height).len() == 0,
        ({
            let p = keys_position(g, k, width, height);
            let q = keys_position(g, e, width, height);
            p is Some && q is Some ==> replay_step(g, ActionView::Drag(k, e), width, height) =~= seq![
                BackendAction::DragSelect(p->Some_0.0, p->Some_0.1, q->Some_0.0, q->Some_0.1),
            ]
        }),
{
}

/// Replaying a macro performs the actions of its steps in order: the plan of
/// the steps followed by one more is the plan of the steps, then that step's
/// actions; the plan of no steps is empty.
pub proof fn lemma_replay_in_order(g: &Grid, width: u32, height: u32, steps: Seq<ActionView>, a: ActionView)
    ensures
        replay_plan(g, Seq::empty(), width, height).len() == 0,
        replay_plan(g, steps.push(a), width, height) =~= replay_plan(g, steps, width, height) + replay_step(g, a, width, height),
{
    assert(steps.push(a).drop_last() =~= steps);
}

/// The grid shows the selection, whether a drag is under way, and whether a
/// macro is being recorded: recording exactly in recording mode, dragging
/// exactly when there is a drag origin.
pub proof fn lemma_scene_flags(m: ModeView)
    ensures
        m matches ModeView::Normal { input_state, drag_origin, .. } ==> scene_of(m) == (SceneView::Grid {
            input_state,
            dragging: drag_origin is Some,
            recording: false,
        }),
        m matches ModeView::MacroRecording { input_state, drag_origin, .. } ==> scene_of(m) == (SceneView::Grid {
            input_state,
            dragging: drag_origin is Some,
            recording: true,
        }),
        m is MacroBindKey ==> scene_of(m) == SceneView::BindKey,
        m is MacroReplayWait ==> scene_of(m) == SceneView::ReplayWait,
        m matches ModeView::MacroName { bind_key, name, .. } ==> scene_of(m) == (SceneView::Name { name, bind_key }),
        m matches ModeView::MacroSearch { query, selected } ==> scene_of(m) == (SceneView::Search { query, selected }),
{
}

} // verus!

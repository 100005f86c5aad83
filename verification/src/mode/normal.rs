//! Key handling while selecting a cell.

use vstd::prelude::*;

use crate::backend::KeyEvent;
use crate::grid::{keys_of, lemma_first_index_of_distinct, selection_center, selection_valid, Grid, InputState};
use crate::macro_store::{actions_view, ActionView, MacroAction};
use super::{
    back_selection, back_step, char_step, handle_char_input, is_hint_char, mode_valid, move_actions,
    move_to, BackendAction, Mode, ModeTransition, ModeView, Reaction, TransitionView,
};

verus! {

/// Entering selection mode with the given selection, target and drag origin.
pub open spec fn enter_normal(s: InputState, target: Option<(u32, u32)>, drag: Option<(u32, u32)>) -> TransitionView {
    TransitionView::Enter(ModeView::Normal { input_state: s, target, drag_origin: drag })
}

/// The pointer action of a (double) click at the target: a drag from the
/// drag origin when one is under way, nothing without a target.
pub open spec fn click_at(target: Option<(u32, u32)>, drag: Option<(u32, u32)>, double: bool) -> Seq<BackendAction> {
    match target {
        Some((x, y)) => match drag {
            Some((ox, oy)) => seq![BackendAction::DragSelect(ox, oy, x, y)],
            None => if double {
                seq![BackendAction::DoubleClick(x, y)]
            } else {
                seq![BackendAction::Click(x, y)]
            },
        },
        None => Seq::empty(),
    }
}

/// The scroll action for a scroll key, if `key` is one.
pub open spec fn scroll_action(key: KeyEvent) -> Option<BackendAction> {
    match key {
        KeyEvent::ScrollUp => Some(BackendAction::ScrollUp),
        KeyEvent::ScrollDown => Some(BackendAction::ScrollDown),
        KeyEvent::ScrollLeft => Some(BackendAction::ScrollLeft),
        KeyEvent::ScrollRight => Some(BackendAction::ScrollRight),
        _ => None,
    }
}

/// How selection mode reacts to `key`, given the selection `s`, the target
/// and the drag origin. The conditions are tried in order.
pub open spec fn normal_reaction(
    g: &Grid,
    width: u32,
    height: u32,
    key: KeyEvent,
    s: InputState,
    target: Option<(u32, u32)>,
    drag: Option<(u32, u32)>,
) -> (Seq<BackendAction>, TransitionView) {
    let none = Seq::<BackendAction>::empty();
    if key == KeyEvent::Close {
        (none, TransitionView::Exit)
    } else if key == KeyEvent::Back {
        match back_step(g, width, height, s) {
            None => (none, TransitionView::Stay),
            Some((p, t)) => (move_to(t), enter_normal(p, t, drag)),
        }
    } else if key == KeyEvent::Undo {
        (none, TransitionView::Back)
    } else if key == KeyEvent::Click {
        (click_at(target, drag, false), TransitionView::Exit)
    } else if key == KeyEvent::DoubleClick {
        (click_at(target, drag, true), TransitionView::Exit)
    } else if key == KeyEvent::RightClick && drag is None {
        (
            match target {
                Some((x, y)) => seq![BackendAction::RightClick(x, y)],
                None => none,
            },
            TransitionView::Exit,
        )
    } else if key == KeyEvent::Char('/') && (s is Ready || s is SubFirst) {
        (none, enter_normal(InputState::First, None, target))
    } else if key == KeyEvent::Char('@') && s is First && drag is None {
        (none, TransitionView::Enter(ModeView::MacroReplayWait))
    } else if key == KeyEvent::MacroRecord && s is First && drag is None {
        (none, TransitionView::Enter(ModeView::MacroRecording {
            input_state: InputState::First,
            target: None,
            drag_origin: None,
            recorded_actions: Seq::empty(),
            drag_start_keys: Seq::empty(),
        }))
    } else if key is Char && is_hint_char(g, s, key->Char_0) {
        let (p, t, mv) = char_step(g, width, height, s, key->Char_0, target);
        (move_to(mv), enter_normal(p, t, drag))
    } else if key == KeyEvent::MacroMenu && (s is SubFirst || s is Ready) {
        (none, TransitionView::Enter(ModeView::MacroBindKey { actions: seq![ActionView::Click(keys_of(g, s))] }))
    } else if key == KeyEvent::MacroMenu && s is First && drag is None {
        (none, TransitionView::Enter(ModeView::MacroSearch { query: Seq::empty(), selected: 0 }))
    } else if scroll_action(key) is Some {
        (move_to(target).push(scroll_action(key)->Some_0), TransitionView::Redraw)
    } else {
        (none, TransitionView::Stay)
    }
}

/// The pointer actions of a scroll: move to the target, if there is one,
/// then scroll.
pub fn scroll_actions(target: Option<(u32, u32)>, scroll: BackendAction) -> (r: Vec<BackendAction>)
    ensures
        r@ == move_to(target).push(scroll),
{
    let mut v = move_actions(target);
    v.push(scroll);
    v
}

fn reaction(actions: Vec<BackendAction>, transition: ModeTransition) -> (r: Reaction)
    ensures
        r.actions == actions,
        r.transition == transition,
{
    Reaction { actions, transition }
}

/// Handles `key` in selection mode.
pub fn handle_key(
    g: &Grid,
    width: u32,
    height: u32,
    key: &KeyEvent,
    input_state: &InputState,
    target: Option<(u32, u32)>,
    drag_origin: Option<(u32, u32)>,
) -> (r: Reaction)
    requires
        g.wf(),
        selection_valid(g, *input_state),
    ensures
        r@ == normal_reaction(g, width, height, *key, *input_state, target, drag_origin),
        r.transition matches ModeTransition::Enter(m) ==> mode_valid(g, m@),
{
    let none: Vec<BackendAction> = Vec::new();
    match *key {
        KeyEvent::Close => reaction(none, ModeTransition::Exit),
        KeyEvent::Back => match back_selection(g, width, height, input_state) {
            None => reaction(none, ModeTransition::Stay),
            Some((p, t)) => reaction(
                move_actions(t),
                ModeTransition::Enter(Mode::Normal { input_state: p, target: t, drag_origin }),
            ),
        },
        KeyEvent::Undo => reaction(none, ModeTransition::Back),
        KeyEvent::Click | KeyEvent::DoubleClick => {
            let mut v: Vec<BackendAction> = Vec::new();
            if let Some((x, y)) = target {
                if let Some((ox, oy)) = drag_origin {
                    v.push(BackendAction::DragSelect(ox, oy, x, y));
                } else if *key == KeyEvent::DoubleClick {
                    v.push(BackendAction::DoubleClick(x, y));
                } else {
                    v.push(BackendAction::Click(x, y));
                }
            }
            assert(v@ =~= click_at(target, drag_origin, *key == KeyEvent::DoubleClick));
            reaction(v, ModeTransition::Exit)
        },
        KeyEvent::RightClick if drag_origin.is_none() => {
            let mut v: Vec<BackendAction> = Vec::new();
            if let Some((x, y)) = target {
                v.push(BackendAction::RightClick(x, y));
            }
            reaction(v, ModeTransition::Exit)
        },
        KeyEvent::Char('/') if matches!(*input_state, InputState::Ready { .. } | InputState::SubFirst { .. }) => {
            reaction(
                none,
                ModeTransition::Enter(Mode::Normal { input_state: InputState::First, target: None, drag_origin: target }),
            )
        },
        KeyEvent::Char('@') if matches!(*input_state, InputState::First) && drag_origin.is_none() => {
            reaction(none, ModeTransition::Enter(Mode::MacroReplayWait))
        },
        KeyEvent::MacroRecord if matches!(*input_state, InputState::First) && drag_origin.is_none() => {
            let m = Mode::MacroRecording {
                input_state: InputState::First,
                target: None,
                drag_origin: None,
                recorded_actions: Vec::new(),
                drag_start_keys: String::new(),
            };
            assert(actions_view(Seq::<MacroAction>::empty()) =~= Seq::<ActionView>::empty());
            reaction(none, ModeTransition::Enter(m))
        },
        KeyEvent::Char(ch) if is_hint(g, input_state, ch) => {
            let (p, t, mv) = handle_char_input(g, width, height, input_state, ch, target);
            reaction(move_actions(mv), ModeTransition::Enter(Mode::Normal { input_state: p, target: t, drag_origin }))
        },
        KeyEvent::MacroMenu if matches!(*input_state, InputState::SubFirst { .. } | InputState::Ready { .. }) => {
            let mut actions: Vec<MacroAction> = Vec::new();
            actions.push(MacroAction::Click(input_state.keys(g)));
            assert(actions_view(actions@) =~= seq![ActionView::Click(keys_of(g, *input_state))]);
            reaction(none, ModeTransition::Enter(Mode::MacroBindKey { actions }))
        },
        KeyEvent::MacroMenu if matches!(*input_state, InputState::First) && drag_origin.is_none() => {
            reaction(none, ModeTransition::Enter(Mode::MacroSearch { query: Vec::new(), selected: 0 }))
        },
        KeyEvent::ScrollUp => reaction(scroll_actions(target, BackendAction::ScrollUp), ModeTransition::Redraw),
        KeyEvent::ScrollDown => reaction(scroll_actions(target, BackendAction::ScrollDown), ModeTransition::Redraw),
        KeyEvent::ScrollLeft => reaction(scroll_actions(target, BackendAction::ScrollLeft), ModeTransition::Redraw),
        KeyEvent::ScrollRight => reaction(scroll_actions(target, BackendAction::ScrollRight), ModeTransition::Redraw),
        _ => reaction(none, ModeTransition::Stay),
    }
}

/// Whether `ch` is a hint in the current selection step.
pub fn is_hint(g: &Grid, s: &InputState, ch: char) -> (r: bool)
    ensures
        r == is_hint_char(g, *s, ch),
{
    if crate::grid::find_index(&g.hints, ch).is_some() {
        return true;
    }
    match *s {
        InputState::SubFirst { .. } => crate::grid::find_index(&g.sub_hints, ch).is_some(),
        _ => false,
    }
}

/// Typing a hint moves the target along with the selection: when the target
/// is where the selection points before the hint, it is where the new
/// selection points after it.
pub proof fn lemma_hint_keeps_target_on_selection(
    g: &Grid,
    width: u32,
    height: u32,
    s: InputState,
    ch: char,
    target: Option<(u32, u32)>,
)
    requires
        g.wf(),
        selection_valid(g, s),
        is_hint_char(g, s, ch),
        target == selection_center(g, width, height, s),
    ensures
        char_step(g, width, height, s, ch, target).1 == selection_center(
            g,
            width,
            height,
            char_step(g, width, height, s, ch, target).0,
        ),
{
    g.hints@.index_of_first_ensures(ch);
}

/// Stepping back moves the target back with the selection, provided no hint
/// occurs twice.
pub proof fn lemma_back_keeps_target_on_selection(g: &Grid, width: u32, height: u32, s: InputState)
    requires
        g.wf(),
        g.hints@.no_duplicates(),
        selection_valid(g, s),
    ensures
        back_step(g, width, height, s) matches Some((p, t)) ==> t == selection_center(g, width, height, p),
{
    if let InputState::SubFirst { col, .. } = s {
        lemma_first_index_of_distinct(g.hints@, col as int);
    }
}

/// In selection mode the target always points at the selection: every key
/// that keeps selection mode (with the same drag state) leaves the target
/// where the new selection points, provided no hint occurs twice.
pub proof fn lemma_target_follows_selection(
    g: &Grid,
    width: u32,
    height: u32,
    key: KeyEvent,
    s: InputState,
    target: Option<(u32, u32)>,
    drag: Option<(u32, u32)>,
)
    requires
        g.wf(),
        g.hints@.no_duplicates(),
        selection_valid(g, s),
        target == selection_center(g, width, height, s),
    ensures
        normal_reaction(g, width, height, key, s, target, drag).1 matches TransitionView::Enter(
            ModeView::Normal { input_state, target: t, drag_origin },
        ) ==> drag_origin == drag ==> t == selection_center(g, width, height, input_state),
{
    lemma_back_keeps_target_on_selection(g, width, height, s);
    if key is Char && is_hint_char(g, s, key->Char_0) {
        lemma_hint_keeps_target_on_selection(g, width, height, s, key->Char_0, target);
    }
}

/// Back undoes a hint: after a hint has advanced the selection, Back returns
/// to the selection before it, sends the pointer back to where that
/// selection points, and keeps the drag state. For a selection that has
/// only its column hint, the hint must be one of the grid's hints.
pub proof fn lemma_back_undoes_hint(
    g: &Grid,
    width: u32,
    height: u32,
    s: InputState,
    ch: char,
    target: Option<(u32, u32)>,
    drag: Option<(u32, u32)>,
)
    requires
        g.wf(),
        selection_valid(g, s),
        is_hint_char(g, s, ch),
        s is Second ==> g.hints@.contains(s->Second_0),
        char_step(g, width, height, s, ch, target).0 != s,
    ensures
        ({
            let (p, t, _) = char_step(g, width, height, s, ch, target);
            normal_reaction(g, width, height, KeyEvent::Back, p, t, drag) == (
                move_to(selection_center(g, width, height, s)),
                enter_normal(s, selection_center(g, width, height, s), drag),
            )
        }),
{
    g.hints@.index_of_first_ensures(ch);
    if let InputState::Second(first) = s {
        g.hints@.index_of_first_ensures(first);
    }
}

/// Clicks in selection mode act at the target: with a target and no drag
/// under way, Click clicks there, DoubleClick double-clicks there and
/// RightClick right-clicks there; with a drag under way, Click and
/// DoubleClick both finish the drag from its origin to the target. Each then
/// closes the overlay.
pub proof fn lemma_normal_clicks_act_at_target(
    g: &Grid,
    width: u32,
    height: u32,
    s: InputState,
    x: u32,
    y: u32,
    ox: u32,
    oy: u32,
)
    ensures
        normal_reaction(g, width, height, KeyEvent::Click, s, Some((x, y)), None).0 =~= seq![BackendAction::Click(x, y)],
        normal_reaction(g, width, height, KeyEvent::Click, s, Some((x, y)), None).1 == TransitionView::Exit,
        normal_reaction(g, width, height, KeyEvent::DoubleClick, s, Some((x, y)), None).0 =~= seq![
            BackendAction::DoubleClick(x, y),
        ],
        normal_reaction(g, width, height, KeyEvent::DoubleClick, s, Some((x, y)), None).1 == TransitionView::Exit,
        normal_reaction(g, width, height, KeyEvent::RightClick, s, Some((x, y)), None).0 =~= seq![
            BackendAction::RightClick(x, y),
        ],
        normal_reaction(g, width, height, KeyEvent::RightClick, s, Some((x, y)), None).1 == TransitionView::Exit,
        normal_reaction(g, width, height, KeyEvent::Click, s, Some((x, y)), Some((ox, oy))).0 =~= seq![
            BackendAction::DragSelect(ox, oy, x, y),
        ],
        normal_reaction(g, width, height, KeyEvent::DoubleClick, s, Some((x, y)), Some((ox, oy))).0 =~= seq![
            BackendAction::DragSelect(ox, oy, x, y),
        ],
        normal_reaction(g, width, height, KeyEvent::Click, s, None, None).0.len() == 0,
        normal_reaction(g, width, height, KeyEvent::DoubleClick, s, None, None).0.len() == 0,
{
}

/// A scroll key in selection mode scrolls in its own direction: the
/// reaction moves the pointer to the target, if there is one, then scrolls
/// up for ScrollUp, down for ScrollDown, left for ScrollLeft and right for
/// ScrollRight, and redraws.
pub proof fn lemma_normal_scrolls_in_key_direction(
    g: &Grid,
    width: u32,
    height: u32,
    s: InputState,
    target: Option<(u32, u32)>,
    drag: Option<(u32, u32)>,
    key: KeyEvent,
)
    requires
        key == KeyEvent::ScrollUp || key == KeyEvent::ScrollDown || key == KeyEvent::ScrollLeft || key
            == KeyEvent::ScrollRight,
    ensures
        ({
            let r = normal_reaction(g, width, height, key, s, target, drag);
            &&& r.1 == TransitionView::Redraw
            &&& r.0.len() == (if target is Some { 2int } else { 1int })
            &&& (target is Some ==> r.0[0] == BackendAction::MoveMouse(target->Some_0.0, target->Some_0.1))
            &&& (key == KeyEvent::ScrollUp ==> r.0.last() == BackendAction::ScrollUp)
            &&& (key == KeyEvent::ScrollDown ==> r.0.last() == BackendAction::ScrollDown)
            &&& (key == KeyEvent::ScrollLeft ==> r.0.last() == BackendAction::ScrollLeft)
            &&& (key == KeyEvent::ScrollRight ==> r.0.last() == BackendAction::ScrollRight)
        }),
{
}

/// The commands of selection mode: Close closes the overlay and Undo goes
/// back a mode, whatever the selection; Back with nothing selected stays;
/// Right click during a drag does nothing; `/` on a selected cell starts a
/// drag from the target; with nothing selected and no drag, `@` waits for a
/// macro to replay, the record key starts an empty recording and the macro
/// key opens the search; the macro key on a selected cell offers to bind a
/// one-step macro clicking that cell.
pub proof fn lemma_normal_commands(
    g: &Grid,
    width: u32,
    height: u32,
    s: InputState,
    target: Option<(u32, u32)>,
    drag: Option<(u32, u32)>,
)
    ensures
        normal_reaction(g, width, height, KeyEvent::Close, s, target, drag).0.len() == 0,
        normal_reaction(g, width, height, KeyEvent::Close, s, target, drag).1 == TransitionView::Exit,
        normal_reaction(g, width, height, KeyEvent::Undo, s, target, drag).0.len() == 0,
        normal_reaction(g, width, height, KeyEvent::Undo, s, target, drag).1 == TransitionView::Back,
        s == InputState::First ==> normal_reaction(g, width, height, KeyEvent::Back, s, target, drag).1
            == TransitionView::Stay,
        drag is Some ==> normal_reaction(g, width, height, KeyEvent::RightClick, s, target, drag).0.len() == 0,
        drag is Some ==> normal_reaction(g, width, height, KeyEvent::RightClick, s, target, drag).1
            == TransitionView::Stay,
        (s is SubFirst || s is Ready) ==> normal_reaction(g, width, height, KeyEvent::Char('/'), s, target, drag).1
            == TransitionView::Enter(ModeView::Normal { input_state: InputState::First, target: None, drag_origin: target }),
        (s == InputState::First && drag is None) ==> normal_reaction(g, width, height, KeyEvent::Char('@'), s, target, drag).1
            == TransitionView::Enter(ModeView::MacroReplayWait),
        (s == InputState::First && drag is None) ==> (normal_reaction(g, width, height, KeyEvent::MacroRecord, s, target, drag).1
            matches TransitionView::Enter(ModeView::MacroRecording { input_state, target: t, drag_origin, recorded_actions, drag_start_keys })
            && input_state == InputState::First && t is None && drag_origin is None && recorded_actions.len() == 0
            && drag_start_keys.len() == 0),
        (s == InputState::First && drag is None) ==> (normal_reaction(g, width, height, KeyEvent::MacroMenu, s, target, drag).1
            matches TransitionView::Enter(ModeView::MacroSearch { query, selected }) && query.len() == 0 && selected == 0),
        (s is SubFirst || s is Ready) ==> (normal_reaction(g, width, height, KeyEvent::MacroMenu, s, target, drag).1
            matches TransitionView::Enter(ModeView::MacroBindKey { actions }) && actions =~= seq![ActionView::Click(keys_of(g, s))]),
{
}

} // verus!

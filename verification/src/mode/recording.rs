//! Key handling while selecting cells for a macro that is being recorded.

use vstd::prelude::*;

use crate::backend::KeyEvent;
use crate::grid::{
    keys_of, lemma_keys_name_selection, selection_center, selection_valid, Grid, InputState,
};
use crate::macro_store::{actions_view, copy_actions, lemma_actions_view_push, ActionView, MacroAction};
use super::normal::{enter_normal, is_hint, scroll_action, scroll_actions};
use super::{
    replay_step, back_selection, back_step, char_step, handle_char_input, is_hint_char, mode_valid, move_actions,
    move_to, BackendAction, Mode, ModeTransition, ModeView, Reaction, TransitionView,
};

verus! {

/// Entering recording mode with the given selection, target, drag origin,
/// recorded steps and drag start keys.
pub open spec fn enter_recording(
    s: InputState,
    target: Option<(u32, u32)>,
    drag: Option<(u32, u32)>,
    recorded: Seq<ActionView>,
    drag_keys: Seq<char>,
) -> TransitionView {
    TransitionView::Enter(ModeView::MacroRecording {
        input_state: s,
        target,
        drag_origin: drag,
        recorded_actions: recorded,
        drag_start_keys: drag_keys,
    })
}

/// The pointer action that a click key performs at (`x`, `y`).
pub open spec fn press_at(key: KeyEvent, x: u32, y: u32) -> BackendAction {
    if key == KeyEvent::DoubleClick {
        BackendAction::DoubleClick(x, y)
    } else if key == KeyEvent::RightClick {
        BackendAction::RightClick(x, y)
    } else {
        BackendAction::Click(x, y)
    }
}

/// The macro step that a click key records for the cell named by `keys`.
pub open spec fn recorded_press(key: KeyEvent, keys: Seq<char>) -> ActionView {
    if key == KeyEvent::DoubleClick {
        ActionView::DoubleClick(keys)
    } else if key == KeyEvent::RightClick {
        ActionView::RightClick(keys)
    } else {
        ActionView::Click(keys)
    }
}

/// How recording mode reacts to `key`, given the selection `s`, the target,
/// the drag origin, the steps recorded so far and the keys where a drag
/// started. The conditions are tried in order.
pub open spec fn recording_reaction(
    g: &Grid,
    width: u32,
    height: u32,
    key: KeyEvent,
    s: InputState,
    target: Option<(u32, u32)>,
    drag: Option<(u32, u32)>,
    recorded: Seq<ActionView>,
    drag_keys: Seq<char>,
) -> (Seq<BackendAction>, TransitionView) {
    let none = Seq::<BackendAction>::empty();
    if key == KeyEvent::Back {
        match back_step(g, width, height, s) {
            None => (none, TransitionView::Stay),
            Some((p, t)) => (move_to(t), enter_recording(p, t, drag, recorded, drag_keys)),
        }
    } else if key == KeyEvent::Undo {
        (none, TransitionView::Back)
    } else if key == KeyEvent::MacroRecord {
        if recorded.len() == 0 {
            (none, enter_normal(InputState::First, None, None))
        } else {
            (none, TransitionView::Enter(ModeView::MacroBindKey { actions: recorded }))
        }
    } else if key == KeyEvent::Close {
        (none, enter_normal(InputState::First, None, None))
    } else if key is Char && is_hint_char(g, s, key->Char_0) {
        let (p, t, mv) = char_step(g, width, height, s, key->Char_0, target);
        (move_to(mv), enter_recording(p, t, drag, recorded, drag_keys))
    } else if (key == KeyEvent::Click || key == KeyEvent::DoubleClick || key == KeyEvent::RightClick)
        && target is Some && drag is None {
        let (x, y) = target->Some_0;
        (
            seq![press_at(key, x, y), BackendAction::Reopen],
            enter_recording(InputState::First, None, None, recorded.push(recorded_press(key, keys_of(g, s))), Seq::empty()),
        )
    } else if (key == KeyEvent::Click || key == KeyEvent::DoubleClick) && target is Some && drag is Some {
        let (x, y) = target->Some_0;
        let (ox, oy) = drag->Some_0;
        (
            seq![BackendAction::DragSelect(ox, oy, x, y), BackendAction::Reopen],
            enter_recording(
                InputState::First,
                None,
                None,
                recorded.push(ActionView::Drag(drag_keys, keys_of(g, s))),
                Seq::empty(),
            ),
        )
    } else if key == KeyEvent::MacroMenu && target is Some && drag is None && (s is SubFirst || s is Ready) {
        (none, enter_recording(InputState::First, None, None, recorded.push(ActionView::Move(keys_of(g, s))), Seq::empty()))
    } else if key == KeyEvent::Char('/') && drag is Some {
        (none, enter_recording(InputState::First, None, None, recorded, Seq::empty()))
    } else if key == KeyEvent::Char('/') && (s is Ready || s is SubFirst) {
        (none, enter_recording(InputState::First, target, target, recorded, keys_of(g, s)))
    } else if scroll_action(key) is Some {
        (move_to(target).push(scroll_action(key)->Some_0), TransitionView::Redraw)
    } else {
        (none, TransitionView::Stay)
    }
}

fn reaction(actions: Vec<BackendAction>, transition: ModeTransition) -> (r: Reaction)
    ensures
        r.actions == actions,
        r.transition == transition,
{
    Reaction { actions, transition }
}

fn recording(
    input_state: InputState,
    target: Option<(u32, u32)>,
    drag_origin: Option<(u32, u32)>,
    recorded_actions: Vec<MacroAction>,
    drag_start_keys: String,
) -> (r: ModeTransition)
    ensures
        r@ == enter_recording(input_state, target, drag_origin, actions_view(recorded_actions@), drag_start_keys@),
{
    ModeTransition::Enter(Mode::MacroRecording { input_state, target, drag_origin, recorded_actions, drag_start_keys })
}

/// Handles `key` in recording mode. Clicks and drags are performed and
/// appended to the recorded steps by the keys of their cells; afterwards the
/// overlay is reopened and a fresh selection starts.
pub fn handle_key(
    g: &Grid,
    width: u32,
    height: u32,
    key: &KeyEvent,
    input_state: &InputState,
    target: Option<(u32, u32)>,
    drag_origin: Option<(u32, u32)>,
    recorded_actions: &Vec<MacroAction>,
    drag_start_keys: &String,
) -> (r: Reaction)
    requires
        g.wf(),
        selection_valid(g, *input_state),
    ensures
        r@ == recording_reaction(
            g,
            width,
            height,
            *key,
            *input_state,
            target,
            drag_origin,
            actions_view(recorded_actions@),
            drag_start_keys@,
        ),
        r.transition matches ModeTransition::Enter(m) ==> mode_valid(g, m@),
{
    let none: Vec<BackendAction> = Vec::new();
    let k = *key;
    if k == KeyEvent::Back {
        return match back_selection(g, width, height, input_state) {
            None => reaction(none, ModeTransition::Stay),
            Some((p, t)) => reaction(
                move_actions(t),
                recording(p, t, drag_origin, copy_actions(recorded_actions), drag_start_keys.clone()),
            ),
        };
    }
    if k == KeyEvent::Undo {
        return reaction(none, ModeTransition::Back);
    }
    if k == KeyEvent::MacroRecord {
        if recorded_actions.len() == 0 {
            return reaction(
                none,
                ModeTransition::Enter(Mode::Normal { input_state: InputState::First, target: None, drag_origin: None }),
            );
        } else {
            return reaction(none, ModeTransition::Enter(Mode::MacroBindKey { actions: copy_actions(recorded_actions) }));
        }
    }
    if k == KeyEvent::Close {
        return reaction(
            none,
            ModeTransition::Enter(Mode::Normal { input_state: InputState::First, target: None, drag_origin: None }),
        );
    }
    if let KeyEvent::Char(ch) = k {
        if is_hint(g, input_state, ch) {
            let (p, t, mv) = handle_char_input(g, width, height, input_state, ch, target);
            return reaction(
                move_actions(mv),
                recording(p, t, drag_origin, copy_actions(recorded_actions), drag_start_keys.clone()),
            );
        }
    }
    if (k == KeyEvent::Click || k == KeyEvent::DoubleClick || k == KeyEvent::RightClick) && target.is_some()
        && drag_origin.is_none() {
        let (x, y) = target.unwrap();
        let current_keys = input_state.keys(g);
        let mut new_actions = copy_actions(recorded_actions);
        let mut v: Vec<BackendAction> = Vec::new();
        let ghost keys_view = current_keys@;
        let step = if k == KeyEvent::DoubleClick {
            v.push(BackendAction::DoubleClick(x, y));
            MacroAction::DoubleClick(current_keys)
        } else if k == KeyEvent::RightClick {
            v.push(BackendAction::RightClick(x, y));
            MacroAction::RightClick(current_keys)
        } else {
            v.push(BackendAction::Click(x, y));
            MacroAction::Click(current_keys)
        };
        assert(step@ == recorded_press(k, keys_view));
        proof {
            lemma_actions_view_push(new_actions@, step);
        }
        new_actions.push(step);
        v.push(BackendAction::Reopen);
        assert(v@ =~= seq![press_at(k, x, y), BackendAction::Reopen]);
        return reaction(v, recording(InputState::First, None, None, new_actions, String::new()));
    }
    if (k == KeyEvent::Click || k == KeyEvent::DoubleClick) && target.is_some() && drag_origin.is_some() {
        let (x, y) = target.unwrap();
        let (ox, oy) = drag_origin.unwrap();
        let current_keys = input_state.keys(g);
        let mut new_actions = copy_actions(recorded_actions);
        let step = MacroAction::Drag(drag_start_keys.clone(), current_keys);
        proof {
            lemma_actions_view_push(new_actions@, step);
        }
        new_actions.push(step);
        let mut v: Vec<BackendAction> = Vec::new();
        v.push(BackendAction::DragSelect(ox, oy, x, y));
        v.push(BackendAction::Reopen);
        assert(v@ =~= seq![BackendAction::DragSelect(ox, oy, x, y), BackendAction::Reopen]);
        return reaction(v, recording(InputState::First, None, None, new_actions, String::new()));
    }
    if k == KeyEvent::MacroMenu && target.is_some() && drag_origin.is_none()
        && matches!(*input_state, InputState::SubFirst { .. } | InputState::Ready { .. }) {
        let mut new_actions = copy_actions(recorded_actions);
        let step = MacroAction::Move(input_state.keys(g));
        proof {
            lemma_actions_view_push(new_actions@, step);
        }
        new_actions.push(step);
        return reaction(none, recording(InputState::First, None, None, new_actions, String::new()));
    }
    if k == KeyEvent::Char('/') && drag_origin.is_some() {
        return reaction(
            none,
            recording(InputState::First, None, None, copy_actions(recorded_actions), String::new()),
        );
    }
    if k == KeyEvent::Char('/') && matches!(*input_state, InputState::Ready { .. } | InputState::SubFirst { .. }) {
        return reaction(
            none,
            recording(InputState::First, target, target, copy_actions(recorded_actions), input_state.keys(g)),
        );
    }
    match k {
        KeyEvent::ScrollUp => reaction(scroll_actions(target, BackendAction::ScrollUp), ModeTransition::Redraw),
        KeyEvent::ScrollDown => reaction(scroll_actions(target, BackendAction::ScrollDown), ModeTransition::Redraw),
        KeyEvent::ScrollLeft => reaction(scroll_actions(target, BackendAction::ScrollLeft), ModeTransition::Redraw),
        KeyEvent::ScrollRight => reaction(scroll_actions(target, BackendAction::ScrollRight), ModeTransition::Redraw),
        _ => reaction(none, ModeTransition::Stay),
    }
}

/// Recording never loses or rewrites a step: whenever recording mode goes on,
/// the steps recorded before are a prefix of the steps recorded after, with
/// at most one step added; and stopping hands exactly the recorded steps on
/// to key binding (or, when there are none, returns to selection mode).
pub proof fn lemma_recording_appends_only(
    g: &Grid,
    width: u32,
    height: u32,
    key: KeyEvent,
    s: InputState,
    target: Option<(u32, u32)>,
    drag: Option<(u32, u32)>,
    recorded: Seq<ActionView>,
    drag_keys: Seq<char>,
)
    ensures
        recording_reaction(g, width, height, key, s, target, drag, recorded, drag_keys).1 matches TransitionView::Enter(
            ModeView::MacroRecording { recorded_actions, .. },
        ) ==> recorded.is_prefix_of(recorded_actions) && recorded_actions.len() <= recorded.len() + 1,
        recording_reaction(g, width, height, key, s, target, drag, recorded, drag_keys).1 matches TransitionView::Enter(
            ModeView::MacroBindKey { actions },
        ) ==> actions == recorded && recorded.len() > 0,
{
    assert(recorded.is_prefix_of(recorded));
    assert forall|a: ActionView| recorded.is_prefix_of(#[trigger] recorded.push(a)) by {
        assert(recorded.push(a).subrange(0, recorded.len() as int) =~= recorded);
    }
}

/// A recorded click replays as it was performed: when the target is where
/// the selection points and no drag is under way, a click key performs a
/// press at the target, and the step it records, replayed on the same grid
/// and screen, performs that same press. Hints must not occur twice, and a
/// selection that has only its column hint must use one of the grid's hints.
pub proof fn lemma_recorded_click_replays(
    g: &Grid,
    width: u32,
    height: u32,
    key: KeyEvent,
    s: InputState,
    recorded: Seq<ActionView>,
    drag_keys: Seq<char>,
)
    requires
        g.wf(),
        g.hints@.no_duplicates(),
        g.sub_hints@.no_duplicates(),
        selection_valid(g, s),
        s is Second ==> g.hints@.contains(s->Second_0),
        key == KeyEvent::Click || key == KeyEvent::DoubleClick || key == KeyEvent::RightClick,
        selection_center(g, width, height, s) is Some,
    ensures
        ({
            let (x, y) = selection_center(g, width, height, s)->Some_0;
            let r = recording_reaction(g, width, height, key, s, selection_center(g, width, height, s), None, recorded, drag_keys);
            &&& r.0 == seq![press_at(key, x, y), BackendAction::Reopen]
            &&& r.1 matches TransitionView::Enter(ModeView::MacroRecording { recorded_actions, .. })
            &&& recorded_actions.len() == recorded.len() + 1
            &&& replay_step(g, recorded_actions.last(), width, height) == seq![press_at(key, x, y)]
        }),
{
    lemma_keys_name_selection(g, width, height, s);
    assert(recorded.push(recorded_press(key, keys_of(g, s))).last() == recorded_press(key, keys_of(g, s)));
}

/// A recorded drag replays as it was performed: when the drag started at
/// the position of a selection `s0` (whose keys were kept as the drag start
/// keys) and the target is where the current selection points, a click key
/// drags between the two points, and the step it records, replayed on the
/// same grid and screen, performs that same drag. Hints must not occur
/// twice, and a selection that has only its column hint must use one of the
/// grid's hints.
pub proof fn lemma_recorded_drag_replays(
    g: &Grid,
    width: u32,
    height: u32,
    key: KeyEvent,
    s0: InputState,
    s: InputState,
    recorded: Seq<ActionView>,
)
    requires
        g.wf(),
        g.hints@.no_duplicates(),
        g.sub_hints@.no_duplicates(),
        selection_valid(g, s0),
        selection_valid(g, s),
        s0 is Second ==> g.hints@.contains(s0->Second_0),
        s is Second ==> g.hints@.contains(s->Second_0),
        key == KeyEvent::Click || key == KeyEvent::DoubleClick,
        selection_center(g, width, height, s0) is Some,
        selection_center(g, width, height, s) is Some,
    ensures
        ({
            let (ox, oy) = selection_center(g, width, height, s0)->Some_0;
            let (x, y) = selection_center(g, width, height, s)->Some_0;
            let r = recording_reaction(
                g,
                width,
                height,
                key,
                s,
                selection_center(g, width, height, s),
                selection_center(g, width, height, s0),
                recorded,
                keys_of(g, s0),
            );
            &&& r.0 == seq![BackendAction::DragSelect(ox, oy, x, y), BackendAction::Reopen]
            &&& r.1 matches TransitionView::Enter(ModeView::MacroRecording { recorded_actions, .. })
            &&& recorded_actions.len() == recorded.len() + 1
            &&& replay_step(g, recorded_actions.last(), width, height) == seq![BackendAction::DragSelect(ox, oy, x, y)]
        }),
{
    lemma_keys_name_selection(g, width, height, s0);
    lemma_keys_name_selection(g, width, height, s);
    assert(recorded.push(ActionView::Drag(keys_of(g, s0), keys_of(g, s))).last() == ActionView::Drag(
        keys_of(g, s0),
        keys_of(g, s),
    ));
}

/// A click key in recording mode, with a target and no drag under way,
/// performs its own kind of click at the target (Click clicks, DoubleClick
/// double-clicks, RightClick right-clicks), then reopens the overlay; it
/// appends a step of the same kind named by the selection's keys, and starts
/// a fresh selection.
pub proof fn lemma_recording_clicks_record_their_kind(
    g: &Grid,
    width: u32,
    height: u32,
    s: InputState,
    x: u32,
    y: u32,
    recorded: Seq<ActionView>,
    drag_keys: Seq<char>,
)
    ensures
        recording_reaction(g, width, height, KeyEvent::Click, s, Some((x, y)), None, recorded, drag_keys).0 =~= seq![
            BackendAction::Click(x, y),
            BackendAction::Reopen,
        ],
        recording_reaction(g, width, height, KeyEvent::Click, s, Some((x, y)), None, recorded, drag_keys).1 matches
            TransitionView::Enter(ModeView::MacroRecording { input_state, target, drag_origin, recorded_actions, drag_start_keys })
            && input_state == InputState::First && target is None && drag_origin is None && recorded_actions
            =~= recorded.push(ActionView::Click(keys_of(g, s))) && drag_start_keys.len() == 0,
        recording_reaction(g, width, height, KeyEvent::DoubleClick, s, Some((x, y)), None, recorded, drag_keys).0 =~= seq![
            BackendAction::DoubleClick(x, y),
            BackendAction::Reopen,
        ],
        recording_reaction(g, width, height, KeyEvent::DoubleClick, s, Some((x, y)), None, recorded, drag_keys).1 matches
            TransitionView::Enter(ModeView::MacroRecording { input_state, target, drag_origin, recorded_actions, drag_start_keys })
            && input_state == InputState::First && target is None && drag_origin is None && recorded_actions
            =~= recorded.push(ActionView::DoubleClick(keys_of(g, s))) && drag_start_keys.len() == 0,
        recording_reaction(g, width, height, KeyEvent::RightClick, s, Some((x, y)), None, recorded, drag_keys).0 =~= seq![
            BackendAction::RightClick(x, y),
            BackendAction::Reopen,
        ],
        recording_reaction(g, width, height, KeyEvent::RightClick, s, Some((x, y)), None, recorded, drag_keys).1 matches
            TransitionView::Enter(ModeView::MacroRecording { input_state, target, drag_origin, recorded_actions, drag_start_keys })
            && input_state == InputState::First && target is None && drag_origin is None && recorded_actions
            =~= recorded.push(ActionView::RightClick(keys_of(g, s))) && drag_start_keys.len() == 0,
{
}

/// A scroll key in recording mode scrolls in its own direction: the
/// reaction moves the pointer to the target, if there is one, then scrolls
/// up for ScrollUp, down for ScrollDown, left for ScrollLeft and right for
/// ScrollRight, and redraws.
pub proof fn lemma_recording_scrolls_in_key_direction(
    g: &Grid,
    width: u32,
    height: u32,
    s: InputState,
    target: Option<(u32, u32)>,
    drag: Option<(u32, u32)>,
    recorded: Seq<ActionView>,
    drag_keys: Seq<char>,
    key: KeyEvent,
)
    requires
        key == KeyEvent::ScrollUp || key == KeyEvent::ScrollDown || key == KeyEvent::ScrollLeft || key
            == KeyEvent::ScrollRight,
    ensures
        ({
            let r = recording_reaction(g, width, height, key, s, target, drag, recorded, drag_keys);
            &&& r.1 == TransitionView::Redraw
            &&& r.0.len() == (if target is Some { 2int } else { 1int })
            &&& (target is Some ==> r.0[0] == BackendAction::MoveMouse(target->Some_0.0, target->Some_0.1))
            &&& (key == KeyEvent::ScrollUp ==> r.0.last() == BackendAction::ScrollUp)
            &&& (key == KeyEvent::ScrollDown ==> r.0.last() == BackendAction::ScrollDown)
            &&& (key == KeyEvent::ScrollLeft ==> r.0.last() == BackendAction::ScrollLeft)
            &&& (key == KeyEvent::ScrollRight ==> r.0.last() == BackendAction::ScrollRight)
        }),
{
}

/// The commands of recording mode: Close and stopping an empty recording
/// return to a fresh selection mode; stopping a non-empty recording offers
/// to bind exactly the recorded steps; Undo goes back a mode; when `/` is
/// not a hint here, `/` during a drag cancels it (keeping the steps) and `/`
/// on a selected cell starts a drag from the target, remembering the cell's
/// keys; the macro key on a selected cell, with a target and no drag,
/// records a move to that cell.
pub proof fn lemma_recording_commands(
    g: &Grid,
    width: u32,
    height: u32,
    s: InputState,
    target: Option<(u32, u32)>,
    drag: Option<(u32, u32)>,
    recorded: Seq<ActionView>,
    drag_keys: Seq<char>,
)
    ensures
        recording_reaction(g, width, height, KeyEvent::Close, s, target, drag, recorded, drag_keys).1
            == TransitionView::Enter(ModeView::Normal { input_state: InputState::First, target: None, drag_origin: None }),
        recording_reaction(g, width, height, KeyEvent::Undo, s, target, drag, recorded, drag_keys).1 == TransitionView::Back,
        recorded.len() == 0 ==> recording_reaction(g, width, height, KeyEvent::MacroRecord, s, target, drag, recorded, drag_keys).1
            == TransitionView::Enter(ModeView::Normal { input_state: InputState::First, target: None, drag_origin: None }),
        recorded.len() > 0 ==> recording_reaction(g, width, height, KeyEvent::MacroRecord, s, target, drag, recorded, drag_keys).1
            == TransitionView::Enter(ModeView::MacroBindKey { actions: recorded }),
        (!is_hint_char(g, s, '/') && drag is Some) ==> (recording_reaction(
            g, width, height, KeyEvent::Char('/'), s, target, drag, recorded, drag_keys).1 matches TransitionView::Enter(
            ModeView::MacroRecording { input_state, target: t, drag_origin, recorded_actions, drag_start_keys })
            && input_state == InputState::First && t is None && drag_origin is None && recorded_actions == recorded
            && drag_start_keys.len() == 0),
        (!is_hint_char(g, s, '/') && drag is None && (s is SubFirst || s is Ready)) ==> recording_reaction(
            g, width, height, KeyEvent::Char('/'), s, target, drag, recorded, drag_keys).1 == TransitionView::Enter(
            ModeView::MacroRecording {
                input_state: InputState::First,
                target,
                drag_origin: target,
                recorded_actions: recorded,
                drag_start_keys: keys_of(g, s),
            }),
        (target is Some && drag is None && (s is SubFirst || s is Ready)) ==> (recording_reaction(
            g, width, height, KeyEvent::MacroMenu, s, target, drag, recorded, drag_keys).1 matches TransitionView::Enter(
            ModeView::MacroRecording { input_state, target: t, drag_origin, recorded_actions, drag_start_keys })
            && input_state == InputState::First && t is None && drag_origin is None
            && recorded_actions =~= recorded.push(ActionView::Move(keys_of(g, s))) && drag_start_keys.len() == 0),
{
}

} // verus!

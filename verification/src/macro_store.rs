//! Recorded macro steps.

use vstd::prelude::*;

verus! {

/// One recorded step of a macro. Each step names its target cell by the hint
/// keys that selected it.
#[derive(Debug, PartialEq, Eq)]
pub enum MacroAction {
    Move(String),
    Click(String),
    DoubleClick(String),
    RightClick(String),
    /// A drag from the cell of the first keys to the cell of the second.
    Drag(String, String),
}

/// A macro step with its keys as character sequences.
pub enum ActionView {
    Move(Seq<char>),
    Click(Seq<char>),
    DoubleClick(Seq<char>),
    RightClick(Seq<char>),
    Drag(Seq<char>, Seq<char>),
}

impl View for MacroAction {
    type V = ActionView;

    open spec fn view(&self) -> ActionView {
        match self {
            MacroAction::Move(k) => ActionView::Move(k@),
            MacroAction::Click(k) => ActionView::Click(k@),
            MacroAction::DoubleClick(k) => ActionView::DoubleClick(k@),
            MacroAction::RightClick(k) => ActionView::RightClick(k@),
            MacroAction::Drag(s, e) => ActionView::Drag(s@, e@),
        }
    }
}

/// The steps of a list of macro actions.
pub open spec fn actions_view(v: Seq<MacroAction>) -> Seq<ActionView> {
    v.map_values(|a: MacroAction| a@)
}

impl MacroAction {
    /// A copy of this step.
    pub fn duplicate(&self) -> (r: MacroAction)
        ensures
            r == *self,
    {
        match self {
            MacroAction::Move(k) => MacroAction::Move(k.clone()),
            MacroAction::Click(k) => MacroAction::Click(k.clone()),
            MacroAction::DoubleClick(k) => MacroAction::DoubleClick(k.clone()),
            MacroAction::RightClick(k) => MacroAction::RightClick(k.clone()),
            MacroAction::Drag(s, e) => MacroAction::Drag(s.clone(), e.clone()),
        }
    }
}

/// A copy of a list of macro steps.
pub fn copy_actions(v: &Vec<MacroAction>) -> (r: Vec<MacroAction>)
    ensures
        r@ == v@,
{
    let mut r: Vec<MacroAction> = Vec::new();
    let mut i: usize = 0;
    while i < v.len()
        invariant
            0 <= i <= v.len(),
            r@ == v@.take(i as int),
        decreases v.len() - i,
    {
        r.push(v[i].duplicate());
        assert(v@.take(i as int).push(v@[i as int]) =~= v@.take(i + 1));
        i = i + 1;
    }
    assert(v@.take(v.len() as int) =~= v@);
    r
}

/// Appending a step to a list appends its view to the list's view.
pub proof fn lemma_actions_view_push(v: Seq<MacroAction>, a: MacroAction)
    ensures
        actions_view(v.push(a)) == actions_view(v).push(a@),
{
    assert(actions_view(v.push(a)) =~= actions_view(v).push(a@));
}

} // verus!

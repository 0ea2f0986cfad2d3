use crate::model::{action_rank, outcome_of, resolve, rotated, Outcome};
use crate::table::{current_hand, current_hand_mut, fold_current_hand, pull_trigger};
use crate::table::{Action, Shot, State, Table};
use vstd::prelude::*;

verus! {

/// Resolves one chosen action against the current table: the single entry
/// point of the resolver. The result's view is exactly what the model's
/// `resolve` says, and a game that goes on always keeps at least one hand
/// seated and never gains one.
pub fn perform_action(table: Table, action: Action) -> (s: State)
    requires
        table.hands@.len() > 0,
    ensures
        outcome_of(s) == resolve(table.revolver.chambers@, table.hands@, action),
        (s matches State::Playing(t2) ==> 0 < t2.hands@.len() <= table.hands@.len()),
    decreases 2 * action_rank(action) + 1,
{
    match action {
        Action::Fold => perform_fold(table),
        Action::Slide => perform_slide(table),
        Action::Trigger => perform_trigger(table),
    }
}

/// The trigger rule: pull one chamber; the bullet eliminates the current
/// player, a blank that leaves the revolver empty crowns them, and any other
/// blank passes the turn on.
pub fn perform_trigger(table: Table) -> (s: State)
    requires
        table.hands@.len() > 0,
    ensures
        outcome_of(s) == resolve(table.revolver.chambers@, table.hands@, Action::Trigger),
{
    let mut table = table;
    match pull_trigger(&mut table.revolver) {
        Shot::Fired => State::SomeoneDied(fold_current_hand(&mut table).id),
        Shot::Blank => match table.revolver.chambers.is_empty() {
            true => State::SomeoneWon(fold_current_hand(&mut table).id),
            false => slide_revolver(table, Action::Trigger),
        },
    }
}

/// The fold rule: the current hand leaves the table; if nobody is left the
/// game ends with everybody folded, otherwise the turn rotates on.
pub fn perform_fold(table: Table) -> (s: State)
    requires
        table.hands@.len() > 0,
    ensures
        outcome_of(s) == resolve(table.revolver.chambers@, table.hands@, Action::Fold),
{
    let mut table = table;
    fold_current_hand(&mut table);
    match table.hands.is_empty() {
        true => State::EverybodyFolded,
        false => slide_revolver(table, Action::Fold),
    }
}

/// The slide rule: a second slide in a row by the same player decays into a
/// fold; a first slide just passes the turn on.
pub fn perform_slide(table: Table) -> (s: State)
    requires
        table.hands@.len() > 0,
    ensures
        outcome_of(s) == resolve(table.revolver.chambers@, table.hands@, Action::Slide),
    decreases 2nat,
{
    match current_hand(&table).prev_action {
        Some(Action::Slide) => perform_action(table, Action::Fold),
        _ => slide_revolver(table, Action::Slide),
    }
}

/// Advances the turn: records `action_took` on the current hand, then rotates
/// so that the next hand becomes current. Invoked once per non-terminal step,
/// whichever action was chosen.
pub fn slide_revolver(table: Table, action_took: Action) -> (s: State)
    requires
        table.hands@.len() > 0,
    ensures
        outcome_of(s) == (Outcome::Playing {
            chambers: table.revolver.chambers@,
            hands: rotated(table.hands@, action_took),
        }),
{
    let ghost orig_hands = table.hands@;
    let mut table = table;
    current_hand_mut(&mut table).prev_action = Some(action_took);
    let acted = table.hands.pop().unwrap();
    table.hands.insert(0, acted);
    proof {
        assert(table.hands@ =~= rotated(orig_hands, action_took));
    }
    State::Playing(table)
}

} // verus!

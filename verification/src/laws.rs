use crate::model::{has_bullet, pulls_to_finish, resolve, rotated, trigger_steps, Outcome};
use crate::table::{Action, Chamber, Hand};
use vstd::prelude::*;

verus! {

/// A non-terminal resolution never grows the turn order: it keeps every hand
/// on a plain slide or a surviving trigger, and loses exactly the current one
/// on a fold (a repeated slide included).
pub proof fn lemma_turn_order_never_grows(
    chambers: Seq<Chamber>,
    hands: Seq<Hand>,
    action: Action,
)
    requires
        hands.len() > 0,
    ensures
        (resolve(chambers, hands, action) matches Outcome::Playing { hands: h2, .. } ==> 0
            < h2.len() <= hands.len()),
        action == Action::Fold || (action == Action::Slide && hands.last().prev_action == Some(
            Action::Slide,
        )) ==> (resolve(chambers, hands, action) matches Outcome::Playing { hands: h2, .. }
            ==> h2.len() == hands.len() - 1),
        action == Action::Trigger || (action == Action::Slide && hands.last().prev_action != Some(
            Action::Slide,
        )) ==> (resolve(chambers, hands, action) matches Outcome::Playing { hands: h2, .. }
            ==> h2.len() == hands.len()),
{
    reveal_with_fuel(resolve, 2);
}

/// A slide immediately following a slide by the same player resolves to
/// exactly the outcome a fold from the same table would.
pub proof fn lemma_double_slide_is_fold(chambers: Seq<Chamber>, hands: Seq<Hand>)
    requires
        hands.len() > 0,
        hands.last().prev_action == Some(Action::Slide),
    ensures
        resolve(chambers, hands, Action::Slide) == resolve(chambers, hands, Action::Fold),
{
}

/// Everybody folding is reachable only through the fold rule emptying the turn
/// order: a trigger never produces it, and a slide produces it only by
/// decaying into a fold on the last seated hand.
pub proof fn lemma_folded_only_by_fold(chambers: Seq<Chamber>, hands: Seq<Hand>, action: Action)
    requires
        hands.len() > 0,
    ensures
        resolve(chambers, hands, Action::Trigger) != Outcome::Folded,
        resolve(chambers, hands, action) == Outcome::Folded <==> hands.len() == 1 && (action
            == Action::Fold || (action == Action::Slide && hands.last().prev_action == Some(
            Action::Slide,
        ))),
{
    reveal_with_fuel(resolve, 2);
}

/// Someone wins exactly when a trigger pull comes up blank and leaves the
/// chamber sequence empty — the pull on an already empty revolver included —
/// and the winner is the player whose turn it was.
pub proof fn lemma_won_iff_last_blank(chambers: Seq<Chamber>, hands: Seq<Hand>, action: Action)
    requires
        hands.len() > 0,
    ensures
        (resolve(chambers, hands, action) matches Outcome::Won(p) ==> action == Action::Trigger
            && (chambers.len() == 0 || (chambers.len() == 1 && chambers.last() == Chamber::Empty))
            && p == hands.last().id),
        action == Action::Trigger && (chambers.len() == 0 || (chambers.len() == 1
            && chambers.last() == Chamber::Empty)) ==> resolve(chambers, hands, action)
            == Outcome::Won(hands.last().id),
{
    reveal_with_fuel(resolve, 2);
}

/// `pulls_to_finish` counts pulls up to and including the first bullet met in
/// back-to-front order, or every chamber when none is loaded: it is at most
/// the chamber count (exactly it when no bullet remains), the chamber it stops
/// at holds the bullet, and every chamber consumed before it is empty.
pub proof fn lemma_pulls_to_finish(chambers: Seq<Chamber>)
    ensures
        1 <= pulls_to_finish(chambers),
        chambers.len() > 0 ==> pulls_to_finish(chambers) <= chambers.len(),
        chambers.len() == 0 ==> pulls_to_finish(chambers) == 1,
        chambers.len() > 0 && !has_bullet(chambers) ==> pulls_to_finish(chambers)
            == chambers.len(),
        has_bullet(chambers) ==> chambers[chambers.len() - pulls_to_finish(chambers)]
            == Chamber::Bullet,
        has_bullet(chambers) ==> (forall|i: int|
            chambers.len() - pulls_to_finish(chambers) < i < chambers.len()
                ==> chambers[i] == Chamber::Empty),
    decreases chambers.len(),
{
    if chambers.len() <= 1 || chambers.last() == Chamber::Bullet {
        if chambers.len() == 1 && chambers.last() != Chamber::Bullet {
            assert(!has_bullet(chambers.drop_last()));
        }
    } else {
        lemma_pulls_to_finish(chambers.drop_last());
        if has_bullet(chambers) {
            let stop = chambers.len() - pulls_to_finish(chambers);
            assert(chambers[stop] == chambers.drop_last()[stop]);
            assert forall|i: int| stop < i < chambers.len() implies chambers[i]
                == Chamber::Empty by {
                if i < chambers.len() - 1 {
                    assert(chambers[i] == chambers.drop_last()[i]);
                } else {
                    assert(chambers[i] == chambers.last());
                }
            }
        }
    }
}

/// Shifting one blank pull off the front of an iterated trigger run: with at
/// least two chambers and a blank at the back, `n` pulls from the table are
/// the first pull followed by `n - 1` pulls from its successor.
proof fn lemma_trigger_steps_shift(chambers: Seq<Chamber>, hands: Seq<Hand>, n: nat)
    requires
        hands.len() > 0,
        chambers.len() >= 2,
        chambers.last() == Chamber::Empty,
        n >= 1,
    ensures
        trigger_steps(chambers, hands, n) == trigger_steps(
            chambers.drop_last(),
            rotated(hands, Action::Trigger),
            (n - 1) as nat,
        ),
    decreases n,
{
    if n == 1 {
        assert(trigger_steps(chambers, hands, 0nat) == (Outcome::Playing { chambers, hands }));
        assert(trigger_steps(chambers.drop_last(), rotated(hands, Action::Trigger), 0nat) == (
        Outcome::Playing {
            chambers: chambers.drop_last(),
            hands: rotated(hands, Action::Trigger),
        }));
    } else {
        lemma_trigger_steps_shift(chambers, hands, (n - 1) as nat);
    }
}

/// Trigger resolution is exhaustive over the chamber sequence: pulling on
/// every turn consumes exactly one chamber per pull from the back, stays in
/// play (with the turn order intact) for every pull before the finishing one,
/// and ends after exactly `pulls_to_finish(chambers)` pulls — with an
/// elimination when a bullet remains, and with a win otherwise.
pub proof fn lemma_trigger_drains(chambers: Seq<Chamber>, hands: Seq<Hand>)
    requires
        hands.len() > 0,
    ensures
        forall|n: nat|
            n < pulls_to_finish(chambers) ==> ((#[trigger] trigger_steps(chambers, hands, n))
                matches Outcome::Playing { chambers: c2, hands: h2 } && c2 == chambers.take(
                chambers.len() - n,
            ) && h2.len() == hands.len()),
        has_bullet(chambers) ==> (trigger_steps(chambers, hands, pulls_to_finish(chambers))
            matches Outcome::Died(_)),
        !has_bullet(chambers) ==> (trigger_steps(chambers, hands, pulls_to_finish(chambers))
            matches Outcome::Won(_)),
    decreases chambers.len(),
{
    lemma_pulls_to_finish(chambers);
    if chambers.len() <= 1 || chambers.last() == Chamber::Bullet {
        if chambers.len() == 1 && chambers.last() != Chamber::Bullet {
            assert(!has_bullet(chambers.drop_last()));
        }
        assert forall|n: nat|
            n < pulls_to_finish(chambers) implies ((#[trigger] trigger_steps(chambers, hands, n))
            matches Outcome::Playing { chambers: c2, hands: h2 } && c2 == chambers.take(
            chambers.len() - n,
        ) && h2.len() == hands.len()) by {
            assert(chambers.take(chambers.len() - n) =~= chambers);
        }
        assert(trigger_steps(chambers, hands, 0nat) == (Outcome::Playing { chambers, hands }));
        assert(trigger_steps(chambers, hands, 1nat) == resolve(chambers, hands, Action::Trigger));
    } else {
        let dropped = chambers.drop_last();
        let passed = rotated(hands, Action::Trigger);
        lemma_trigger_drains(dropped, passed);
        assert forall|n: nat|
            n < pulls_to_finish(chambers) implies ((#[trigger] trigger_steps(chambers, hands, n))
            matches Outcome::Playing { chambers: c2, hands: h2 } && c2 == chambers.take(
            chambers.len() - n,
        ) && h2.len() == hands.len()) by {
            if n == 0 {
                assert(chambers.take(chambers.len() - n) =~= chambers);
            } else {
                lemma_trigger_steps_shift(chambers, hands, n);
                assert(((n - 1) as nat) < pulls_to_finish(dropped));
                assert forall|i: int| 0 <= i < chambers.len() - n implies #[trigger] dropped.take(
                    dropped.len() - ((n - 1) as nat),
                )[i] == chambers.take(chambers.len() - n)[i] by {
                    assert(dropped[i] == chambers[i]);
                }
                assert(dropped.take(dropped.len() - ((n - 1) as nat)) =~= chambers.take(
                    chambers.len() - n,
                ));
            }
        }
        lemma_trigger_steps_shift(chambers, hands, pulls_to_finish(chambers));
        assert((pulls_to_finish(chambers) - 1) as nat == pulls_to_finish(dropped));
    }
}

} // verus!

use crate::table::{Action, Chamber, Hand, PlayerId, State};
use vstd::prelude::*;

verus! {

/// The outcome of one resolution step, stated over the mathematical view of
/// the table: the chamber sequence and the turn order as `Seq`s.
pub enum Outcome {
    Playing { chambers: Seq<Chamber>, hands: Seq<Hand> },
    Died(PlayerId),
    Won(PlayerId),
    Folded,
}

/// The view of an executable `State` at the level of `Outcome`.
pub open spec fn outcome_of(s: State) -> Outcome {
    match s {
        State::Playing(t) => Outcome::Playing { chambers: t.revolver.chambers@, hands: t.hands@ },
        State::SomeoneDied(p) => Outcome::Died(p),
        State::SomeoneWon(p) => Outcome::Won(p),
        State::EverybodyFolded => Outcome::Folded,
    }
}

/// The turn order after the current (last) hand acts without leaving: its
/// `prev_action` is set to the action just taken and it moves to the front,
/// making the next hand current.
pub open spec fn rotated(hands: Seq<Hand>, taken: Action) -> Seq<Hand> {
    seq![Hand { id: hands.last().id, prev_action: Some(taken) }] + hands.drop_last()
}

/// Orders the actions by how often resolution may re-dispatch from them: a
/// slide can decay into a fold, and nothing decays further.
pub open spec fn action_rank(action: Action) -> nat {
    match action {
        Action::Slide => 1nat,
        _ => 0nat,
    }
}

/// The turn-resolution rules, as one pure function over the model. This is the
/// single source of truth the executable resolver is proved against:
/// - `Fold` removes the current hand; an emptied turn order ends the game with
///   everybody folded, otherwise play rotates on.
/// - `Slide` right after a slide by the same player resolves as a `Fold`;
///   otherwise play rotates on, remembering the slide.
/// - `Trigger` consumes the back chamber: the bullet eliminates the current
///   player; a blank that exhausts the revolver (or a pull on an already empty
///   one) makes them the winner; otherwise play rotates on.
pub open spec fn resolve(chambers: Seq<Chamber>, hands: Seq<Hand>, action: Action) -> Outcome
    decreases action_rank(action),
{
    match action {
        Action::Fold => {
            if hands.len() <= 1 {
                Outcome::Folded
            } else {
                Outcome::Playing { chambers, hands: rotated(hands.drop_last(), Action::Fold) }
            }
        },
        Action::Slide => {
            if hands.last().prev_action == Some(Action::Slide) {
                resolve(chambers, hands, Action::Fold)
            } else {
                Outcome::Playing { chambers, hands: rotated(hands, Action::Slide) }
            }
        },
        Action::Trigger => {
            if chambers.len() > 0 && chambers.last() == Chamber::Bullet {
                Outcome::Died(hands.last().id)
            } else if chambers.len() <= 1 {
                Outcome::Won(hands.last().id)
            } else {
                Outcome::Playing {
                    chambers: chambers.drop_last(),
                    hands: rotated(hands, Action::Trigger),
                }
            }
        },
    }
}

/// Whether any remaining chamber still holds the bullet.
pub open spec fn has_bullet(chambers: Seq<Chamber>) -> bool
    decreases chambers.len(),
{
    chambers.len() > 0 && (chambers.last() == Chamber::Bullet || has_bullet(chambers.drop_last()))
}

/// How many trigger pulls it takes, starting from `chambers`, to reach a
/// terminal outcome when every turn pulls: one pull per chamber, from the
/// back, up to and including the first bullet or the pull that exhausts the
/// revolver (an already empty revolver still takes the one winning pull).
pub open spec fn pulls_to_finish(chambers: Seq<Chamber>) -> nat
    decreases chambers.len(),
{
    if chambers.len() <= 1 || chambers.last() == Chamber::Bullet {
        1nat
    } else {
        1 + pulls_to_finish(chambers.drop_last())
    }
}

/// The model after `n` consecutive trigger resolutions: resolution repeats
/// while the game is still playing, and sticks at the first terminal outcome.
pub open spec fn trigger_steps(chambers: Seq<Chamber>, hands: Seq<Hand>, n: nat) -> Outcome
    decreases n,
{
    if n == 0 {
        Outcome::Playing { chambers, hands }
    } else {
        match trigger_steps(chambers, hands, (n - 1) as nat) {
            Outcome::Playing { chambers: c2, hands: h2 } => resolve(c2, h2, Action::Trigger),
            done => done,
        }
    }
}

} // verus!

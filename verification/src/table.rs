use vstd::prelude::*;

verus! {

/// Identifies a player; stable for the player's lifetime in the game.
#[derive(Debug, Clone, Copy, PartialEq, Eq)]
pub struct PlayerId(pub usize);

/// One remaining position of the revolver: empty, or holding the bullet.
#[derive(Debug, Clone, Copy, PartialEq, Eq)]
pub enum Chamber {
    Empty,
    Bullet,
}

/// What a player can choose to do on their turn.
#[derive(Debug, Clone, Copy, PartialEq, Eq)]
pub enum Action {
    Fold,
    Slide,
    Trigger,
}

/// What a single trigger pull reported.
#[derive(Debug, Clone, Copy, PartialEq, Eq)]
pub enum Shot {
    Fired,
    Blank,
}

/// A player's seat: who sits there, and the last action they took (if any),
/// kept to detect a repeated slide.
#[derive(Debug, Clone, Copy, PartialEq, Eq)]
pub struct Hand {
    pub id: PlayerId,
    pub prev_action: Option<Action>,
}

/// The revolver's remaining, unfired chambers. Pulls consume from the back of
/// the sequence, one chamber per pull.
#[derive(Debug, Clone, PartialEq, Eq)]
pub struct Revolver {
    pub chambers: Vec<Chamber>,
}

/// A full game snapshot: the revolver and the turn order. The *last* hand in
/// `hands` is the one whose turn it currently is; rotating a turn moves it to
/// the front.
#[derive(Debug, Clone, PartialEq, Eq)]
pub struct Table {
    pub revolver: Revolver,
    pub hands: Vec<Hand>,
}

/// The result of resolving one action: either the game goes on with a new
/// table, or it has ended in one of the three terminal ways.
#[derive(Debug, Clone, PartialEq, Eq)]
pub enum State {
    Playing(Table),
    SomeoneDied(PlayerId),
    SomeoneWon(PlayerId),
    EverybodyFolded,
}

/// The hand whose turn it is now: the last seat of the turn order.
pub fn current_hand(table: &Table) -> (h: &Hand)
    requires
        table.hands@.len() > 0,
    ensures
        *h == table.hands@.last(),
{
    &table.hands[table.hands.len() - 1]
}

/// Mutable access to the hand whose turn it is now.
pub fn current_hand_mut(table: &mut Table) -> (h: &mut Hand)
    requires
        old(table).hands@.len() > 0,
    ensures
        *h == old(table).hands@.last(),
        final(table).hands@ == old(table).hands@.update(
            old(table).hands@.len() - 1,
            *final(h),
        ),
        final(table).revolver == old(table).revolver,
{
    let n = table.hands.len();
    &mut table.hands[n - 1]
}

/// Removes and returns the current hand, eliminating that player from every
/// future turn.
pub fn fold_current_hand(table: &mut Table) -> (h: Hand)
    requires
        old(table).hands@.len() > 0,
    ensures
        h == old(table).hands@.last(),
        final(table).hands@ == old(table).hands@.drop_last(),
        final(table).revolver == old(table).revolver,
{
    let h = table.hands.pop().unwrap();
    proof {
        assert(table.hands@ =~= old(table).hands@.drop_last());
    }
    h
}

/// Consumes one chamber from the back of the sequence and reports whether it
/// fired. A pull on an already exhausted revolver counts as a blank, not an
/// error.
pub fn pull_trigger(revolver: &mut Revolver) -> (shot: Shot)
    ensures
        old(revolver).chambers@.len() == 0 ==> shot == Shot::Blank && final(revolver).chambers@
            == old(revolver).chambers@,
        old(revolver).chambers@.len() > 0 ==> final(revolver).chambers@ == old(
            revolver,
        ).chambers@.drop_last() && shot == (if old(revolver).chambers@.last() == Chamber::Bullet {
            Shot::Fired
        } else {
            Shot::Blank
        }),
{
    let popped = revolver.chambers.pop();
    proof {
        if old(revolver).chambers@.len() > 0 {
            assert(revolver.chambers@ =~= old(revolver).chambers@.drop_last());
        }
    }
    match popped {
        None | Some(Chamber::Empty) => Shot::Blank,
        Some(Chamber::Bullet) => Shot::Fired,
    }
}

} // verus!

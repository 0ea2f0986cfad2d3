use roulette::resolver::{perform_action, perform_fold, perform_slide, perform_trigger};
use roulette::table::{current_hand, current_hand_mut, fold_current_hand, pull_trigger};
use roulette::table::{Action, Chamber, Hand, PlayerId, Revolver, Shot, State, Table};

fn hand(id: usize) -> Hand {
    Hand { id: PlayerId(id), prev_action: None }
}

fn table(chambers: Vec<Chamber>, hands: Vec<Hand>) -> Table {
    Table { revolver: Revolver { chambers }, hands }
}

#[test]
fn six_chambers_one_bullet_both_always_trigger() {
    // Chambers are consumed from the back: four blanks, then the bullet.
    let mut t = table(
        vec![
            Chamber::Empty,
            Chamber::Bullet,
            Chamber::Empty,
            Chamber::Empty,
            Chamber::Empty,
            Chamber::Empty,
        ],
        vec![hand(0), hand(1)],
    );
    let mut pulls = 0;
    let result = loop {
        let before = t.revolver.chambers.len();
        match perform_action(t, Action::Trigger) {
            State::Playing(next) => {
                pulls += 1;
                // Each surviving pull consumed exactly one chamber.
                assert_eq!(next.revolver.chambers.len(), before - 1);
                assert_eq!(next.hands.len(), 2);
                t = next;
            }
            done => break done,
        }
    };
    // Pulls 1..=4 are blanks; the 5th hits the bullet, and the turn
    // alternation puts it on player 1 (who also pulled first).
    assert_eq!(pulls, 4);
    assert_eq!(result, State::SomeoneDied(PlayerId(1)));
}

#[test]
fn lone_hand_folding_ends_with_everybody_folded() {
    let t = table(vec![Chamber::Bullet], vec![hand(9)]);
    assert_eq!(perform_action(t, Action::Fold), State::EverybodyFolded);
}

#[test]
fn trigger_on_exhausted_revolver_wins_immediately() {
    let t = table(vec![], vec![hand(4), hand(5)]);
    // The current hand is the last one seated: player 5.
    assert_eq!(perform_action(t, Action::Trigger), State::SomeoneWon(PlayerId(5)));
}

#[test]
fn double_slide_resolves_exactly_as_fold() {
    let slid = Hand { id: PlayerId(1), prev_action: Some(Action::Slide) };
    let t1 = table(vec![Chamber::Bullet, Chamber::Empty], vec![hand(0), slid]);
    let t2 = t1.clone();
    assert_eq!(perform_action(t1, Action::Slide), perform_action(t2, Action::Fold));

    // The same decay on the last seated hand, where fold ends the game.
    let t3 = table(vec![Chamber::Bullet], vec![slid]);
    assert_eq!(perform_action(t3, Action::Slide), State::EverybodyFolded);
}

#[test]
fn turn_order_never_grows() {
    // Fold: strictly one hand fewer.
    let t = table(vec![], vec![hand(0), hand(1), hand(2)]);
    match perform_action(t, Action::Fold) {
        State::Playing(next) => assert_eq!(next.hands.len(), 2),
        other => panic!("fold with hands remaining must keep playing, got {:?}", other),
    }
    // A first slide: same number of hands.
    let t = table(vec![], vec![hand(0), hand(1)]);
    match perform_action(t, Action::Slide) {
        State::Playing(next) => assert_eq!(next.hands.len(), 2),
        other => panic!("a first slide must keep playing, got {:?}", other),
    }
    // A surviving trigger: same number of hands.
    let t = table(vec![Chamber::Empty, Chamber::Empty], vec![hand(0), hand(1)]);
    match perform_action(t, Action::Trigger) {
        State::Playing(next) => assert_eq!(next.hands.len(), 2),
        other => panic!("a blank with chambers left must keep playing, got {:?}", other),
    }
}

#[test]
fn trigger_drains_all_blanks_in_exactly_initial_length_pulls() {
    let mut t = table(
        vec![Chamber::Empty, Chamber::Empty, Chamber::Empty],
        vec![hand(0), hand(1)],
    );
    let mut pulls = 0;
    let result = loop {
        pulls += 1;
        match perform_action(t, Action::Trigger) {
            State::Playing(next) => t = next,
            done => break done,
        }
    };
    // Three chambers, three pulls; the third empties the revolver and wins.
    assert_eq!(pulls, 3);
    assert!(matches!(result, State::SomeoneWon(_)));
}

#[test]
fn trigger_fires_at_the_first_loaded_chamber_never_earlier_or_later() {
    // Back-to-front consumption: one blank, then the bullet.
    let t = table(
        vec![Chamber::Empty, Chamber::Bullet, Chamber::Empty],
        vec![hand(0), hand(1)],
    );
    let next = match perform_action(t, Action::Trigger) {
        State::Playing(next) => next,
        other => panic!("the first pull is a blank, got {:?}", other),
    };
    // Second pull meets the bullet; the turn has rotated to player 0.
    assert_eq!(perform_action(next, Action::Trigger), State::SomeoneDied(PlayerId(0)));
}

#[test]
fn neither_trigger_nor_first_slide_produces_everybody_folded() {
    let t = table(vec![], vec![hand(0)]);
    assert_ne!(perform_action(t, Action::Trigger), State::EverybodyFolded);
    let t = table(vec![Chamber::Bullet], vec![hand(0)]);
    assert_ne!(perform_action(t, Action::Trigger), State::EverybodyFolded);
    let t = table(vec![Chamber::Bullet], vec![hand(0)]);
    // A lone hand may still slide once: the game goes on.
    assert!(matches!(perform_action(t, Action::Slide), State::Playing(_)));
}

#[test]
fn won_exactly_when_the_final_pull_is_blank() {
    // Blank pull that empties the revolver: a win.
    let t = table(vec![Chamber::Empty], vec![hand(2)]);
    assert_eq!(perform_action(t, Action::Trigger), State::SomeoneWon(PlayerId(2)));
    // Blank pull with a chamber left: no win yet.
    let t = table(vec![Chamber::Empty, Chamber::Empty], vec![hand(2)]);
    assert!(matches!(perform_action(t, Action::Trigger), State::Playing(_)));
    // The bullet on the last chamber: an elimination, not a win.
    let t = table(vec![Chamber::Bullet], vec![hand(2)]);
    assert_eq!(perform_action(t, Action::Trigger), State::SomeoneDied(PlayerId(2)));
    // Fold and slide never produce a win.
    let t = table(vec![], vec![hand(2), hand(3)]);
    assert!(!matches!(perform_action(t, Action::Fold), State::SomeoneWon(_)));
    let t = table(vec![], vec![hand(2), hand(3)]);
    assert!(!matches!(perform_action(t, Action::Slide), State::SomeoneWon(_)));
}

#[test]
fn slide_records_the_action_and_rotates_the_turn() {
    let t = table(vec![Chamber::Empty], vec![hand(0), hand(1)]);
    match perform_slide(t) {
        State::Playing(next) => {
            assert_eq!(
                next.hands,
                vec![
                    Hand { id: PlayerId(1), prev_action: Some(Action::Slide) },
                    Hand { id: PlayerId(0), prev_action: None },
                ]
            );
            assert_eq!(next.revolver.chambers, vec![Chamber::Empty]);
        }
        other => panic!("a first slide must keep playing, got {:?}", other),
    }
}

#[test]
fn fold_removes_the_current_hand_and_keeps_the_revolver() {
    let t = table(vec![Chamber::Bullet, Chamber::Empty], vec![hand(0), hand(1), hand(2)]);
    match perform_fold(t) {
        State::Playing(next) => {
            assert_eq!(
                next.hands,
                vec![
                    Hand { id: PlayerId(1), prev_action: Some(Action::Fold) },
                    Hand { id: PlayerId(0), prev_action: None },
                ]
            );
            assert_eq!(next.revolver.chambers, vec![Chamber::Bullet, Chamber::Empty]);
        }
        other => panic!("fold with hands remaining must keep playing, got {:?}", other),
    }
}

#[test]
fn trigger_elimination_reports_the_current_player() {
    let t = table(vec![Chamber::Empty, Chamber::Bullet], vec![hand(7), hand(8)]);
    assert_eq!(perform_trigger(t), State::SomeoneDied(PlayerId(8)));
}

#[test]
fn pull_trigger_consumes_from_the_back() {
    let mut r = Revolver { chambers: vec![Chamber::Bullet, Chamber::Empty] };
    assert_eq!(pull_trigger(&mut r), Shot::Blank);
    assert_eq!(r.chambers, vec![Chamber::Bullet]);
    assert_eq!(pull_trigger(&mut r), Shot::Fired);
    assert_eq!(r.chambers, vec![]);
    // An exhausted revolver keeps reporting blanks.
    assert_eq!(pull_trigger(&mut r), Shot::Blank);
    assert_eq!(r.chambers, vec![]);
}

#[test]
fn current_hand_is_the_last_seat() {
    let t = table(vec![], vec![hand(0), hand(1)]);
    assert_eq!(*current_hand(&t), hand(1));
}

#[test]
fn current_hand_mut_reaches_the_last_seat() {
    let mut t = table(vec![], vec![hand(0), hand(1)]);
    current_hand_mut(&mut t).prev_action = Some(Action::Trigger);
    assert_eq!(
        t.hands,
        vec![hand(0), Hand { id: PlayerId(1), prev_action: Some(Action::Trigger) }]
    );
}

#[test]
fn fold_current_hand_pops_the_last_seat() {
    let mut t = table(vec![], vec![hand(0), hand(1)]);
    assert_eq!(fold_current_hand(&mut t), hand(1));
    assert_eq!(t.hands, vec![hand(0)]);
}

use harmon::game::{GameMove, TimeSpan};
use harmon::{Color, Move};


#[test]
fn game_move() {
    let m: GameMove = GameMove {
        itself: Move::Resign,
        turn: 2,
        player: Color::White,
        time: TimeSpan::from_secs(5),
        piece_taken: None,
        promotion: None,
    };
    assert_eq!(m.itself, Move::Resign);
    assert_eq!(m.turn, 2);
    assert_eq!(m.player, Color::White);
    assert_eq!(m.time, TimeSpan::from_secs(5));
    assert_eq!(m.piece_taken, None);
    assert_eq!(m.promotion, None);
    let m: GameMove = GameMove::new(
        Move::Resign,
        Color::Black,
        2,
        TimeSpan::from_secs(5),
        None,
        None,
    );
    assert_eq!(m.itself, Move::Resign);
    assert_eq!(m.turn, 2);
    assert_eq!(m.player, Color::Black);
    assert_eq!(m.time, TimeSpan::from_secs(5));
    assert_eq!(m.piece_taken, None);
    assert_eq!(m.promotion, None);
}

//! The pieces: what they are worth and how they move.

use vstd::prelude::*;
use vstd::string::StringExecFns;
use crate::board::view::BoardView;
use crate::board::Board;
use crate::sequences::{lemma_filter_take_next, lemma_take_all};
use crate::{Color, Move, Position};

verus! {

/// A piece on a board: its kind, its color and the square it stands on.
///
/// A piece is a plain value. To move one is to make a new piece of the same
/// kind and color on another square.
#[derive(Clone, Copy, Debug, PartialEq, Eq, PartialOrd, Ord, Structural)]
pub enum Piece {
    King(Color, Position),
    Queen(Color, Position),
    Rook(Color, Position),
    Bishop(Color, Position),
    Knight(Color, Position),
    Pawn(Color, Position),
}

// The positional bonus of each kind and color on each square, in half
// points. The first line of a table is rank 8, the last is rank 1.

pub const WHITE_KING_POSITION_WEIGHTS: [[i32; 8]; 8] = [
    [-6, -8, -8, -10, -10, -8, -8, -6],
    [-6, -8, -8, -10, -10, -8, -8, -6],
    [-6, -8, -8, -10, -10, -8, -8, -6],
    [-6, -8, -8, -10, -10, -8, -8, -6],
    [-4, -6, -6, -8, -8, -6, -6, -4],
    [-2, -4, -4, -4, -4, -4, -4, -2],
    [4, 4, 0, 0, 0, 0, 4, 4],
    [4, 6, 2, 0, 0, 2, 6, 4],
];

pub const BLACK_KING_POSITION_WEIGHTS: [[i32; 8]; 8] = [
    [4, 6, 2, 0, 0, 2, 6, 4],
    [4, 4, 0, 0, 0, 0, 4, 4],
    [-2, -4, -4, -4, -4, -4, -4, -2],
    [-4, -6, -6, -8, -8, -6, -6, -4],
    [-6, -8, -8, -10, -10, -8, -8, -6],
    [-6, -8, -8, -10, -10, -8, -8, -6],
    [-6, -8, -8, -10, -10, -8, -8, -6],
    [-6, -8, -8, -10, -10, -8, -8, -6],
];

pub const WHITE_QUEEN_POSITION_WEIGHTS: [[i32; 8]; 8] = [
    [-4, -2, -2, -1, -1, -2, -2, -4],
    [-2, 0, 0, 0, 0, 0, 0, -2],
    [-2, 0, 1, 1, 1, 1, 0, -2],
    [-1, 0, 1, 1, 1, 1, 0, -1],
    [0, 0, 1, 1, 1, 1, 0, -1],
    [-2, 1, 1, 1, 1, 1, 0, -2],
    [-2, 0, 1, 0, 0, 0, 0, -2],
    [-2, 0, -2, -1, -1, -1, -2, -4],
];

pub const BLACK_QUEEN_POSITION_WEIGHTS: [[i32; 8]; 8] = [
    [-2, 0, -2, -1, -1, -1, -2, -4],
    [-2, 0, 1, 0, 0, 0, 0, -2],
    [-2, 1, 1, 1, 1, 1, 0, -2],
    [0, 0, 1, 1, 1, 1, 0, -1],
    [-1, 0, 1, 1, 1, 1, 0, -1],
    [-2, 0, 1, 1, 1, 1, 0, -2],
    [-2, 0, 0, 0, 0, 0, 0, -2],
    [-4, -2, -2, -1, -1, -2, -2, -4],
];

pub const WHITE_ROOK_POSITION_WEIGHTS: [[i32; 8]; 8] = [
    [0, 0, 0, 0, 0, 0, 0, 0],
    [1, 2, 2, 2, 2, 2, 2, 1],
    [-1, 0, 0, 0, 0, 0, 0, -1],
    [-1, 0, 0, 0, 0, 0, 0, -1],
    [-1, 0, 0, 0, 0, 0, 0, -1],
    [-1, 0, 0, 0, 0, 0, 0, -1],
    [-1, 0, 0, 0, 0, 0, 0, -1],
    [0, 0, 0, 1, 1, 0, 0, 0],
];

pub const BLACK_ROOK_POSITION_WEIGHTS: [[i32; 8]; 8] = [
    [0, 0, 0, 1, 1, 0, 0, 0],
    [-1, 0, 0, 0, 0, 0, 0, -1],
    [-1, 0, 0, 0, 0, 0, 0, -1],
    [-1, 0, 0, 0, 0, 0, 0, -1],
    [-1, 0, 0, 0, 0, 0, 0, -1],
    [-1, 0, 0, 0, 0, 0, 0, -1],
    [1, 2, 2, 2, 2, 2, 2, 1],
    [0, 0, 0, 0, 0, 0, 0, 0],
];

pub const WHITE_BISHOP_POSITION_WEIGHTS: [[i32; 8]; 8] = [
    [-4, -2, -2, -2, -2, -2, -2, -4],
    [-2, 0, 0, 0, 0, 0, 0, -2],
    [-2, 0, 1, 2, 2, 1, 0, -2],
    [-2, 1, 1, 2, 2, 1, 1, -2],
    [-2, 0, 2, 2, 2, 2, 0, -2],
    [-2, 2, 2, 2, 2, 2, 2, -2],
    [-2, 1, 0, 0, 0, 0, 1, -2],
    [-4, -2, -2, -2, -2, -2, -2, -4],
];

pub const BLACK_BISHOP_POSITION_WEIGHTS: [[i32; 8]; 8] = [
    [-4, -2, -2, -2, -2, -2, -2, -4],
    [-2, 1, 0, 0, 0, 0, 1, -2],
    [-2, 2, 2, 2, 2, 2, 2, -2],
    [-2, 0, 2, 2, 2, 2, 0, -2],
    [-2, 1, 1, 2, 2, 1, 1, -2],
    [-2, 0, 1, 2, 2, 1, 0, -2],
    [-2, 0, 0, 0, 0, 0, 0, -2],
    [-4, -2, -2, -2, -2, -2, -2, -4],
];

pub const WHITE_KNIGHT_POSITION_WEIGHTS: [[i32; 8]; 8] = [
    [-10, -8, -6, -6, -6, -6, -8, -10],
    [-8, -4, 0, 0, 0, 0, -4, -8],
    [-6, 0, 2, 3, 3, 2, 0, -6],
    [-6, 1, 3, 4, 4, 3, 1, -6],
    [-6, 0, 3, 4, 4, 3, 0, -6],
    [-6, 1, 2, 3, 3, 2, 1, -6],
    [-8, -4, 0, 1, 1, 0, -4, -8],
    [-10, -8, -6, -6, -6, -6, -8, -10],
];

pub const BLACK_KNIGHT_POSITION_WEIGHTS: [[i32; 8]; 8] = [
    [-10, -8, -6, -6, -6, -6, -8, -10],
    [-8, -4, 0, 1, 1, 0, -4, -8],
    [-6, 1, 2, 3, 3, 2, 1, -6],
    [-6, 0, 3, 4, 4, 3, 0, -6],
    [-6, 1, 3, 4, 4, 3, 1, -6],
    [-6, 0, 2, 3, 3, 2, 0, -6],
    [-8, -4, 0, 0, 0, 0, -4, -8],
    [-10, -8, -6, -6, -6, -6, -8, -10],
];

pub const WHITE_PAWN_POSITION_WEIGHTS: [[i32; 8]; 8] = [
    [0, 0, 0, 0, 0, 0, 0, 0],
    [10, 10, 10, 10, 10, 10, 10, 10],
    [2, 2, 4, 6, 6, 4, 2, 2],
    [1, 1, 2, 5, 5, 2, 1, 1],
    [0, 0, 0, 4, 4, 0, 0, 0],
    [1, -1, -2, 0, 0, -2, -1, 1],
    [1, 3, -2, -4, -4, 2, 3, 1],
    [0, 0, 0, 0, 0, 0, 0, 0],
];

pub const BLACK_PAWN_POSITION_WEIGHTS: [[i32; 8]; 8] = [
    [0, 0, 0, 0, 0, 0, 0, 0],
    [1, 3, -2, -4, -4, 2, 3, 1],
    [1, -1, -2, 0, 0, -2, -1, 1],
    [0, 0, 0, 4, 4, 0, 0, 0],
    [1, 1, 2, 5, 5, 2, 1, 1],
    [2, 2, 4, 6, 6, 4, 2, 2],
    [10, 10, 10, 10, 10, 10, 10, 10],
    [0, 0, 0, 0, 0, 0, 0, 0],
];

impl Piece {
    /// The lower-case English name of the kind of piece.
    pub fn get_name(&self) -> (name: &'static str)
        ensures
            name@ == (match *self {
                Piece::King(_, _) => "king"@,
                Piece::Queen(_, _) => "queen"@,
                Piece::Rook(_, _) => "rook"@,
                Piece::Bishop(_, _) => "bishop"@,
                Piece::Knight(_, _) => "knight"@,
                Piece::Pawn(_, _) => "pawn"@,
            }),
    {
        match self {
            Piece::King(_, _) => "king",
            Piece::Queen(_, _) => "queen",
            Piece::Rook(_, _) => "rook",
            Piece::Bishop(_, _) => "bishop",
            Piece::Knight(_, _) => "knight",
            Piece::Pawn(_, _) => "pawn",
        }
    }

    /// The color of the piece.
    pub open spec fn spec_get_color(&self) -> Color {
        match *self {
            Piece::King(c, _) => c,
            Piece::Queen(c, _) => c,
            Piece::Rook(c, _) => c,
            Piece::Bishop(c, _) => c,
            Piece::Knight(c, _) => c,
            Piece::Pawn(c, _) => c,
        }
    }

    /// The color of the piece.
    #[verifier::when_used_as_spec(spec_get_color)]
    pub fn get_color(&self) -> (color: Color)
        ensures
            color == self.spec_get_color(),
    {
        match self {
            Piece::King(c, _)
            | Piece::Queen(c, _)
            | Piece::Rook(c, _)
            | Piece::Bishop(c, _)
            | Piece::Knight(c, _)
            | Piece::Pawn(c, _) => *c,
        }
    }

    /// The square the piece stands on.
    pub open spec fn spec_get_pos(&self) -> Position {
        match *self {
            Piece::King(_, p) => p,
            Piece::Queen(_, p) => p,
            Piece::Rook(_, p) => p,
            Piece::Bishop(_, p) => p,
            Piece::Knight(_, p) => p,
            Piece::Pawn(_, p) => p,
        }
    }

    /// The square the piece stands on.
    #[verifier::when_used_as_spec(spec_get_pos)]
    pub fn get_pos(&self) -> (pos: Position)
        ensures
            pos == self.spec_get_pos(),
    {
        match self {
            Piece::King(_, p)
            | Piece::Queen(_, p)
            | Piece::Rook(_, p)
            | Piece::Bishop(_, p)
            | Piece::Knight(_, p)
            | Piece::Pawn(_, p) => *p,
        }
    }

    /// The material value of the piece in points: king 99999, queen 9,
    /// rook 5, bishop 3, knight 3, pawn 1.
    pub open spec fn spec_get_material_value(&self) -> i32 {
        match *self {
            Piece::King(_, _) => 99999,
            Piece::Queen(_, _) => 9,
            Piece::Rook(_, _) => 5,
            Piece::Bishop(_, _) => 3,
            Piece::Knight(_, _) => 3,
            Piece::Pawn(_, _) => 1,
        }
    }

    /// The material value of the piece in points.
    #[verifier::when_used_as_spec(spec_get_material_value)]
    pub fn get_material_value(&self) -> (value: i32)
        ensures
            value == self.spec_get_material_value(),
    {
        match self {
            Piece::King(_, _) => 99999,
            Piece::Queen(_, _) => 9,
            Piece::Rook(_, _) => 5,
            Piece::Bishop(_, _) => 3,
            Piece::Knight(_, _) => 3,
            Piece::Pawn(_, _) => 1,
        }
    }

    /// The table of positional bonuses for the kind and color of the piece.
    pub open spec fn position_weights(&self) -> [[i32; 8]; 8] {
        match *self {
            Piece::King(c, _) => match c {
                Color::White => WHITE_KING_POSITION_WEIGHTS,
                Color::Black => BLACK_KING_POSITION_WEIGHTS,
            },
            Piece::Queen(c, _) => match c {
                Color::White => WHITE_QUEEN_POSITION_WEIGHTS,
                Color::Black => BLACK_QUEEN_POSITION_WEIGHTS,
            },
            Piece::Rook(c, _) => match c {
                Color::White => WHITE_ROOK_POSITION_WEIGHTS,
                Color::Black => BLACK_ROOK_POSITION_WEIGHTS,
            },
            Piece::Bishop(c, _) => match c {
                Color::White => WHITE_BISHOP_POSITION_WEIGHTS,
                Color::Black => BLACK_BISHOP_POSITION_WEIGHTS,
            },
            Piece::Knight(c, _) => match c {
                Color::White => WHITE_KNIGHT_POSITION_WEIGHTS,
                Color::Black => BLACK_KNIGHT_POSITION_WEIGHTS,
            },
            Piece::Pawn(c, _) => match c {
                Color::White => WHITE_PAWN_POSITION_WEIGHTS,
                Color::Black => BLACK_PAWN_POSITION_WEIGHTS,
            },
        }
    }

    /// The weighted value of the piece in half points: ten times its
    /// material value, plus the positional bonus of its kind and color on
    /// its square.
    pub open spec fn spec_get_weighted_value(&self) -> int {
        self.position_weights()[7 - self.spec_get_pos().row][self.spec_get_pos().col as int]
            + 20 * self.spec_get_material_value()
    }

    /// The weighted value of the piece in half points: ten times its
    /// material value, plus the positional bonus of its kind and color on
    /// its square. A knight in the centre is worth more than one on the
    /// edge; a king in the centre less than one behind its pawns.
    pub fn get_weighted_value(&self) -> (value: i32)
        requires
            self.spec_get_pos().is_on_board(),
        ensures
            value == self.spec_get_weighted_value(),
            -10 <= value - 20 * self.spec_get_material_value() <= 10,
    {
        let weights: [[i32; 8]; 8] = match self {
            Piece::King(c, _) => match c {
                Color::White => WHITE_KING_POSITION_WEIGHTS,
                Color::Black => BLACK_KING_POSITION_WEIGHTS,
            },
            Piece::Queen(c, _) => match c {
                Color::White => WHITE_QUEEN_POSITION_WEIGHTS,
                Color::Black => BLACK_QUEEN_POSITION_WEIGHTS,
            },
            Piece::Rook(c, _) => match c {
                Color::White => WHITE_ROOK_POSITION_WEIGHTS,
                Color::Black => BLACK_ROOK_POSITION_WEIGHTS,
            },
            Piece::Bishop(c, _) => match c {
                Color::White => WHITE_BISHOP_POSITION_WEIGHTS,
                Color::Black => BLACK_BISHOP_POSITION_WEIGHTS,
            },
            Piece::Knight(c, _) => match c {
                Color::White => WHITE_KNIGHT_POSITION_WEIGHTS,
                Color::Black => BLACK_KNIGHT_POSITION_WEIGHTS,
            },
            Piece::Pawn(c, _) => match c {
                Color::White => WHITE_PAWN_POSITION_WEIGHTS,
                Color::Black => BLACK_PAWN_POSITION_WEIGHTS,
            },
        };
        let row: usize = (7 - self.get_pos().get_row()) as usize;
        let col: usize = self.get_pos().get_col() as usize;
        weights[row][col] + self.get_material_value() * 20
    }

    /// Whether the piece is a king.
    pub fn is_king(&self) -> (king: bool)
        ensures
            king == (*self is King),
    {
        matches!(self, Piece::King(_, _))
    }

    /// Whether the piece is a queen.
    pub fn is_queen(&self) -> (queen: bool)
        ensures
            queen == (*self is Queen),
    {
        matches!(self, Piece::Queen(_, _))
    }

    /// Whether the piece is a rook.
    pub fn is_rook(&self) -> (rook: bool)
        ensures
            rook == (*self is Rook),
    {
        matches!(self, Piece::Rook(_, _))
    }

    /// Whether the piece is a bishop.
    pub fn is_bishop(&self) -> (bishop: bool)
        ensures
            bishop == (*self is Bishop),
    {
        matches!(self, Piece::Bishop(_, _))
    }

    /// Whether the piece is a knight.
    pub fn is_knight(&self) -> (knight: bool)
        ensures
            knight == (*self is Knight),
    {
        matches!(self, Piece::Knight(_, _))
    }

    /// Whether the piece is a pawn.
    pub fn is_pawn(&self) -> (pawn: bool)
        ensures
            pawn == (*self is Pawn),
    {
        matches!(self, Piece::Pawn(_, _))
    }

    /// Whether the piece is a pawn on the rank where the pawns of its color
    /// start.
    pub open spec fn spec_is_starting_pawn(&self) -> bool {
        *self is Pawn && self.spec_get_pos().spec_is_starting_pawn(self.spec_get_color())
    }

    /// Whether the piece is a pawn on the rank where the pawns of its color
    /// start.
    #[verifier::when_used_as_spec(spec_is_starting_pawn)]
    pub fn is_starting_pawn(&self) -> (starting: bool)
        ensures
            starting == self.spec_is_starting_pawn(),
    {
        if let Piece::Pawn(c, pos) = self {
            pos.is_starting_pawn(*c)
        } else {
            false
        }
    }

    /// Whether the piece is a rook on the square where the queenside rook
    /// of its color starts.
    pub open spec fn spec_is_queenside_rook(&self) -> bool {
        *self is Rook && self.spec_get_pos().spec_is_queenside_rook(self.spec_get_color())
    }

    /// Whether the piece is a rook on the square where the queenside rook
    /// of its color starts.
    #[verifier::when_used_as_spec(spec_is_queenside_rook)]
    pub fn is_queenside_rook(&self) -> (queenside: bool)
        ensures
            queenside == self.spec_is_queenside_rook(),
    {
        if let Piece::Rook(c, pos) = self {
            pos.is_queenside_rook(*c)
        } else {
            false
        }
    }

    /// Whether the piece is a rook on the square where the kingside rook of
    /// its color starts.
    pub open spec fn spec_is_kingside_rook(&self) -> bool {
        *self is Rook && self.spec_get_pos().spec_is_kingside_rook(self.spec_get_color())
    }

    /// Whether the piece is a rook on the square where the kingside rook of
    /// its color starts.
    #[verifier::when_used_as_spec(spec_is_kingside_rook)]
    pub fn is_kingside_rook(&self) -> (kingside: bool)
        ensures
            kingside == self.spec_is_kingside_rook(),
    {
        if let Piece::Rook(c, pos) = self {
            pos.is_kingside_rook(*c)
        } else {
            false
        }
    }

    /// Whether the piece is a pawn on the last rank of its way, where it is
    /// due a promotion: rank 8 for White, rank 1 for Black.
    pub open spec fn spec_is_promoting_pawn(&self) -> bool {
        match *self {
            Piece::Pawn(Color::White, pos) => pos.row == 7,
            Piece::Pawn(Color::Black, pos) => pos.row == 0,
            _ => false,
        }
    }

    /// Whether the piece is a pawn on the last rank of its way, where it is
    /// due a promotion.
    #[verifier::when_used_as_spec(spec_is_promoting_pawn)]
    pub fn is_promoting_pawn(&self) -> (promoting: bool)
        ensures
            promoting == self.spec_is_promoting_pawn(),
    {
        match self {
            Piece::Pawn(Color::White, pos) => pos.get_row() == 7,
            Piece::Pawn(Color::Black, pos) => pos.get_row() == 0,
            _ => false,
        }
    }

    /// The same piece on another square.
    pub open spec fn spec_move_to(&self, new_pos: Position) -> Piece {
        match *self {
            Piece::King(c, _) => Piece::King(c, new_pos),
            Piece::Queen(c, _) => Piece::Queen(c, new_pos),
            Piece::Rook(c, _) => Piece::Rook(c, new_pos),
            Piece::Bishop(c, _) => Piece::Bishop(c, new_pos),
            Piece::Knight(c, _) => Piece::Knight(c, new_pos),
            Piece::Pawn(c, _) => Piece::Pawn(c, new_pos),
        }
    }

    /// The same piece on another square. Nothing is asked of the move.
    #[verifier::when_used_as_spec(spec_move_to)]
    pub fn move_to(&self, new_pos: Position) -> (moved: Piece)
        ensures
            moved == self.spec_move_to(new_pos),
    {
        match *self {
            Piece::King(c, _) => Piece::King(c, new_pos),
            Piece::Queen(c, _) => Piece::Queen(c, new_pos),
            Piece::Rook(c, _) => Piece::Rook(c, new_pos),
            Piece::Bishop(c, _) => Piece::Bishop(c, new_pos),
            Piece::Knight(c, _) => Piece::Knight(c, new_pos),
            Piece::Pawn(c, _) => Piece::Pawn(c, new_pos),
        }
    }

    /// The same piece in another color.
    pub open spec fn spec_with_color(&self, color: Color) -> Piece {
        match *self {
            Piece::King(_, pos) => Piece::King(color, pos),
            Piece::Queen(_, pos) => Piece::Queen(color, pos),
            Piece::Rook(_, pos) => Piece::Rook(color, pos),
            Piece::Bishop(_, pos) => Piece::Bishop(color, pos),
            Piece::Knight(_, pos) => Piece::Knight(color, pos),
            Piece::Pawn(_, pos) => Piece::Pawn(color, pos),
        }
    }

    /// The same piece in another color.
    #[verifier::when_used_as_spec(spec_with_color)]
    pub fn with_color(&self, color: Color) -> (recolored: Piece)
        ensures
            recolored == self.spec_with_color(color),
    {
        match *self {
            Piece::King(_, pos) => Piece::King(color, pos),
            Piece::Queen(_, pos) => Piece::Queen(color, pos),
            Piece::Rook(_, pos) => Piece::Rook(color, pos),
            Piece::Bishop(_, pos) => Piece::Bishop(color, pos),
            Piece::Knight(_, pos) => Piece::Knight(color, pos),
            Piece::Pawn(_, pos) => Piece::Pawn(color, pos),
        }
    }
}

/// Whether nothing stands on the way along `path`: on any of its positions
/// but the last, which is where the way ends.
pub open spec fn path_is_clear(board: BoardView, path: Seq<Position>) -> bool {
    forall|k: int| 0 <= k < path.len() - 1 ==> board.has_no_piece(#[trigger] path[k])
}

/// The eight neighbours of `pos`, in the order in which a king tries them.
pub open spec fn king_steps(pos: Position) -> Seq<Position> {
    seq![
        pos.spec_next_left(),
        pos.spec_next_right(),
        pos.spec_next_above(),
        pos.spec_next_below(),
        pos.spec_next_left().spec_next_above(),
        pos.spec_next_left().spec_next_below(),
        pos.spec_next_right().spec_next_above(),
        pos.spec_next_right().spec_next_below(),
    ]
}

/// The eight squares a knight's move away from `pos`, in the order in which
/// a knight tries them.
pub open spec fn knight_jumps(pos: Position) -> Seq<Position> {
    seq![
        pos.spec_next_left().spec_next_left().spec_next_above(),
        pos.spec_next_left().spec_next_above().spec_next_above(),
        pos.spec_next_left().spec_next_left().spec_next_below(),
        pos.spec_next_left().spec_next_below().spec_next_below(),
        pos.spec_next_right().spec_next_right().spec_next_above(),
        pos.spec_next_right().spec_next_above().spec_next_above(),
        pos.spec_next_right().spec_next_right().spec_next_below(),
        pos.spec_next_right().spec_next_below().spec_next_below(),
    ]
}

/// The squares of the column of `pos` from rank 1 up, then those of its row
/// from file `a` on.
pub open spec fn rook_lines(pos: Position) -> Seq<Position> {
    Seq::new(8, |row: int| Position { row: row as i32, col: pos.col }) + Seq::new(
        8,
        |col: int| Position { row: pos.row, col: col as i32 },
    )
}

/// The 64 squares of the board, rank 1 first and within a rank file `a`
/// first.
pub open spec fn all_squares() -> Seq<Position> {
    Seq::new(64, |k: int| Position { row: (k / 8) as i32, col: (k % 8) as i32 })
}

/// What a king or a knight of `ally_color` asks of a square it goes to: that
/// it is on the board and holds no piece of its color.
pub open spec fn free_square(board: BoardView, ally_color: Color) -> spec_fn(Position) -> bool {
    |target: Position| target.spec_is_on_board() && !board.has_ally_piece(target, ally_color)
}

/// What a rook of `ally_color` on `pos` asks of a square of its lines before
/// the way there is looked at: that it is another square and holds no piece
/// of its color.
pub open spec fn line_square(board: BoardView, ally_color: Color, pos: Position) -> spec_fn(
    Position,
) -> bool {
    |target: Position| target != pos && !board.has_ally_piece(target, ally_color)
}

/// What a bishop of `ally_color` on `pos` asks of a square of the board
/// before the way there is looked at: that it is another square, holds no
/// piece of its color and lies on a diagonal of `pos`.
pub open spec fn diagonal_square(board: BoardView, ally_color: Color, pos: Position) -> spec_fn(
    Position,
) -> bool {
    |target: Position|
        target != pos && !board.has_ally_piece(target, ally_color) && target.spec_is_diagonal_to(
            pos,
        )
}

/// The move from `pos` to a target.
pub open spec fn move_from(pos: Position) -> spec_fn(Position) -> Move {
    |target: Position| Move::Piece(pos, target)
}

/// Whether a candidate move stays among the legal moves of `color`.
pub open spec fn legal_for(board: BoardView, color: Color) -> spec_fn(Move) -> bool {
    |m: Move| board.keeps_move(m, color)
}

/// The moves from `pos` to those of `targets` that pass `accepts`, in the
/// order of `targets`.
pub open spec fn moves_to(
    pos: Position,
    targets: Seq<Position>,
    accepts: spec_fn(Position) -> bool,
) -> Seq<Move> {
    targets.filter(accepts).map_values(move_from(pos))
}

impl Piece {
    /// Whether a rook may go from `pos` to `new_pos` as far as the line
    /// decides: the two share a row or a column and nothing stands between
    /// them.
    pub open spec fn spec_is_legal_rook_move(
        pos: Position,
        new_pos: Position,
        board: BoardView,
    ) -> bool {
        pos.spec_is_orthogonal_to(new_pos) && path_is_clear(board, pos.spec_orthogonals_to(new_pos))
    }

    /// Whether a bishop may go from `pos` to `new_pos` as far as the line
    /// decides: the two share a diagonal and nothing stands between them.
    pub open spec fn spec_is_legal_bishop_move(
        pos: Position,
        new_pos: Position,
        board: BoardView,
    ) -> bool {
        pos.spec_is_diagonal_to(new_pos) && path_is_clear(board, pos.spec_diagonals_to(new_pos))
    }

    /// Whether a queen may go from `pos` to `new_pos` as far as the line
    /// decides: as a rook or as a bishop.
    pub open spec fn spec_is_legal_queen_move(
        pos: Position,
        new_pos: Position,
        board: BoardView,
    ) -> bool {
        Self::spec_is_legal_rook_move(pos, new_pos, board) || Self::spec_is_legal_bishop_move(
            pos,
            new_pos,
            board,
        )
    }

    /// Whether a pawn of `ally_color` may go from `pos` to `new_pos`:
    /// onto the en passant square where that lies diagonally forward; two
    /// squares forward from its starting rank where both squares are free;
    /// diagonally forward onto a piece of the other color; one square
    /// forward where that square is free.
    pub open spec fn spec_is_legal_pawn_move(
        ally_color: Color,
        pos: Position,
        new_pos: Position,
        board: BoardView,
    ) -> bool {
        let up = pos.spec_pawn_up(ally_color);
        let up_left = up.spec_next_left();
        let up_right = up.spec_next_right();
        ||| board.is_en_passant_capture(ally_color, pos, new_pos)
        ||| (pos.spec_is_starting_pawn(ally_color) && board.has_no_piece(new_pos)
            && board.has_no_piece(up) && new_pos == up.spec_pawn_up(ally_color))
        ||| (board.has_enemy_piece(new_pos, ally_color) && (new_pos == up_left || new_pos
            == up_right))
        ||| (board.has_no_piece(new_pos) && new_pos == up)
    }

    /// Whether a pawn of `ally_color` on `pos` attacks `new_pos`: it attacks
    /// the two squares diagonally forward, whatever stands there.
    pub open spec fn spec_is_legal_pawn_attack(
        ally_color: Color,
        pos: Position,
        new_pos: Position,
    ) -> bool {
        let up = pos.spec_pawn_up(ally_color);
        new_pos == up.spec_next_left() || new_pos == up.spec_next_right()
    }

    /// Whether the piece may go to `new_pos` as far as its own way of moving
    /// decides. Check is not looked at. No piece goes off the board or onto
    /// a piece of its own color; a king goes to a neighbour, a knight a
    /// knight's move away, queen, rook and bishop along a free line, and a
    /// pawn as `spec_is_legal_pawn_move` says.
    pub open spec fn spec_is_legal_move(&self, new_pos: Position, board: BoardView) -> bool {
        &&& !board.has_ally_piece(new_pos, self.spec_get_color())
        &&& new_pos.spec_is_on_board()
        &&& match *self {
            Piece::Pawn(ally_color, pos) => Self::spec_is_legal_pawn_move(
                ally_color,
                pos,
                new_pos,
                board,
            ),
            Piece::King(_, pos) => pos.spec_is_adjacent_to(new_pos),
            Piece::Queen(_, pos) => Self::spec_is_legal_queen_move(pos, new_pos, board),
            Piece::Rook(_, pos) => Self::spec_is_legal_rook_move(pos, new_pos, board),
            Piece::Bishop(_, pos) => Self::spec_is_legal_bishop_move(pos, new_pos, board),
            Piece::Knight(_, pos) => pos.spec_is_knight_move(new_pos),
        }
    }

    /// Whether the piece attacks `new_pos`: as `spec_is_legal_move`, but
    /// that a pawn attacks both squares diagonally forward, whatever stands
    /// there, and no other.
    pub open spec fn spec_is_legal_attack(&self, new_pos: Position, board: BoardView) -> bool {
        &&& !board.has_ally_piece(new_pos, self.spec_get_color())
        &&& new_pos.spec_is_on_board()
        &&& match *self {
            Piece::Pawn(ally_color, pos) => Self::spec_is_legal_pawn_attack(
                ally_color,
                pos,
                new_pos,
            ),
            Piece::King(_, pos) => pos.spec_is_adjacent_to(new_pos),
            Piece::Queen(_, pos) => Self::spec_is_legal_queen_move(pos, new_pos, board),
            Piece::Rook(_, pos) => Self::spec_is_legal_rook_move(pos, new_pos, board),
            Piece::Bishop(_, pos) => Self::spec_is_legal_bishop_move(pos, new_pos, board),
            Piece::Knight(_, pos) => pos.spec_is_knight_move(new_pos),
        }
    }

    /// The candidate moves of a pawn of `ally_color` on `pos`, in this
    /// order: the en passant capture, the double push, the single push, the
    /// capture to the left, the capture to the right; each only where the
    /// board allows it.
    pub open spec fn pawn_candidates(ally_color: Color, pos: Position, board: BoardView) -> Seq<
        Move,
    > {
        let up = pos.spec_pawn_up(ally_color);
        let next_up = up.spec_pawn_up(ally_color);
        let up_left = up.spec_next_left();
        let up_right = up.spec_next_right();
        let en_passant = if board.en_passant matches Some(target) && (target == up_left || target
            == up_right) {
            seq![Move::Piece(pos, board.en_passant->0)]
        } else {
            Seq::empty()
        };
        let double_push = if next_up.spec_is_on_board() && pos.spec_is_starting_pawn(ally_color)
            && board.has_no_piece(up) && board.has_no_piece(next_up) {
            seq![Move::Piece(pos, next_up)]
        } else {
            Seq::empty()
        };
        let single_push = if up.spec_is_on_board() && board.has_no_piece(up) {
            seq![Move::Piece(pos, up)]
        } else {
            Seq::empty()
        };
        let capture_left = if up_left.spec_is_on_board() && board.has_enemy_piece(
            up_left,
            ally_color,
        ) {
            seq![Move::Piece(pos, up_left)]
        } else {
            Seq::empty()
        };
        let capture_right = if up_right.spec_is_on_board() && board.has_enemy_piece(
            up_right,
            ally_color,
        ) {
            seq![Move::Piece(pos, up_right)]
        } else {
            Seq::empty()
        };
        en_passant + double_push + single_push + capture_left + capture_right
    }

    /// The candidate moves of a king of `ally_color` on `pos`: to each
    /// neighbour on the board that holds no piece of its color, then the
    /// castling moves that the board allows.
    pub open spec fn king_candidates(ally_color: Color, pos: Position, board: BoardView) -> Seq<
        Move,
    > {
        moves_to(pos, king_steps(pos), free_square(board, ally_color)) + (if board.can_kingside_castle(
            ally_color,
        ) {
            seq![Move::KingSideCastle]
        } else {
            Seq::empty()
        }) + (if board.can_queenside_castle(ally_color) {
            seq![Move::QueenSideCastle]
        } else {
            Seq::empty()
        })
    }

    /// The candidate moves of a knight of `ally_color` on `pos`: to each
    /// square a knight's move away that is on the board and holds no piece
    /// of its color.
    pub open spec fn knight_candidates(ally_color: Color, pos: Position, board: BoardView) -> Seq<
        Move,
    > {
        moves_to(pos, knight_jumps(pos), free_square(board, ally_color))
    }

    /// The candidate moves of a rook of `ally_color` on `pos`: to each other
    /// square of its column and of its row that holds no piece of its color.
    /// Whether the way there is free is decided later.
    pub open spec fn rook_candidates(ally_color: Color, pos: Position, board: BoardView) -> Seq<
        Move,
    > {
        moves_to(pos, rook_lines(pos), line_square(board, ally_color, pos))
    }

    /// The candidate moves of a bishop of `ally_color` on `pos`: to each
    /// other square of its diagonals that holds no piece of its color.
    /// Whether the way there is free is decided later.
    pub open spec fn bishop_candidates(ally_color: Color, pos: Position, board: BoardView) -> Seq<
        Move,
    > {
        moves_to(pos, all_squares(), diagonal_square(board, ally_color, pos))
    }

    /// The candidate moves of a queen: those of a bishop, then those of a
    /// rook.
    pub open spec fn queen_candidates(ally_color: Color, pos: Position, board: BoardView) -> Seq<
        Move,
    > {
        Self::bishop_candidates(ally_color, pos, board) + Self::rook_candidates(
            ally_color,
            pos,
            board,
        )
    }

    /// The moves that the piece may have by its kind, before legality is
    /// decided.
    pub open spec fn candidate_moves(&self, board: BoardView) -> Seq<Move> {
        match *self {
            Piece::Pawn(ally_color, pos) => Self::pawn_candidates(ally_color, pos, board),
            Piece::King(ally_color, pos) => Self::king_candidates(ally_color, pos, board),
            Piece::Queen(ally_color, pos) => Self::queen_candidates(ally_color, pos, board),
            Piece::Rook(ally_color, pos) => Self::rook_candidates(ally_color, pos, board),
            Piece::Bishop(ally_color, pos) => Self::bishop_candidates(ally_color, pos, board),
            Piece::Knight(ally_color, pos) => Self::knight_candidates(ally_color, pos, board),
        }
    }

    /// The legal moves of the piece on `board`: its candidate moves, in
    /// their order, that stay on the board and are legal for its color. A
    /// move that leaves the king of its color in check is not among them.
    pub open spec fn spec_get_legal_moves(&self, board: BoardView) -> Seq<Move> {
        self.candidate_moves(board).filter(legal_for(board, self.spec_get_color()))
    }
}

/// Whether nothing stands on the way along `path`, its last position aside.
fn is_path_clear(board: &Board, path: Vec<Position>) -> (clear: bool)
    ensures
        clear == path_is_clear(board@, path@),
{
    let ghost full = path@;
    let mut traveling = path;
    traveling.pop();
    let mut k: usize = 0;
    while k < traveling.len()
        invariant
            0 <= k <= traveling@.len(),
            full == path@,
            traveling@.len() == (if full.len() == 0 {
                0
            } else {
                full.len() - 1
            }),
            forall|j: int| 0 <= j < traveling@.len() ==> traveling@[j] == full[j],
            forall|j: int| 0 <= j < k ==> board@.has_no_piece(#[trigger] full[j]),
        decreases traveling@.len() - k,
    {
        if board.has_piece(traveling[k]) {
            assert(!board@.has_no_piece(full[k as int]));
            return false;
        }
        k += 1;
    }
    true
}

impl Piece {
    /// Whether a rook may go from `pos` to `new_pos` as far as the line
    /// decides.
    fn is_legal_rook_move(pos: Position, new_pos: Position, board: &Board) -> (legal: bool)
        requires
            pos.spec_orthogonal_distance(new_pos) <= i32::MAX,
        ensures
            legal == Self::spec_is_legal_rook_move(pos, new_pos, board@),
    {
        if pos.is_orthogonal_to(new_pos) {
            is_path_clear(board, pos.orthogonals_to(new_pos))
        } else {
            false
        }
    }

    /// Whether a bishop may go from `pos` to `new_pos` as far as the line
    /// decides.
    fn is_legal_bishop_move(pos: Position, new_pos: Position, board: &Board) -> (legal: bool)
        requires
            pos.spec_diagonal_distance(new_pos) <= i32::MAX,
        ensures
            legal == Self::spec_is_legal_bishop_move(pos, new_pos, board@),
    {
        if pos.is_diagonal_to(new_pos) {
            is_path_clear(board, pos.diagonals_to(new_pos))
        } else {
            false
        }
    }

    /// Whether a queen may go from `pos` to `new_pos` as far as the line
    /// decides.
    fn is_legal_queen_move(pos: Position, new_pos: Position, board: &Board) -> (legal: bool)
        requires
            pos.spec_orthogonal_distance(new_pos) <= i32::MAX,
        ensures
            legal == Self::spec_is_legal_queen_move(pos, new_pos, board@),
    {
        Self::is_legal_rook_move(pos, new_pos, board) || Self::is_legal_bishop_move(
            pos,
            new_pos,
            board,
        )
    }

    /// Whether a pawn of `ally_color` may go from `pos` to `new_pos`.
    fn is_legal_pawn_move(
        ally_color: Color,
        pos: Position,
        new_pos: Position,
        board: &Board,
    ) -> (legal: bool)
        requires
            i32::MIN + 2 <= pos.row <= i32::MAX - 2,
            i32::MIN < pos.col < i32::MAX,
        ensures
            legal == Self::spec_is_legal_pawn_move(ally_color, pos, new_pos, board@),
    {
        let up = pos.pawn_up(ally_color);
        let up_left = up.next_left();
        let up_right = up.next_right();
        (if let Some(en_passant) = board.get_en_passant() {
            (en_passant == up_left || en_passant == up_right) && (new_pos == en_passant)
        } else {
            false
        }) || (pos.is_starting_pawn(ally_color) && board.has_no_piece(new_pos)
            && board.has_no_piece(up) && new_pos == up.pawn_up(ally_color)) || (
        board.has_enemy_piece(new_pos, ally_color) && new_pos == up_left) || (
        board.has_enemy_piece(new_pos, ally_color) && new_pos == up_right) || (
        board.has_no_piece(new_pos) && new_pos == up)
    }

    /// Whether a pawn of `ally_color` on `pos` attacks `new_pos`.
    fn is_legal_pawn_attack(ally_color: Color, pos: Position, new_pos: Position) -> (legal: bool)
        requires
            i32::MIN < pos.row < i32::MAX,
            i32::MIN < pos.col < i32::MAX,
        ensures
            legal == Self::spec_is_legal_pawn_attack(ally_color, pos, new_pos),
    {
        let up = pos.pawn_up(ally_color);
        new_pos == up.next_left() || new_pos == up.next_right()
    }

    /// Whether a queen on `pos` attacks `new_pos` as far as the line decides:
    /// as it moves.
    fn is_legal_queen_attack(pos: Position, new_pos: Position, board: &Board) -> (legal: bool)
        requires
            pos.spec_orthogonal_distance(new_pos) <= i32::MAX,
        ensures
            legal == Self::spec_is_legal_queen_move(pos, new_pos, board@),
    {
        Self::is_legal_rook_attack(pos, new_pos, board) || Self::is_legal_bishop_attack(
            pos,
            new_pos,
            board,
        )
    }

    /// Whether a rook on `pos` attacks `new_pos` as far as the line decides:
    /// as it moves.
    fn is_legal_rook_attack(pos: Position, new_pos: Position, board: &Board) -> (legal: bool)
        requires
            pos.spec_orthogonal_distance(new_pos) <= i32::MAX,
        ensures
            legal == Self::spec_is_legal_rook_move(pos, new_pos, board@),
    {
        Self::is_legal_rook_move(pos, new_pos, board)
    }

    /// Whether a bishop on `pos` attacks `new_pos` as far as the line
    /// decides: as it moves.
    fn is_legal_bishop_attack(pos: Position, new_pos: Position, board: &Board) -> (legal: bool)
        requires
            pos.spec_diagonal_distance(new_pos) <= i32::MAX,
        ensures
            legal == Self::spec_is_legal_bishop_move(pos, new_pos, board@),
    {
        Self::is_legal_bishop_move(pos, new_pos, board)
    }

    /// Whether the piece may go to `new_pos` as far as its own way of moving
    /// decides. Check is not looked at.
    pub fn is_legal_move(&self, new_pos: Position, board: &Board) -> (legal: bool)
        requires
            self.spec_get_pos().spec_is_on_board(),
        ensures
            legal == self.spec_is_legal_move(new_pos, board@),
    {
        if board.has_ally_piece(new_pos, self.get_color()) || new_pos.is_off_board() {
            return false;
        }
        match *self {
            Piece::Pawn(ally_color, pos) => Self::is_legal_pawn_move(
                ally_color,
                pos,
                new_pos,
                board,
            ),
            Piece::King(_, pos) => pos.is_adjacent_to(new_pos),
            Piece::Queen(_, pos) => Self::is_legal_queen_move(pos, new_pos, board),
            Piece::Rook(_, pos) => Self::is_legal_rook_move(pos, new_pos, board),
            Piece::Bishop(_, pos) => Self::is_legal_bishop_move(pos, new_pos, board),
            Piece::Knight(_, pos) => pos.is_knight_move(new_pos),
        }
    }

    /// Whether the piece attacks `new_pos`. A pawn attacks both squares
    /// diagonally forward, whatever stands there.
    pub fn is_legal_attack(&self, new_pos: Position, board: &Board) -> (legal: bool)
        requires
            self.spec_get_pos().spec_is_on_board(),
        ensures
            legal == self.spec_is_legal_attack(new_pos, board@),
    {
        if board.has_ally_piece(new_pos, self.get_color()) || new_pos.is_off_board() {
            return false;
        }
        match *self {
            Piece::Pawn(ally_color, pos) => Self::is_legal_pawn_attack(ally_color, pos, new_pos),
            Piece::King(_, pos) => pos.is_adjacent_to(new_pos),
            Piece::Queen(_, pos) => Self::is_legal_queen_attack(pos, new_pos, board),
            Piece::Rook(_, pos) => Self::is_legal_rook_attack(pos, new_pos, board),
            Piece::Bishop(_, pos) => Self::is_legal_bishop_attack(pos, new_pos, board),
            Piece::Knight(_, pos) => pos.is_knight_move(new_pos),
        }
    }
}

/// The moves to a list of targets that is one target longer.
proof fn lemma_moves_to_next(
    pos: Position,
    targets: Seq<Position>,
    n: int,
    accepts: spec_fn(Position) -> bool,
)
    requires
        0 <= n < targets.len(),
    ensures
        moves_to(pos, targets.take(n + 1), accepts) == (if accepts(targets[n]) {
            moves_to(pos, targets.take(n), accepts).push(Move::Piece(pos, targets[n]))
        } else {
            moves_to(pos, targets.take(n), accepts)
        }),
{
    lemma_filter_take_next(targets, n, accepts);
    if accepts(targets[n]) {
        assert(targets.take(n).filter(accepts).push(targets[n]).map_values(move_from(pos))
            =~= targets.take(n).filter(accepts).map_values(move_from(pos)).push(
            Move::Piece(pos, targets[n]),
        ));
    }
}

/// The moves from `pos` to those of eight targets that are on the board and
/// hold no piece of `ally_color`.
fn moves_to_free_squares(
    board: &Board,
    ally_color: Color,
    pos: Position,
    targets: &[Position; 8],
) -> (result: Vec<Move>)
    ensures
        result@ == moves_to(pos, targets@, free_square(board@, ally_color)),
{
    let mut result: Vec<Move> = Vec::new();
    let mut i: usize = 0;
    assert(moves_to(pos, targets@.take(0), free_square(board@, ally_color)) =~= Seq::empty()) by {
        reveal(Seq::filter);
    }
    while i < 8
        invariant
            0 <= i <= 8,
            targets@.len() == 8,
            result@ == moves_to(pos, targets@.take(i as int), free_square(board@, ally_color)),
        decreases 8 - i,
    {
        proof {
            lemma_moves_to_next(pos, targets@, i as int, free_square(board@, ally_color));
        }
        let target = targets[i];
        if target.is_on_board() && !board.has_ally_piece(target, ally_color) {
            result.push(Move::Piece(pos, target));
        }
        i += 1;
    }
    proof {
        lemma_take_all(targets@);
    }
    result
}

impl Piece {
    /// The candidate moves of a pawn, before legality is decided. See
    /// [`Piece::pawn_candidates`].
    ///
    /// The double push is among them exactly if the pawn stands on its
    /// starting rank and both squares before it are free, the single push
    /// exactly if the square before it is on the board and free, and each
    /// of them starts on the square of the pawn.
    pub fn get_pawn_legal_moves(ally_color: Color, pos: Position, board: &Board) -> (result: Vec<
        Move,
    >)
        requires
            pos.spec_is_on_board(),
        ensures
            result@ == Self::pawn_candidates(ally_color, pos, board@),
            result@.contains(Move::Piece(pos, pos.spec_pawn_up(ally_color).spec_pawn_up(ally_color)))
                == (pos.spec_is_starting_pawn(ally_color) && board@.has_no_piece(
                pos.spec_pawn_up(ally_color),
            ) && board@.has_no_piece(pos.spec_pawn_up(ally_color).spec_pawn_up(ally_color))),
            result@.contains(Move::Piece(pos, pos.spec_pawn_up(ally_color))) == (pos.spec_pawn_up(
                ally_color,
            ).spec_is_on_board() && board@.has_no_piece(pos.spec_pawn_up(ally_color))),
            forall|i: int|
                0 <= i < result@.len() ==> (#[trigger] result@[i] matches Move::Piece(from, _)
                    && from == pos),
    {
        let result = Self::list_pawn_moves(ally_color, pos, board);
        proof {
            crate::board::laws::lemma_pawn_candidates(board@, ally_color, pos);
        }
        result
    }

    /// The candidate moves of a pawn, listed one condition after the other.
    fn list_pawn_moves(ally_color: Color, pos: Position, board: &Board) -> (result: Vec<Move>)
        requires
            pos.spec_is_on_board(),
        ensures
            result@ == Self::pawn_candidates(ally_color, pos, board@),
    {
        let mut result: Vec<Move> = Vec::new();
        let up = pos.pawn_up(ally_color);
        let next_up = up.pawn_up(ally_color);
        let up_left = up.next_left();
        let up_right = up.next_right();

        if let Some(en_passant) = board.get_en_passant() {
            if en_passant == up_left || en_passant == up_right {
                result.push(Move::Piece(pos, en_passant));
            }
        }
        if next_up.is_on_board() && pos.is_starting_pawn(ally_color) && board.has_no_piece(up)
            && board.has_no_piece(next_up) {
            result.push(Move::Piece(pos, next_up))
        }
        if up.is_on_board() && board.has_no_piece(up) {
            result.push(Move::Piece(pos, up))
        }
        // Not `else if`: a pawn may capture on both sides.
        if up_left.is_on_board() && board.has_enemy_piece(up_left, ally_color) {
            result.push(Move::Piece(pos, up_left))
        }
        if up_right.is_on_board() && board.has_enemy_piece(up_right, ally_color) {
            result.push(Move::Piece(pos, up_right))
        }
        assert(result@ =~= Self::pawn_candidates(ally_color, pos, board@));
        result
    }

    /// The candidate moves of a king, before legality is decided. See
    /// [`Piece::king_candidates`].
    pub fn get_king_legal_moves(ally_color: Color, pos: Position, board: &Board) -> (result: Vec<Move>)
        requires
            pos.spec_is_on_board(),
            board.wf(),
        ensures
            result@ == Self::king_candidates(ally_color, pos, board@),
    {
        let steps: [Position; 8] = [
            pos.next_left(),
            pos.next_right(),
            pos.next_above(),
            pos.next_below(),
            pos.next_left().next_above(),
            pos.next_left().next_below(),
            pos.next_right().next_above(),
            pos.next_right().next_below(),
        ];
        assert(steps@ =~= king_steps(pos));
        let mut result = moves_to_free_squares(board, ally_color, pos, &steps);
        // Not `else if`: both castling moves may be there.
        if board.can_kingside_castle(ally_color) {
            result.push(Move::KingSideCastle);
        }
        if board.can_queenside_castle(ally_color) {
            result.push(Move::QueenSideCastle);
        }
        assert(result@ =~= Self::king_candidates(ally_color, pos, board@));
        result
    }

    /// The candidate moves of a knight, before legality is decided. See
    /// [`Piece::knight_candidates`].
    pub fn get_knight_legal_moves(ally_color: Color, pos: Position, board: &Board) -> (result: Vec<
        Move,
    >)
        requires
            pos.spec_is_on_board(),
        ensures
            result@ == Self::knight_candidates(ally_color, pos, board@),
    {
        let jumps: [Position; 8] = [
            pos.next_left().next_left().next_above(),
            pos.next_left().next_above().next_above(),
            pos.next_left().next_left().next_below(),
            pos.next_left().next_below().next_below(),
            pos.next_right().next_right().next_above(),
            pos.next_right().next_above().next_above(),
            pos.next_right().next_right().next_below(),
            pos.next_right().next_below().next_below(),
        ];
        assert(jumps@ =~= knight_jumps(pos));
        moves_to_free_squares(board, ally_color, pos, &jumps)
    }

    /// The candidate moves of a rook, before legality is decided. See
    /// [`Piece::rook_candidates`].
    pub fn get_rook_legal_moves(ally_color: Color, pos: Position, board: &Board) -> (result: Vec<Move>)
        ensures
            result@ == Self::rook_candidates(ally_color, pos, board@),
    {
        let ghost lines = rook_lines(pos);
        let ghost accepts = line_square(board@, ally_color, pos);
        let mut result: Vec<Move> = Vec::new();
        assert(moves_to(pos, lines.take(0), accepts) =~= Seq::empty()) by {
            reveal(Seq::filter);
        }
        let mut row: i32 = 0;
        while row < 8
            invariant
                0 <= row <= 8,
                lines == rook_lines(pos),
                accepts == line_square(board@, ally_color, pos),
                result@ == moves_to(pos, lines.take(row as int), accepts),
            decreases 8 - row,
        {
            proof {
                lemma_moves_to_next(pos, lines, row as int, accepts);
            }
            let new_pos = Position::new(row, pos.get_col());
            if new_pos != pos && !board.has_ally_piece(new_pos, ally_color)
                && new_pos.is_orthogonal_to(pos) {
                result.push(Move::Piece(pos, new_pos));
            }
            row += 1;
        }
        let mut col: i32 = 0;
        while col < 8
            invariant
                0 <= col <= 8,
                lines == rook_lines(pos),
                accepts == line_square(board@, ally_color, pos),
                result@ == moves_to(pos, lines.take(8 + col), accepts),
            decreases 8 - col,
        {
            proof {
                lemma_moves_to_next(pos, lines, 8 + col, accepts);
            }
            let new_pos = Position::new(pos.get_row(), col);
            if new_pos != pos && !board.has_ally_piece(new_pos, ally_color)
                && new_pos.is_orthogonal_to(pos) {
                result.push(Move::Piece(pos, new_pos));
            }
            col += 1;
        }
        proof {
            lemma_take_all(lines);
        }
        result
    }

    /// The candidate moves of a bishop, before legality is decided. See
    /// [`Piece::bishop_candidates`].
    pub fn get_bishop_legal_moves(ally_color: Color, pos: Position, board: &Board) -> (result: Vec<
        Move,
    >)
        ensures
            result@ == Self::bishop_candidates(ally_color, pos, board@),
    {
        let ghost squares = all_squares();
        let ghost accepts = diagonal_square(board@, ally_color, pos);
        let mut result: Vec<Move> = Vec::new();
        assert(moves_to(pos, squares.take(0), accepts) =~= Seq::empty()) by {
            reveal(Seq::filter);
        }
        let mut row: i32 = 0;
        while row < 8
            invariant
                0 <= row <= 8,
                squares == all_squares(),
                accepts == diagonal_square(board@, ally_color, pos),
                result@ == moves_to(pos, squares.take(row * 8), accepts),
            decreases 8 - row,
        {
            let mut col: i32 = 0;
            while col < 8
                invariant
                    0 <= row < 8,
                    0 <= col <= 8,
                    squares == all_squares(),
                    accepts == diagonal_square(board@, ally_color, pos),
                    result@ == moves_to(pos, squares.take(row * 8 + col), accepts),
                decreases 8 - col,
            {
                proof {
                    lemma_moves_to_next(pos, squares, row * 8 + col, accepts);
                }
                let new_pos = Position::new(row, col);
                if new_pos != pos && !board.has_ally_piece(new_pos, ally_color)
                    && new_pos.is_diagonal_to(pos) {
                    result.push(Move::Piece(pos, new_pos));
                }
                col += 1;
            }
            row += 1;
        }
        proof {
            lemma_take_all(squares);
        }
        result
    }

    /// The candidate moves of a queen: those of a bishop, then those of a
    /// rook.
    pub fn get_queen_legal_moves(ally_color: Color, pos: Position, board: &Board) -> (result: Vec<
        Move,
    >)
        ensures
            result@ == Self::queen_candidates(ally_color, pos, board@),
    {
        let mut result = Self::get_bishop_legal_moves(ally_color, pos, board);
        let mut rook_moves = Self::get_rook_legal_moves(ally_color, pos, board);
        result.append(&mut rook_moves);
        result
    }

    /// The legal moves of the piece on `board`: its candidate moves, in
    /// their order, that stay on the board and are legal for its color. A
    /// move that leaves the king of its color in check is not among them.
    pub fn get_legal_moves(&self, board: &Board) -> (moves: Vec<Move>)
        requires
            self.spec_get_pos().spec_is_on_board(),
            board.wf(),
        ensures
            moves@ == self.spec_get_legal_moves(board@),
    {
        let candidates: Vec<Move> = match *self {
            Piece::Pawn(ally_color, pos) => Self::get_pawn_legal_moves(ally_color, pos, board),
            Piece::King(ally_color, pos) => Self::get_king_legal_moves(ally_color, pos, board),
            Piece::Queen(ally_color, pos) => Self::get_queen_legal_moves(ally_color, pos, board),
            Piece::Rook(ally_color, pos) => Self::get_rook_legal_moves(ally_color, pos, board),
            Piece::Bishop(ally_color, pos) => Self::get_bishop_legal_moves(ally_color, pos, board),
            Piece::Knight(ally_color, pos) => Self::get_knight_legal_moves(ally_color, pos, board),
        };
        let color = self.get_color();
        let ghost keeps = legal_for(board@, color);
        let mut result: Vec<Move> = Vec::new();
        assert(candidates@.take(0).filter(keeps) =~= Seq::empty()) by {
            reveal(Seq::filter);
        }
        let mut i: usize = 0;
        while i < candidates.len()
            invariant
                0 <= i <= candidates@.len(),
                board.wf(),
                keeps == legal_for(board@, color),
                result@ == candidates@.take(i as int).filter(keeps),
            decreases candidates@.len() - i,
        {
            proof {
                lemma_filter_take_next(candidates@, i as int, keeps);
            }
            let m = candidates[i];
            let keep = match m {
                Move::Piece(from, to) => {
                    if from.is_on_board() && to.is_on_board() {
                        board.is_legal_move(m, color)
                    } else {
                        false
                    }
                },
                _ => board.is_legal_move(m, color),
            };
            if keep {
                result.push(m);
            }
            i += 1;
        }
        proof {
            lemma_take_all(candidates@);
        }
        result
    }
}

impl Piece {
    /// The piece of the other color on the mirrored square: the square of
    /// the same file that lies as far from the one back rank as the square
    /// of the piece from the other.
    pub open spec fn mirrored(&self) -> Piece {
        self.spec_with_color(self.spec_get_color().spec_opposite()).spec_move_to(
            Position { row: (7 - self.spec_get_pos().row) as i32, col: self.spec_get_pos().col },
        )
    }

    /// The two colors are weighed alike: a piece on the board is worth what
    /// the piece of the other color is worth on the mirrored square.
    pub proof fn lemma_mirrored_value(&self)
        requires
            self.spec_get_pos().spec_is_on_board(),
        ensures
            self.mirrored().spec_get_weighted_value() == self.spec_get_weighted_value(),
    {
        let row = 7 - self.spec_get_pos().row;
        let col = self.spec_get_pos().col as int;
        lemma_weights_mirror(row, col);
        lemma_weights_mirror(7 - row, col);
    }

    /// The weighted value of a piece on the board lies between nothing and
    /// the most a king can be worth.
    pub proof fn lemma_weighted_value_bounds(&self)
        requires
            self.spec_get_pos().spec_is_on_board(),
        ensures
            0 <= self.spec_get_weighted_value() <= 2_000_000,
            -10 <= self.spec_get_weighted_value() - 20 * self.spec_get_material_value() <= 10,
    {
        let row = 7 - self.spec_get_pos().row;
        let col = self.spec_get_pos().col as int;
        let weights = self.position_weights();
        assert(-10 <= weights[row][col] <= 10) by {
            lemma_weights_bounds(row, col);
        }
    }
}

/// The tables of the two colors mirror each other: a black piece has on a
/// square the bonus that the white piece of its kind has on the square of the
/// same file that lies as far from White's back rank as this from Black's.
pub proof fn lemma_weights_mirror(row: int, col: int)
    requires
        0 <= row < 8,
        0 <= col < 8,
    ensures
        BLACK_KING_POSITION_WEIGHTS[row][col] == WHITE_KING_POSITION_WEIGHTS[7 - row][col],
        BLACK_QUEEN_POSITION_WEIGHTS[row][col] == WHITE_QUEEN_POSITION_WEIGHTS[7 - row][col],
        BLACK_ROOK_POSITION_WEIGHTS[row][col] == WHITE_ROOK_POSITION_WEIGHTS[7 - row][col],
        BLACK_BISHOP_POSITION_WEIGHTS[row][col] == WHITE_BISHOP_POSITION_WEIGHTS[7 - row][col],
        BLACK_KNIGHT_POSITION_WEIGHTS[row][col] == WHITE_KNIGHT_POSITION_WEIGHTS[7 - row][col],
        BLACK_PAWN_POSITION_WEIGHTS[row][col] == WHITE_PAWN_POSITION_WEIGHTS[7 - row][col],
{
}

/// Every positional bonus lies between -10 and 10 half points.
proof fn lemma_weights_bounds(row: int, col: int)
    requires
        0 <= row < 8,
        0 <= col < 8,
    ensures
        -10 <= WHITE_KING_POSITION_WEIGHTS[row][col] <= 10,
        -10 <= BLACK_KING_POSITION_WEIGHTS[row][col] <= 10,
        -10 <= WHITE_QUEEN_POSITION_WEIGHTS[row][col] <= 10,
        -10 <= BLACK_QUEEN_POSITION_WEIGHTS[row][col] <= 10,
        -10 <= WHITE_ROOK_POSITION_WEIGHTS[row][col] <= 10,
        -10 <= BLACK_ROOK_POSITION_WEIGHTS[row][col] <= 10,
        -10 <= WHITE_BISHOP_POSITION_WEIGHTS[row][col] <= 10,
        -10 <= BLACK_BISHOP_POSITION_WEIGHTS[row][col] <= 10,
        -10 <= WHITE_KNIGHT_POSITION_WEIGHTS[row][col] <= 10,
        -10 <= BLACK_KNIGHT_POSITION_WEIGHTS[row][col] <= 10,
        -10 <= WHITE_PAWN_POSITION_WEIGHTS[row][col] <= 10,
        -10 <= BLACK_PAWN_POSITION_WEIGHTS[row][col] <= 10,
{
}

impl Piece {
    /// The chess symbol of the piece.
    pub open spec fn spec_to_string(&self) -> Seq<char> {
        match self.spec_get_color() {
            Color::White => match *self {
                Piece::King(_, _) => "♔"@,
                Piece::Queen(_, _) => "♕"@,
                Piece::Rook(_, _) => "♖"@,
                Piece::Knight(_, _) => "♘"@,
                Piece::Bishop(_, _) => "♗"@,
                Piece::Pawn(_, _) => "♙"@,
            },
            Color::Black => match *self {
                Piece::King(_, _) => "♚"@,
                Piece::Queen(_, _) => "♛"@,
                Piece::Rook(_, _) => "♜"@,
                Piece::Knight(_, _) => "♞"@,
                Piece::Bishop(_, _) => "♝"@,
                Piece::Pawn(_, _) => "♟"@,
            },
        }
    }

    /// The chess symbol of the piece: the outlined one for White, the
    /// filled one for Black.
    pub fn to_string(&self) -> (text: String)
        ensures
            text@ == self.spec_to_string(),
    {
        let symbol = match self.get_color() {
            Color::White => match self {
                Piece::King(_, _) => "♔",
                Piece::Queen(_, _) => "♕",
                Piece::Rook(_, _) => "♖",
                Piece::Knight(_, _) => "♘",
                Piece::Bishop(_, _) => "♗",
                Piece::Pawn(_, _) => "♙",
            },
            Color::Black => match self {
                Piece::King(_, _) => "♚",
                Piece::Queen(_, _) => "♛",
                Piece::Rook(_, _) => "♜",
                Piece::Knight(_, _) => "♞",
                Piece::Bishop(_, _) => "♝",
                Piece::Pawn(_, _) => "♟",
            },
        };
        String::from_str(symbol)
    }
}

} // verus!

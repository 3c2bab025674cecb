//! Board coordinates and the geometry between them.
//!
//! A position is a pair of a row and a column. Rows count from White's back
//! rank (row 0 is rank 1), columns from file `a`. A position may lie off the
//! board; every neighbour function may step off it.

use vstd::prelude::*;
use vstd::math::abs;
use vstd::string::{StrSliceExecFns, StringExecFns};
use vstd::utf8::{encode_utf8, is_ascii_chars, is_ascii_chars_encode_utf8};
use crate::text::{decimal, decimal_string, digit_char};
use crate::Color;

verus! {

/// A coordinate, on the board or off it.
#[derive(Clone, Copy, Debug, PartialEq, Eq, PartialOrd, Ord, Structural)]
pub struct Position {
    pub row: i32,
    pub col: i32,
}

/// The sign of an integer: -1, 0 or 1.
pub open spec fn signum(x: int) -> int {
    if x < 0 {
        -1
    } else if x == 0 {
        0
    } else {
        1
    }
}

/// The distance between two coordinates on one axis.
fn axis_distance(a: i32, b: i32) -> (d: i64)
    ensures
        d == abs(a - b),
{
    let wide_a: i64 = a as i64;
    let wide_b: i64 = b as i64;
    if wide_a >= wide_b {
        wide_a - wide_b
    } else {
        wide_b - wide_a
    }
}

/// A product with a factor of -1, 0 or 1.
pub proof fn lemma_mul_unit(n: int, unit: int)
    requires
        -1 <= unit <= 1,
    ensures
        n * unit == (if unit == 1 {
            n
        } else if unit == 0 {
            0
        } else {
            -n
        }),
{
    assert(n * unit == (if unit == 1 {
        n
    } else if unit == 0 {
        0
    } else {
        -n
    })) by (nonlinear_arith)
        requires
            -1 <= unit <= 1,
    ;
}

impl Position {
    /// The position at `row` and `col`, which may be off the board.
    pub fn new(row: i32, col: i32) -> (pos: Position)
        ensures
            pos == (Position { row, col }),
    {
        Position { row, col }
    }

    /// The square on which the king of `color` starts.
    pub open spec fn spec_king_pos(color: Color) -> Position {
        match color {
            Color::White => Position { row: 0, col: 4 },
            Color::Black => Position { row: 7, col: 4 },
        }
    }

    /// The square on which the king of `color` starts.
    #[verifier::when_used_as_spec(spec_king_pos)]
    pub fn king_pos(color: Color) -> (pos: Position)
        ensures
            pos == Self::spec_king_pos(color),
    {
        match color {
            Color::White => Position::new(0, 4),
            Color::Black => Position::new(7, 4),
        }
    }

    /// The square on which the queen of `color` starts.
    pub open spec fn spec_queen_pos(color: Color) -> Position {
        match color {
            Color::White => Position { row: 0, col: 3 },
            Color::Black => Position { row: 7, col: 3 },
        }
    }

    /// The square on which the queen of `color` starts.
    #[verifier::when_used_as_spec(spec_queen_pos)]
    pub fn queen_pos(color: Color) -> (pos: Position)
        ensures
            pos == Self::spec_queen_pos(color),
    {
        match color {
            Color::White => Position::new(0, 3),
            Color::Black => Position::new(7, 3),
        }
    }

    /// Whether the position is one of the 64 squares.
    pub open spec fn spec_is_on_board(&self) -> bool {
        0 <= self.row <= 7 && 0 <= self.col <= 7
    }

    /// Whether the position is one of the 64 squares.
    #[verifier::when_used_as_spec(spec_is_on_board)]
    pub fn is_on_board(&self) -> (on: bool)
        ensures
            on == self.spec_is_on_board(),
    {
        !self.is_off_board()
    }

    /// Whether the position lies outside the 64 squares.
    pub open spec fn spec_is_off_board(&self) -> bool {
        !self.spec_is_on_board()
    }

    /// Whether the position lies outside the 64 squares.
    #[verifier::when_used_as_spec(spec_is_off_board)]
    pub fn is_off_board(&self) -> (off: bool)
        ensures
            off == self.spec_is_off_board(),
    {
        self.row < 0 || self.row > 7 || self.col < 0 || self.col > 7
    }

    /// The row, 0 to 7 on the board.
    pub open spec fn spec_get_row(&self) -> i32 {
        self.row
    }

    /// The row, 0 to 7 on the board.
    #[verifier::when_used_as_spec(spec_get_row)]
    pub fn get_row(&self) -> (row: i32)
        ensures
            row == self.row,
    {
        self.row
    }

    /// The column, 0 to 7 on the board.
    pub open spec fn spec_get_col(&self) -> i32 {
        self.col
    }

    /// The column, 0 to 7 on the board.
    #[verifier::when_used_as_spec(spec_get_col)]
    pub fn get_col(&self) -> (col: i32)
        ensures
            col == self.col,
    {
        self.col
    }

    /// The position `drow` rows further up.
    pub open spec fn spec_add_row(&self, drow: i32) -> Position {
        Position { row: (self.row + drow) as i32, col: self.col }
    }

    /// The position `drow` rows further up.
    #[verifier::when_used_as_spec(spec_add_row)]
    pub fn add_row(&self, drow: i32) -> (pos: Position)
        requires
            i32::MIN <= self.row + drow <= i32::MAX,
        ensures
            pos == self.spec_add_row(drow),
            pos.row == self.row + drow,
            pos.col == self.col,
    {
        Position { row: self.row + drow, col: self.col }
    }

    /// The position `dcol` columns further right.
    pub open spec fn spec_add_col(&self, dcol: i32) -> Position {
        Position { row: self.row, col: (self.col + dcol) as i32 }
    }

    /// The position `dcol` columns further right.
    #[verifier::when_used_as_spec(spec_add_col)]
    pub fn add_col(&self, dcol: i32) -> (pos: Position)
        requires
            i32::MIN <= self.col + dcol <= i32::MAX,
        ensures
            pos == self.spec_add_col(dcol),
            pos.row == self.row,
            pos.col == self.col + dcol,
    {
        Position { row: self.row, col: self.col + dcol }
    }

    /// Whether the two positions lie on one diagonal: as many columns apart
    /// as rows. A position is diagonal to itself.
    pub open spec fn spec_is_diagonal_to(&self, other: Position) -> bool {
        abs(self.col - other.col) == abs(self.row - other.row)
    }

    /// Whether the two positions lie on one diagonal.
    #[verifier::when_used_as_spec(spec_is_diagonal_to)]
    pub fn is_diagonal_to(&self, other: Position) -> (diagonal: bool)
        ensures
            diagonal == self.spec_is_diagonal_to(other),
    {
        axis_distance(self.col, other.col) == axis_distance(self.row, other.row)
    }

    /// The number of columns between the two positions, which for positions
    /// on one diagonal is the number of diagonal steps between them.
    pub open spec fn spec_diagonal_distance(&self, other: Position) -> nat {
        abs(self.col - other.col)
    }

    /// The number of diagonal steps between two positions on one diagonal.
    pub fn diagonal_distance(&self, other: Position) -> (distance: i32)
        requires
            self.spec_diagonal_distance(other) <= i32::MAX,
        ensures
            distance == self.spec_diagonal_distance(other),
    {
        axis_distance(self.col, other.col) as i32
    }

    /// Whether the two positions share a row or a column.
    pub open spec fn spec_is_orthogonal_to(&self, other: Position) -> bool {
        self.col == other.col || self.row == other.row
    }

    /// Whether the two positions share a row or a column.
    #[verifier::when_used_as_spec(spec_is_orthogonal_to)]
    pub fn is_orthogonal_to(&self, other: Position) -> (orthogonal: bool)
        ensures
            orthogonal == self.spec_is_orthogonal_to(other),
    {
        (self.col == other.col) || (self.row == other.row)
    }

    /// The number of rows plus the number of columns between the two
    /// positions.
    pub open spec fn spec_orthogonal_distance(&self, other: Position) -> nat {
        abs(self.col - other.col) + abs(self.row - other.row)
    }

    /// The number of rows plus the number of columns between the two
    /// positions.
    pub fn orthogonal_distance(&self, other: Position) -> (distance: i32)
        requires
            self.spec_orthogonal_distance(other) <= i32::MAX,
        ensures
            distance == self.spec_orthogonal_distance(other),
    {
        (axis_distance(self.col, other.col) + axis_distance(self.row, other.row)) as i32
    }

    /// Whether `other` is one of the eight neighbours: one step away in a
    /// row, a column or a diagonal.
    pub open spec fn spec_is_adjacent_to(&self, other: Position) -> bool {
        let rows = abs(self.row - other.row);
        let cols = abs(self.col - other.col);
        rows <= 1 && cols <= 1 && (rows == 1 || cols == 1)
    }

    /// Whether `other` is one of the eight neighbours.
    #[verifier::when_used_as_spec(spec_is_adjacent_to)]
    pub fn is_adjacent_to(&self, other: Position) -> (adjacent: bool)
        ensures
            adjacent == self.spec_is_adjacent_to(other),
    {
        let rows = axis_distance(self.row, other.row);
        let cols = axis_distance(self.col, other.col);
        if self.is_orthogonal_to(other) {
            rows + cols == 1
        } else if self.is_diagonal_to(other) {
            cols == 1
        } else {
            false
        }
    }

    /// Whether this position is on a lower rank than `other`.
    pub open spec fn spec_is_below(&self, other: Position) -> bool {
        self.row < other.row
    }

    /// Whether this position is on a lower rank than `other`.
    #[verifier::when_used_as_spec(spec_is_below)]
    pub fn is_below(&self, other: Position) -> (below: bool)
        ensures
            below == self.spec_is_below(other),
    {
        self.row < other.row
    }

    /// Whether this position is on a higher rank than `other`.
    pub open spec fn spec_is_above(&self, other: Position) -> bool {
        self.row > other.row
    }

    /// Whether this position is on a higher rank than `other`.
    #[verifier::when_used_as_spec(spec_is_above)]
    pub fn is_above(&self, other: Position) -> (above: bool)
        ensures
            above == self.spec_is_above(other),
    {
        self.row > other.row
    }

    /// Whether this position is on a file left of `other`.
    pub open spec fn spec_is_left_of(&self, other: Position) -> bool {
        self.col < other.col
    }

    /// Whether this position is on a file left of `other`.
    #[verifier::when_used_as_spec(spec_is_left_of)]
    pub fn is_left_of(&self, other: Position) -> (left: bool)
        ensures
            left == self.spec_is_left_of(other),
    {
        self.col < other.col
    }

    /// Whether this position is on a file right of `other`.
    pub open spec fn spec_is_right_of(&self, other: Position) -> bool {
        self.col > other.col
    }

    /// Whether this position is on a file right of `other`.
    #[verifier::when_used_as_spec(spec_is_right_of)]
    pub fn is_right_of(&self, other: Position) -> (right: bool)
        ensures
            right == self.spec_is_right_of(other),
    {
        self.col > other.col
    }

    /// The position one rank down. It may be off the board.
    pub open spec fn spec_next_below(&self) -> Position {
        Position { row: (self.row - 1) as i32, col: self.col }
    }

    /// The position one rank down. It may be off the board.
    #[verifier::when_used_as_spec(spec_next_below)]
    pub fn next_below(&self) -> (pos: Position)
        requires
            self.row > i32::MIN,
        ensures
            pos == self.spec_next_below(),
            pos.row == self.row - 1,
            pos.col == self.col,
    {
        Position::new(self.row - 1, self.col)
    }

    /// The position one rank up. It may be off the board.
    pub open spec fn spec_next_above(&self) -> Position {
        Position { row: (self.row + 1) as i32, col: self.col }
    }

    /// The position one rank up. It may be off the board.
    #[verifier::when_used_as_spec(spec_next_above)]
    pub fn next_above(&self) -> (pos: Position)
        requires
            self.row < i32::MAX,
        ensures
            pos == self.spec_next_above(),
            pos.row == self.row + 1,
            pos.col == self.col,
    {
        Position::new(self.row + 1, self.col)
    }

    /// The position one step forward for a pawn of `ally_color`: up for
    /// White, down for Black. It may be off the board.
    pub open spec fn spec_pawn_up(&self, ally_color: Color) -> Position {
        match ally_color {
            Color::White => self.spec_next_above(),
            Color::Black => self.spec_next_below(),
        }
    }

    /// The position one step forward for a pawn of `ally_color`.
    #[verifier::when_used_as_spec(spec_pawn_up)]
    pub fn pawn_up(&self, ally_color: Color) -> (pos: Position)
        requires
            i32::MIN < self.row < i32::MAX,
        ensures
            pos == self.spec_pawn_up(ally_color),
            pos.col == self.col,
            ally_color == Color::White ==> pos.row == self.row + 1,
            ally_color == Color::Black ==> pos.row == self.row - 1,
    {
        match ally_color {
            Color::White => self.next_above(),
            Color::Black => self.next_below(),
        }
    }

    /// The position one step backward for a pawn of `ally_color`. It may be
    /// off the board.
    pub open spec fn spec_pawn_back(&self, ally_color: Color) -> Position {
        self.spec_pawn_up(ally_color.spec_opposite())
    }

    /// The position one step backward for a pawn of `ally_color`.
    #[verifier::when_used_as_spec(spec_pawn_back)]
    pub fn pawn_back(&self, ally_color: Color) -> (pos: Position)
        requires
            i32::MIN < self.row < i32::MAX,
        ensures
            pos == self.spec_pawn_back(ally_color),
            pos.col == self.col,
            ally_color == Color::White ==> pos.row == self.row - 1,
            ally_color == Color::Black ==> pos.row == self.row + 1,
    {
        self.pawn_up(ally_color.opposite())
    }

    /// The position one file to the left. It may be off the board.
    pub open spec fn spec_next_left(&self) -> Position {
        Position { row: self.row, col: (self.col - 1) as i32 }
    }

    /// The position one file to the left. It may be off the board.
    #[verifier::when_used_as_spec(spec_next_left)]
    pub fn next_left(&self) -> (pos: Position)
        requires
            self.col > i32::MIN,
        ensures
            pos == self.spec_next_left(),
            pos.row == self.row,
            pos.col == self.col - 1,
    {
        Position::new(self.row, self.col - 1)
    }

    /// The position one file to the right. It may be off the board.
    pub open spec fn spec_next_right(&self) -> Position {
        Position { row: self.row, col: (self.col + 1) as i32 }
    }

    /// The position one file to the right. It may be off the board.
    #[verifier::when_used_as_spec(spec_next_right)]
    pub fn next_right(&self) -> (pos: Position)
        requires
            self.col < i32::MAX,
        ensures
            pos == self.spec_next_right(),
            pos.row == self.row,
            pos.col == self.col + 1,
    {
        Position::new(self.row, self.col + 1)
    }

    /// Whether this is a square of the rank on which the pawns of `color`
    /// start.
    pub open spec fn spec_is_starting_pawn(&self, color: Color) -> bool {
        match color {
            Color::White => self.row == 1,
            Color::Black => self.row == 6,
        }
    }

    /// Whether this is a square of the rank on which the pawns of `color`
    /// start.
    #[verifier::when_used_as_spec(spec_is_starting_pawn)]
    pub fn is_starting_pawn(&self, color: Color) -> (starting: bool)
        ensures
            starting == self.spec_is_starting_pawn(color),
    {
        match color {
            Color::White => self.row == 1,
            Color::Black => self.row == 6,
        }
    }

    /// Whether this is the square on which the kingside rook of `color`
    /// starts.
    pub open spec fn spec_is_kingside_rook(&self, color: Color) -> bool {
        match color {
            Color::Black => *self == (Position { row: 7, col: 7 }),
            Color::White => *self == (Position { row: 0, col: 7 }),
        }
    }

    /// Whether this is the square on which the kingside rook of `color`
    /// starts.
    #[verifier::when_used_as_spec(spec_is_kingside_rook)]
    pub fn is_kingside_rook(&self, color: Color) -> (kingside: bool)
        ensures
            kingside == self.spec_is_kingside_rook(color),
    {
        match color {
            Color::Black => self.row == 7 && self.col == 7,
            Color::White => self.row == 0 && self.col == 7,
        }
    }

    /// Whether this is the square on which the queenside rook of `color`
    /// starts.
    pub open spec fn spec_is_queenside_rook(&self, color: Color) -> bool {
        match color {
            Color::Black => *self == (Position { row: 7, col: 0 }),
            Color::White => *self == (Position { row: 0, col: 0 }),
        }
    }

    /// Whether this is the square on which the queenside rook of `color`
    /// starts.
    #[verifier::when_used_as_spec(spec_is_queenside_rook)]
    pub fn is_queenside_rook(&self, color: Color) -> (queenside: bool)
        ensures
            queenside == self.spec_is_queenside_rook(color),
    {
        match color {
            Color::Black => self.row == 7 && self.col == 0,
            Color::White => self.row == 0 && self.col == 0,
        }
    }

    /// The position `n` steps from this one towards `to`, each step moving
    /// one row towards the row of `to` and one column towards its column.
    pub open spec fn step_towards(&self, to: Position, n: int) -> Position {
        Position {
            row: (self.row + n * signum(to.row - self.row)) as i32,
            col: (self.col + n * signum(to.col - self.col)) as i32,
        }
    }

    /// The first `n` positions on the way from this one to `to`, in travel
    /// order and without this one.
    pub open spec fn path_towards(&self, to: Position, n: nat) -> Seq<Position> {
        Seq::new(n, |i: int| self.step_towards(to, i + 1))
    }

    /// The positions from this one to `to` along their diagonal, in travel
    /// order: without this one, with `to` as the last. Empty if the two are
    /// not on one diagonal.
    pub open spec fn spec_diagonals_to(&self, to: Position) -> Seq<Position> {
        if self.spec_is_diagonal_to(to) {
            self.path_towards(to, self.spec_diagonal_distance(to))
        } else {
            Seq::empty()
        }
    }

    /// The positions from this one to `to` along their diagonal, in travel
    /// order: without this one, with `to` as the last. Empty if the two are
    /// not on one diagonal.
    pub fn diagonals_to(&self, to: Position) -> (path: Vec<Position>)
        requires
            self.spec_diagonal_distance(to) <= i32::MAX,
        ensures
            path@ == self.spec_diagonals_to(to),
    {
        if !self.is_diagonal_to(to) {
            return Vec::new();
        }
        let row_step: i32 = if self.is_below(to) { 1 } else { -1 };
        let col_step: i32 = if self.is_left_of(to) { 1 } else { -1 };
        let distance = self.diagonal_distance(to);
        let mut acc = *self;
        let mut result: Vec<Position> = Vec::new();
        let mut i: i32 = 0;
        while i < distance
            invariant
                0 <= i <= distance,
                distance == abs(self.col - to.col),
                distance == abs(self.row - to.row),
                distance > 0 ==> row_step == signum(to.row - self.row),
                distance > 0 ==> col_step == signum(to.col - self.col),
                -1 <= row_step <= 1,
                -1 <= col_step <= 1,
                acc == self.step_towards(to, i as int),
                acc.row == self.row + i * row_step,
                acc.col == self.col + i * col_step,
                result@ == self.path_towards(to, i as nat),
            decreases distance - i,
        {
            proof {
                lemma_mul_unit(i as int, row_step as int);
                lemma_mul_unit(i as int, col_step as int);
                lemma_mul_unit(i + 1, row_step as int);
                lemma_mul_unit(i + 1, col_step as int);
            }
            acc = acc.add_row(row_step).add_col(col_step);
            result.push(acc);
            i += 1;
        }
        result
    }

    /// The positions from this one to `to` along their row or column, in
    /// travel order: without this one, with `to` as the last. Empty if the
    /// two share neither row nor column.
    pub open spec fn spec_orthogonals_to(&self, to: Position) -> Seq<Position> {
        if self.spec_is_orthogonal_to(to) {
            self.path_towards(to, self.spec_orthogonal_distance(to))
        } else {
            Seq::empty()
        }
    }

    /// The positions from this one to `to` along their row or column, in
    /// travel order: without this one, with `to` as the last. Empty if the
    /// two share neither row nor column.
    pub fn orthogonals_to(&self, to: Position) -> (path: Vec<Position>)
        requires
            self.spec_orthogonal_distance(to) <= i32::MAX,
        ensures
            path@ == self.spec_orthogonals_to(to),
    {
        if !self.is_orthogonal_to(to) {
            return Vec::new();
        }
        let mut row_step: i32 = 0;
        let mut col_step: i32 = 0;
        if self.is_left_of(to) {
            col_step = 1;
        } else if self.is_right_of(to) {
            col_step = -1;
        } else if self.is_above(to) {
            row_step = -1;
        } else if self.is_below(to) {
            row_step = 1;
        }
        let distance = self.orthogonal_distance(to);
        let mut acc = *self;
        let mut result: Vec<Position> = Vec::new();
        let mut i: i32 = 0;
        while i < distance
            invariant
                0 <= i <= distance,
                distance == abs(self.col - to.col) + abs(self.row - to.row),
                self.col == to.col || self.row == to.row,
                row_step == signum(to.row - self.row),
                col_step == signum(to.col - self.col),
                -1 <= row_step <= 1,
                -1 <= col_step <= 1,
                acc == self.step_towards(to, i as int),
                acc.row == self.row + i * row_step,
                acc.col == self.col + i * col_step,
                result@ == self.path_towards(to, i as nat),
            decreases distance - i,
        {
            proof {
                lemma_mul_unit(i as int, row_step as int);
                lemma_mul_unit(i as int, col_step as int);
                lemma_mul_unit(i + 1, row_step as int);
                lemma_mul_unit(i + 1, col_step as int);
            }
            acc = acc.add_row(row_step).add_col(col_step);
            result.push(acc);
            i += 1;
        }
        result
    }

    /// Whether `other` is a knight's move away: two rows and one column, or
    /// one row and two columns.
    pub open spec fn spec_is_knight_move(&self, other: Position) -> bool {
        abs(self.row - other.row) == 2 && abs(self.col - other.col) == 1 || abs(
            self.row - other.row,
        ) == 1 && abs(self.col - other.col) == 2
    }

    /// Whether `other` is a knight's move away.
    #[verifier::when_used_as_spec(spec_is_knight_move)]
    pub fn is_knight_move(&self, other: Position) -> (knight: bool)
        ensures
            knight == self.spec_is_knight_move(other),
    {
        let rows = axis_distance(self.row, other.row);
        let cols = axis_distance(self.col, other.col);
        rows == 2 && cols == 1 || rows == 1 && cols == 2
    }
}

/// The letter of a column of the board, and a question mark for any other
/// column.
pub open spec fn column_letter(col: int) -> char {
    if col == 0 {
        'a'
    } else if col == 1 {
        'b'
    } else if col == 2 {
        'c'
    } else if col == 3 {
        'd'
    } else if col == 4 {
        'e'
    } else if col == 5 {
        'f'
    } else if col == 6 {
        'g'
    } else if col == 7 {
        'h'
    } else {
        '?'
    }
}

/// The column that a letter names, in either case: 0 for `a` to 7 for `h`.
/// No other character names a column.
pub open spec fn letter_column(letter: char) -> Option<i32> {
    if letter == 'a' || letter == 'A' {
        Some(0i32)
    } else if letter == 'b' || letter == 'B' {
        Some(1i32)
    } else if letter == 'c' || letter == 'C' {
        Some(2i32)
    } else if letter == 'd' || letter == 'D' {
        Some(3i32)
    } else if letter == 'e' || letter == 'E' {
        Some(4i32)
    } else if letter == 'f' || letter == 'F' {
        Some(5i32)
    } else if letter == 'g' || letter == 'G' {
        Some(6i32)
    } else if letter == 'h' || letter == 'H' {
        Some(7i32)
    } else {
        None
    }
}

/// The value of a decimal digit, and 0 for any other character.
pub open spec fn digit_value(digit: char) -> i32 {
    if digit == '1' {
        1
    } else if digit == '2' {
        2
    } else if digit == '3' {
        3
    } else if digit == '4' {
        4
    } else if digit == '5' {
        5
    } else if digit == '6' {
        6
    } else if digit == '7' {
        7
    } else if digit == '8' {
        8
    } else if digit == '9' {
        9
    } else {
        0
    }
}

impl Position {
    /// The position in algebraic notation: the letter of its column, `a` to
    /// `h`, and the number of its rank, which is its row plus one. A column
    /// off the board is written as a question mark.
    pub open spec fn spec_to_string(&self) -> Seq<char> {
        seq![column_letter(self.col as int)] + decimal(self.row + 1)
    }

    /// The position in algebraic notation, as `e4`.
    pub fn to_string(&self) -> (text: String)
        ensures
            text@ == self.spec_to_string(),
    {
        proof {
            reveal_strlit("a");
            reveal_strlit("b");
            reveal_strlit("c");
            reveal_strlit("d");
            reveal_strlit("e");
            reveal_strlit("f");
            reveal_strlit("g");
            reveal_strlit("h");
            reveal_strlit("?");
        }
        let letter = match self.col {
            0 => "a",
            1 => "b",
            2 => "c",
            3 => "d",
            4 => "e",
            5 => "f",
            6 => "g",
            7 => "h",
            _ => "?",
        };
        let mut text = String::from_str(letter);
        let rank = decimal_string(self.row as i64 + 1);
        text.append(rank.as_str());
        assert(text@ =~= self.spec_to_string());
        text
    }

    /// What a text in algebraic notation names.
    ///
    /// The text has to be two bytes long, else it is no position. Its first
    /// character has to be a letter from `a` to `h`, in either case, else
    /// the column is invalid; a character that is not ASCII is no such
    /// letter. Its second character has to be a digit from 1 to 8, else the
    /// row is invalid. The letter names the column and the digit less one
    /// the row.
    pub open spec fn spec_from_str(text: Seq<char>) -> Result<Position, Seq<char>> {
        if encode_utf8(text).len() != 2 {
            Err("Invalid position"@)
        } else if !is_ascii_chars(text) {
            Err("Invalid column"@)
        } else {
            match letter_column(text[0]) {
                None => Err("Invalid column"@),
                Some(col) => {
                    let pos = Position { row: (digit_value(text[1]) - 1) as i32, col };
                    if pos.spec_is_on_board() {
                        Ok(pos)
                    } else {
                        Err("Invalid row"@)
                    }
                },
            }
        }
    }

    /// The position that a text in algebraic notation names, as `e4` or
    /// `E4`, or what is wrong with the text. See [`Position::spec_from_str`].
    pub fn from_str(s: &str) -> (parsed: Result<Position, &'static str>)
        ensures
            match (parsed, Self::spec_from_str(s@)) {
                (Ok(pos), Ok(expected)) => pos == expected,
                (Err(message), Err(expected)) => message@ == expected,
                _ => false,
            },
    {
        if s.as_bytes().len() != 2 {
            return Err("Invalid position");
        }
        if !s.is_ascii() {
            return Err("Invalid column");
        }
        proof {
            is_ascii_chars_encode_utf8(s@);
        }
        let letter = s.get_char(0);
        let digit = s.get_char(1);
        let row: i32 = (if digit == '1' {
            1
        } else if digit == '2' {
            2
        } else if digit == '3' {
            3
        } else if digit == '4' {
            4
        } else if digit == '5' {
            5
        } else if digit == '6' {
            6
        } else if digit == '7' {
            7
        } else if digit == '8' {
            8
        } else if digit == '9' {
            9
        } else {
            0
        }) - 1;
        let col: i32 = if letter == 'a' || letter == 'A' {
            0
        } else if letter == 'b' || letter == 'B' {
            1
        } else if letter == 'c' || letter == 'C' {
            2
        } else if letter == 'd' || letter == 'D' {
            3
        } else if letter == 'e' || letter == 'E' {
            4
        } else if letter == 'f' || letter == 'F' {
            5
        } else if letter == 'g' || letter == 'G' {
            6
        } else if letter == 'h' || letter == 'H' {
            7
        } else {
            return Err("Invalid column");
        };
        let position: Position = Position::new(row, col);
        if position.is_on_board() {
            Ok(position)
        } else {
            Err("Invalid row")
        }
    }

    /// Reading what was written gives the position back: for every position
    /// on the board, the text of `to_string` names that position.
    pub proof fn lemma_from_str_to_string(self)
        requires
            self.spec_is_on_board(),
        ensures
            Self::spec_from_str(self.spec_to_string()) == Ok::<Position, Seq<char>>(self),
    {
        let text = self.spec_to_string();
        let rank = self.row + 1;
        assert(decimal(rank) == seq![digit_char(rank)]) by {
            assert(crate::text::digits(rank as nat) == seq![digit_char(rank)]);
        }
        assert(text =~= seq![column_letter(self.col as int), digit_char(rank)]);
        assert(is_ascii_chars(text));
        is_ascii_chars_encode_utf8(text);
        assert(letter_column(text[0]) == Some(self.col));
        assert(digit_value(text[1]) == rank);
    }
}

impl Position {
    /// The number of steps between two positions that share a row, a column
    /// or a diagonal.
    pub open spec fn spec_line_distance(&self, to: Position) -> nat {
        if abs(self.row - to.row) >= abs(self.col - to.col) {
            abs(self.row - to.row)
        } else {
            abs(self.col - to.col)
        }
    }

    /// Where `steps` steps along a line lead: between two positions of the
    /// board that share a row, a column or a diagonal, the position `steps`
    /// steps from the first towards the second is on the board, on the same
    /// kind of line as the first, `steps` steps from it, and on the way
    /// there the steps are the same as on the way to the second. It is the
    /// second exactly after as many steps as the two are apart, and the
    /// first only after none.
    pub proof fn lemma_step_towards(self, to: Position, steps: int)
        requires
            self.spec_is_on_board(),
            to.spec_is_on_board(),
            self.spec_is_orthogonal_to(to) || self.spec_is_diagonal_to(to),
            0 <= steps <= self.spec_line_distance(to),
        ensures
            ({
                let reached = self.step_towards(to, steps);
                &&& reached.spec_is_on_board()
                &&& reached.row == self.row + steps * signum(to.row - self.row)
                &&& reached.col == self.col + steps * signum(to.col - self.col)
                &&& self.spec_line_distance(reached) == steps
                &&& (reached == to) == (steps == self.spec_line_distance(to))
                &&& (reached == self) == (steps == 0)
                &&& self.spec_is_orthogonal_to(to) ==> self.spec_is_orthogonal_to(reached)
                &&& self.spec_is_diagonal_to(to) ==> self.spec_is_diagonal_to(reached)
                &&& forall|fewer: int|
                    0 <= fewer <= steps ==> #[trigger] self.step_towards(reached, fewer)
                        == self.step_towards(to, fewer)
            }),
    {
        let row_step = signum(to.row - self.row);
        let col_step = signum(to.col - self.col);
        lemma_mul_unit(steps, row_step);
        lemma_mul_unit(steps, col_step);
        let reached = self.step_towards(to, steps);
        assert forall|fewer: int| 0 <= fewer <= steps implies #[trigger] self.step_towards(
            reached,
            fewer,
        ) == self.step_towards(to, fewer) by {
            lemma_mul_unit(fewer, row_step);
            lemma_mul_unit(fewer, col_step);
            lemma_mul_unit(fewer, signum(reached.row - self.row));
            lemma_mul_unit(fewer, signum(reached.col - self.col));
        }
    }
}

} // verus!

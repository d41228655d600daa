//! The game engine: the 3x3 board of spaces, the current-player turn, move
//! application, and win/draw detection.
//!
//! Each space carries a fixed weight drawn from a 3x3 magic square (rows
//! [2,7,6], [9,5,1], [4,3,8]): every row, column and diagonal sums to 15, and
//! no other 3-subset of distinct weights does. A player therefore wins exactly
//! when three of the weights they occupy sum to 15.

use vstd::prelude::*;

use itertools::Itertools;

use crate::error::GameError;

verus! {

//---------------------------------------------------------------------------
// Player
//---------------------------------------------------------------------------

/// One of the two players. `X` always moves first.
#[derive(Debug, PartialEq, Eq, Hash, Clone, Copy, Structural)]
pub enum Player {
    X,
    O,
}

impl Player {
    /// The opponent of this player.
    pub open spec fn spec_other(self) -> Player {
        match self {
            Player::X => Player::O,
            Player::O => Player::X,
        }
    }

    /// The player's printable name: `"X"` or `"O"`.
    pub fn name(&self) -> (m: &'static str)
        ensures
            (self is X ==> m@ == "X"@),
            (self is O ==> m@ == "O"@),
    {
        match self {
            Player::X => "X",
            Player::O => "O",
        }
    }

    /// Switch to the other player.
    pub fn toggle(&mut self)
        ensures
            *final(self) == old(self).spec_other(),
    {
        *self = match *self {
            Player::X => Player::O,
            Player::O => Player::X,
        };
    }
}

//---------------------------------------------------------------------------
// Coordinate
//---------------------------------------------------------------------------

/// A (row, column) position on the board, each component in `0..=2`.
#[derive(Debug, Clone, Copy, PartialEq, Eq, Structural)]
pub struct Coordinate {
    pub row: usize,
    pub col: usize,
}

impl Coordinate {
    /// Both components lie on the board.
    pub open spec fn wf(self) -> bool {
        self.row < 3 && self.col < 3
    }

    /// The row-major index of this position on a flat 9-cell board.
    pub open spec fn idx(self) -> int {
        self.row * 3 + self.col
    }

    pub fn new(row: usize, col: usize) -> (c: Coordinate)
        requires
            row < 3,
            col < 3,
        ensures
            c.row == row,
            c.col == col,
            c.wf(),
    {
        Coordinate { row, col }
    }

    pub fn get_tuple(&self) -> (t: (usize, usize))
        ensures
            t.0 == self.row,
            t.1 == self.col,
    {
        (self.row, self.col)
    }

    /// Translate a numeric space index (row-major, `0..=8`) into a
    /// coordinate; any other index is rejected as `InvalidSpace`.
    pub fn from_index(index: usize) -> (r: Result<Coordinate, GameError>)
        ensures
            index < 9 ==> (r matches Ok(c) && c.row == index / 3 && c.col == index % 3),
            index >= 9 ==> r == Err::<Coordinate, GameError>(GameError::InvalidSpace),
    {
        if index < 9 {
            Ok(Coordinate { row: index / 3, col: index % 3 })
        } else {
            Err(GameError::InvalidSpace)
        }
    }
}

//---------------------------------------------------------------------------
// Game space
//---------------------------------------------------------------------------

/// A single space on the game board. Its `mark` starts out `None` and is set
/// at most once; `value` and `coordinate` are fixed at construction.
#[derive(Debug, Clone, Copy)]
pub struct GameSpace {
    pub mark: Option<Player>,
    pub value: u8,
    pub coordinate: Coordinate,
}

impl GameSpace {
    pub fn new(value: u8, row: usize, col: usize) -> (s: GameSpace)
        requires
            row < 3,
            col < 3,
        ensures
            s.mark is None,
            s.value == value,
            s.coordinate.row == row,
            s.coordinate.col == col,
    {
        let coordinate = Coordinate::new(row, col);
        GameSpace { mark: None, value, coordinate }
    }

    pub fn get_mark(&self) -> (m: Option<Player>)
        ensures
            m == self.mark,
    {
        self.mark
    }

    pub fn get_coordinate(&self) -> (c: Coordinate)
        ensures
            c == self.coordinate,
    {
        self.coordinate
    }
}

//---------------------------------------------------------------------------
// The board's fixed weights
//---------------------------------------------------------------------------

/// The magic-square weight of the cell at flat index `i` (row-major).
pub open spec fn weight_at(i: int) -> u8 {
    seq![2u8, 7u8, 6u8, 9u8, 5u8, 1u8, 4u8, 3u8, 8u8][i]
}

//---------------------------------------------------------------------------
// Derived views of a board: occupied count, per-player cells and weights
//---------------------------------------------------------------------------

/// How many of the first `n` cells carry a mark.
pub open spec fn count_marked_upto(marks: Seq<Option<Player>>, n: int) -> int
    decreases n,
{
    if n <= 0 {
        0
    } else {
        count_marked_upto(marks, n - 1) + (if marks[n - 1] is Some {
            1int
        } else {
            0int
        })
    }
}

/// How many of the nine cells carry a mark.
pub open spec fn count_marked(marks: Seq<Option<Player>>) -> int {
    count_marked_upto(marks, 9)
}

/// The indices below `n` of the cells marked by `p`, in ascending order.
pub open spec fn cells_upto(marks: Seq<Option<Player>>, p: Player, n: int) -> Seq<int>
    decreases n,
{
    if n <= 0 {
        Seq::empty()
    } else {
        cells_upto(marks, p, n - 1) + (if marks[n - 1] == Some(p) {
            seq![n - 1]
        } else {
            Seq::empty()
        })
    }
}

/// The weights of the cells marked by `p`, in row-major order.
pub open spec fn scores_of(marks: Seq<Option<Player>>, p: Player) -> Seq<u8> {
    cells_upto(marks, p, 9).map_values(|c: int| weight_at(c))
}

//---------------------------------------------------------------------------
// Winning: three occupied cells whose weights sum to 15
//---------------------------------------------------------------------------

/// Three distinct cells `i < j < l`, all marked by `p`, whose weights sum to
/// exactly 15.
pub open spec fn winning_cells(
    marks: Seq<Option<Player>>,
    p: Player,
    i: int,
    j: int,
    l: int,
) -> bool {
    &&& 0 <= i < j
    &&& j < l < 9
    &&& marks[i] == Some(p)
    &&& marks[j] == Some(p)
    &&& marks[l] == Some(p)
    &&& weight_at(i) + weight_at(j) + weight_at(l) == 15
}

/// `p` has won: some three of the cells `p` occupies have weights summing to
/// 15 — by the magic-square property, exactly the full rows, columns and
/// diagonals.
pub open spec fn wins(marks: Seq<Option<Player>>, p: Player) -> bool {
    exists|i: int, j: int, l: int| winning_cells(marks, p, i, j, l)
}

/// The winner of the board, if any; `X` is examined first.
pub open spec fn spec_winner(marks: Seq<Option<Player>>) -> Option<Player> {
    if wins(marks, Player::X) {
        Some(Player::X)
    } else if wins(marks, Player::O) {
        Some(Player::O)
    } else {
        None
    }
}

/// The eight board lines, as sorted triples of flat indices: three rows,
/// three columns, and the two diagonals.
pub open spec fn is_line(i: int, j: int, l: int) -> bool {
    ||| (i == 0 && j == 1 && l == 2)
    ||| (i == 3 && j == 4 && l == 5)
    ||| (i == 6 && j == 7 && l == 8)
    ||| (i == 0 && j == 3 && l == 6)
    ||| (i == 1 && j == 4 && l == 7)
    ||| (i == 2 && j == 5 && l == 8)
    ||| (i == 0 && j == 4 && l == 8)
    ||| (i == 2 && j == 4 && l == 6)
}

/// `p` occupies all three cells of some board line.
pub open spec fn owns_line(marks: Seq<Option<Player>>, p: Player, i: int, j: int, l: int) -> bool {
    &&& is_line(i, j, l)
    &&& marks[i] == Some(p)
    &&& marks[j] == Some(p)
    &&& marks[l] == Some(p)
}

/// `p` owns a full row, column or diagonal.
pub open spec fn line_win(marks: Seq<Option<Player>>, p: Player) -> bool {
    exists|i: int, j: int, l: int| owns_line(marks, p, i, j, l)
}

/// The magic square has no spurious triples: a 3-subset of distinct cells has
/// weights summing to 15 exactly when the cells form a board line.
pub proof fn lemma_magic_square_triples(i: int, j: int, l: int)
    requires
        0 <= i < j,
        j < l < 9,
    ensures
        (weight_at(i) + weight_at(j) + weight_at(l) == 15) == is_line(i, j, l),
{
    assert(weight_at(0) == 2 && weight_at(1) == 7 && weight_at(2) == 6 && weight_at(3) == 9
        && weight_at(4) == 5 && weight_at(5) == 1 && weight_at(6) == 4 && weight_at(7) == 3
        && weight_at(8) == 8);
    assert(i == 0 || i == 1 || i == 2 || i == 3 || i == 4 || i == 5 || i == 6 || i == 7);
    assert(j == 1 || j == 2 || j == 3 || j == 4 || j == 5 || j == 6 || j == 7 || j == 8);
    assert(l == 2 || l == 3 || l == 4 || l == 5 || l == 6 || l == 7 || l == 8);
}

/// The combinatorial win check and explicit line enumeration agree: a player
/// has three occupied weights summing to 15 exactly when they own a full
/// row, column or diagonal.
pub proof fn lemma_wins_iff_line_win(marks: Seq<Option<Player>>, p: Player)
    ensures
        wins(marks, p) == line_win(marks, p),
{
    if wins(marks, p) {
        let (i, j, l) = choose|i: int, j: int, l: int| winning_cells(marks, p, i, j, l);
        lemma_magic_square_triples(i, j, l);
        assert(owns_line(marks, p, i, j, l));
    }
    if line_win(marks, p) {
        let (i, j, l) = choose|i: int, j: int, l: int| owns_line(marks, p, i, j, l);
        lemma_magic_square_triples(i, j, l);
        assert(winning_cells(marks, p, i, j, l));
    }
}

/// Positions `a < b < c` of `s` whose elements sum to exactly 15.
pub open spec fn triple_sums_to_fifteen(s: Seq<u8>, a: int, b: int, c: int) -> bool {
    &&& 0 <= a < b
    &&& b < c < s.len()
    &&& s[a] + s[b] + s[c] == 15
}

/// Some three elements of `s`, at distinct positions, sum to exactly 15.
pub open spec fn has_fifteen_triple(s: Seq<u8>) -> bool {
    exists|a: int, b: int, c: int| triple_sums_to_fifteen(s, a, b, c)
}

/// The 3-element subsequence of `values` at positions `a`, `b`, `c`.
pub open spec fn subtriple(values: Seq<u8>, a: int, b: int, c: int) -> Seq<u8> {
    seq![values[a], values[b], values[c]]
}

/// The sum of the first three elements of a sequence.
pub open spec fn sum_of_three(s: Seq<u8>) -> int {
    s[0] + s[1] + s[2]
}

proof fn lemma_cells_upto_in_range(marks: Seq<Option<Player>>, p: Player, n: int, k: int)
    requires
        0 <= k < cells_upto(marks, p, n).len(),
    ensures
        0 <= cells_upto(marks, p, n)[k] < n,
        marks[cells_upto(marks, p, n)[k]] == Some(p),
    decreases n,
{
    if n > 0 {
        let prev = cells_upto(marks, p, n - 1);
        if k < prev.len() {
            lemma_cells_upto_in_range(marks, p, n - 1, k);
        }
    }
}

proof fn lemma_cells_upto_increasing(marks: Seq<Option<Player>>, p: Player, n: int, k1: int, k2: int)
    requires
        0 <= k1 < k2 < cells_upto(marks, p, n).len(),
    ensures
        cells_upto(marks, p, n)[k1] < cells_upto(marks, p, n)[k2],
    decreases n,
{
    if n > 0 {
        let prev = cells_upto(marks, p, n - 1);
        if k2 < prev.len() {
            lemma_cells_upto_increasing(marks, p, n - 1, k1, k2);
        } else {
            lemma_cells_upto_in_range(marks, p, n - 1, k1);
        }
    }
}

proof fn lemma_cells_upto_complete(marks: Seq<Option<Player>>, p: Player, n: int, i: int)
    requires
        0 <= i < n,
        marks[i] == Some(p),
    ensures
        exists|k: int|
            0 <= k < cells_upto(marks, p, n).len() && #[trigger] cells_upto(marks, p, n)[k] == i,
    decreases n,
{
    let cells = cells_upto(marks, p, n);
    let prev = cells_upto(marks, p, n - 1);
    if i == n - 1 {
        assert(cells[prev.len() as int] == i);
    } else {
        lemma_cells_upto_complete(marks, p, n - 1, i);
        let k = choose|k: int|
            0 <= k < cells_upto(marks, p, n - 1).len() && #[trigger] cells_upto(
                marks,
                p,
                n - 1,
            )[k] == i;
        assert(cells[k] == i);
    }
}

/// A player has won exactly when some three of the weights they occupy sum to
/// 15: the weight list of `scores_of` carries the same triples as the board.
pub proof fn lemma_win_iff_fifteen_triple(marks: Seq<Option<Player>>, p: Player)
    ensures
        wins(marks, p) == has_fifteen_triple(scores_of(marks, p)),
{
    let scores = scores_of(marks, p);
    let cells = cells_upto(marks, p, 9);
    if wins(marks, p) {
        let (i, j, l) = choose|i: int, j: int, l: int| winning_cells(marks, p, i, j, l);
        lemma_cells_upto_complete(marks, p, 9, i);
        lemma_cells_upto_complete(marks, p, 9, j);
        lemma_cells_upto_complete(marks, p, 9, l);
        let a = choose|k: int| 0 <= k < cells.len() && #[trigger] cells[k] == i;
        let b = choose|k: int| 0 <= k < cells.len() && #[trigger] cells[k] == j;
        let c = choose|k: int| 0 <= k < cells.len() && #[trigger] cells[k] == l;
        assert(a < b) by {
            if b < a {
                lemma_cells_upto_increasing(marks, p, 9, b, a);
            }
        }
        assert(b < c) by {
            if c < b {
                lemma_cells_upto_increasing(marks, p, 9, c, b);
            }
        }
        assert(triple_sums_to_fifteen(scores, a, b, c));
    }
    if has_fifteen_triple(scores) {
        let (a, b, c) = choose|a: int, b: int, c: int| triple_sums_to_fifteen(scores, a, b, c);
        lemma_cells_upto_in_range(marks, p, 9, a);
        lemma_cells_upto_in_range(marks, p, 9, b);
        lemma_cells_upto_in_range(marks, p, 9, c);
        lemma_cells_upto_increasing(marks, p, 9, a, b);
        lemma_cells_upto_increasing(marks, p, 9, b, c);
        assert(winning_cells(marks, p, cells[a], cells[b], cells[c]));
    }
}

/// Relies on itertools' `Itertools::combinations`: with `k == 3` it yields one
/// `Vec` for each choice of three strictly increasing input positions, holding
/// the elements at those positions, and nothing else.
#[verifier::external_body]
fn combinations_of_three(values: &Vec<u8>) -> (combos: Vec<Vec<u8>>)
    ensures
        forall|k: int|
            0 <= k < combos@.len() ==> exists|a: int, b: int, c: int|
                0 <= a < b && b < c < values@.len() && (#[trigger] combos@[k])@ == subtriple(
                    values@,
                    a,
                    b,
                    c,
                ),
        forall|a: int, b: int, c: int|
            (0 <= a < b && b < c < values@.len()) ==> exists|k: int|
                0 <= k < combos@.len() && (#[trigger] combos@[k])@ == #[trigger] subtriple(
                    values@,
                    a,
                    b,
                    c,
                ),
{
    values.iter().cloned().combinations(3).collect()
}

/// Does some 3-element combination of `values` sum to exactly 15?
#[verifier::loop_isolation(false)]
fn has_winning_sum(values: &Vec<u8>) -> (r: bool)
    ensures
        r == has_fifteen_triple(values@),
{
    let combos = combinations_of_three(values);
    let mut k: usize = 0;
    while k < combos.len()
        invariant
            k <= combos@.len(),
            forall|k2: int| 0 <= k2 < k ==> sum_of_three((#[trigger] combos@[k2])@) != 15,
        decreases combos@.len() - k,
    {
        proof {
            let (a, b, c) = choose|a: int, b: int, c: int|
                0 <= a < b && b < c < values@.len() && combos@[k as int]@ == subtriple(
                    values@,
                    a,
                    b,
                    c,
                );
            assert(combos@[k as int]@.len() == 3);
        }
        let combo = &combos[k];
        let total: u32 = combo[0] as u32 + combo[1] as u32 + combo[2] as u32;
        if total == 15 {
            proof {
                let (a, b, c) = choose|a: int, b: int, c: int|
                    0 <= a < b && b < c < values@.len() && combos@[k as int]@ == subtriple(
                        values@,
                        a,
                        b,
                        c,
                    );
                assert(triple_sums_to_fifteen(values@, a, b, c));
            }
            return true;
        }
        k += 1;
    }
    proof {
        assert forall|a: int, b: int, c: int| !triple_sums_to_fifteen(values@, a, b, c) by {
            if 0 <= a < b && b < c < values@.len() {
                let k2 = choose|k2: int|
                    0 <= k2 < combos@.len() && (#[trigger] combos@[k2])@ == subtriple(
                        values@,
                        a,
                        b,
                        c,
                    );
                assert(sum_of_three(combos@[k2]@) != 15);
            }
        }
    }
    false
}

//---------------------------------------------------------------------------
// Playing a sequence of moves, at the model level
//---------------------------------------------------------------------------

/// The empty board: nine unmarked cells.
pub open spec fn empty_marks() -> Seq<Option<Player>> {
    Seq::new(9, |i: int| None::<Player>)
}

/// One move at the model level: mark cell `idx` for `current` and pass the
/// turn, or fail — changing nothing — when the cell is occupied.
pub open spec fn spec_add(marks: Seq<Option<Player>>, current: Player, idx: int) -> Result<
    (Seq<Option<Player>>, Player),
    GameError,
> {
    if marks[idx] is Some {
        Err(GameError::SpaceOccupied)
    } else {
        Ok((marks.update(idx, Some(current)), current.spec_other()))
    }
}

/// The board and player after the first `n` of `moves` (flat cell indices),
/// starting from the empty board with `X` to move; the first failure stops
/// the play.
pub open spec fn play_upto(moves: Seq<int>, n: int) -> Result<
    (Seq<Option<Player>>, Player),
    GameError,
>
    decreases n,
{
    if n <= 0 {
        Ok((empty_marks(), Player::X))
    } else {
        match play_upto(moves, n - 1) {
            Ok((marks, current)) => spec_add(marks, current, moves[n - 1]),
            Err(e) => Err(e),
        }
    }
}

/// The board and player after all of `moves`.
pub open spec fn play(moves: Seq<int>) -> Result<(Seq<Option<Player>>, Player), GameError> {
    play_upto(moves, moves.len() as int)
}

/// Once a play has failed, playing further moves cannot revive it.
proof fn lemma_play_err_stable(moves: Seq<int>, n: int, m: int)
    requires
        0 <= n <= m,
        play_upto(moves, n) is Err,
    ensures
        play_upto(moves, m) == play_upto(moves, n),
    decreases m - n,
{
    if m > n {
        lemma_play_err_stable(moves, n, m - 1);
    }
}

//---------------------------------------------------------------------------
// Game status
//---------------------------------------------------------------------------

/// The three possible game states: a player has won, the game is still
/// pending (carrying whose turn it is), or the board is full with no winner.
#[derive(Debug, PartialEq, Eq, Structural)]
pub enum GameStatus {
    Winner(Player),
    Pending(Player),
    Draw,
}

/// The status derived from a board and the player to move: a winner if one
/// exists (`X` examined first), else a draw on a full board, else pending.
pub open spec fn status_of(marks: Seq<Option<Player>>, current: Player) -> GameStatus {
    match spec_winner(marks) {
        Some(p) => GameStatus::Winner(p),
        None => if count_marked(marks) == 9 {
            GameStatus::Draw
        } else {
            GameStatus::Pending(current)
        },
    }
}

//---------------------------------------------------------------------------
// Game
//---------------------------------------------------------------------------

/// A tic-tac-toe game: the nine spaces in row-major order, and the player
/// whose turn it is.
#[derive(Debug)]
pub struct Game {
    pub board: [GameSpace; 9],
    pub player: Player,
}

impl Game {
    /// The marks of the nine spaces, in row-major order.
    pub open spec fn marks(self) -> Seq<Option<Player>> {
        self.board@.map_values(|s: GameSpace| s.mark)
    }

    /// Every space carries its magic-square weight and its own coordinate.
    pub open spec fn wf(self) -> bool {
        forall|i: int|
            0 <= i < 9 ==> ((#[trigger] self.board@[i]).value == weight_at(i)
                && self.board@[i].coordinate.row == i / 3
                && self.board@[i].coordinate.col == i % 3)
    }

    /// A fresh game: all nine spaces unmarked, `X` to move.
    pub fn new() -> (g: Game)
        ensures
            g.wf(),
            g.marks() =~= Seq::new(9, |i: int| None::<Player>),
            g.player == Player::X,
    {
        let board = [
            GameSpace::new(2, 0, 0),
            GameSpace::new(7, 0, 1),
            GameSpace::new(6, 0, 2),
            GameSpace::new(9, 1, 0),
            GameSpace::new(5, 1, 1),
            GameSpace::new(1, 1, 2),
            GameSpace::new(4, 2, 0),
            GameSpace::new(3, 2, 1),
            GameSpace::new(8, 2, 2),
        ];
        Game { board, player: Player::X }
    }

    /// Mark the space at `coord` with the current player and pass the turn.
    /// Fails with `SpaceOccupied`, leaving the game unchanged, when the space
    /// already carries a mark.
    pub fn add_move(&mut self, coord: Coordinate) -> (r: Result<(), GameError>)
        requires
            old(self).wf(),
            coord.wf(),
        ensures
            final(self).wf(),
            old(self).marks()[coord.idx()] is Some ==> (r == Err::<(), GameError>(
                GameError::SpaceOccupied,
            ) && *final(self) == *old(self)),
            old(self).marks()[coord.idx()] is None ==> (r == Ok::<(), GameError>(())
                && final(self).marks() == old(self).marks().update(
                coord.idx(),
                Some(old(self).player),
            ) && final(self).player == old(self).player.spec_other()),
            (match r {
                Ok(_) => spec_add(old(self).marks(), old(self).player, coord.idx()) == Ok::<
                    (Seq<Option<Player>>, Player),
                    GameError,
                >((final(self).marks(), final(self).player)),
                Err(e) => spec_add(old(self).marks(), old(self).player, coord.idx()) == Err::<
                    (Seq<Option<Player>>, Player),
                    GameError,
                >(e),
            }),
    {
        let idx = coord.row * 3 + coord.col;
        if self.board[idx].mark.is_some() {
            Err(GameError::SpaceOccupied)
        } else {
            let mut space = self.board[idx];
            space.mark = Some(self.player);
            self.board[idx] = space;
            self.player.toggle();
            proof {
                assert(self.marks() =~= old(self).marks().update(
                    coord.idx(),
                    Some(old(self).player),
                ));
            }
            Ok(())
        }
    }

    /// Build a game by playing `moves` in order on a fresh board. Returns the
    /// error of the first failing move, if any.
    pub fn from(moves: &[Coordinate]) -> (r: Result<Game, GameError>)
        requires
            forall|k: int| 0 <= k < moves@.len() ==> (#[trigger] moves@[k]).wf(),
        ensures
            match play(moves@.map_values(|c: Coordinate| c.idx())) {
                Ok((m, p)) => (r matches Ok(g) && g.wf() && g.marks() == m && g.player == p),
                Err(e) => r == Err::<Game, GameError>(e),
            },
    {
        let ghost idxs = moves@.map_values(|c: Coordinate| c.idx());
        let mut game = Game::new();
        let mut k: usize = 0;
        proof {
            assert(game.marks() == empty_marks());
        }
        while k < moves.len()
            invariant
                k <= moves@.len(),
                game.wf(),
                forall|k2: int| 0 <= k2 < moves@.len() ==> (#[trigger] moves@[k2]).wf(),
                idxs == moves@.map_values(|c: Coordinate| c.idx()),
                play_upto(idxs, k as int) == Ok::<(Seq<Option<Player>>, Player), GameError>(
                    (game.marks(), game.player),
                ),
            decreases moves@.len() - k,
        {
            let mv = moves[k];
            let ghost prev = game;
            match game.add_move(mv) {
                Ok(()) => {
                    proof {
                        assert(play_upto(idxs, k + 1) == spec_add(
                            prev.marks(),
                            prev.player,
                            idxs[k as int],
                        ));
                    }
                },
                Err(e) => {
                    proof {
                        assert(play_upto(idxs, k + 1) == Err::<
                            (Seq<Option<Player>>, Player),
                            GameError,
                        >(e));
                        lemma_play_err_stable(idxs, k + 1, idxs.len() as int);
                    }
                    return Err(e);
                },
            }
            k += 1;
        }
        Ok(game)
    }

    /// The player whose turn it is.
    pub fn current_player(&self) -> (p: Player)
        ensures
            p == self.player,
    {
        self.player
    }

    /// The nine spaces in row-major order (left to right, top to bottom).
    pub fn iter(&self) -> (spaces: Vec<GameSpace>)
        ensures
            spaces@.len() == 9,
            forall|i: int| 0 <= i < 9 ==> spaces@[i] == self.board@[i],
    {
        let mut spaces: Vec<GameSpace> = Vec::new();
        let mut i: usize = 0;
        while i < 9
            invariant
                i <= 9,
                spaces@.len() == i,
                forall|k: int| 0 <= k < i ==> spaces@[k] == self.board@[k],
            decreases 9 - i,
        {
            spaces.push(self.board[i]);
            i += 1;
        }
        spaces
    }

    /// The space at the given coordinate.
    pub fn get_space(&self, coord: Coordinate) -> (s: &GameSpace)
        requires
            coord.wf(),
        ensures
            *s == self.board@[coord.idx()],
    {
        let idx = coord.row * 3 + coord.col;
        &self.board[idx]
    }

    /// The weights of the spaces occupied by `player`, in row-major order.
    pub fn get_player_scores(&self, player: Player) -> (scores: Vec<u8>)
        requires
            self.wf(),
        ensures
            scores@ == scores_of(self.marks(), player),
    {
        let mut scores: Vec<u8> = Vec::new();
        let mut i: usize = 0;
        while i < 9
            invariant
                i <= 9,
                self.wf(),
                scores@ == cells_upto(self.marks(), player, i as int).map_values(
                    |c: int| weight_at(c),
                ),
            decreases 9 - i,
        {
            let space = self.board[i];
            match space.mark {
                Some(p) => {
                    if p == player {
                        scores.push(space.value);
                    }
                },
                None => {},
            }
            proof {
                assert(scores@ =~= cells_upto(self.marks(), player, i + 1).map_values(
                    |c: int| weight_at(c),
                ));
            }
            i += 1;
        }
        scores
    }

    /// The winner of the game as it stands, if there is one: the player whose
    /// occupied weights contain a 3-element subset summing to 15.
    pub fn get_winner(&self) -> (winner: Option<Player>)
        requires
            self.wf(),
        ensures
            winner == spec_winner(self.marks()),
    {
        let x_scores = self.get_player_scores(Player::X);
        if has_winning_sum(&x_scores) {
            proof {
                lemma_win_iff_fifteen_triple(self.marks(), Player::X);
            }
            return Some(Player::X);
        }
        proof {
            lemma_win_iff_fifteen_triple(self.marks(), Player::X);
        }
        let o_scores = self.get_player_scores(Player::O);
        if has_winning_sum(&o_scores) {
            proof {
                lemma_win_iff_fifteen_triple(self.marks(), Player::O);
            }
            return Some(Player::O);
        }
        proof {
            lemma_win_iff_fifteen_triple(self.marks(), Player::O);
        }
        None
    }

    /// The current status of the game: a winner if one exists, else a draw
    /// when all nine spaces are marked, else pending with the current player.
    pub fn status(&self) -> (s: GameStatus)
        requires
            self.wf(),
        ensures
            s == status_of(self.marks(), self.player),
    {
        if let Some(player) = self.get_winner() {
            return GameStatus::Winner(player);
        }
        if self.count_occupied_spaces() == 9 {
            return GameStatus::Draw;
        }
        GameStatus::Pending(self.player)
    }

    /// Count the occupied spaces on the board.
    pub fn count_occupied_spaces(&self) -> (n: u8)
        ensures
            n == count_marked(self.marks()),
    {
        let mut occupied_spaces: u8 = 0;
        let mut i: usize = 0;
        while i < 9
            invariant
                i <= 9,
                occupied_spaces <= i,
                occupied_spaces == count_marked_upto(self.marks(), i as int),
            decreases 9 - i,
        {
            if self.board[i].mark.is_some() {
                occupied_spaces += 1;
            }
            i += 1;
        }
        occupied_spaces
    }
}

} // verus!

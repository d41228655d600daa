//! The laws of the engine, stated and proved over the model-level play
//! functions: marks are never unmade, terminal statuses stay terminal, and a
//! play of distinct legal moves always succeeds with the expected count and
//! turn alternation.

use vstd::prelude::*;

use crate::cursor::{first_unmarked, first_unmarked_from};
use crate::error::GameError;
use crate::game::{
    GameStatus, Player, count_marked, count_marked_upto, empty_marks, play, play_upto, spec_add,
    spec_winner, status_of, winning_cells, wins,
};

verus! {

//---------------------------------------------------------------------------
// Counting helpers
//---------------------------------------------------------------------------

proof fn lemma_count_bounds(marks: Seq<Option<Player>>, n: int)
    requires
        n >= 0,
    ensures
        0 <= count_marked_upto(marks, n) <= n,
    decreases n,
{
    if n > 0 {
        lemma_count_bounds(marks, n - 1);
    }
}

proof fn lemma_count_full(marks: Seq<Option<Player>>, n: int)
    requires
        n >= 0,
        count_marked_upto(marks, n) == n,
    ensures
        forall|i: int| 0 <= i < n ==> (#[trigger] marks[i]) is Some,
    decreases n,
{
    if n > 0 {
        lemma_count_bounds(marks, n - 1);
        lemma_count_full(marks, n - 1);
    }
}

proof fn lemma_count_all_none(marks: Seq<Option<Player>>, n: int)
    requires
        n >= 0,
        forall|i: int| 0 <= i < n ==> (#[trigger] marks[i]) is None,
    ensures
        count_marked_upto(marks, n) == 0,
    decreases n,
{
    if n > 0 {
        lemma_count_all_none(marks, n - 1);
    }
}

proof fn lemma_count_agree(m1: Seq<Option<Player>>, m2: Seq<Option<Player>>, n: int)
    requires
        n >= 0,
        forall|i: int| 0 <= i < n ==> m1[i] == #[trigger] m2[i],
    ensures
        count_marked_upto(m1, n) == count_marked_upto(m2, n),
    decreases n,
{
    if n > 0 {
        lemma_count_agree(m1, m2, n - 1);
    }
}

proof fn lemma_count_update(marks: Seq<Option<Player>>, idx: int, v: Player, n: int)
    requires
        0 <= idx < n <= marks.len(),
        marks[idx] is None,
    ensures
        count_marked_upto(marks.update(idx, Some(v)), n) == count_marked_upto(marks, n) + 1,
    decreases n,
{
    let updated = marks.update(idx, Some(v));
    if idx == n - 1 {
        lemma_count_agree(updated, marks, n - 1);
    } else {
        lemma_count_update(marks, idx, v, n - 1);
    }
}

proof fn lemma_count_all_some(marks: Seq<Option<Player>>, n: int)
    requires
        n >= 0,
        forall|i: int| 0 <= i < n ==> (#[trigger] marks[i]) is Some,
    ensures
        count_marked_upto(marks, n) == n,
    decreases n,
{
    if n > 0 {
        lemma_count_all_some(marks, n - 1);
    }
}

proof fn lemma_first_unmarked_none_all_marked(marks: Seq<Option<Player>>, k: int)
    requires
        0 <= k <= 9,
        first_unmarked_from(marks, k) is None,
    ensures
        forall|i: int| k <= i < 9 ==> (#[trigger] marks[i]) is Some,
    decreases 9 - k,
{
    if k < 9 {
        lemma_first_unmarked_none_all_marked(marks, k + 1);
    }
}

//---------------------------------------------------------------------------
// A pending game always has an available space
//---------------------------------------------------------------------------

/// While the status is pending the board is not full, so a first unmarked
/// space — a resting place for the cursor — always exists.
pub proof fn lemma_pending_has_available_space(marks: Seq<Option<Player>>, current: Player)
    requires
        status_of(marks, current) is Pending,
    ensures
        first_unmarked(marks) is Some,
{
    if first_unmarked(marks) is None {
        lemma_first_unmarked_none_all_marked(marks, 0);
        lemma_count_all_some(marks, 9);
    }
}

//---------------------------------------------------------------------------
// Marks are permanent; terminal statuses are stable
//---------------------------------------------------------------------------

/// An occupied space never unmarks: a successful move leaves every
/// already-marked cell exactly as it was (and a failed move changes nothing
/// at all).
pub proof fn lemma_marks_permanent(
    marks: Seq<Option<Player>>,
    current: Player,
    idx: int,
    m2: Seq<Option<Player>>,
    p2: Player,
)
    requires
        0 <= idx < marks.len(),
        spec_add(marks, current, idx) == Ok::<(Seq<Option<Player>>, Player), GameError>((m2, p2)),
    ensures
        m2.len() == marks.len(),
        forall|i: int|
            0 <= i < marks.len() && (#[trigger] marks[i]) is Some ==> m2[i] == marks[i],
{
}

/// Once a game is drawn, there are no further moves: every cell is occupied,
/// so every move fails with `SpaceOccupied`, and the status stays `Draw`
/// whoever would be on turn.
pub proof fn lemma_draw_is_terminal(marks: Seq<Option<Player>>, current: Player)
    requires
        marks.len() == 9,
        status_of(marks, current) == GameStatus::Draw,
    ensures
        forall|idx: int|
            0 <= idx < 9 ==> #[trigger] spec_add(marks, current, idx) == Err::<
                (Seq<Option<Player>>, Player),
                GameError,
            >(GameError::SpaceOccupied),
        forall|p2: Player| #[trigger] status_of(marks, p2) == GameStatus::Draw,
{
    lemma_count_full(marks, 9);
}

/// A win persists under any further successful move: the winning cells stay
/// marked, so the winner's triple is still on the board.
pub proof fn lemma_win_persists(
    marks: Seq<Option<Player>>,
    current: Player,
    idx: int,
    m2: Seq<Option<Player>>,
    p2: Player,
    p: Player,
)
    requires
        marks.len() == 9,
        0 <= idx < 9,
        wins(marks, p),
        spec_add(marks, current, idx) == Ok::<(Seq<Option<Player>>, Player), GameError>((m2, p2)),
    ensures
        wins(m2, p),
{
    let (i, j, l) = choose|i: int, j: int, l: int| winning_cells(marks, p, i, j, l);
    lemma_marks_permanent(marks, current, idx, m2, p2);
    assert(m2[i] == marks[i] && m2[j] == marks[j] && m2[l] == marks[l]);
    assert(winning_cells(m2, p, i, j, l));
}

/// Once the status is no longer pending it never becomes pending again, and
/// with `X`'s win examined first, `Winner(X)` is stable outright; `Winner(p)`
/// in general is stable as long as the move does not hand the opponent a
/// winning triple of their own.
pub proof fn lemma_terminal_status_stays(
    marks: Seq<Option<Player>>,
    current: Player,
    idx: int,
    m2: Seq<Option<Player>>,
    p2: Player,
)
    requires
        marks.len() == 9,
        0 <= idx < 9,
        !(status_of(marks, current) is Pending),
        spec_add(marks, current, idx) == Ok::<(Seq<Option<Player>>, Player), GameError>((m2, p2)),
    ensures
        forall|q: Player| !((#[trigger] status_of(m2, q)) is Pending),
        status_of(marks, current) == GameStatus::Winner(Player::X) ==> forall|q: Player|
            #[trigger] status_of(m2, q) == GameStatus::Winner(Player::X),
        forall|p: Player, q: Player|
            #![trigger status_of(m2, q), wins(m2, p.spec_other())]
            status_of(marks, current) == GameStatus::Winner(p) && !wins(m2, p.spec_other())
                ==> status_of(m2, q) == GameStatus::Winner(p),
{
    if status_of(marks, current) is Draw {
        lemma_draw_is_terminal(marks, current);
        assert(false);
    }
    let p0 = spec_winner(marks)->Some_0;
    lemma_win_persists(marks, current, idx, m2, p2, p0);
}

//---------------------------------------------------------------------------
// Distinct legal moves always succeed, count up, and alternate the turn
//---------------------------------------------------------------------------

proof fn lemma_distinct_play_upto(moves: Seq<int>, n: int)
    requires
        0 <= n <= moves.len(),
        forall|k: int| 0 <= k < moves.len() ==> 0 <= #[trigger] moves[k] < 9,
        forall|k1: int, k2: int| 0 <= k1 < k2 < moves.len() ==> moves[k1] != moves[k2],
    ensures
        match play_upto(moves, n) {
            Ok((m, p)) => m.len() == 9 && count_marked(m) == n && p == (if n % 2 == 0 {
                Player::X
            } else {
                Player::O
            }) && (forall|i: int|
                0 <= i < 9 ==> ((#[trigger] m[i]) is Some <==> exists|k: int|
                    0 <= k < n && moves[k] == i)),
            Err(_) => false,
        },
    decreases n,
{
    if n == 0 {
        lemma_count_all_none(empty_marks(), 9);
    } else {
        lemma_distinct_play_upto(moves, n - 1);
        let (m1, p1) = play_upto(moves, n - 1)->Ok_0;
        let idx = moves[n - 1];
        assert(m1[idx] is None) by {
            if m1[idx] is Some {
                let k = choose|k: int| 0 <= k < n - 1 && moves[k] == idx;
                assert(moves[k] == moves[n - 1]);
            }
        }
        let m2 = m1.update(idx, Some(p1));
        lemma_count_update(m1, idx, p1, 9);
        assert forall|i: int|
            0 <= i < 9 implies ((#[trigger] m2[i]) is Some <==> exists|k: int|
                0 <= k < n && moves[k] == i) by {
            if m2[i] is Some {
                if i == idx {
                    assert(0 <= n - 1 < n && moves[n - 1] == i);
                } else {
                    let k = choose|k: int| 0 <= k < n - 1 && moves[k] == i;
                    assert(0 <= k < n && moves[k] == i);
                }
            }
            if exists|k: int| 0 <= k < n && moves[k] == i {
                let k = choose|k: int| 0 <= k < n && moves[k] == i;
                if k == n - 1 {
                    assert(m2[idx] is Some);
                } else {
                    assert(m1[i] is Some);
                }
            }
        }
    }
}

/// Every sequence of distinct legal moves plays out successfully: after `N`
/// moves exactly `N` spaces are occupied, and the player to move alternates
/// starting from `X` — `X` on turn after an even number of moves, `O` after
/// an odd number.
pub proof fn lemma_distinct_play(moves: Seq<int>)
    requires
        forall|k: int| 0 <= k < moves.len() ==> 0 <= #[trigger] moves[k] < 9,
        forall|k1: int, k2: int| 0 <= k1 < k2 < moves.len() ==> moves[k1] != moves[k2],
    ensures
        play(moves) is Ok,
        match play(moves) {
            Ok((m, p)) => count_marked(m) == moves.len() && p == (if moves.len() % 2 == 0 {
                Player::X
            } else {
                Player::O
            }),
            Err(_) => false,
        },
{
    lemma_distinct_play_upto(moves, moves.len() as int);
}

} // verus!

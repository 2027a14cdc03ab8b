//! Properties of the rendered text that hold for every record.
use crate::text::decimal;
use crate::value::{
    cells_text, moves_text, rows_text, Color, GameRecord, PieceType, Position,
};
use vstd::prelude::*;

verus! {

/// `k` empty cells of a board row.
pub open spec fn blank_cells(k: nat) -> Seq<char>
    decreases k,
{
    if k == 0 {
        Seq::empty()
    } else {
        blank_cells((k - 1) as nat) + " * "@
    }
}

/// The first `n` rows of an empty board: `P1` to `Pn`, each followed by nine
/// empty cells.
pub open spec fn blank_rows(n: nat) -> Seq<char>
    decreases n,
{
    if n == 0 {
        Seq::empty()
    } else {
        blank_rows((n - 1) as nat) + "P"@ + decimal(n) + blank_cells(9) + "\n"@
    }
}

/// Every cell of the board is empty.
pub open spec fn board_is_empty(board: [[Option<(Color, PieceType)>; 9]; 9]) -> bool {
    forall|i: int, j: int| 0 <= i < 9 && 0 <= j < 9 ==> (#[trigger] board@[i]@[j]) is None
}

proof fn lemma_blank_row(row: Seq<Option<(Color, PieceType)>>, k: nat)
    requires
        k <= row.len(),
        forall|j: int| 0 <= j < row.len() ==> (#[trigger] row[j]) is None,
    ensures
        cells_text(row.take(k as int)) == blank_cells(k),
    decreases k,
{
    if k > 0 {
        lemma_blank_row(row, (k - 1) as nat);
        assert(row.take(k as int).drop_last() =~= row.take(k - 1));
    }
}

proof fn lemma_blank_rows(board: [[Option<(Color, PieceType)>; 9]; 9], n: nat)
    requires
        n <= 9,
        board_is_empty(board),
    ensures
        rows_text(board@.take(n as int)) == blank_rows(n),
    decreases n,
{
    if n > 0 {
        lemma_blank_rows(board, (n - 1) as nat);
        let rows = board@.take(n as int);
        assert(rows.drop_last() =~= board@.take(n - 1));
        let row = board@[n - 1]@;
        assert forall|j: int| 0 <= j < row.len() implies (#[trigger] row[j]) is None by {
            assert(board@[n - 1]@[j] is None);
        }
        lemma_blank_row(row, 9);
        assert(row.take(9) =~= row);
    }
}

/// Rendering is a function of the record's value: two equal records render
/// to the same text, whenever and however often they are rendered.
pub proof fn rendering_is_deterministic(a: &GameRecord, b: &GameRecord)
    requires
        *a == *b,
    ensures
        a.text() == b.text(),
{
}

/// A record without any metadata renders as the version line, the position
/// and the moves, with no metadata line at all.
pub proof fn absent_metadata_adds_no_line(g: &GameRecord)
    requires
        g.black_player is None,
        g.white_player is None,
        g.event is None,
        g.site is None,
        g.start_time is None,
        g.end_time is None,
        g.time_limit is None,
        g.opening is None,
    ensures
        g.text() == "V2.2\n"@ + g.start_pos.text() + moves_text(g.moves@),
{
    assert(g.metadata_text() =~= Seq::empty());
    assert(g.text() =~= "V2.2\n"@ + g.start_pos.text() + moves_text(g.moves@));
}

/// A bulk position whose cells are all empty lays out as nine lines `P1` to
/// `P9`, each followed by nine ` * ` cells.
pub proof fn empty_board_renders_blank_rows(p: &Position)
    requires
        p.bulk is Some,
        board_is_empty(p.bulk->0),
    ensures
        p.layout_text() == blank_rows(9),
{
    let board = p.bulk->0;
    lemma_blank_rows(board, 9);
    assert(board@.take(9) =~= board@);
}

} // verus!

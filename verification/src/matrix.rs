//! The debounced matrix reader.
//!
//! Every key position has a counter beside its pressed state. A reading
//! that finds the switch conducting moves the counter up, any other
//! reading moves it down. Only when the counter leaves the band of the
//! threshold does the pressed state change, and the counter starts again
//! from zero. A contact that chatters stays inside the band and changes
//! nothing.
use vstd::prelude::*;
use crate::config::{Grid, Readings, COLS, ROWS};

verus! {

/// One key position as the contracts see it: its debounce counter and its
/// pressed state (1 pressed, 0 released).
pub struct Cell {
    pub counter: int,
    pub pressed: int,
}

impl Cell {
    /// The cell with the given counter and pressed state.
    pub open spec fn of(counter: int, pressed: int) -> Cell {
        Cell { counter, pressed }
    }
}

/// The cell after one reading.
///
/// A conducting switch raises the counter; above `threshold` the press is
/// confirmed. An open switch lowers the counter; below `-threshold` the
/// release is confirmed. A confirmation sets the counter back to zero.
/// Inside the band the pressed state stays as it was.
pub open spec fn debounced(cell: Cell, active: bool, threshold: int) -> Cell {
    if active {
        if cell.counter + 1 > threshold {
            Cell { counter: 0, pressed: 1 }
        } else {
            Cell { counter: cell.counter + 1, pressed: cell.pressed }
        }
    } else {
        if cell.counter - 1 < -threshold {
            Cell { counter: 0, pressed: 0 }
        } else {
            Cell { counter: cell.counter - 1, pressed: cell.pressed }
        }
    }
}

/// A cell whose counter lies within the band of the threshold and whose
/// pressed state is 0 or 1.
pub open spec fn cell_in_band(cell: Cell, threshold: int) -> bool {
    &&& -threshold <= cell.counter <= threshold
    &&& (cell.pressed == 0 || cell.pressed == 1)
}

/// The cell after a series of readings, the first of them first.
pub open spec fn debounced_run(cell: Cell, reads: Seq<bool>, threshold: int) -> Cell
    decreases reads.len(),
{
    if reads.len() == 0 {
        cell
    } else {
        debounced(debounced_run(cell, reads.drop_last(), threshold), reads.last(), threshold)
    }
}

/// How far a series of readings moves a counter that nothing stops: the
/// number of conducting readings less the number of open ones.
pub open spec fn drift(reads: Seq<bool>) -> int
    decreases reads.len(),
{
    if reads.len() == 0 {
        0
    } else {
        drift(reads.drop_last()) + (if reads.last() {
            1int
        } else {
            -1int
        })
    }
}

/// `count` readings that all say `active`.
pub open spec fn steady(count: nat, active: bool) -> Seq<bool> {
    Seq::new(count, |i: int| active)
}

/// `count` readings that change at every step, the first being `first`.
pub open spec fn alternating(count: nat, first: bool) -> Seq<bool> {
    Seq::new(count, |i: int| if i % 2 == 0 { first } else { !first })
}

/// One reading of one key position: the counter and the pressed state
/// that follow from `counter`, `pressed` and the reading `active`.
pub fn debounce(counter: i32, pressed: i32, active: bool, threshold: i32) -> (next: (i32, i32))
    ensures
        Cell::of(next.0 as int, next.1 as int) == debounced(
            Cell::of(counter as int, pressed as int),
            active,
            threshold as int,
        ),
{
    if active {
        if counter >= threshold {
            (0, 1)
        } else {
            (counter + 1, pressed)
        }
    } else {
        if counter as i64 + threshold as i64 <= 0 {
            (0, 0)
        } else {
            (counter - 1, pressed)
        }
    }
}

/// A reading keeps a cell within the band.
pub proof fn lemma_debounced_stays_in_band(cell: Cell, active: bool, threshold: int)
    requires
        threshold >= 0,
        cell_in_band(cell, threshold),
    ensures
        cell_in_band(debounced(cell, active, threshold), threshold),
{
}

/// A series of readings keeps a cell within the band.
pub proof fn lemma_run_stays_in_band(cell: Cell, reads: Seq<bool>, threshold: int)
    requires
        threshold >= 0,
        cell_in_band(cell, threshold),
    ensures
        cell_in_band(debounced_run(cell, reads, threshold), threshold),
    decreases reads.len(),
{
    if reads.len() > 0 {
        lemma_run_stays_in_band(cell, reads.drop_last(), threshold);
    }
}

/// Chatter is rejected: as long as the readings never carry the counter
/// out of the band, the pressed state stays as it was, however often the
/// contact changes.
pub proof fn lemma_chatter_is_rejected(cell: Cell, reads: Seq<bool>, threshold: int)
    requires
        forall|n: int|
            0 <= n <= reads.len() ==> -threshold <= cell.counter + #[trigger] drift(reads.take(n))
                <= threshold,
    ensures
        debounced_run(cell, reads, threshold) == (Cell {
            counter: cell.counter + drift(reads),
            pressed: cell.pressed,
        }),
    decreases reads.len(),
{
    if reads.len() > 0 {
        let front = reads.drop_last();
        assert forall|n: int| 0 <= n <= front.len() implies -threshold <= cell.counter
            + #[trigger] drift(front.take(n)) <= threshold by {
            assert(front.take(n) =~= reads.take(n));
        }
        lemma_chatter_is_rejected(cell, front, threshold);
        assert(reads.take(reads.len() as int) =~= reads);
    }
}

/// A contact that changes at every reading moves the counter by one at
/// most.
pub proof fn lemma_alternating_drift(count: nat, first: bool)
    ensures
        drift(alternating(count, first)) == (if count % 2 == 0 {
            0int
        } else if first {
            1int
        } else {
            -1int
        }),
    decreases count,
{
    if count > 0 {
        let reads = alternating(count, first);
        assert(reads.drop_last() =~= alternating((count - 1) as nat, first));
        lemma_alternating_drift((count - 1) as nat, first);
    }
}

/// A contact that changes at every reading never confirms anything, from
/// a counter at rest and with a threshold of one or more: the pressed
/// state is never touched.
pub proof fn lemma_alternation_never_commits(cell: Cell, count: nat, first: bool, threshold: int)
    requires
        threshold >= 1,
        cell.counter == 0,
    ensures
        debounced_run(cell, alternating(count, first), threshold).pressed == cell.pressed,
{
    let reads = alternating(count, first);
    assert forall|n: int| 0 <= n <= reads.len() implies -threshold <= cell.counter
        + #[trigger] drift(reads.take(n)) <= threshold by {
        assert(reads.take(n) =~= alternating(n as nat, first));
        lemma_alternating_drift(n as nat, first);
    }
    lemma_chatter_is_rejected(cell, reads, threshold);
}

/// Conducting readings that do not yet reach past the threshold only
/// raise the counter.
pub proof fn lemma_steady_press_counts(cell: Cell, count: nat, threshold: int)
    requires
        -threshold <= cell.counter,
        cell.counter + count <= threshold,
    ensures
        debounced_run(cell, steady(count, true), threshold) == (Cell {
            counter: cell.counter + count,
            pressed: cell.pressed,
        }),
    decreases count,
{
    if count > 0 {
        assert(steady(count, true).drop_last() =~= steady((count - 1) as nat, true));
        lemma_steady_press_counts(cell, (count - 1) as nat, threshold);
    }
}

/// Open readings that do not yet reach past the threshold only lower the
/// counter.
pub proof fn lemma_steady_release_counts(cell: Cell, count: nat, threshold: int)
    requires
        cell.counter <= threshold,
        -threshold <= cell.counter - count,
    ensures
        debounced_run(cell, steady(count, false), threshold) == (Cell {
            counter: cell.counter - count,
            pressed: cell.pressed,
        }),
    decreases count,
{
    if count > 0 {
        assert(steady(count, false).drop_last() =~= steady((count - 1) as nat, false));
        lemma_steady_release_counts(cell, (count - 1) as nat, threshold);
    }
}

/// A sustained press is confirmed at the reading that carries the counter
/// past the threshold, and at no earlier one: from a counter within the
/// band, that many conducting readings leave the cell pressed, with its
/// counter back at zero.
pub proof fn lemma_press_commits_past_threshold(cell: Cell, threshold: int)
    requires
        -threshold <= cell.counter <= threshold,
    ensures
        debounced_run(
            cell,
            steady((threshold - cell.counter) as nat, true),
            threshold,
        ) == Cell::of(threshold, cell.pressed),
        debounced_run(
            cell,
            steady((threshold + 1 - cell.counter) as nat, true),
            threshold,
        ) == Cell::of(0, 1),
{
    let count = (threshold - cell.counter) as nat;
    assert(steady(count + 1, true).drop_last() =~= steady(count, true));
    lemma_steady_press_counts(cell, count, threshold);
}

/// A sustained release is confirmed at the reading that carries the
/// counter past the threshold, and at no earlier one: from a counter
/// within the band, that many open readings leave the cell released, with
/// its counter back at zero.
pub proof fn lemma_release_commits_past_threshold(cell: Cell, threshold: int)
    requires
        -threshold <= cell.counter <= threshold,
    ensures
        debounced_run(
            cell,
            steady((threshold + cell.counter) as nat, false),
            threshold,
        ) == Cell::of(-threshold, cell.pressed),
        debounced_run(
            cell,
            steady((threshold + 1 + cell.counter) as nat, false),
            threshold,
        ) == Cell::of(0, 0),
{
    let count = (threshold + cell.counter) as nat;
    assert(steady(count + 1, false).drop_last() =~= steady(count, false));
    lemma_steady_release_counts(cell, count, threshold);
}

/// A sustained press is confirmed: from a counter at rest, one conducting
/// reading more than the threshold leaves the cell pressed, with its
/// counter back at zero.
pub proof fn lemma_sustained_press_commits(cell: Cell, threshold: int)
    requires
        threshold >= 0,
        cell.counter == 0,
    ensures
        debounced_run(cell, steady((threshold + 1) as nat, true), threshold) == Cell::of(0, 1),
{
    lemma_press_commits_past_threshold(cell, threshold);
}

/// A sustained release is confirmed: from a counter at rest, one open
/// reading more than the threshold leaves the cell released, with its
/// counter back at zero.
pub proof fn lemma_sustained_release_commits(cell: Cell, threshold: int)
    requires
        threshold >= 0,
        cell.counter == 0,
    ensures
        debounced_run(cell, steady((threshold + 1) as nat, false), threshold) == Cell::of(0, 0),
{
    lemma_release_commits_past_threshold(cell, threshold);
}

/// Wherever the counter stands within the band, a press that is held for
/// as many readings as lead from there past the threshold, or for more,
/// leaves the cell pressed.
pub proof fn lemma_held_press_commits(cell: Cell, count: nat, threshold: int)
    requires
        threshold >= 0,
        -threshold <= cell.counter <= threshold,
        cell.counter + count > threshold,
    ensures
        debounced_run(cell, steady(count, true), threshold).pressed == 1,
    decreases count,
{
    let reads = steady(count, true);
    let front = steady((count - 1) as nat, true);
    assert(reads.drop_last() =~= front);
    if cell.counter + count - 1 > threshold {
        lemma_held_press_commits(cell, (count - 1) as nat, threshold);
    } else {
        lemma_steady_press_counts(cell, (count - 1) as nat, threshold);
    }
}

/// Wherever the counter stands within the band, a release that is held
/// for as many readings as lead from there past the threshold, or for
/// more, leaves the cell released.
pub proof fn lemma_held_release_commits(cell: Cell, count: nat, threshold: int)
    requires
        threshold >= 0,
        -threshold <= cell.counter <= threshold,
        cell.counter - count < -threshold,
    ensures
        debounced_run(cell, steady(count, false), threshold).pressed == 0,
    decreases count,
{
    let reads = steady(count, false);
    let front = steady((count - 1) as nat, false);
    assert(reads.drop_last() =~= front);
    if cell.counter - (count - 1) < -threshold {
        lemma_held_release_commits(cell, (count - 1) as nat, threshold);
    } else {
        lemma_steady_release_counts(cell, (count - 1) as nat, threshold);
    }
}

/// The matrix as the contracts see it: its cells, one row after the other,
/// and the threshold they are debounced with.
pub struct MatrixView {
    pub cells: Seq<Seq<Cell>>,
    pub threshold: int,
}

impl MatrixView {
    /// The matrix has its full size, the threshold is not negative and
    /// every cell lies within the band.
    pub open spec fn wf(self) -> bool {
        &&& self.threshold >= 0
        &&& self.cells.len() == ROWS
        &&& forall|r: int| 0 <= r < ROWS ==> (#[trigger] self.cells[r]).len() == COLS
        &&& forall|r: int, c: int|
            0 <= r < ROWS && 0 <= c < COLS ==> cell_in_band(
                #[trigger] self.cells[r][c],
                self.threshold,
            )
    }

    /// The matrix with every key released and every counter at rest.
    pub open spec fn released(threshold: int) -> MatrixView {
        MatrixView {
            cells: Seq::new(
                ROWS as nat,
                |r: int| Seq::new(COLS as nat, |c: int| Cell { counter: 0, pressed: 0 }),
            ),
            threshold,
        }
    }

    /// The matrix after one scan pass: every cell has taken its reading.
    pub open spec fn scanned(self, readings: Readings) -> MatrixView {
        MatrixView {
            cells: Seq::new(
                ROWS as nat,
                |r: int|
                    Seq::new(
                        COLS as nat,
                        |c: int| debounced(self.cells[r][c], readings[r][c], self.threshold),
                    ),
            ),
            threshold: self.threshold,
        }
    }

    /// The matrix after a series of scan passes, the first of them first.
    pub open spec fn scanned_all(self, passes: Seq<Readings>) -> MatrixView
        decreases passes.len(),
    {
        if passes.len() == 0 {
            self
        } else {
            self.scanned_all(passes.drop_last()).scanned(passes.last())
        }
    }

    /// Whether the key at `row`, `col` counts as pressed.
    pub open spec fn is_pressed(self, row: int, col: int) -> bool {
        self.cells[row][col].pressed == 1
    }

    /// Whether any key counts as pressed.
    pub open spec fn any_pressed(self) -> bool {
        exists|r: int, c: int| 0 <= r < ROWS && 0 <= c < COLS && #[trigger] self.is_pressed(r, c)
    }
}

/// What a series of scan passes reads at one key position.
pub open spec fn readings_at(passes: Seq<Readings>, row: int, col: int) -> Seq<bool> {
    Seq::new(passes.len(), |i: int| passes[i][row][col])
}

/// Every key is debounced for itself: what a series of scan passes makes
/// of a cell depends on the readings at its own position only.
pub proof fn lemma_cells_live_apart(matrix: MatrixView, passes: Seq<Readings>, row: int, col: int)
    requires
        0 <= row < ROWS,
        0 <= col < COLS,
        matrix.cells.len() == ROWS,
        matrix.cells[row].len() == COLS,
    ensures
        matrix.scanned_all(passes).threshold == matrix.threshold,
        matrix.scanned_all(passes).cells.len() == ROWS,
        matrix.scanned_all(passes).cells[row].len() == COLS,
        matrix.scanned_all(passes).cells[row][col] == debounced_run(
            matrix.cells[row][col],
            readings_at(passes, row, col),
            matrix.threshold,
        ),
    decreases passes.len(),
{
    if passes.len() > 0 {
        lemma_cells_live_apart(matrix, passes.drop_last(), row, col);
        assert(readings_at(passes, row, col).drop_last() =~= readings_at(
            passes.drop_last(),
            row,
            col,
        ));
    }
}

/// Chatter is rejected all over the matrix: a key whose readings never
/// carry its counter out of the band keeps its pressed state through any
/// number of scan passes, whatever the other keys do.
pub proof fn lemma_matrix_rejects_chatter(
    matrix: MatrixView,
    passes: Seq<Readings>,
    row: int,
    col: int,
)
    requires
        0 <= row < ROWS,
        0 <= col < COLS,
        matrix.cells.len() == ROWS,
        matrix.cells[row].len() == COLS,
        forall|n: int|
            0 <= n <= passes.len() ==> -matrix.threshold <= matrix.cells[row][col].counter
                + #[trigger] drift(readings_at(passes, row, col).take(n)) <= matrix.threshold,
    ensures
        matrix.scanned_all(passes).cells[row][col].pressed == matrix.cells[row][col].pressed,
{
    lemma_cells_live_apart(matrix, passes, row, col);
    lemma_chatter_is_rejected(
        matrix.cells[row][col],
        readings_at(passes, row, col),
        matrix.threshold,
    );
}

/// A sustained press is confirmed all over the matrix: a key whose
/// counter is at rest and whose switch conducts through one scan pass
/// more than the threshold is pressed after the last of them, with its
/// counter back at zero.
pub proof fn lemma_matrix_commits_sustained_press(
    matrix: MatrixView,
    passes: Seq<Readings>,
    row: int,
    col: int,
)
    requires
        0 <= row < ROWS,
        0 <= col < COLS,
        matrix.cells.len() == ROWS,
        matrix.cells[row].len() == COLS,
        matrix.threshold >= 0,
        matrix.cells[row][col].counter == 0,
        passes.len() == matrix.threshold + 1,
        forall|i: int| 0 <= i < passes.len() ==> (#[trigger] passes[i])[row][col],
    ensures
        matrix.scanned_all(passes).cells[row][col] == Cell::of(0, 1),
        matrix.scanned_all(passes).is_pressed(row, col),
{
    lemma_cells_live_apart(matrix, passes, row, col);
    assert(readings_at(passes, row, col) =~= steady((matrix.threshold + 1) as nat, true));
    lemma_sustained_press_commits(matrix.cells[row][col], matrix.threshold);
}

/// The switch matrix: the pressed state of every key position and the
/// debounce counter beside it.
#[derive(Clone, Copy, Debug)]
pub struct KeyMatrix {
    /// 1 where a key counts as pressed, 0 where it counts as released.
    pub pressed: Grid,
    /// The debounce counter of every key position.
    pub debounce: Grid,
    /// Readings beyond which a press or a release is confirmed.
    pub threshold: i32,
}

impl View for KeyMatrix {
    type V = MatrixView;

    open spec fn view(&self) -> MatrixView {
        MatrixView {
            cells: Seq::new(
                ROWS as nat,
                |r: int| Seq::new(COLS as nat, |c: int| self.cell(r, c)),
            ),
            threshold: self.threshold as int,
        }
    }
}

impl KeyMatrix {
    /// The cell at `row`, `col`.
    pub open spec fn cell(&self, row: int, col: int) -> Cell {
        Cell { counter: self.debounce[row][col] as int, pressed: self.pressed[row][col] as int }
    }

    /// A matrix with every key released and every counter at rest.
    pub fn new(threshold: i32) -> (matrix: KeyMatrix)
        ensures
            matrix@ == MatrixView::released(threshold as int),
            threshold >= 0 ==> matrix@.wf(),
    {
        let matrix = KeyMatrix {
            pressed: [[0i32; COLS]; ROWS],
            debounce: [[0i32; COLS]; ROWS],
            threshold,
        };
        assert(matrix@.cells =~~= MatrixView::released(threshold as int).cells);
        matrix
    }

    /// Whether the key at `row`, `col` counts as pressed.
    pub fn is_pressed(&self, row: usize, col: usize) -> (pressed: bool)
        requires
            row < ROWS,
            col < COLS,
        ensures
            pressed == self@.is_pressed(row as int, col as int),
    {
        self.pressed[row][col] == 1
    }

    /// Whether any key counts as pressed.
    pub fn any_pressed(&self) -> (any: bool)
        ensures
            any == self@.any_pressed(),
    {
        for r in 0..ROWS
            invariant
                forall|i: int, c: int|
                    0 <= i < r && 0 <= c < COLS ==> !#[trigger] self@.is_pressed(i, c),
        {
            for c in 0..COLS
                invariant
                    r < ROWS,
                    forall|i: int, j: int|
                        0 <= i < r && 0 <= j < COLS ==> !#[trigger] self@.is_pressed(i, j),
                    forall|j: int| 0 <= j < c ==> !#[trigger] self@.is_pressed(r as int, j),
            {
                if self.pressed[r][c] == 1 {
                    assert(self@.is_pressed(r as int, c as int));
                    return true;
                }
            }
        }
        false
    }

    /// Gives the key at `row`, `col` one reading. No other key changes.
    pub fn debounce_cell(&mut self, row: usize, col: usize, active: bool)
        requires
            row < ROWS,
            col < COLS,
        ensures
            final(self).threshold == old(self).threshold,
            final(self).cell(row as int, col as int) == debounced(
                old(self).cell(row as int, col as int),
                active,
                old(self).threshold as int,
            ),
            forall|r: int, c: int|
                0 <= r < ROWS && 0 <= c < COLS && (r != row || c != col) ==> final(self).cell(r, c)
                    == old(self).cell(r, c),
    {
        let counter = self.debounce[row][col];
        let pressed = self.pressed[row][col];
        let next = debounce(counter, pressed, active, self.threshold);
        self.debounce[row][col] = next.0;
        self.pressed[row][col] = next.1;
    }

    /// Gives every key of the column `col` its reading: `rows[r]` says
    /// whether the switch in row `r` conducts while the column is
    /// driven. No other column changes.
    pub fn scan_column(&mut self, col: usize, rows: &[bool; ROWS])
        requires
            col < COLS,
        ensures
            final(self).threshold == old(self).threshold,
            forall|r: int|
                0 <= r < ROWS ==> #[trigger] final(self).cell(r, col as int) == debounced(
                    old(self).cell(r, col as int),
                    rows[r],
                    old(self).threshold as int,
                ),
            forall|r: int, c: int|
                0 <= r < ROWS && 0 <= c < COLS && c != col ==> #[trigger] final(self).cell(r, c)
                    == old(self).cell(r, c),
    {
        for row in 0..ROWS
            invariant
                col < COLS,
                self.threshold == old(self).threshold,
                forall|r: int|
                    0 <= r < row ==> #[trigger] self.cell(r, col as int) == debounced(
                        old(self).cell(r, col as int),
                        rows[r],
                        old(self).threshold as int,
                    ),
                forall|r: int|
                    row <= r < ROWS ==> #[trigger] self.cell(r, col as int) == old(self).cell(
                        r,
                        col as int,
                    ),
                forall|r: int, c: int|
                    0 <= r < ROWS && 0 <= c < COLS && c != col ==> #[trigger] self.cell(r, c)
                        == old(self).cell(r, c),
        {
            self.debounce_cell(row, col, rows[row]);
        }
    }

    /// One scan pass: every key takes its reading, column by column.
    pub fn scan_pass(&mut self, readings: &Readings)
        ensures
            final(self)@ == old(self)@.scanned(*readings),
            old(self)@.wf() ==> final(self)@.wf(),
    {
        for col in 0..COLS
            invariant
                self.threshold == old(self).threshold,
                forall|r: int, c: int|
                    0 <= r < ROWS && 0 <= c < col ==> #[trigger] self.cell(r, c) == debounced(
                        old(self).cell(r, c),
                        readings[r][c],
                        old(self).threshold as int,
                    ),
                forall|r: int, c: int|
                    0 <= r < ROWS && col <= c < COLS ==> #[trigger] self.cell(r, c) == old(
                        self,
                    ).cell(r, c),
        {
            let rows = [
                readings[0][col],
                readings[1][col],
                readings[2][col],
                readings[3][col],
                readings[4][col],
            ];
            self.scan_column(col, &rows);
        }
        assert(self@.cells =~~= old(self)@.scanned(*readings).cells);
    }
}

} // verus!

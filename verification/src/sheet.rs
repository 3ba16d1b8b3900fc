use vstd::prelude::*;
use crate::direction::FacingDirection;

verus! {

/// A sprite sheet cut into a grid of equal cells. Cells are numbered row by
/// row from the top left, starting at zero.
#[derive(Clone, Copy, Debug, PartialEq, Eq, Structural)]
pub struct SheetGrid {
    pub columns: usize,
    pub rows: usize,
}

impl SheetGrid {
    /// Whether the cells of `row` from column `first` to column `last`,
    /// both included, lie on the sheet and have numbers that fit `usize`.
    pub open spec fn covers(self, row: nat, first: nat, last: nat) -> bool {
        &&& row < self.rows
        &&& first <= last < self.columns
        &&& row * self.columns + last <= usize::MAX
    }

    /// The numbers of the cells of `row` from column `first` to column
    /// `last`, both included, left to right.
    pub open spec fn cells(self, row: nat, first: nat, last: nat) -> Seq<usize> {
        Seq::new((last - first + 1) as nat, |i: int| (row * self.columns + first + i) as usize)
    }

    pub fn new(columns: usize, rows: usize) -> (sheet: Self)
        ensures
            sheet.columns == columns,
            sheet.rows == rows,
    {
        SheetGrid { columns, rows }
    }

    /// The numbers of the cells of `row` from column `first` to column
    /// `last`, both included, or `None` when they do not all lie on the
    /// sheet.
    pub fn row_partial(&self, row: usize, first: usize, last: usize) -> (found: Option<Vec<usize>>)
        ensures
            found.is_some() <==> self.covers(row as nat, first as nat, last as nat),
            found matches Some(v) ==> v@ == self.cells(row as nat, first as nat, last as nat),
    {
        if row >= self.rows || first > last || last >= self.columns {
            return None;
        }
        let base: usize = match row.checked_mul(self.columns) {
            Some(b) => b,
            None => {
                return None;
            },
        };
        if base > usize::MAX - last {
            return None;
        }
        let mut v: Vec<usize> = Vec::new();
        let mut column: usize = first;
        while column <= last
            invariant
                first <= column <= last + 1,
                last < self.columns,
                base == row * self.columns,
                base + last <= usize::MAX,
                v@ == self.cells(row as nat, first as nat, last as nat).take(column - first),
            decreases last + 1 - column,
        {
            v.push(base + column);
            column = column + 1;
        }
        assert(self.cells(row as nat, first as nat, last as nat).take(column - first)
            == self.cells(row as nat, first as nat, last as nat));
        Some(v)
    }
}

/// Number of columns of the character sheet.
pub const SHEET_COLUMNS: usize = 3;

/// Number of rows of the character sheet.
pub const SHEET_ROWS: usize = 4;

/// Number of cells of the character sheet.
pub const SHEET_CELLS: usize = 12;

/// Row of the sprite sheet that holds the frames of `facing`: from the top,
/// the rows face the front, upward, the left and the right.
pub open spec fn sheet_row(facing: FacingDirection) -> nat {
    match facing {
        FacingDirection::Down => 0,
        FacingDirection::Up => 1,
        FacingDirection::Left => 2,
        FacingDirection::Right => 3,
    }
}

/// The frames of the player's four cycles, as cell numbers on the character
/// sheet.
#[derive(Clone, Copy, Debug)]
pub struct CharacterSheet {
    pub player_up: [usize; 3],
    pub player_down: [usize; 3],
    pub player_left: [usize; 3],
    pub player_right: [usize; 3],
}

/// The facing of the player's sprite.
#[derive(Clone, Copy, Debug, PartialEq, Eq, Structural)]
pub struct PlayerGraphics {
    pub facing: FacingDirection,
}

impl CharacterSheet {
    /// The three frames of the cycle that begins at cell `first`.
    pub open spec fn cycle(first: nat) -> Seq<usize> {
        seq![first as usize, (first + 1) as usize, (first + 2) as usize]
    }

    /// The cycle toward `facing` on the character sheet: the whole row of
    /// that facing, left to right.
    pub open spec fn row_cycle(facing: FacingDirection) -> Seq<usize> {
        Self::cycle(sheet_row(facing) * (SHEET_COLUMNS as nat))
    }

    /// Whether `cell` is a frame of the row cycle of some facing.
    pub open spec fn in_a_row_cycle(cell: int) -> bool {
        exists|facing: FacingDirection, i: int|
            0 <= i < 3 && #[trigger] Self::row_cycle(facing)[i] == cell
    }

    /// The frames of the cycle toward `facing`.
    pub open spec fn frames_of(self, facing: FacingDirection) -> Seq<usize> {
        match facing {
            FacingDirection::Up => self.player_up@,
            FacingDirection::Down => self.player_down@,
            FacingDirection::Left => self.player_left@,
            FacingDirection::Right => self.player_right@,
        }
    }

    /// Every frame of every cycle is a cell of the character sheet.
    pub open spec fn lies_on_sheet(self) -> bool {
        forall|facing: FacingDirection, i: int|
            0 <= i < 3 ==> #[trigger] self.frames_of(facing)[i] < SHEET_CELLS
    }

    /// No cell belongs to the cycles of two facings.
    pub open spec fn cycles_disjoint(self) -> bool {
        forall|f: FacingDirection, g: FacingDirection, i: int, j: int|
            f != g && 0 <= i < 3 && 0 <= j < 3 ==> #[trigger] self.frames_of(f)[i]
                != #[trigger] self.frames_of(g)[j]
    }

    /// The player's cycles on the character sheet of three columns and four
    /// rows: each facing cycles through the three cells of its own row, so
    /// the front takes cells 0 to 2, upward 3 to 5, the left 6 to 8 and the
    /// right 9 to 11.
    pub fn new() -> (sheet: Self)
        ensures
            sheet.player_down@ == seq![0usize, 1, 2],
            sheet.player_up@ == seq![3usize, 4, 5],
            sheet.player_left@ == seq![6usize, 7, 8],
            sheet.player_right@ == seq![9usize, 10, 11],
            forall|facing: FacingDirection| #[trigger]
                sheet.frames_of(facing) == Self::row_cycle(facing),
            sheet.lies_on_sheet(),
            sheet.cycles_disjoint(),
    {
        let columns: usize = SHEET_COLUMNS;
        let sheet = CharacterSheet {
            player_down: [0, 1, 2],
            player_up: [columns, columns + 1, columns + 2],
            player_left: [columns * 2, columns * 2 + 1, columns * 2 + 2],
            player_right: [columns * 3, columns * 3 + 1, columns * 3 + 2],
        };
        assert(sheet.player_down@ =~= seq![0usize, 1, 2]);
        assert(sheet.player_up@ =~= seq![3usize, 4, 5]);
        assert(sheet.player_left@ =~= seq![6usize, 7, 8]);
        assert(sheet.player_right@ =~= seq![9usize, 10, 11]);
        assert(sheet.player_down@ =~= Self::row_cycle(FacingDirection::Down));
        assert(sheet.player_up@ =~= Self::row_cycle(FacingDirection::Up));
        assert(sheet.player_left@ =~= Self::row_cycle(FacingDirection::Left));
        assert(sheet.player_right@ =~= Self::row_cycle(FacingDirection::Right));
        proof {
            Self::lemma_row_cycles_partition_sheet();
            assert forall|facing: FacingDirection| #[trigger]
                sheet.frames_of(facing) == Self::row_cycle(facing) by {
                match facing {
                    FacingDirection::Down => {},
                    FacingDirection::Up => {},
                    FacingDirection::Left => {},
                    FacingDirection::Right => {},
                }
            }
            assert forall|facing: FacingDirection, i: int| 0 <= i < 3 implies #[trigger] sheet.frames_of(
                facing,
            )[i] < SHEET_CELLS by {
                assert(sheet.frames_of(facing)[i] == Self::row_cycle(facing)[i]);
            }
            assert forall|f: FacingDirection, g: FacingDirection, i: int, j: int|
                f != g && 0 <= i < 3 && 0 <= j < 3 implies #[trigger] sheet.frames_of(f)[i]
                != #[trigger] sheet.frames_of(g)[j] by {
                assert(sheet.frames_of(f)[i] == Self::row_cycle(f)[i]);
                assert(sheet.frames_of(g)[j] == Self::row_cycle(g)[j]);
            }
        }
        sheet
    }

    /// The four row cycles lie on the character sheet, share no cell, and
    /// together take every cell of it.
    pub proof fn lemma_row_cycles_partition_sheet()
        ensures
            SHEET_CELLS == SHEET_COLUMNS * SHEET_ROWS,
            forall|facing: FacingDirection, i: int|
                0 <= i < 3 ==> #[trigger] Self::row_cycle(facing)[i] == sheet_row(facing)
                    * SHEET_COLUMNS + i,
            forall|facing: FacingDirection, i: int|
                0 <= i < 3 ==> #[trigger] Self::row_cycle(facing)[i] < SHEET_CELLS,
            forall|f: FacingDirection, g: FacingDirection, i: int, j: int|
                f != g && 0 <= i < 3 && 0 <= j < 3 ==> #[trigger] Self::row_cycle(f)[i]
                    != #[trigger] Self::row_cycle(g)[j],
            forall|cell: int| 0 <= cell < SHEET_CELLS ==> #[trigger] Self::in_a_row_cycle(cell),
    {
        assert forall|facing: FacingDirection, i: int| 0 <= i < 3 implies #[trigger] Self::row_cycle(
            facing,
        )[i] == sheet_row(facing) * SHEET_COLUMNS + i && Self::row_cycle(facing)[i]
            < SHEET_CELLS by {
            let first = sheet_row(facing) * (SHEET_COLUMNS as nat);
            assert(first == 0 || first == 3 || first == 6 || first == 9);
            assert(Self::row_cycle(facing) == Self::cycle(first));
            assert(i == 0 || i == 1 || i == 2);
        }
        assert forall|f: FacingDirection, g: FacingDirection, i: int, j: int|
            f != g && 0 <= i < 3 && 0 <= j < 3 implies #[trigger] Self::row_cycle(f)[i]
            != #[trigger] Self::row_cycle(g)[j] by {
            assert(Self::row_cycle(f)[i] == sheet_row(f) * SHEET_COLUMNS + i);
            assert(Self::row_cycle(g)[j] == sheet_row(g) * SHEET_COLUMNS + j);
            assert(sheet_row(f) != sheet_row(g));
        }
        assert forall|cell: int| 0 <= cell < SHEET_CELLS implies #[trigger] Self::in_a_row_cycle(
            cell,
        ) by {
            let facing = if cell < 3 {
                FacingDirection::Down
            } else if cell < 6 {
                FacingDirection::Up
            } else if cell < 9 {
                FacingDirection::Left
            } else {
                FacingDirection::Right
            };
            let i = cell - sheet_row(facing) * SHEET_COLUMNS;
            assert(0 <= i < 3 && Self::row_cycle(facing)[i] == cell);
        }
    }

    /// The frames of the cycle toward `facing`.
    pub fn frames(&self, facing: FacingDirection) -> (frames: Vec<usize>)
        ensures
            frames@ == self.frames_of(facing),
            frames@.len() == 3,
    {
        let cycle: &[usize; 3] = match facing {
            FacingDirection::Up => &self.player_up,
            FacingDirection::Down => &self.player_down,
            FacingDirection::Left => &self.player_left,
            FacingDirection::Right => &self.player_right,
        };
        let mut frames: Vec<usize> = Vec::new();
        frames.push(cycle[0]);
        frames.push(cycle[1]);
        frames.push(cycle[2]);
        assert(frames@ =~= cycle@);
        frames
    }
}

} // verus!

use vstd::prelude::*;
use crate::clip::{ClipId, ClipKind, CLIP_COUNT};
use crate::direction::FacingDirection;
use crate::sheet::{sheet_row, CharacterSheet, SheetGrid, SHEET_COLUMNS, SHEET_ROWS};

verus! {

/// One animation clip: its frames, as cell numbers on the sprite sheet in
/// playing order, and whether it starts over after the last frame.
#[derive(Clone, Debug)]
pub struct ClipDefinition {
    pub frames: Vec<usize>,
    pub looping: bool,
}

/// Mathematical model of [`ClipDefinition`].
pub struct ClipModel {
    pub frames: Seq<usize>,
    pub looping: bool,
}

impl View for ClipDefinition {
    type V = ClipModel;

    open spec fn view(&self) -> ClipModel {
        ClipModel { frames: self.frames@, looping: self.looping }
    }
}

/// Why a catalog could not be built.
#[derive(Clone, Copy, Debug, PartialEq, Eq, Structural)]
pub enum CatalogError {
    /// The sprite sheet does not hold the cells of this clip.
    MissingClip(ClipId),
}

/// First column of the frames of a clip of `kind`.
pub open spec fn first_column(kind: ClipKind) -> nat {
    match kind {
        ClipKind::Idle => 0,
        ClipKind::Walk => 1,
    }
}

/// Last column of the frames of a clip of `kind`.
pub open spec fn last_column(kind: ClipKind) -> nat {
    match kind {
        ClipKind::Idle => 0,
        ClipKind::Walk => 2,
    }
}

/// Whether `sheet` holds the cells of clip `id`.
pub open spec fn sheet_holds(sheet: SheetGrid, id: ClipId) -> bool {
    sheet.covers(sheet_row(id.facing), first_column(id.kind), last_column(id.kind))
}

/// The clip `id` as `sheet` lays it out: an idle clip is the single cell in
/// the first column of the row of its facing and does not loop; a walk clip
/// is the two cells after it and loops.
pub open spec fn clip_on_sheet(sheet: SheetGrid, id: ClipId) -> ClipModel {
    ClipModel {
        frames: sheet.cells(sheet_row(id.facing), first_column(id.kind), last_column(id.kind)),
        looping: id.kind == ClipKind::Walk,
    }
}

/// Whether `sheet` holds the cells of all eight clips.
pub open spec fn sheet_holds_all(sheet: SheetGrid) -> bool {
    forall|id: ClipId| #[trigger] sheet_holds(sheet, id)
}

/// The eight clips as `sheet` lays them out, in catalog order.
pub open spec fn sheet_layout(sheet: SheetGrid) -> Seq<ClipModel> {
    Seq::new(CLIP_COUNT as nat, |slot: int| clip_on_sheet(sheet, ClipId::at_slot(slot as nat)))
}

/// A sheet holds all eight clips exactly when it has four rows and three
/// columns at least, and the number of the last cell of its fourth row
/// fits `usize`.
pub proof fn lemma_sheet_holds_all(sheet: SheetGrid)
    ensures
        sheet_holds_all(sheet) <==> sheet.rows >= 4 && sheet.columns >= 3 && 3 * sheet.columns + 2
            <= usize::MAX,
{
    if sheet_holds_all(sheet) {
        assert(sheet_holds(sheet, ClipId::walk_of(FacingDirection::Right)));
    }
    if sheet.rows >= 4 && sheet.columns >= 3 && 3 * sheet.columns + 2 <= usize::MAX {
        assert forall|id: ClipId| #[trigger] sheet_holds(sheet, id) by {
            let row = sheet_row(id.facing);
            assert(row * sheet.columns <= 3 * sheet.columns) by (nonlinear_arith)
                requires
                    0 <= row <= 3,
                    sheet.columns >= 0,
            ;
        }
    }
}

/// The layout of a sheet that holds all eight clips is a well-formed
/// catalog.
pub proof fn lemma_layout_is_complete(sheet: SheetGrid)
    requires
        sheet_holds_all(sheet),
    ensures
        catalog_wf(sheet_layout(sheet)),
{
    assert forall|slot: int| 0 <= slot < CLIP_COUNT implies clip_wf(
        #[trigger] sheet_layout(sheet)[slot],
        ClipId::at_slot(slot as nat).kind,
    ) by {
        assert(sheet_holds(sheet, ClipId::at_slot(slot as nat)));
    }
}

/// On the character sheet the cycle of a facing is its idle frame followed
/// by its two walk frames: catalog and cycles name the same cells.
pub proof fn lemma_row_cycle_is_idle_then_walk(facing: FacingDirection)
    ensures
        ({
            let sheet = SheetGrid { columns: SHEET_COLUMNS, rows: SHEET_ROWS };
            &&& sheet_holds_all(sheet)
            &&& clip_on_sheet(sheet, ClipId::idle_of(facing)).frames + clip_on_sheet(
                sheet,
                ClipId::walk_of(facing),
            ).frames == CharacterSheet::row_cycle(facing)
        }),
{
    let sheet = SheetGrid { columns: SHEET_COLUMNS, rows: SHEET_ROWS };
    lemma_sheet_holds_all(sheet);
    let idle = clip_on_sheet(sheet, ClipId::idle_of(facing)).frames;
    let walk = clip_on_sheet(sheet, ClipId::walk_of(facing)).frames;
    let row = sheet_row(facing);
    assert(row == 0 || row == 1 || row == 2 || row == 3);
    assert(idle.len() == 1 && idle[0] == row * 3);
    assert(walk.len() == 2 && walk[0] == row * 3 + 1 && walk[1] == row * 3 + 2);
    assert(idle + walk =~= CharacterSheet::row_cycle(facing));
}

/// A clip has a frame; an idle clip is a single frame that does not loop; a
/// walk clip loops.
pub open spec fn clip_wf(clip: ClipModel, kind: ClipKind) -> bool {
    &&& clip.frames.len() >= 1
    &&& match kind {
        ClipKind::Idle => clip.frames.len() == 1 && !clip.looping,
        ClipKind::Walk => clip.looping,
    }
}

/// Every facing has exactly one idle and one walk clip, each as its kind
/// asks.
pub open spec fn catalog_wf(clips: Seq<ClipModel>) -> bool {
    &&& clips.len() == CLIP_COUNT
    &&& forall|slot: int|
        0 <= slot < CLIP_COUNT ==> clip_wf(#[trigger] clips[slot], ClipId::at_slot(slot as nat).kind)
}

/// Whether the clip at `slot` of `clips` is the one that `sheet` lays out
/// there.
spec fn slot_built(sheet: SheetGrid, clips: Seq<ClipDefinition>, slot: int) -> bool {
    &&& sheet_holds(sheet, ClipId::at_slot(slot as nat))
    &&& clips[slot]@ == clip_on_sheet(sheet, ClipId::at_slot(slot as nat))
}

/// The fixed mapping from the eight clips to their definitions. It is built
/// once and never changes.
#[derive(Clone, Debug)]
pub struct AnimationClipCatalog {
    clips: Vec<ClipDefinition>,
}

impl View for AnimationClipCatalog {
    type V = Seq<ClipModel>;

    closed spec fn view(&self) -> Seq<ClipModel> {
        Seq::new(self.clips@.len(), |i: int| self.clips@[i]@)
    }
}

impl AnimationClipCatalog {
    /// The catalog's invariant: it is complete, and each clip is as its
    /// kind asks.
    pub open spec fn wf(&self) -> bool {
        catalog_wf(self@)
    }

    /// The definition of clip `id`.
    pub open spec fn model_of(&self, id: ClipId) -> ClipModel {
        self@[id.slot() as int]
    }

    /// Builds the catalog from a sprite sheet whose rows hold, from the
    /// top, the frames toward the front, upward, the left and the right,
    /// with the idle frame in the first column and the two walk frames
    /// after it.
    ///
    /// Fails with the first clip, in catalog order, whose cells the sheet
    /// does not hold.
    pub fn from_sheet(sheet: &SheetGrid) -> (built: Result<Self, CatalogError>)
        ensures
            built.is_ok() <==> sheet_holds_all(*sheet),
            match built {
                Ok(catalog) => {
                    &&& catalog.wf()
                    &&& sheet_holds_all(*sheet)
                    &&& catalog@ == sheet_layout(*sheet)
                },
                Err(CatalogError::MissingClip(id)) => {
                    &&& !sheet_holds(*sheet, id)
                    &&& forall|other: ClipId|
                        other.slot() < id.slot() ==> #[trigger] sheet_holds(*sheet, other)
                },
            },
    {
        let mut clips: Vec<ClipDefinition> = Vec::new();
        let mut slot: usize = 0;
        while slot < CLIP_COUNT
            invariant
                slot <= CLIP_COUNT,
                clips@.len() == slot,
                forall|s: int| 0 <= s < slot ==> #[trigger] slot_built(*sheet, clips@, s),
            decreases CLIP_COUNT - slot,
        {
            let id = ClipId::from_index(slot).unwrap();
            let row: usize = match id.facing {
                FacingDirection::Down => 0,
                FacingDirection::Up => 1,
                FacingDirection::Left => 2,
                FacingDirection::Right => 3,
            };
            let (first, last, looping): (usize, usize, bool) = match id.kind {
                ClipKind::Idle => (0, 0, false),
                ClipKind::Walk => (1, 2, true),
            };
            assert(id == ClipId::at_slot(slot as nat));
            assert(row == sheet_row(id.facing) && first == first_column(id.kind) && last
                == last_column(id.kind));
            match sheet.row_partial(row, first, last) {
                Some(frames) => {
                    let ghost earlier = clips@;
                    clips.push(ClipDefinition { frames, looping });
                    assert forall|s: int| 0 <= s < slot + 1 implies #[trigger] slot_built(
                        *sheet,
                        clips@,
                        s,
                    ) by {
                        if s < slot {
                            assert(slot_built(*sheet, earlier, s));
                        }
                    }
                },
                None => {
                    proof {
                        assert forall|other: ClipId| other.slot() < id.slot() implies #[trigger] sheet_holds(
                            *sheet,
                            other,
                        ) by {
                            other.lemma_slot_identifies();
                            assert(slot_built(*sheet, clips@, other.slot() as int));
                        }
                    }
                    assert(!sheet_holds(*sheet, id));
                    return Err(CatalogError::MissingClip(id));
                },
            }
            slot = slot + 1;
        }
        let ghost built_clips = clips@;
        let catalog = AnimationClipCatalog { clips };
        proof {
            assert forall|id: ClipId| #[trigger] sheet_holds(*sheet, id) by {
                id.lemma_slot_identifies();
                assert(slot_built(*sheet, built_clips, id.slot() as int));
            }
            assert forall|s: int| 0 <= s < CLIP_COUNT implies catalog@[s] == sheet_layout(
                *sheet,
            )[s] by {
                assert(slot_built(*sheet, built_clips, s));
            }
            assert(catalog@ =~= sheet_layout(*sheet));
            assert forall|s: int| 0 <= s < CLIP_COUNT implies clip_wf(
                #[trigger] catalog@[s],
                ClipId::at_slot(s as nat).kind,
            ) by {
                assert(slot_built(*sheet, built_clips, s));
            }
        }
        Ok(catalog)
    }

    /// The definition of clip `id`.
    pub fn clip(&self, id: ClipId) -> (clip: &ClipDefinition)
        requires
            self.wf(),
        ensures
            clip@ == self.model_of(id),
            clip.frames@.len() >= 1,
    {
        proof {
            id.lemma_slot_identifies();
            assert(clip_wf(self@[id.slot() as int], id.kind));
        }
        &self.clips[id.index()]
    }

    /// The frames of clip `id`, as cell numbers in playing order.
    pub fn frames(&self, id: ClipId) -> (frames: &Vec<usize>)
        requires
            self.wf(),
        ensures
            frames@ == self.model_of(id).frames,
            frames@.len() >= 1,
    {
        &self.clip(id).frames
    }

    /// Whether clip `id` starts over after its last frame.
    pub fn is_looping(&self, id: ClipId) -> (looping: bool)
        requires
            self.wf(),
        ensures
            looping == self.model_of(id).looping,
            looping == (id.kind == ClipKind::Walk),
    {
        proof {
            id.lemma_slot_identifies();
            assert(clip_wf(self@[id.slot() as int], id.kind));
        }
        self.clip(id).looping
    }
}

} // verus!

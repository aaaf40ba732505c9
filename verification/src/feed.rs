//! Feed grid: what it lists and draws, what a press on a cell means, zoom, and the actions on the
//! selection.

use vstd::prelude::*;

use crate::export::Exportable;
use crate::menu::{ids_of, item_ids, sets_favorite, should_set_favorite, MenuInfo};
use crate::model::{
    AlbumId, Asset, AssetId, Entry, EntryId, FeedFilter, Generation, GenerationId, Library, MediaFilter, MediaType, Status,
    ThumbnailShape, copy_text,
};
use crate::seqs::{
    copied, first_from, first_place, first_where, is_among, keeping_leaves_out_only_what_does_not_fit, kept, lemma_picked_ends, lemma_picked_from,
    lemma_picked_has, lemma_picked_step, picked, picking_goes_entry_by_entry, picks, place_from, place_of, sifts,
};
use crate::text::{cat, cat3, count_text, dec, join, joined, opt_text, texts};

verus! {

// ----- events and answers ---------------------------------------------------------------------

/// What the composer is asked to load: the request of a generation.
#[derive(Clone, Copy, Debug, PartialEq, Eq, Structural)]
pub struct PendingCompose {
    pub recreate: Option<GenerationId>,
}

/// What the feed tells its owner. `B` is the box of a cell in window coordinates.
#[derive(Clone, Debug, PartialEq, Eq)]
pub enum FeedEvent<B> {
    /// Open the detail on `ids[index]`. `origin` is the cell's box, for the detail to grow out of;
    /// `None` when the cell wasn't on screen (keyboard open after scrolling).
    Open { ids: Vec<EntryId>, index: usize, origin: Option<B> },
    /// Hand the selection to the composer panel; the owner shows the panel.
    Compose(PendingCompose),
    /// Files were just imported as assets; the owner shows the Assets feed, where they landed.
    Imported,
}

/// How the selection is to change.
#[derive(Clone, Copy, Debug, PartialEq, Eq, Structural)]
pub enum SelectionChange {
    Keep,
    Clear,
    /// Select everything listed.
    All,
    /// A click on the cell at `index`; with neither key held it selects that cell alone.
    Click { id: EntryId, index: usize, command: bool, shift: bool },
}

/// Which entries the library is asked for.
#[derive(Clone, Copy, Debug, PartialEq, Eq, Structural)]
pub struct FeedQuery {
    pub filter: FeedFilter,
    pub media_filter: MediaFilter,
    pub favorites_only: bool,
}

/// What a press on a cell does.
#[derive(Clone, Debug, PartialEq, Eq)]
pub enum Press<B> {
    /// The second of two clicks opens the detail, unless the cell is no longer listed.
    Open(Option<FeedEvent<B>>),
    /// Nothing yet: the selection stays whole so a drag can carry all of it.
    Deferred,
    Select(SelectionChange),
}

/// Where the closing detail returns to.
#[derive(Clone, Copy, Debug, PartialEq, Eq)]
pub enum Landing<B> {
    /// The entry is no longer listed.
    Nowhere,
    /// Its cell is on screen: shrink into it.
    Cell { select: SelectionChange, cell: B },
    /// Its cell is not on screen: scroll its row into the middle.
    Scroll { select: SelectionChange, index: usize },
}

/// What a change of zoom or width does to the layout.
#[derive(Clone, Copy, Debug, PartialEq, Eq, Structural)]
pub enum Relayout {
    /// The column count stays.
    Unchanged,
    /// Scroll to this row: it holds the item that led the top row.
    ScrollTo { row: usize },
}

/// What Delete does.
#[derive(Clone, Debug, PartialEq, Eq)]
pub enum DeleteRequest {
    Nothing,
    /// Ask, then delete the generations.
    Generations { message: String, detail: &'static str, ids: Vec<GenerationId> },
    /// Ask, then trash the assets.
    Assets { message: String, detail: &'static str, ids: Vec<AssetId> },
    /// Tell the user why nothing can be deleted.
    Refused(String),
}

/// What Recreate does.
#[derive(Clone, Debug, PartialEq, Eq)]
pub enum RecreateRequest {
    Compose(PendingCompose),
    Toast(&'static str),
}

/// What importing files tells the user and the owner.
#[derive(Clone, Debug, PartialEq, Eq)]
pub struct ImportReport {
    pub toast: Option<String>,
    /// At least one file became an asset.
    pub imported: bool,
}

/// An asset being dragged out of the grid.
#[derive(Clone, Debug, PartialEq, Eq)]
pub struct DraggedAsset {
    pub id: AssetId,
    pub kind: MediaType,
    pub path: String,
    /// The generation that made it, for a drop on an album.
    pub generation: Option<GenerationId>,
}

// ----- cells ----------------------------------------------------------------------------------

/// What fills a cell.
#[derive(Clone, Debug, PartialEq, Eq)]
pub enum CellContent {
    /// A spinner over the kind of media and the time the attempt has taken.
    Generating { kind: MediaType, elapsed_secs: u64 },
    Failed,
    Missing,
    Audio,
    Thumbnail(String),
    /// No thumbnail yet.
    Placeholder,
}

/// The icon in the middle of a cell that has no picture.
pub open spec fn cell_glyph(content: CellContent) -> Option<Seq<char>> {
    match content {
        CellContent::Generating { .. } => Some("loader-circle"@),
        CellContent::Failed => Some("circle-alert"@),
        CellContent::Missing => Some("file-x"@),
        CellContent::Audio => Some("audio-lines"@),
        CellContent::Thumbnail(_) => None,
        CellContent::Placeholder => Some("image"@),
    }
}

/// The line under that icon: for an attempt under way the kind of media, called `label`, and how long
/// it has taken, written as `elapsed`.
pub open spec fn cell_line(content: CellContent, label: Seq<char>, elapsed: Seq<char>) -> Option<Seq<char>> {
    match content {
        CellContent::Generating { .. } => Some(label + "  ·  "@ + elapsed),
        CellContent::Failed => Some("Failed"@),
        CellContent::Missing => Some("File missing"@),
        _ => None,
    }
}

/// The line under that icon, with the kind of media called `label` and the time an attempt has taken
/// written as `elapsed`.
pub fn cell_caption(content: &CellContent, label: &str, elapsed: &str) -> (r: Option<String>)
    ensures
        opt_text(r) == cell_line(*content, label@, elapsed@),
{
    match content {
        CellContent::Generating { .. } => Some(cat3(label, "  ·  ", elapsed)),
        CellContent::Failed => Some("Failed".to_owned()),
        CellContent::Missing => Some("File missing".to_owned()),
        _ => None,
    }
}

/// A cell as it is drawn.
#[derive(Clone, Debug, PartialEq, Eq)]
pub struct CellBody {
    pub content: CellContent,
    /// The heart in the bottom-left corner.
    pub favorite: bool,
    /// The badges in the bottom-right corner, in order.
    pub badges: Vec<String>,
    /// The selection ring.
    pub selected: bool,
}

/// The badges of the bottom-right corner.
pub open spec fn badge_texts(duration: Option<Seq<char>>, media_type: MediaType, is_upscaled: bool) -> Seq<Seq<char>> {
    (match duration {
        Some(length) if media_type != MediaType::Image => seq![length],
        _ => Seq::empty(),
    }) + (if is_upscaled {
        seq!["HD"@]
    } else {
        Seq::empty()
    })
}

/// The badges a cell draws in its bottom-right corner, in order: how long a clip runs, then HD when
/// its output came out of an upscaler.
pub fn right_badges(duration: Option<String>, media_type: MediaType, is_upscaled: bool) -> (r: Vec<String>)
    ensures
        texts(r@) == badge_texts(opt_text(duration), media_type, is_upscaled),
{
    let mut badges: Vec<String> = Vec::new();
    if let Some(length) = duration {
        if media_type != MediaType::Image {
            badges.push(length);
        }
    }
    if is_upscaled {
        badges.push("HD".to_owned());
    }
    assert(texts(badges@) =~= badge_texts(opt_text(duration), media_type, is_upscaled));
    badges
}

impl CellContent {
    /// The icon in the middle of the cell; a thumbnail has none.
    pub fn icon(&self) -> (r: Option<&'static str>)
        ensures
            match (r, cell_glyph(*self)) {
                (Some(icon), Some(glyph)) => icon@ == glyph,
                (None, None) => true,
                _ => false,
            },
    {
        match self {
            CellContent::Generating { .. } => Some("loader-circle"),
            CellContent::Failed => Some("circle-alert"),
            CellContent::Missing => Some("file-x"),
            CellContent::Audio => Some("audio-lines"),
            CellContent::Thumbnail(_) => None,
            CellContent::Placeholder => Some("image"),
        }
    }

    /// The words under the icon, where they never change.
    pub fn caption(&self) -> (r: Option<&'static str>)
        ensures
            match *self {
                CellContent::Failed => r is Some && (r->0)@ == "Failed"@,
                CellContent::Missing => r is Some && (r->0)@ == "File missing"@,
                _ => r is None,
            },
    {
        match self {
            CellContent::Failed => Some("Failed"),
            CellContent::Missing => Some("File missing"),
            _ => None,
        }
    }
}

/// The thumbnail to draw in a cell: the large tier once a cell is bigger than the standard one, and
/// the standard one until the large one has been rendered.
pub open spec fn cell_thumbnail(standard: Seq<char>, large_tier: bool, large: Option<Seq<char>>) -> Seq<char> {
    match large {
        Some(large) if large_tier => large,
        _ => standard,
    }
}

/// The thumbnail to draw in a cell that wants the large tier or does not, given the large tier's
/// file once it has been rendered.
pub fn thumbnail_for_cell(standard: &str, large_tier: bool, large: &Option<String>) -> (r: String)
    ensures
        r@ == cell_thumbnail(standard@, large_tier, opt_text(*large)),
{
    match large {
        Some(large) if large_tier => large.clone(),
        _ => standard.to_owned(),
    }
}

/// How long the current attempt has taken, in whole seconds; a clock that ran backwards counts as
/// no time.
pub open spec fn elapsed_seconds(now_ms: u64, queued_at_ms: u64) -> u64 {
    if now_ms >= queued_at_ms {
        ((now_ms - queued_at_ms) / 1000) as u64
    } else {
        0
    }
}

/// Whether `content` is what a generation's cell shows.
pub open spec fn item_content(item: Generation, now_ms: u64, large_tier: bool, large: Option<Seq<char>>, content: CellContent) -> bool {
    match item.status {
        Status::Generating => content == (CellContent::Generating {
            kind: item.media_type,
            elapsed_secs: elapsed_seconds(now_ms, item.queued_at_ms),
        }),
        Status::Failed => content == CellContent::Failed,
        Status::Missing => content == CellContent::Missing,
        Status::Completed => finished_content(item.media_type, item.thumbnail, large_tier, large, content),
    }
}

/// Whether `content` is what a cell shows of media whose file is there.
pub open spec fn finished_content(
    kind: MediaType,
    thumbnail: Option<String>,
    large_tier: bool,
    large: Option<Seq<char>>,
    content: CellContent,
) -> bool {
    if kind == MediaType::Audio {
        content == CellContent::Audio
    } else {
        match thumbnail {
            Some(standard) => content matches CellContent::Thumbnail(path) && path@ == cell_thumbnail(standard@, large_tier, large),
            None => content == CellContent::Placeholder,
        }
    }
}

/// Whether `content` is what an asset's cell shows.
pub open spec fn asset_content(asset: Asset, large_tier: bool, large: Option<Seq<char>>, content: CellContent) -> bool {
    if asset.missing {
        content == CellContent::Missing
    } else {
        finished_content(asset.kind, asset.thumbnail, large_tier, large, content)
    }
}

fn finished(kind: MediaType, thumbnail: &Option<String>, large_tier: bool, large: &Option<String>) -> (r: CellContent)
    ensures
        finished_content(kind, *thumbnail, large_tier, opt_text(*large), r),
{
    if kind == MediaType::Audio {
        CellContent::Audio
    } else {
        match thumbnail {
            Some(standard) => CellContent::Thumbnail(thumbnail_for_cell(standard.as_str(), large_tier, large)),
            None => CellContent::Placeholder,
        }
    }
}

/// How long the feed has to be still before the large thumbnail tier is rendered for what is on
/// screen, in milliseconds: long enough that a fling costs nothing, short enough to feel immediate.
pub const LARGE_TIER_SETTLE_MS: u64 = 250;

/// For how long the view has to be still before large thumbnails are asked for, if the cells want them.
pub open spec fn settle_time(large_tier: bool) -> Option<u64> {
    if large_tier {
        Some(LARGE_TIER_SETTLE_MS)
    } else {
        None
    }
}

// ----- the grid -------------------------------------------------------------------------------

/// Column and row of a cell.
pub fn place(index: usize, columns: usize) -> (r: (usize, usize))
    ensures
        r.0 == index as int % at_least_one(columns),
        r.1 == index as int / at_least_one(columns),
{
    let columns: usize = if columns == 0 {
        1
    } else {
        columns
    };
    (index % columns, index / columns)
}

/// A grid has a column however narrow it is.
pub open spec fn at_least_one(columns: usize) -> int {
    if columns == 0 {
        1
    } else {
        columns as int
    }
}

/// Rows `count` cells take.
pub open spec fn rows_for(count: nat, columns: usize) -> int {
    (count + at_least_one(columns) - 1) / at_least_one(columns)
}

/// The first cell drawn: a row above the topmost visible one, as far as there is one.
pub open spec fn window_start(top_row: nat, columns: usize) -> int {
    (if top_row == 0 {
        0
    } else {
        top_row - 1
    }) * at_least_one(columns)
}

/// One past the last cell drawn: a row below the last visible one.
pub open spec fn window_end(bottom_row: nat, columns: usize) -> int {
    (bottom_row + 1) * at_least_one(columns)
}

/// The cells around the viewport, in order, and after them the cells elsewhere still moving.
pub open spec fn drawn_indices(start: int, end: int, count: int, moving: Seq<usize>) -> Seq<usize> {
    let from = if start < count {
        start
    } else {
        count
    };
    let to = if end < count {
        end
    } else {
        count
    };
    Seq::new(
        if from < to {
            (to - from) as nat
        } else {
            0
        },
        |i: int| (from + i) as usize,
    ) + kept(moving, |m: usize| m < start || m >= end)
}

/// The cells to draw: the rows around the viewport, plus any cell still sliding in from elsewhere.
/// `top_row` and `bottom_row` are the first and last visible rows, `moving` the cells in motion.
pub fn grid_indices(top_row: usize, bottom_row: usize, columns: usize, count: usize, moving: &Vec<usize>) -> (r: Vec<usize>)
    requires
        window_start(top_row as nat, columns) <= usize::MAX,
        window_end(bottom_row as nat, columns) <= usize::MAX,
    ensures
        r@ == drawn_indices(
            window_start(top_row as nat, columns),
            window_end(bottom_row as nat, columns),
            count as int,
            moving@,
        ),
{
    let columns: usize = if columns == 0 {
        1
    } else {
        columns
    };
    let above: usize = if top_row == 0 {
        0
    } else {
        top_row - 1
    };
    let ghost cols = columns as int;
    assert(bottom_row < usize::MAX) by (nonlinear_arith)
        requires
            (bottom_row + 1) * cols <= usize::MAX,
            cols >= 1,
    ;
    let first: usize = above * columns;
    let last: usize = (bottom_row + 1) * columns;
    let from: usize = if first < count {
        first
    } else {
        count
    };
    let to: usize = if last < count {
        last
    } else {
        count
    };
    let mut out: Vec<usize> = Vec::new();
    let mut i: usize = from;
    while i < to
        invariant
            from <= to ==> from <= i <= to,
            from > to ==> i == from,
            out@ == Seq::new((i - from) as nat, |k: int| (from + k) as usize),
        decreases to - i,
    {
        out.push(i);
        i += 1;
        assert(out@ =~= Seq::new((i - from) as nat, |k: int| (from + k) as usize));
    }
    let ghost rows = out@;
    let ghost away = |m: usize|
        if m < first || m >= last {
            Some(m)
        } else {
            None
        };
    let mut j: usize = 0;
    proof {
        lemma_picked_ends(moving@, away);
        assert(rows + Seq::empty() =~= rows);
    }
    while j < moving.len()
        invariant
            j <= moving.len(),
            away == (|m: usize|
                if m < first || m >= last {
                    Some(m)
                } else {
                    None
                }),
            out@ == rows + picked(moving@.take(j as int), away),
        decreases moving.len() - j,
    {
        proof {
            lemma_picked_step(moving@, away, j as int);
        }
        let ghost before = picked(moving@.take(j as int), away);
        if moving[j] < first || moving[j] >= last {
            out.push(moving[j]);
            assert(out@ =~= rows + before.push(moving@[j as int]));
        }
        j += 1;
    }
    proof {
        lemma_picked_ends(moving@, away);
        let fits = |m: usize| m < window_start(top_row as nat, columns) || m >= window_end(bottom_row as nat, columns);
        let kept_by = |x: usize|
            if fits(x) {
                Some(x)
            } else {
                None
            };
        assert(kept_by =~= away);
        assert(rows =~= drawn_indices(first as int, last as int, count as int, Seq::empty())) by {
            assert(kept(Seq::<usize>::empty(), |m: usize| m < first as int || m >= last as int) =~= Seq::empty());
        }
        assert(out@ =~= drawn_indices(first as int, last as int, count as int, moving@));
    }
    out
}

// ----- the view -------------------------------------------------------------------------------

/// The feed's state. `B` is the box of a cell in window coordinates.
pub struct FeedView<B> {
    /// Square-cropped or whole thumbnails (persisted).
    pub shape: ThumbnailShape,
    pub filter: FeedFilter,
    pub media_filter: MediaFilter,
    /// The toolbar's favorites-only toggle: like `media_filter`, the grid's own and never stored.
    pub favorites_only: bool,
    /// Zoom level: the minimum tile width (persisted).
    pub zoom: u32,
    /// Columns the current layout uses, derived from `zoom` and the measured width.
    pub columns: usize,
    pub ids: Vec<EntryId>,
    /// The selected entries.
    pub selected: Vec<EntryId>,
    /// The cell the last press landed on.
    pub last_click: Option<EntryId>,
    /// A plain press on an item of a multi-selection: collapse to it on mouse-up, unless a drag
    /// starts first (so dragging a member of a multi-selection drags the whole set).
    pub deferred_click: Option<(EntryId, usize)>,
    /// Boxes of the cells drawn last frame, for the detail's open and close morph.
    pub cells: Vec<(EntryId, B)>,
    /// The entries the last frame drew.
    pub rendered: Vec<EntryId>,
    /// The timer that keeps the elapsed times of generating cells moving is running.
    pub ticking: bool,
    /// The cell to open on the first frame.
    pub debug_open: Option<usize>,
    /// The large thumbnails of what is on screen are asked for once the view has been still.
    pub large_request: bool,
}

/// The feed's state as contracts speak of it.
#[verifier::ext_equal]
pub struct FeedModel<B> {
    pub shape: ThumbnailShape,
    pub filter: FeedFilter,
    pub media_filter: MediaFilter,
    pub favorites_only: bool,
    pub zoom: u32,
    pub columns: usize,
    pub ids: Seq<EntryId>,
    pub selected: Seq<EntryId>,
    pub last_click: Option<EntryId>,
    pub deferred_click: Option<(EntryId, usize)>,
    pub cells: Seq<(EntryId, B)>,
    pub rendered: Seq<EntryId>,
    pub ticking: bool,
    pub debug_open: Option<usize>,
    pub large_request: bool,
}

impl<B> View for FeedView<B> {
    type V = FeedModel<B>;

    open spec fn view(&self) -> FeedModel<B> {
        FeedModel {
            shape: self.shape,
            filter: self.filter,
            media_filter: self.media_filter,
            favorites_only: self.favorites_only,
            zoom: self.zoom,
            columns: self.columns,
            ids: self.ids@,
            selected: self.selected@,
            last_click: self.last_click,
            deferred_click: self.deferred_click,
            cells: self.cells@,
            rendered: self.rendered@,
            ticking: self.ticking,
            debug_open: self.debug_open,
            large_request: self.large_request,
        }
    }
}

/// The box last recorded for `id`.
pub open spec fn box_of<B>(cells: Seq<(EntryId, B)>, id: EntryId) -> Option<B>
    decreases cells.len(),
{
    if cells.len() == 0 {
        None
    } else if cells.last().0 == id {
        Some(cells.last().1)
    } else {
        box_of(cells.drop_last(), id)
    }
}

pub open spec fn plain_click(id: EntryId, index: int) -> SelectionChange {
    SelectionChange::Click { id, index: index as usize, command: false, shift: false }
}

/// Whether `event` opens the detail on the cell at `index`.
pub open spec fn opens<B>(feed: FeedModel<B>, index: int, event: Option<FeedEvent<B>>) -> bool {
    if 0 <= index < feed.ids.len() {
        event matches Some(FeedEvent::Open { ids, index: at, origin }) && ids@ == feed.ids && at == index && origin == box_of(
            feed.cells,
            feed.ids[index],
        )
    } else {
        event is None
    }
}

/// What a drag carries of one entry: the asset behind it, when there is a file.
pub open spec fn drag_of(lib: Library, id: EntryId) -> Option<DraggedAsset> {
    match lib.entry_at(id) {
        Some(entry) => match entry.readable() {
            Some(path) => match entry {
                Entry::Generation(item) => match item.output_asset_id {
                    Some(asset) => Some(
                        DraggedAsset { id: asset, kind: item.media_type, path, generation: Some(item.id) },
                    ),
                    None => None,
                },
                Entry::Asset(asset) => Some(
                    DraggedAsset { id: asset.id, kind: asset.kind, path, generation: asset.produced_by },
                ),
            },
            None => None,
        },
        None => None,
    }
}

/// What stays selected once `ids` are what is listed.
pub open spec fn still_selected(selected: Seq<EntryId>, ids: Seq<EntryId>) -> Seq<EntryId> {
    kept(selected, |id: EntryId| ids.contains(id))
}

/// The selected generations' ids.
pub open spec fn selected_generation_ids(selected: Seq<EntryId>) -> Seq<GenerationId> {
    picked(selected, |id: EntryId| id.generation())
}

/// The selected generations the library still has.
pub open spec fn selected_generations(lib: Library, selected: Seq<EntryId>) -> Seq<Generation> {
    picked(
        selected,
        |id: EntryId|
            match id.generation() {
                Some(id) => lib.generation_at(id),
                None => None,
            },
    )
}

/// The selected assets the library still has.
pub open spec fn selected_asset_rows(lib: Library, selected: Seq<EntryId>) -> Seq<Asset> {
    picked(
        selected,
        |id: EntryId|
            match id.plain_asset() {
                Some(id) => lib.asset_at(id),
                None => None,
            },
    )
}

/// The files behind the selection.
pub open spec fn selected_files(lib: Library, selected: Seq<EntryId>) -> Seq<Exportable> {
    picked(
        selected,
        |id: EntryId|
            match lib.entry_at(id) {
                Some(entry) => Exportable::entry_export(entry),
                None => None,
            },
    )
}

/// The asset a cell draws: a generation's output, or the asset itself.
pub open spec fn drawn_asset(lib: Library, id: EntryId) -> Option<AssetId> {
    match id {
        EntryId::Asset(asset) => Some(asset),
        EntryId::Generation(generation) => match lib.generation_at(generation) {
            Some(item) => item.output_asset_id,
            None => None,
        },
    }
}

/// The asset ids of `assets`, in order.
pub open spec fn asset_ids_of(assets: Seq<Asset>) -> Seq<AssetId> {
    Seq::new(assets.len(), |i: int| assets[i].id)
}

/// Position of the first `id` in `ids`.
fn position(ids: &Vec<EntryId>, id: EntryId) -> (r: Option<usize>)
    ensures
        match (r, place_of(ids@, id)) {
            (Some(a), Some(b)) => a == b,
            (None, None) => true,
            _ => false,
        },
        r matches Some(i) ==> i < ids@.len() && ids@[i as int] == id,
{
    let mut i: usize = 0;
    while i < ids.len()
        invariant
            i <= ids.len(),
            place_from(ids@, id, 0) == place_from(ids@, id, i as int),
        decreases ids.len() - i,
    {
        if ids[i] == id {
            return Some(i);
        }
        i += 1;
    }
    None
}

/// Whether the two listings are the same.
fn same_ids(a: &Vec<EntryId>, b: &Vec<EntryId>) -> (r: bool)
    ensures
        r == (a@ == b@),
{
    if a.len() != b.len() {
        return false;
    }
    let mut i: usize = 0;
    while i < a.len()
        invariant
            i <= a.len(),
            a.len() == b.len(),
            forall|k: int| 0 <= k < i ==> #[trigger] a@[k] == b@[k],
        decreases a.len() - i,
    {
        if a[i] != b[i] {
            assert(a@[i as int] != b@[i as int]);
            return false;
        }
        i += 1;
    }
    assert(a@ =~= b@);
    true
}

impl<B: Copy> FeedView<B> {
    /// A feed over the whole library, laid out in `columns` until its width is measured.
    pub fn new(zoom: u32, shape: ThumbnailShape, columns: usize) -> (r: FeedView<B>)
        ensures
            r@ == (FeedModel {
                shape,
                filter: FeedFilter::Library,
                media_filter: MediaFilter::All,
                favorites_only: false,
                zoom,
                columns,
                ids: Seq::<EntryId>::empty(),
                selected: Seq::<EntryId>::empty(),
                last_click: None,
                deferred_click: None,
                cells: Seq::<(EntryId, B)>::empty(),
                rendered: Seq::<EntryId>::empty(),
                ticking: false,
                debug_open: None,
                large_request: false,
            }),
    {
        FeedView {
            shape,
            filter: FeedFilter::Library,
            media_filter: MediaFilter::All,
            favorites_only: false,
            zoom,
            columns,
            ids: Vec::new(),
            selected: Vec::new(),
            last_click: None,
            deferred_click: None,
            cells: Vec::new(),
            rendered: Vec::new(),
            ticking: false,
            debug_open: None,
            large_request: false,
        }
    }

    /// Open a cell on the first frame: the first video, the first piece of audio, or the cell at a
    /// position.
    pub fn open_first(&mut self, wanted: &str, lib: &Library)
        ensures
            final(self)@ == (FeedModel {
                debug_open: if wanted@ == "video"@ {
                    usize_place(first_of_kind(*lib, old(self).ids@, MediaType::Video))
                } else if wanted@ == "audio"@ {
                    usize_place(first_of_kind(*lib, old(self).ids@, MediaType::Audio))
                } else {
                    position_in(wanted@)
                },
                ..old(self)@
            }),
    {
        self.debug_open = if crate::text::same_text(wanted, "video") {
            self.first_kind(MediaType::Video, lib)
        } else if crate::text::same_text(wanted, "audio") {
            self.first_kind(MediaType::Audio, lib)
        } else {
            parse_position(wanted)
        };
    }

    fn first_kind(&self, kind: MediaType, lib: &Library) -> (r: Option<usize>)
        ensures
            r == usize_place(first_of_kind(*lib, self.ids@, kind)),
    {
        let ghost fits = |id: EntryId| lib.entry_at(id) matches Some(entry) && entry.media_kind() == kind;
        let mut i: usize = 0;
        while i < self.ids.len()
            invariant
                i <= self.ids.len(),
                fits == (|id: EntryId| lib.entry_at(id) matches Some(entry) && entry.media_kind() == kind),
                first_from(self.ids@, fits, 0) == first_from(self.ids@, fits, i as int),
            decreases self.ids.len() - i,
        {
            let found = match lib.entry(self.ids[i]) {
                Some(entry) => entry.kind() == kind,
                None => false,
            };
            if found {
                return Some(i);
            }
            i += 1;
        }
        None
    }

    /// The cell to open on this frame; it is opened once.
    pub fn take_debug_open(&mut self) -> (r: Option<FeedEvent<B>>)
        ensures
            final(self)@ == (FeedModel { debug_open: None, ..old(self)@ }),
            match old(self)@.debug_open {
                Some(ix) => opens(old(self)@, ix as int, r),
                None => r is None,
            },
    {
        match self.debug_open {
            Some(ix) => {
                self.debug_open = None;
                self.open_at(ix)
            },
            None => None,
        }
    }

    /// What the feed lists.
    pub fn filter(&self) -> (r: FeedFilter)
        ensures
            r == self.filter,
    {
        self.filter
    }

    /// Which entries to ask the library for.
    pub fn query(&self) -> (r: FeedQuery)
        ensures
            r == (FeedQuery { filter: self.filter, media_filter: self.media_filter, favorites_only: self.favorites_only }),
    {
        FeedQuery { filter: self.filter, media_filter: self.media_filter, favorites_only: self.favorites_only }
    }

    /// List something else; whatever was selected no longer is.
    pub fn set_filter(&mut self, filter: FeedFilter) -> (r: (FeedQuery, SelectionChange))
        ensures
            final(self)@ == (FeedModel { filter, selected: Seq::<EntryId>::empty(), ..old(self)@ }),
            r.0 == (FeedQuery {
                filter,
                media_filter: old(self).media_filter,
                favorites_only: old(self).favorites_only,
            }),
            r.1 == SelectionChange::Clear,
    {
        self.filter = filter;
        self.selected = Vec::new();
        (self.query(), SelectionChange::Clear)
    }

    /// List one type of media only, or all of them.
    pub fn set_media_filter(&mut self, media_filter: MediaFilter) -> (r: FeedQuery)
        ensures
            final(self)@ == (FeedModel { media_filter, ..old(self)@ }),
            r == (FeedQuery { filter: old(self).filter, media_filter, favorites_only: old(self).favorites_only }),
    {
        self.media_filter = media_filter;
        self.query()
    }

    /// Turn the favorites-only toggle; there is nothing to ask the library for when it stands so
    /// already.
    pub fn set_favorites_only(&mut self, favorites_only: bool) -> (r: Option<FeedQuery>)
        ensures
            final(self)@ == (FeedModel { favorites_only, ..old(self)@ }),
            old(self).favorites_only == favorites_only ==> r is None,
            old(self).favorites_only != favorites_only ==> r == Some(
                FeedQuery { filter: old(self).filter, media_filter: old(self).media_filter, favorites_only },
            ),
    {
        if self.favorites_only == favorites_only {
            return None;
        }
        self.favorites_only = favorites_only;
        Some(self.query())
    }

    /// Adopt what the library lists now. The selection keeps what is still listed. The boxes
    /// recorded by the last frame are forgotten when the listing changed: they belong to the old
    /// layout, and the grid may not be drawn again before someone asks for one. A row that just got its
    /// standard thumbnail moves nothing on screen, so the large ones are asked for as after a move.
    /// Returns whether to start the timer that keeps the elapsed times of generating cells moving, and
    /// for how many milliseconds the view has to be still before large thumbnails are asked for.
    pub fn refresh(&mut self, ids: Vec<EntryId>, in_flight: usize, large_tier: bool) -> (r: (bool, Option<u64>))
        ensures
            final(self)@ == (FeedModel {
                ids: ids@,
                cells: if ids@ == old(self)@.ids {
                    old(self)@.cells
                } else {
                    Seq::<(EntryId, B)>::empty()
                },
                selected: still_selected(old(self)@.selected, ids@),
                ticking: old(self)@.ticking || in_flight > 0,
                large_request: large_tier,
                ..old(self)@
            }),
            r.0 == (in_flight > 0 && !old(self).ticking),
            r.1 == settle_time(large_tier),
    {
        if !same_ids(&ids, &self.ids) {
            self.cells = Vec::new();
        }
        self.ids = ids;
        let ghost listed = |id: EntryId| self.ids@.contains(id);
        let ghost pick = |x: EntryId|
            if listed(x) {
                Some(x)
            } else {
                None
            };
        let mut still: Vec<EntryId> = Vec::new();
        let mut i: usize = 0;
        proof {
            lemma_picked_ends(self.selected@, pick);
        }
        while i < self.selected.len()
            invariant
                i <= self.selected.len(),
                listed == (|id: EntryId| self.ids@.contains(id)),
                pick == (|x: EntryId|
                    if listed(x) {
                        Some(x)
                    } else {
                        None
                    }),
                still@ == picked(self.selected@.take(i as int), pick),
            decreases self.selected.len() - i,
        {
            proof {
                lemma_picked_step(self.selected@, pick, i as int);
            }
            if is_among(&self.ids, self.selected[i]) {
                still.push(self.selected[i]);
            }
            i += 1;
        }
        proof {
            lemma_picked_ends(self.selected@, pick);
        }
        self.selected = still;
        let settle = self.schedule_large_thumbnails(large_tier);
        let start = in_flight > 0 && !self.ticking;
        if start {
            self.ticking = true;
        }
        (start, settle)
    }

    /// A second has passed: the timer goes on while anything is generating.
    pub fn tick(&mut self, in_flight: usize) -> (keep: bool)
        ensures
            keep == (in_flight > 0),
            final(self)@ == (FeedModel { ticking: old(self)@.ticking && keep, ..old(self)@ }),
    {
        if in_flight == 0 {
            self.ticking = false;
        }
        in_flight > 0
    }

    /// The toolbar's title.
    pub fn title(&self, lib: &Library) -> (r: String)
        ensures
            r@ == title_text(*lib, self.filter),
    {
        match self.filter {
            FeedFilter::Library => "Library".to_owned(),
            FeedFilter::Favorites => "Favorites".to_owned(),
            FeedFilter::Album(id) => match lib.album(id) {
                Some(album) => album.name.clone(),
                None => "Album".to_owned(),
            },
            FeedFilter::Assets => "Assets".to_owned(),
        }
    }

    /// The album the feed shows.
    pub fn current_album(&self) -> (r: Option<AlbumId>)
        ensures
            r == album_shown(self.filter),
    {
        match self.filter {
            FeedFilter::Album(id) => Some(id),
            _ => None,
        }
    }

    // ----- selection -----

    /// The selected generations (asset entries have none).
    pub fn selected_ids(&self) -> (r: Vec<GenerationId>)
        ensures
            r@ == selected_generation_ids(self.selected@),
    {
        let ghost pick = |id: EntryId| id.generation();
        let mut out: Vec<GenerationId> = Vec::new();
        let mut i: usize = 0;
        proof {
            lemma_picked_ends(self.selected@, pick);
        }
        while i < self.selected.len()
            invariant
                i <= self.selected.len(),
                pick == (|id: EntryId| id.generation()),
                out@ == picked(self.selected@.take(i as int), pick),
            decreases self.selected.len() - i,
        {
            proof {
                lemma_picked_step(self.selected@, pick, i as int);
            }
            if let Some(id) = self.selected[i].media() {
                out.push(id);
            }
            i += 1;
        }
        proof {
            lemma_picked_ends(self.selected@, pick);
        }
        out
    }

    /// How many cells are selected; what the menu greys its media items on.
    pub fn selected_count(&self) -> (r: usize)
        ensures
            r == self.selected@.len(),
    {
        self.selected.len()
    }

    /// The selected generations, for the actions that only apply to them.
    pub fn selected_items(&self, lib: &Library) -> (r: Vec<Generation>)
        ensures
            r@ == selected_generations(*lib, self.selected@),
    {
        let ghost pick = |id: EntryId|
            match id.generation() {
                Some(id) => lib.generation_at(id),
                None => None,
            };
        let mut out: Vec<Generation> = Vec::new();
        let mut i: usize = 0;
        proof {
            lemma_picked_ends(self.selected@, pick);
        }
        while i < self.selected.len()
            invariant
                i <= self.selected.len(),
                pick == (|id: EntryId|
                    match id.generation() {
                        Some(id) => lib.generation_at(id),
                        None => None,
                    }),
                out@ == picked(self.selected@.take(i as int), pick),
            decreases self.selected.len() - i,
        {
            proof {
                lemma_picked_step(self.selected@, pick, i as int);
            }
            if let Some(id) = self.selected[i].media() {
                if let Some(item) = lib.get(id) {
                    out.push(item.copy());
                }
            }
            i += 1;
        }
        proof {
            lemma_picked_ends(self.selected@, pick);
        }
        out
    }

    /// The selected assets (the Assets feed).
    pub fn selected_assets(&self, lib: &Library) -> (r: Vec<Asset>)
        ensures
            r@ == selected_asset_rows(*lib, self.selected@),
    {
        let ghost pick = |id: EntryId|
            match id.plain_asset() {
                Some(id) => lib.asset_at(id),
                None => None,
            };
        let mut out: Vec<Asset> = Vec::new();
        let mut i: usize = 0;
        proof {
            lemma_picked_ends(self.selected@, pick);
        }
        while i < self.selected.len()
            invariant
                i <= self.selected.len(),
                pick == (|id: EntryId|
                    match id.plain_asset() {
                        Some(id) => lib.asset_at(id),
                        None => None,
                    }),
                out@ == picked(self.selected@.take(i as int), pick),
            decreases self.selected.len() - i,
        {
            proof {
                lemma_picked_step(self.selected@, pick, i as int);
            }
            if let Some(id) = self.selected[i].asset() {
                if let Some(asset) = lib.asset(id) {
                    out.push(asset.copy());
                }
            }
            i += 1;
        }
        proof {
            lemma_picked_ends(self.selected@, pick);
        }
        out
    }

    /// The files behind the selection, whichever kind of entry: what Copy and Save work on.
    pub fn selected_exportables(&self, lib: &Library) -> (r: Vec<Exportable>)
        ensures
            r@ == selected_files(*lib, self.selected@),
    {
        let ghost pick = |id: EntryId|
            match lib.entry_at(id) {
                Some(entry) => Exportable::entry_export(entry),
                None => None,
            };
        let mut out: Vec<Exportable> = Vec::new();
        let mut i: usize = 0;
        proof {
            lemma_picked_ends(self.selected@, pick);
        }
        while i < self.selected.len()
            invariant
                i <= self.selected.len(),
                pick == (|id: EntryId|
                    match lib.entry_at(id) {
                        Some(entry) => Exportable::entry_export(entry),
                        None => None,
                    }),
                out@ == picked(self.selected@.take(i as int), pick),
            decreases self.selected.len() - i,
        {
            proof {
                lemma_picked_step(self.selected@, pick, i as int);
            }
            if let Some(entry) = lib.entry(self.selected[i]) {
                if let Some(file) = Exportable::of_entry(&entry) {
                    out.push(file);
                }
            }
            i += 1;
        }
        proof {
            lemma_picked_ends(self.selected@, pick);
        }
        out
    }

    /// What a drag from `id` carries: the assets behind the selection when `id` is in it, else just
    /// `id`'s. Only entries with a file are dragged (a generation in flight has none).
    pub fn dragged(&self, id: EntryId, lib: &Library) -> (r: Vec<DraggedAsset>)
        ensures
            r@ == dragged_from(*lib, self.selected@, id),
    {
        let ids: Vec<EntryId> = if is_among(&self.selected, id) {
            copied(&self.selected)
        } else {
            let mut alone: Vec<EntryId> = Vec::new();
            alone.push(id);
            assert(alone@ =~= seq![id]);
            alone
        };
        let ghost pick = |id: EntryId| drag_of(*lib, id);
        let mut out: Vec<DraggedAsset> = Vec::new();
        let mut i: usize = 0;
        proof {
            lemma_picked_ends(ids@, pick);
        }
        while i < ids.len()
            invariant
                i <= ids.len(),
                pick == (|id: EntryId| drag_of(*lib, id)),
                out@ == picked(ids@.take(i as int), pick),
            decreases ids.len() - i,
        {
            proof {
                lemma_picked_step(ids@, pick, i as int);
            }
            if let Some(asset) = drag_one(lib, ids[i]) {
                out.push(asset);
            }
            i += 1;
        }
        proof {
            lemma_picked_ends(ids@, pick);
        }
        out
    }

    // ----- mouse -----

    /// A press on the cell at `ix`. `clicks` is the press's click count, and `again` whether it
    /// follows the last press on the same cell closely enough to make a double click. Without a key
    /// held a press selects the cell alone; what it does with one is for the owner of the selection
    /// to say, who reports it with `set_selected`.
    pub fn cell_mouse_down(&mut self, ix: usize, id: EntryId, clicks: usize, again: bool, command: bool, shift: bool) -> (r: Press<B>)
        ensures
            final(self)@ == pressed(old(self)@, ix, id, clicks, again, command, shift),
            match r {
                Press::Open(event) => opens_on_press(clicks, again, command, shift) && opens(old(self)@, ix as int, event),
                Press::Deferred => !opens_on_press(clicks, again, command, shift) && defers(old(self)@, id, command, shift),
                Press::Select(change) => {
                    &&& !opens_on_press(clicks, again, command, shift)
                    &&& !defers(old(self)@, id, command, shift)
                    &&& change == (SelectionChange::Click { id, index: ix, command, shift })
                },
            },
    {
        let double = clicks >= 2 || again;
        if double && !command && !shift {
            let event = self.open_at(ix);
            self.last_click = None;
            return Press::Open(event);
        }
        self.last_click = Some(id);
        let plain = !command && !shift;
        if plain && is_among(&self.selected, id) && self.selected.len() > 1 {
            self.deferred_click = Some((id, ix));
            return Press::Deferred;
        }
        self.deferred_click = None;
        if plain {
            self.select_alone(id);
        }
        Press::Select(SelectionChange::Click { id, index: ix, command, shift })
    }

    fn select_alone(&mut self, id: EntryId)
        ensures
            final(self)@ == (FeedModel { selected: seq![id], ..old(self)@ }),
    {
        let mut alone: Vec<EntryId> = Vec::new();
        alone.push(id);
        assert(alone@ =~= seq![id]);
        self.selected = alone;
    }

    /// The press was released without a drag: a deferred click collapses the selection to its cell.
    pub fn mouse_up(&mut self) -> (r: SelectionChange)
        ensures
            final(self)@ == clicked(old(self)@),
            r == release_change(old(self)@),
    {
        match self.deferred_click {
            Some((id, ix)) => {
                self.deferred_click = None;
                self.select_alone(id);
                SelectionChange::Click { id, index: ix, command: false, shift: false }
            },
            None => SelectionChange::Keep,
        }
    }

    /// A right press selects the cell under it, unless it is already part of the selection.
    pub fn right_click(&mut self, ix: usize, id: EntryId) -> (r: SelectionChange)
        ensures
            old(self)@.selected.contains(id) ==> r == SelectionChange::Keep && final(self)@ == old(self)@,
            !old(self)@.selected.contains(id) ==> r == plain_click(id, ix as int) && final(self)@ == (FeedModel {
                selected: seq![id],
                ..old(self)@
            }),
    {
        if is_among(&self.selected, id) {
            return SelectionChange::Keep;
        }
        self.select_alone(id);
        SelectionChange::Click { id, index: ix, command: false, shift: false }
    }

    /// A drag began. One that ends over the composer never reaches the feed's mouse-up, which would
    /// otherwise collapse the selection on the next click.
    pub fn drag_started(&mut self)
        ensures
            final(self)@ == released(old(self)@),
    {
        self.deferred_click = None;
    }

    /// Open the detail on the cell at `ix`, if there is one.
    pub fn open_at(&self, ix: usize) -> (r: Option<FeedEvent<B>>)
        ensures
            opens(self@, ix as int, r),
    {
        if ix < self.ids.len() {
            let origin = self.cell_bounds(self.ids[ix]);
            Some(FeedEvent::Open { ids: copied(&self.ids), index: ix, origin })
        } else {
            None
        }
    }

    /// Where `id`'s cell was last drawn, in window coordinates; `None` if it wasn't on screen.
    pub fn cell_bounds(&self, id: EntryId) -> (r: Option<B>)
        ensures
            r == box_of(self.cells@, id),
    {
        let mut n: usize = self.cells.len();
        assert(self.cells@.take(n as int) =~= self.cells@);
        while n > 0
            invariant
                n <= self.cells.len(),
                box_of(self.cells@, id) == box_of(self.cells@.take(n as int), id),
            decreases n,
        {
            assert(self.cells@.take(n as int).drop_last() =~= self.cells@.take(n - 1));
            assert(self.cells@.take(n as int).last() == self.cells@[n - 1]);
            if self.cells[n - 1].0 == id {
                return Some(self.cells[n - 1].1);
            }
            n -= 1;
        }
        None
    }

    /// Remember where a cell was just drawn.
    pub fn record_cell(&mut self, id: EntryId, cell: B)
        ensures
            final(self)@ == (FeedModel { cells: old(self)@.cells.push((id, cell)), ..old(self)@ }),
    {
        self.cells.push((id, cell));
    }

    // ----- actions -----

    /// Open the one selected cell.
    pub fn open_selection(&self) -> (r: Option<FeedEvent<B>>)
        ensures
            if self.selected@.len() == 1 && place_of(self.ids@, self.selected@[0]) is Some {
                opens(self@, place_of(self.ids@, self.selected@[0])->0, r)
            } else {
                r is None
            },
    {
        if self.selected.len() == 1 {
            match position(&self.ids, self.selected[0]) {
                Some(ix) => self.open_at(ix),
                None => None,
            }
        } else {
            None
        }
    }

    /// Select every cell.
    pub fn select_all(&mut self) -> (r: SelectionChange)
        ensures
            r == SelectionChange::All,
            final(self)@ == (FeedModel { selected: old(self)@.ids, ..old(self)@ }),
    {
        self.selected = copied(&self.ids);
        SelectionChange::All
    }

    /// Select nothing.
    pub fn clear_selection(&mut self) -> (r: SelectionChange)
        ensures
            r == SelectionChange::Clear,
            final(self)@ == (FeedModel { selected: Seq::<EntryId>::empty(), ..old(self)@ }),
    {
        self.selected = Vec::new();
        SelectionChange::Clear
    }

    /// Take over the selection after a click changed it.
    pub fn set_selected(&mut self, selected: Vec<EntryId>)
        ensures
            final(self)@ == (FeedModel { selected: selected@, ..old(self)@ }),
    {
        self.selected = selected;
    }

    /// Arrow keys: select the cell at `next` alone and keep it on screen. Returns the change and
    /// the cell to scroll to.
    pub fn move_selection(&mut self, next: Option<usize>) -> (r: Option<(SelectionChange, usize)>)
        ensures
            if next is Some && next->0 < old(self)@.ids.len() {
                &&& r == Some((plain_click(old(self)@.ids[next->0 as int], next->0 as int), next->0))
                &&& final(self)@ == (FeedModel { selected: seq![old(self)@.ids[next->0 as int]], ..old(self)@ })
            } else {
                r is None && final(self)@ == old(self)@
            },
    {
        if let Some(ix) = next {
            if ix < self.ids.len() {
                let change = self.select_only(ix);
                return Some((change, ix));
            }
        }
        None
    }

    fn select_only(&mut self, ix: usize) -> (r: SelectionChange)
        requires
            ix < old(self)@.ids.len(),
        ensures
            r == plain_click(old(self)@.ids[ix as int], ix as int),
            final(self)@ == (FeedModel { selected: seq![old(self)@.ids[ix as int]], ..old(self)@ }),
    {
        let id = self.ids[ix];
        self.select_alone(id);
        SelectionChange::Click { id, index: ix, command: false, shift: false }
    }

    /// Select `id` for the closing detail to return to: into its cell when that is on screen,
    /// otherwise its row is scrolled into the middle. An entry no longer listed changes nothing.
    pub fn land_on(&mut self, id: EntryId) -> (r: Landing<B>)
        ensures
            match place_of(old(self)@.ids, id) {
                None => r is Nowhere && final(self)@ == old(self)@,
                Some(ix) => {
                    &&& final(self)@ == (FeedModel { selected: seq![id], ..old(self)@ })
                    &&& match box_of(old(self)@.cells, id) {
                        Some(cell) => r == (Landing::Cell { select: plain_click(id, ix), cell }),
                        None => r == (Landing::<B>::Scroll { select: plain_click(id, ix), index: ix as usize }),
                    }
                },
            },
    {
        match position(&self.ids, id) {
            None => Landing::Nowhere,
            Some(ix) => {
                let select = self.select_only(ix);
                match self.cell_bounds(id) {
                    Some(cell) => Landing::Cell { select, cell },
                    None => Landing::Scroll { select, index: ix },
                }
            },
        }
    }

    /// Whether a step of the zoom would change it; the toolbar's buttons grey out at the ends of
    /// the range, where a step leads back to the level it left.
    pub fn can_zoom_to(&self, next: u32) -> (r: bool)
        ensures
            r == (next != self.zoom),
    {
        next != self.zoom
    }

    /// Change the zoom level, which fits `columns` in the current width. A level that fits the same
    /// column count changes nothing on screen but is still stored. Returns the new layout and, where it
    /// changed, what to ask the library for; `None` at the level that is set already, which is not
    /// stored again.
    pub fn set_zoom(&mut self, zoom: u32, columns: usize, top_row: usize) -> (r: Option<(Relayout, Option<FeedQuery>)>)
        requires
            top_row * at_least_one(old(self).columns) <= usize::MAX,
        ensures
            zoom == old(self).zoom ==> r is None && final(self)@ == old(self)@,
            zoom != old(self).zoom ==> {
                &&& r matches Some((layout, query)) && layout == relayout_for(old(self).columns, columns, top_row as int) && query == if layout
                    == Relayout::Unchanged {
                    None
                } else {
                    Some(
                        FeedQuery {
                            filter: old(self).filter,
                            media_filter: old(self).media_filter,
                            favorites_only: old(self).favorites_only,
                        },
                    )
                }
                &&& final(self)@ == (FeedModel { zoom, columns, ..old(self)@ })
            },
    {
        if zoom == self.zoom {
            return None;
        }
        self.zoom = zoom;
        let layout = self.relayout(columns, top_row);
        let query = if layout == Relayout::Unchanged {
            None
        } else {
            Some(self.query())
        };
        Some((layout, query))
    }

    /// The measured width changed: fit the zoom level's `columns` to it. Nothing is known of a
    /// width of zero.
    pub fn fit_columns(&mut self, measured: bool, columns: usize, top_row: usize) -> (r: Relayout)
        requires
            top_row * at_least_one(old(self).columns) <= usize::MAX,
        ensures
            !measured ==> r == Relayout::Unchanged && final(self)@ == old(self)@,
            measured ==> r == relayout_for(old(self).columns, columns, top_row as int) && final(self)@ == (FeedModel {
                columns,
                ..old(self)@
            }),
    {
        if measured {
            self.relayout(columns, top_row)
        } else {
            Relayout::Unchanged
        }
    }

    /// Adopt a column count, keeping the top row's first item on screen.
    pub fn relayout(&mut self, columns: usize, top_row: usize) -> (r: Relayout)
        requires
            top_row * at_least_one(old(self).columns) <= usize::MAX,
        ensures
            r == relayout_for(old(self).columns, columns, top_row as int),
            final(self)@ == (FeedModel { columns, ..old(self)@ }),
    {
        if columns == self.columns {
            return Relayout::Unchanged;
        }
        let was: usize = if self.columns == 0 {
            1
        } else {
            self.columns
        };
        let top_item: usize = top_row * was;
        self.columns = columns;
        let across: usize = if columns == 0 {
            1
        } else {
            columns
        };
        Relayout::ScrollTo { row: top_item / across }
    }

    /// Square or whole thumbnails: the other of the two. The shape is stored.
    pub fn toggle_shape(&mut self) -> (r: ThumbnailShape)
        ensures
            r == old(self).shape.other(),
            final(self)@ == (FeedModel { shape: old(self).shape.other(), ..old(self)@ }),
    {
        self.shape = self.shape.toggled();
        self.shape
    }

    /// Which generations to mark as favorites, or no longer, and which of the two; nothing without
    /// a generation selected.
    pub fn toggle_favorite(&self, lib: &Library) -> (r: Option<(Vec<GenerationId>, bool)>)
        ensures
            ({
                let items = selected_generations(*lib, self.selected@);
                match r {
                    Some((ids, set)) => items.len() > 0 && ids@ == ids_of(items) && set == sets_favorite(items),
                    None => items.len() == 0,
                }
            }),
    {
        let items = self.selected_items(lib);
        if items.len() == 0 {
            return None;
        }
        Some((item_ids(&items), should_set_favorite(&items)))
    }

    /// Delete the selected generations (their files stay as assets), or, on the Assets feed, trash
    /// the selected assets, which only works while no live generation references them. A selection
    /// holding both kinds deletes the generations only.
    pub fn delete(&self, lib: &Library) -> (r: DeleteRequest)
        ensures
            delete_answer(*lib, self.selected@, r),
    {
        let ids = self.selected_ids();
        if ids.len() > 0 {
            let message = if ids.len() == 1 {
                "Delete this item?".to_owned()
            } else {
                cat3("Delete ", count_text(ids.len()).as_str(), " items?")
            };
            return DeleteRequest::Generations { message, detail: "The files stay in the library as assets.", ids };
        }
        let assets = self.selected_assets(lib);
        if assets.len() == 0 {
            return DeleteRequest::Nothing;
        }
        let ghost used = |a: Asset| a.referenced;
        let mut asset_ids: Vec<AssetId> = Vec::new();
        let mut i: usize = 0;
        while i < assets.len()
            invariant
                i <= assets.len(),
                ids@.len() == 0,
                ids@ == selected_generation_ids(self.selected@),
                assets@ == selected_asset_rows(*lib, self.selected@),
                used == (|a: Asset| a.referenced),
                first_from(assets@, used, 0) == first_from(assets@, used, i as int),
                asset_ids@ == asset_ids_of(assets@.take(i as int)),
            decreases assets.len() - i,
        {
            if assets[i].referenced {
                return DeleteRequest::Refused(
                    cat(assets[i].file_name.as_str(), " is used by a generation and can't be deleted."),
                );
            }
            asset_ids.push(assets[i].id);
            i += 1;
            assert(asset_ids@ =~= asset_ids_of(assets@.take(i as int)));
        }
        assert(assets@.take(assets@.len() as int) =~= assets@);
        let message = if assets.len() == 1 {
            "Delete this asset?".to_owned()
        } else {
            cat3("Delete ", count_text(assets.len()).as_str(), " assets?")
        };
        DeleteRequest::Assets {
            message,
            detail: "The files are moved to the library's .majik/trash folder.",
            ids: asset_ids,
        }
    }

    /// Hand the first selected generation whose request is stored to the composer.
    pub fn recreate(&self, lib: &Library) -> (r: RecreateRequest)
        ensures
            match first_where(selected_generations(*lib, self.selected@), |g: Generation| g.can_recreate) {
                Some(item) => r == RecreateRequest::Compose(PendingCompose { recreate: Some(item.id) }),
                None => r matches RecreateRequest::Toast(text) && text@ == "This item can't be recreated."@,
            },
    {
        let items = self.selected_items(lib);
        let ghost fits = |g: Generation| g.can_recreate;
        let mut i: usize = 0;
        while i < items.len()
            invariant
                i <= items.len(),
                fits == (|g: Generation| g.can_recreate),
                items@ == selected_generations(*lib, self.selected@),
                first_from(items@, fits, 0) == first_from(items@, fits, i as int),
            decreases items.len() - i,
        {
            if items[i].can_recreate {
                return RecreateRequest::Compose(PendingCompose { recreate: Some(items[i].id) });
            }
            i += 1;
        }
        RecreateRequest::Toast("This item can't be recreated.")
    }

    /// The generations to run again.
    pub fn retry(&self) -> (r: Vec<GenerationId>)
        ensures
            r@ == selected_generation_ids(self.selected@),
    {
        self.selected_ids()
    }

    /// Everything the context menu needs to know of the selection.
    pub fn menu_info(&self, lib: &Library) -> (r: MenuInfo)
        ensures
            r.items@ == selected_generations(*lib, self.selected@),
            r.assets@ == selected_asset_rows(*lib, self.selected@),
            r.assets_deletable == (forall|i: int| 0 <= i < r.assets@.len() ==> !(#[trigger] r.assets@[i]).referenced),
            r.album == album_shown(self.filter),
    {
        let assets = self.selected_assets(lib);
        let mut deletable = true;
        let mut i: usize = 0;
        while i < assets.len()
            invariant
                i <= assets.len(),
                deletable == (forall|k: int| 0 <= k < i ==> !(#[trigger] assets@[k]).referenced),
            decreases assets.len() - i,
        {
            if assets[i].referenced {
                assert(assets@[i as int].referenced);
                deletable = false;
            }
            i += 1;
        }
        MenuInfo { items: self.selected_items(lib), assets, assets_deletable: deletable, album: self.current_album() }
    }

    // ----- drawing -----

    /// The toolbar: the title and count, and the state of its buttons. `zoomed_out` and `zoomed_in`
    /// are the levels a step of the zoom leads to.
    pub fn toolbar(&self, lib: &Library, zoomed_out: u32, zoomed_in: u32) -> (r: FeedToolbar)
        ensures
            toolbar_for(*lib, self@, zoomed_out, zoomed_in, r),
    {
        FeedToolbar {
            title: self.title(lib),
            count: cat(count_text(self.ids.len()).as_str(), " items"),
            imports: self.filter == FeedFilter::Assets,
            favorites: if self.shows_favorites_toggle() {
                Some(
                    (
                        if self.favorites_only {
                            "heart-filled"
                        } else {
                            "heart"
                        },
                        self.favorites_only,
                    ),
                )
            } else {
                None
            },
            filtered: self.media_filter != MediaFilter::All,
            shape_icon: match self.shape {
                ThumbnailShape::Square => "square",
                ThumbnailShape::AspectRatio => "ratio",
            },
            can_zoom_out: self.can_zoom_to(zoomed_out),
            can_zoom_in: self.can_zoom_to(zoomed_in),
        }
    }

    /// The type filter's menu: each type, checked when it is the one in force.
    pub fn filter_menu(&self, types: &Vec<MediaFilter>) -> (r: Vec<(MediaFilter, bool)>)
        ensures
            r@ == Seq::new(types@.len(), |i: int| (types@[i], types@[i] == self.media_filter)),
    {
        let mut out: Vec<(MediaFilter, bool)> = Vec::new();
        let mut i: usize = 0;
        while i < types.len()
            invariant
                i <= types.len(),
                out@ == Seq::new(i as nat, |k: int| (types@[k], types@[k] == self.media_filter)),
            decreases types.len() - i,
        {
            out.push((types[i], types[i] == self.media_filter));
            i += 1;
            assert(out@ =~= Seq::new(i as nat, |k: int| (types@[k], types@[k] == self.media_filter)));
        }
        out
    }

    /// One frame of the feed: its toolbar, the cells around the viewport with what each draws from,
    /// what an empty feed says, and whether files dropped on it are imported. The boxes of the
    /// frame before are forgotten; the cells of this one are recorded as they are drawn. A cell to be
    /// opened at launch is opened, and a window that moved has the large thumbnails asked for.
    pub fn render(&mut self, lib: &Library, window: &GridWindow, zoomed_out: u32, zoomed_in: u32, shortcut: &str) -> (r: FeedFrame<B>)
        requires
            window_start(window.top_row as nat, old(self).columns) <= usize::MAX,
            window_end(window.bottom_row as nat, old(self).columns) <= usize::MAX,
        ensures
            final(self)@ == (FeedModel {
                cells: Seq::<(EntryId, B)>::empty(),
                debug_open: None,
                large_request: if window.moved {
                    window.large_tier
                } else {
                    old(self)@.large_request
                },
                ..old(self)@
            }),
            match old(self)@.debug_open {
                Some(ix) => opens(old(self)@, ix as int, r.opens),
                None => r.opens is None,
            },
            r.settle_ms == if window.moved {
                settle_time(window.large_tier)
            } else {
                None
            },
            toolbar_for(*lib, old(self)@, zoomed_out, zoomed_in, r.toolbar),
            r.cells@ == drawn_cells(*lib, old(self)@, *window),
            r.rows == rows_for(old(self)@.ids.len(), old(self).columns),
            match r.empty {
                Some(e) => old(self)@.ids.len() == 0 && (e.0@, e.1@, e.2@) == empty_texts(
                    *lib,
                    old(self).filter,
                    old(self).favorites_only,
                    shortcut@,
                ),
                None => old(self)@.ids.len() > 0,
            },
            r.takes_files == (old(self).filter == FeedFilter::Assets),
    {
        let opens = self.take_debug_open();
        let settle_ms = if window.moved {
            self.schedule_large_thumbnails(window.large_tier)
        } else {
            None
        };
        let toolbar = self.toolbar(lib, zoomed_out, zoomed_in);
        let count: usize = self.ids.len();
        let indices = grid_indices(window.top_row, window.bottom_row, self.columns, count, &window.moving);
        let ghost pick = |ix: usize| drawn_cell(*lib, self.ids@, ix);
        let mut cells: Vec<(usize, Entry)> = Vec::new();
        let mut i: usize = 0;
        proof {
            lemma_picked_ends(indices@, pick);
        }
        while i < indices.len()
            invariant
                i <= indices.len(),
                pick == (|ix: usize| drawn_cell(*lib, self.ids@, ix)),
                cells@ == picked(indices@.take(i as int), pick),
            decreases indices.len() - i,
        {
            proof {
                lemma_picked_step(indices@, pick, i as int);
            }
            let ix: usize = indices[i];
            if ix < self.ids.len() {
                if let Some(entry) = lib.entry(self.ids[ix]) {
                    cells.push((ix, entry));
                }
            }
            i += 1;
        }
        proof {
            lemma_picked_ends(indices@, pick);
        }
        let across: usize = if self.columns == 0 {
            1
        } else {
            self.columns
        };
        let rows: usize = div_up(count, across);
        let empty = if count == 0 {
            Some(self.empty_state(lib, shortcut))
        } else {
            None
        };
        self.cells = Vec::new();
        FeedFrame { opens, settle_ms, toolbar, cells, rows, empty, takes_files: self.filter == FeedFilter::Assets }
    }

    /// The cells this frame drew: those of its candidates that were on screen.
    pub fn drew(&mut self, rendered: Vec<EntryId>)
        ensures
            final(self)@ == (FeedModel { rendered: rendered@, ..old(self)@ }),
    {
        self.rendered = rendered;
    }

    /// The favorites-only toggle is for feeds that list generations of every kind: the Favorites
    /// feed is already that filter, and assets carry no favorite.
    pub fn shows_favorites_toggle(&self) -> (r: bool)
        ensures
            r == has_favorites_toggle(self.filter),
    {
        match self.filter {
            FeedFilter::Favorites => false,
            FeedFilter::Assets => false,
            _ => true,
        }
    }

    /// What an empty feed says: icon, title and hint. `shortcut` is how the composer's shortcut is
    /// written on this platform.
    pub fn empty_state(&self, lib: &Library, shortcut: &str) -> (r: (&'static str, &'static str, String))
        ensures
            (r.0@, r.1@, r.2@) == empty_texts(*lib, self.filter, self.favorites_only, shortcut@),
    {
        if self.favorites_only && self.shows_favorites_toggle() {
            return (
                "heart",
                "No Favorites Here",
                "Click the heart on an item to add it to your favorites, or turn the favorites filter off".to_owned(),
            );
        }
        match self.filter {
            FeedFilter::Library => ("images", "Nothing Here Yet", cat3("Press ", shortcut, " to open the composer")),
            FeedFilter::Favorites => (
                "heart",
                "No Favorites Yet",
                "Click the heart on an item to add it to your favorites".to_owned(),
            ),
            FeedFilter::Album(id) => match lib.album(id) {
                Some(_) => ("layers", "Empty Album", "Add items from the library using the context menu".to_owned()),
                None => ("layers", "Album Unavailable", "This album has been deleted".to_owned()),
            },
            FeedFilter::Assets => (
                "layers",
                "No Assets Yet",
                "Generated files and the inputs you add to the composer collect here".to_owned(),
            ),
        }
    }

    /// The asset a cell draws: a generation's output, or the asset itself.
    pub fn asset_of(&self, id: EntryId, lib: &Library) -> (r: Option<AssetId>)
        ensures
            r == drawn_asset(*lib, id),
    {
        match id {
            EntryId::Asset(asset) => Some(asset),
            EntryId::Generation(generation) => match lib.get(generation) {
                Some(item) => item.output_asset_id,
                None => None,
            },
        }
    }

    /// The view moved or its listing changed: large thumbnails are asked for once it has been still,
    /// if the cells want that tier. Each call replaces the last, so a continuous scroll asks once, at
    /// the end. Returns for how many milliseconds the view has to be still.
    pub fn schedule_large_thumbnails(&mut self, large_tier: bool) -> (r: Option<u64>)
        ensures
            r == settle_time(large_tier),
            final(self)@ == (FeedModel { large_request: large_tier, ..old(self)@ }),
    {
        self.large_request = large_tier;
        if large_tier {
            Some(LARGE_TIER_SETTLE_MS)
        } else {
            None
        }
    }

    /// The assets on screen whose large thumbnails are wanted, once the cells are big enough to
    /// need that tier.
    pub fn request_large_thumbnails(&self, large_tier: bool, lib: &Library) -> (r: Vec<AssetId>)
        ensures
            r@ == if large_tier {
                picked(self.rendered@, |id: EntryId| drawn_asset(*lib, id))
            } else {
                Seq::empty()
            },
    {
        let ghost pick = |id: EntryId| drawn_asset(*lib, id);
        let mut out: Vec<AssetId> = Vec::new();
        if !large_tier {
            assert(out@ =~= Seq::empty());
            return out;
        }
        let mut i: usize = 0;
        proof {
            lemma_picked_ends(self.rendered@, pick);
        }
        while i < self.rendered.len()
            invariant
                i <= self.rendered.len(),
                pick == (|id: EntryId| drawn_asset(*lib, id)),
                out@ == picked(self.rendered@.take(i as int), pick),
            decreases self.rendered.len() - i,
        {
            proof {
                lemma_picked_step(self.rendered@, pick, i as int);
            }
            if let Some(asset) = self.asset_of(self.rendered[i], lib) {
                out.push(asset);
            }
            i += 1;
        }
        proof {
            lemma_picked_ends(self.rendered@, pick);
        }
        out
    }

    /// A generation's cell: thumbnail, spinner or error, badges and the selection ring.
    pub fn render_cell_body(&self, item: &Generation, now_ms: u64, large_tier: bool, large: &Option<String>) -> (r: CellBody)
        ensures
            item_content(*item, now_ms, large_tier, opt_text(*large), r.content),
            r.favorite == item.is_favorite,
            texts(r.badges@) == badge_texts(opt_text(item.duration), item.media_type, item.is_upscaled),
            r.selected == self.selected@.contains(EntryId::Generation(item.id)),
    {
        let content = match item.status {
            Status::Generating => CellContent::Generating {
                kind: item.media_type,
                elapsed_secs: if now_ms >= item.queued_at_ms {
                    (now_ms - item.queued_at_ms) / 1000
                } else {
                    0
                },
            },
            Status::Failed => CellContent::Failed,
            Status::Missing => CellContent::Missing,
            Status::Completed => finished(item.media_type, &item.thumbnail, large_tier, large),
        };
        CellBody {
            content,
            favorite: item.is_favorite,
            badges: right_badges(copy_text(&item.duration), item.media_type, item.is_upscaled),
            selected: is_among(&self.selected, EntryId::Generation(item.id)),
        }
    }

    /// The body of whatever a cell was drawn from.
    pub fn render_snapshot_body(&self, entry: &Entry, now_ms: u64, large_tier: bool, large: &Option<String>) -> (r: CellBody)
        ensures
            body_shows(self.selected@, *entry, now_ms, large_tier, opt_text(*large), r),
    {
        match entry {
            Entry::Generation(item) => self.render_cell_body(item, now_ms, large_tier, large),
            Entry::Asset(asset) => self.render_asset_body(asset, large_tier, large),
        }
    }

    /// A cell that takes the pointer: its body, what a drag from it carries, and the number on the
    /// preview of that drag. Without anything to carry it can't be dragged.
    pub fn render_cell(&self, entry: &Entry, now_ms: u64, large_tier: bool, large: &Option<String>, lib: &Library) -> (r: CellFrame)
        ensures
            body_shows(self.selected@, *entry, now_ms, large_tier, opt_text(*large), r.body),
            r.dragged@ == dragged_from(*lib, self.selected@, entry.key()),
            r.draggable == (r.dragged@.len() > 0),
            opt_text(r.drag_badge) == if r.dragged@.len() > 1 {
                Some(dec(r.dragged@.len()))
            } else {
                None
            },
    {
        let dragged = self.dragged(entry.id(), lib);
        let badge = drag_badge(dragged.len());
        CellFrame {
            body: self.render_snapshot_body(entry, now_ms, large_tier, large),
            draggable: dragged.len() > 0,
            drag_badge: badge,
            dragged,
        }
    }

    /// An asset's cell: its thumbnail (audio: an icon; a file that went missing: an error), a
    /// duration badge and the selection ring. No generation state, no favorite, no HD.
    pub fn render_asset_body(&self, asset: &Asset, large_tier: bool, large: &Option<String>) -> (r: CellBody)
        ensures
            asset_content(*asset, large_tier, opt_text(*large), r.content),
            !r.favorite,
            texts(r.badges@) == badge_texts(opt_text(asset.duration), asset.kind, false),
            r.selected == self.selected@.contains(EntryId::Asset(asset.id)),
    {
        let content = if asset.missing {
            CellContent::Missing
        } else {
            finished(asset.kind, &asset.thumbnail, large_tier, large)
        };
        CellBody {
            content,
            favorite: false,
            badges: right_badges(copy_text(&asset.duration), asset.kind, false),
            selected: is_among(&self.selected, EntryId::Asset(asset.id)),
        }
    }
}

/// A cell that takes the pointer.
pub struct CellFrame {
    pub body: CellBody,
    pub dragged: Vec<DraggedAsset>,
    pub draggable: bool,
    /// The number on the preview of the drag.
    pub drag_badge: Option<String>,
}

/// Whether `body` is what the cell of `entry` draws, with `selected` selected.
pub open spec fn body_shows(
    selected: Seq<EntryId>,
    entry: Entry,
    now_ms: u64,
    large_tier: bool,
    large: Option<Seq<char>>,
    body: CellBody,
) -> bool {
    &&& body.selected == selected.contains(entry.key())
    &&& match entry {
        Entry::Generation(item) => {
            &&& item_content(item, now_ms, large_tier, large, body.content)
            &&& body.favorite == item.is_favorite
            &&& texts(body.badges@) == badge_texts(opt_text(item.duration), item.media_type, item.is_upscaled)
        },
        Entry::Asset(asset) => {
            &&& asset_content(asset, large_tier, large, body.content)
            &&& !body.favorite
            &&& texts(body.badges@) == badge_texts(opt_text(asset.duration), asset.kind, false)
        },
    }
}

/// The feed once a press turned into a drag: nothing is deferred any more.
pub open spec fn released<B>(feed: FeedModel<B>) -> FeedModel<B> {
    FeedModel { deferred_click: None, ..feed }
}

/// The feed once a press was released without a drag: a deferred click selects its cell alone.
pub open spec fn clicked<B>(feed: FeedModel<B>) -> FeedModel<B> {
    FeedModel {
        selected: match feed.deferred_click {
            Some((id, _)) => seq![id],
            None => feed.selected,
        },
        ..released(feed)
    }
}

/// How the selection changes when a press is released without a drag.
pub open spec fn release_change<B>(feed: FeedModel<B>) -> SelectionChange {
    match feed.deferred_click {
        Some((id, ix)) => plain_click(id, ix as int),
        None => SelectionChange::Keep,
    }
}

/// The feed's toolbar.
#[derive(Clone, Debug, PartialEq, Eq)]
pub struct FeedToolbar {
    pub title: String,
    pub count: String,
    /// The Import button, on the Assets feed.
    pub imports: bool,
    /// Icon and state of the favorites-only toggle, where it is offered.
    pub favorites: Option<(&'static str, bool)>,
    /// A type filter is in force.
    pub filtered: bool,
    pub shape_icon: &'static str,
    pub can_zoom_out: bool,
    pub can_zoom_in: bool,
}

/// Whether `bar` is the toolbar of `feed`.
pub open spec fn toolbar_for<B>(lib: Library, feed: FeedModel<B>, zoomed_out: u32, zoomed_in: u32, bar: FeedToolbar) -> bool {
    &&& bar.title@ == title_text(lib, feed.filter)
    &&& bar.count@ == dec(feed.ids.len()) + " items"@
    &&& bar.imports == (feed.filter == FeedFilter::Assets)
    &&& match bar.favorites {
        Some((icon, on)) => has_favorites_toggle(feed.filter) && on == feed.favorites_only && icon@ == (if feed.favorites_only {
            "heart-filled"@
        } else {
            "heart"@
        }),
        None => !has_favorites_toggle(feed.filter),
    }
    &&& bar.filtered == (feed.media_filter != MediaFilter::All)
    &&& bar.shape_icon@ == match feed.shape {
        ThumbnailShape::Square => "square"@,
        ThumbnailShape::AspectRatio => "ratio"@,
    }
    &&& bar.can_zoom_out == (zoomed_out != feed.zoom)
    &&& bar.can_zoom_in == (zoomed_in != feed.zoom)
}

/// A button of the toolbar, as its tooltip names it.
#[derive(Clone, Copy, Debug, PartialEq, Eq, Structural)]
pub enum ToolbarButton {
    /// Only on the Assets feed.
    Import,
    /// Only where generations of every kind are listed.
    Favorites,
    Filter,
    Shape,
    ZoomOut,
    ZoomIn,
}

/// The tooltip of a toolbar button.
pub open spec fn button_tooltip(part: ToolbarButton) -> Seq<char> {
    match part {
        ToolbarButton::Import => "Import files as assets"@,
        ToolbarButton::Favorites => "Favorites only"@,
        ToolbarButton::Filter => "Filter by type"@,
        ToolbarButton::Shape => "Square or full-aspect thumbnails"@,
        ToolbarButton::ZoomOut => "Smaller thumbnails"@,
        ToolbarButton::ZoomIn => "Larger thumbnails"@,
    }
}

/// The tooltip of a toolbar button.
pub fn toolbar_tooltip(part: ToolbarButton) -> (r: &'static str)
    ensures
        r@ == button_tooltip(part),
{
    match part {
        ToolbarButton::Import => "Import files as assets",
        ToolbarButton::Favorites => "Favorites only",
        ToolbarButton::Filter => "Filter by type",
        ToolbarButton::Shape => "Square or full-aspect thumbnails",
        ToolbarButton::ZoomOut => "Smaller thumbnails",
        ToolbarButton::ZoomIn => "Larger thumbnails",
    }
}

/// The rows in view, and the cells in motion wherever they are.
pub struct GridWindow {
    pub top_row: usize,
    pub bottom_row: usize,
    pub moving: Vec<usize>,
    /// The scroll offset, the size of a cell or the columns are not those of the frame before.
    pub moved: bool,
    /// The cells are bigger than the standard thumbnail.
    pub large_tier: bool,
}

/// One frame of the feed.
pub struct FeedFrame<B> {
    /// The cell to be opened at launch, with the first frame.
    pub opens: Option<FeedEvent<B>>,
    /// For how long the view has to be still before large thumbnails are asked for, after a move.
    pub settle_ms: Option<u64>,
    pub toolbar: FeedToolbar,
    /// The cells to draw, each with its place and what it is drawn from.
    pub cells: Vec<(usize, Entry)>,
    /// Rows the whole grid takes.
    pub rows: usize,
    /// Icon, title and hint, when nothing is listed.
    pub empty: Option<(&'static str, &'static str, String)>,
    /// Files dropped on the grid are imported.
    pub takes_files: bool,
}

/// What the cell at `ix` is drawn from; nothing where the listing or the library has no entry.
pub open spec fn drawn_cell(lib: Library, ids: Seq<EntryId>, ix: usize) -> Option<(usize, Entry)> {
    if ix < ids.len() {
        match lib.entry_at(ids[ix as int]) {
            Some(entry) => Some((ix, entry)),
            None => None,
        }
    } else {
        None
    }
}

/// The cells of a frame.
pub open spec fn drawn_cells<B>(lib: Library, feed: FeedModel<B>, window: GridWindow) -> Seq<(usize, Entry)> {
    picked(
        drawn_indices(
            window_start(window.top_row as nat, feed.columns),
            window_end(window.bottom_row as nat, feed.columns),
            feed.ids.len() as int,
            window.moving@,
        ),
        |ix: usize| drawn_cell(lib, feed.ids, ix),
    )
}

fn div_up(count: usize, across: usize) -> (r: usize)
    requires
        across > 0,
    ensures
        r == (count + across - 1) / across as int,
{
    let whole: usize = count / across;
    let rest: usize = count % across;
    proof {
        vstd::arithmetic::div_mod::lemma_fundamental_div_mod(count as int, across as int);
        let q = whole as int;
        let m = rest as int;
        let d = across as int;
        if m == 0 {
            vstd::arithmetic::div_mod::lemma_fundamental_div_mod_converse(count + d - 1, d, q, d - 1);
        } else {
            assert((q + 1) * d + (m - 1) == count + d - 1) by (nonlinear_arith)
                requires
                    count == d * q + m,
            ;
            vstd::arithmetic::div_mod::lemma_fundamental_div_mod_converse(count + d - 1, d, q + 1, m - 1);
        }
        assert(q <= count) by (nonlinear_arith)
            requires
                count == d * q + m,
                d >= 1,
                q >= 0,
                m >= 0,
        ;
        if m > 0 {
            assert(q < count) by (nonlinear_arith)
                requires
                    count == d * q + m,
                    d >= 1,
                    q >= 0,
                    m >= 1,
            ;
        }
    }
    if rest > 0 {
        whole + 1
    } else {
        whole
    }
}

/// The number on the preview of a drag that carries more than one file.
pub fn drag_badge(count: usize) -> (r: Option<String>)
    ensures
        opt_text(r) == if count > 1 {
            Some(dec(count as nat))
        } else {
            None
        },
{
    if count > 1 {
        Some(count_text(count))
    } else {
        None
    }
}

/// The toolbar's title.
pub open spec fn title_text(lib: Library, filter: FeedFilter) -> Seq<char> {
    match filter {
        FeedFilter::Library => "Library"@,
        FeedFilter::Favorites => "Favorites"@,
        FeedFilter::Album(id) => match lib.album_place(id) {
            Some(i) => lib.albums@[i].name@,
            None => "Album"@,
        },
        FeedFilter::Assets => "Assets"@,
    }
}

/// The album a feed shows.
pub open spec fn album_shown(filter: FeedFilter) -> Option<AlbumId> {
    match filter {
        FeedFilter::Album(id) => Some(id),
        _ => None,
    }
}

pub open spec fn has_favorites_toggle(filter: FeedFilter) -> bool {
    filter != FeedFilter::Favorites && filter != FeedFilter::Assets
}

/// What an empty feed says: icon, title and hint.
pub open spec fn empty_texts(lib: Library, filter: FeedFilter, favorites_only: bool, shortcut: Seq<char>) -> (
    Seq<char>,
    Seq<char>,
    Seq<char>,
) {
    if favorites_only && has_favorites_toggle(filter) {
        (
            "heart"@,
            "No Favorites Here"@,
            "Click the heart on an item to add it to your favorites, or turn the favorites filter off"@,
        )
    } else {
        match filter {
            FeedFilter::Library => ("images"@, "Nothing Here Yet"@, "Press "@ + shortcut + " to open the composer"@),
            FeedFilter::Favorites => ("heart"@, "No Favorites Yet"@, "Click the heart on an item to add it to your favorites"@),
            FeedFilter::Album(id) => if lib.album_place(id) is Some {
                ("layers"@, "Empty Album"@, "Add items from the library using the context menu"@)
            } else {
                ("layers"@, "Album Unavailable"@, "This album has been deleted"@)
            },
            FeedFilter::Assets => (
                "layers"@,
                "No Assets Yet"@,
                "Generated files and the inputs you add to the composer collect here"@,
            ),
        }
    }
}

/// The first listed entry of this kind.
pub open spec fn first_of_kind(lib: Library, ids: Seq<EntryId>, kind: MediaType) -> Option<int> {
    first_place(ids, |id: EntryId| lib.entry_at(id) matches Some(entry) && entry.media_kind() == kind)
}

pub open spec fn usize_place(place: Option<int>) -> Option<usize> {
    match place {
        Some(i) => Some(i as usize),
        None => None,
    }
}

/// What a drag from `id` carries, with `selected` selected.
pub open spec fn dragged_from(lib: Library, selected: Seq<EntryId>, id: EntryId) -> Seq<DraggedAsset> {
    picked(
        if selected.contains(id) {
            selected
        } else {
            seq![id]
        },
        |id: EntryId| drag_of(lib, id),
    )
}

fn drag_one(lib: &Library, id: EntryId) -> (r: Option<DraggedAsset>)
    ensures
        r == drag_of(*lib, id),
{
    let entry = lib.entry(id);
    match entry {
        Some(entry) => match entry.file() {
            Some(path) => match &entry {
                Entry::Generation(item) => match item.output_asset_id {
                    Some(asset) => Some(
                        DraggedAsset { id: asset, kind: item.media_type, path, generation: Some(item.id) },
                    ),
                    None => None,
                },
                Entry::Asset(asset) => Some(
                    DraggedAsset { id: asset.id, kind: asset.kind, path, generation: asset.produced_by },
                ),
            },
            None => None,
        },
        None => None,
    }
}

/// A press opens the detail: it is the second of two, with neither key held.
pub open spec fn opens_on_press(clicks: usize, again: bool, command: bool, shift: bool) -> bool {
    (clicks >= 2 || again) && !command && !shift
}

/// A press leaves the selection whole for now: it is plain, on one of several selected cells.
pub open spec fn defers<B>(feed: FeedModel<B>, id: EntryId, command: bool, shift: bool) -> bool {
    !command && !shift && feed.selected.contains(id) && feed.selected.len() > 1
}

/// The feed after a press on a cell.
pub open spec fn pressed<B>(
    feed: FeedModel<B>,
    ix: usize,
    id: EntryId,
    clicks: usize,
    again: bool,
    command: bool,
    shift: bool,
) -> FeedModel<B> {
    if opens_on_press(clicks, again, command, shift) {
        FeedModel { last_click: None, ..feed }
    } else if defers(feed, id, command, shift) {
        FeedModel { last_click: Some(id), deferred_click: Some((id, ix)), ..feed }
    } else {
        FeedModel {
            last_click: Some(id),
            deferred_click: None,
            selected: if command || shift {
                feed.selected
            } else {
                seq![id]
            },
            ..feed
        }
    }
}

/// What adopting `after` columns does to the scroll position.
pub open spec fn relayout_for(before: usize, after: usize, top_row: int) -> Relayout {
    if before == after {
        Relayout::Unchanged
    } else {
        Relayout::ScrollTo { row: (top_row * at_least_one(before) / at_least_one(after)) as usize }
    }
}

/// Whether `answer` is what Delete does with `selected` selected.
pub open spec fn delete_answer(lib: Library, selected: Seq<EntryId>, answer: DeleteRequest) -> bool {
    let generations = selected_generation_ids(selected);
    let assets = selected_asset_rows(lib, selected);
    if generations.len() > 0 {
        answer matches DeleteRequest::Generations { message, detail, ids } && ids@ == generations && message@ == (
        if generations.len() == 1 {
            "Delete this item?"@
        } else {
            "Delete "@ + dec(generations.len()) + " items?"@
        }) && detail@ == "The files stay in the library as assets."@
    } else if assets.len() == 0 {
        answer is Nothing
    } else {
        match first_where(assets, |a: Asset| a.referenced) {
            Some(used) => answer matches DeleteRequest::Refused(text) && text@ == used.file_name@
                + " is used by a generation and can't be deleted."@,
            None => answer matches DeleteRequest::Assets { message, detail, ids } && ids@ == asset_ids_of(assets) && message@ == (
            if assets.len() == 1 {
                "Delete this asset?"@
            } else {
                "Delete "@ + dec(assets.len()) + " assets?"@
            }) && detail@ == "The files are moved to the library's .majik/trash folder."@,
        }
    }
}

/// The number a text writes in base ten, digits only.
pub open spec fn digits_value(s: Seq<char>) -> Option<nat>
    decreases s.len(),
{
    if s.len() == 0 {
        Some(0)
    } else {
        match digits_value(s.drop_last()) {
            Some(n) if '0' <= s.last() <= '9' => Some(n * 10 + (s.last() as nat - '0' as nat) as nat),
            _ => None,
        }
    }
}

/// The position a text names: digits, with or without a plus sign, that fit a `usize`.
pub open spec fn position_in(s: Seq<char>) -> Option<usize> {
    let digits = if s.len() > 0 && s[0] == '+' {
        s.drop_first()
    } else {
        s
    };
    match digits_value(digits) {
        Some(n) if digits.len() > 0 && n <= usize::MAX => Some(n as usize),
        _ => None,
    }
}

proof fn lemma_digits_prefix(s: Seq<char>, k: int)
    requires
        0 <= k <= s.len(),
        digits_value(s) is Some,
    ensures
        digits_value(s.take(k)) is Some,
        digits_value(s.take(k))->0 <= digits_value(s)->0,
    decreases s.len() - k,
{
    if k < s.len() {
        lemma_digits_prefix(s, k + 1);
        assert(s.take(k + 1).drop_last() =~= s.take(k));
    } else {
        assert(s.take(k) =~= s);
    }
}

/// The position a text names.
pub fn parse_position(s: &str) -> (r: Option<usize>)
    ensures
        r == position_in(s@),
{
    let n: usize = s.unicode_len();
    let from: usize = if n > 0 && s.get_char(0) == '+' {
        1
    } else {
        0
    };
    let ghost digits = if s@.len() > 0 && s@[0] == '+' {
        s@.drop_first()
    } else {
        s@
    };
    assert(digits =~= s@.subrange(from as int, n as int));
    if from == n {
        return None;
    }
    let mut value: usize = 0;
    let mut i: usize = from;
    assert(digits.take(0) =~= Seq::empty());
    while i < n
        invariant
            from <= i <= n,
            n == s@.len(),
            digits == s@.subrange(from as int, n as int),
            digits == if s@.len() > 0 && s@[0] == '+' {
                s@.drop_first()
            } else {
                s@
            },
            digits_value(digits.take(i - from)) == Some(value as nat),
        decreases n - i,
    {
        let c: char = s.get_char(i);
        let ghost head = digits.take(i - from + 1);
        assert(head.drop_last() =~= digits.take(i - from));
        assert(head.last() == c);
        if c < '0' || c > '9' {
            proof {
                if digits_value(digits) is Some {
                    lemma_digits_prefix(digits, i - from + 1);
                }
            }
            return None;
        }
        let d: usize = (c as u32 - '0' as u32) as usize;
        let next: Option<usize> = match value.checked_mul(10) {
            Some(tens) => tens.checked_add(d),
            None => None,
        };
        match next {
            Some(v) => {
                value = v;
            },
            None => {
                proof {
                    if digits_value(digits) is Some {
                        lemma_digits_prefix(digits, i - from + 1);
                    }
                }
                return None;
            },
        }
        i += 1;
    }
    assert(digits.take(n - from) =~= digits);
    Some(value)
}

/// Import files as assets; the user hears about every file that couldn't be, or how many were.
/// `files` is how many there were to import, and `imported` how many became assets.
pub fn import_paths(files: usize, imported: usize, failures: &Vec<String>) -> (r: ImportReport)
    ensures
        files == 0 ==> r.toast is None && !r.imported,
        files > 0 ==> {
            &&& opt_text(r.toast) == Some(
                if failures@.len() > 0 {
                    joined(texts(failures@), "\n"@)
                } else {
                    "Imported "@ + dec(imported as nat) + " asset(s)"@
                },
            )
            &&& r.imported == (imported > 0)
        },
{
    if files == 0 {
        return ImportReport { toast: None, imported: false };
    }
    let toast = if failures.len() > 0 {
        join(failures, "\n")
    } else {
        cat3("Imported ", count_text(imported).as_str(), " asset(s)")
    };
    ImportReport { toast: Some(toast), imported: imported > 0 }
}

/// Whether the answer to a delete prompt deletes: its first button does.
pub fn delete_confirmed(answer: Option<usize>) -> (r: bool)
    ensures
        r == (answer == Some(0usize)),
{
    match answer {
        Some(0) => true,
        _ => false,
    }
}

/// What the toast says when trashing the assets failed.
pub fn delete_failed_toast(error: &str) -> (r: String)
    ensures
        r@ == "Couldn't delete: "@ + error@,
{
    cat("Couldn't delete: ", error)
}

// ----- laws -----------------------------------------------------------------------------------

/// A plain press on one of several selected cells changes no selection until it is released, and
/// then selects that cell alone; a drag in between leaves the whole selection as it was.
pub proof fn a_drag_keeps_the_selection_a_click_would_collapse<B>(feed: FeedModel<B>, ix: usize, id: EntryId)
    requires
        feed.selected.contains(id),
        feed.selected.len() > 1,
    ensures
        ({
            let held = pressed(feed, ix, id, 1, false, false, false);
            &&& held.selected == feed.selected
            &&& release_change(held) == plain_click(id, ix as int)
            &&& clicked(held).selected == seq![id]
            &&& release_change(released(held)) == SelectionChange::Keep
            &&& clicked(released(held)).selected == feed.selected
        }),
{
}

/// Whichever member of the selection a drag starts from, it carries the same assets; from a cell
/// outside the selection it carries that cell's alone.
pub proof fn a_drag_carries_the_whole_selection(lib: Library, selected: Seq<EntryId>, a: EntryId, b: EntryId)
    ensures
        selected.contains(a) && selected.contains(b) ==> dragged_from(lib, selected, a) == dragged_from(lib, selected, b),
        !selected.contains(a) ==> dragged_from(lib, selected, a).len() <= 1,
{
    if !selected.contains(a) {
        lemma_picked_from(seq![a], |id: EntryId| drag_of(lib, id));
    }
}

/// Once the feed has taken over a listing, everything selected is listed.
pub proof fn the_selection_stays_within_the_listing(selected: Seq<EntryId>, ids: Seq<EntryId>)
    ensures
        forall|k: int|
            0 <= k < still_selected(selected, ids).len() ==> ids.contains(#[trigger] still_selected(selected, ids)[k]),
        forall|k: int|
            0 <= k < selected.len() && ids.contains(#[trigger] selected[k]) ==> still_selected(selected, ids).contains(
                selected[k],
            ),
{
    let fits = |id: EntryId| ids.contains(id);
    let pick = |x: EntryId|
        if fits(x) {
            Some(x)
        } else {
            None
        };
    let all = still_selected(selected, ids);
    assert(all == picked(selected, pick));
    lemma_picked_from(selected, pick);
    assert forall|k: int| 0 <= k < all.len() implies ids.contains(#[trigger] all[k]) by {
        let i = choose|i: int| 0 <= i < selected.len() && pick(#[trigger] selected[i]) == Some(picked(selected, pick)[k]);
        assert(pick(selected[i]) == Some(all[k]));
    }
    assert forall|k: int| 0 <= k < selected.len() && ids.contains(#[trigger] selected[k]) implies all.contains(selected[k]) by {
        lemma_picked_has(selected, pick, k);
    }
}

/// A box recorded by one layout is never handed out for another: forgotten boxes are nobody's, and
/// a box just recorded is the one found.
pub proof fn boxes_are_those_last_recorded<B>(cells: Seq<(EntryId, B)>, id: EntryId, other: EntryId, cell: B)
    ensures
        box_of(Seq::<(EntryId, B)>::empty(), id) is None,
        box_of(cells.push((id, cell)), id) == Some(cell),
        other != id ==> box_of(cells.push((id, cell)), other) == box_of(cells, other),
{
    assert(cells.push((id, cell)).drop_last() =~= cells);
}

/// A change of the column count keeps the item that led the top row on screen: it is in the row
/// the grid is scrolled to.
pub proof fn a_relayout_keeps_the_top_item(before: usize, after: usize, top_row: nat)
    requires
        before != after,
        top_row * at_least_one(before) <= usize::MAX,
    ensures
        ({
            let item = top_row * at_least_one(before);
            &&& relayout_for(before, after, top_row as int) matches Relayout::ScrollTo { row }
            &&& row == item / at_least_one(after)
            &&& row * at_least_one(after) <= item < (row + 1) * at_least_one(after)
        }),
{
    let item = (top_row * at_least_one(before)) as int;
    let d = at_least_one(after);
    let q = item / d;
    assert(item >= 0) by (nonlinear_arith)
        requires
            item == top_row * at_least_one(before),
            top_row >= 0,
            at_least_one(before) >= 1,
    ;
    vstd::arithmetic::div_mod::lemma_fundamental_div_mod(item, d);
    vstd::arithmetic::div_mod::lemma_div_pos_is_pos(item, d);
    assert(q <= item) by (nonlinear_arith)
        requires
            item == d * q + item % d,
            0 <= item % d,
            d >= 1,
            q >= 0,
    ;
    assert(q * d <= item < (q + 1) * d) by (nonlinear_arith)
        requires
            item == d * q + item % d,
            0 <= item % d < d,
    ;
}

/// Every cell of a visible row is among those drawn.
pub proof fn visible_rows_are_drawn(top_row: nat, bottom_row: nat, columns: usize, count: nat, moving: Seq<usize>, ix: usize)
    requires
        ix < count,
        top_row <= ix as int / at_least_one(columns) <= bottom_row,
    ensures
        drawn_indices(window_start(top_row, columns), window_end(bottom_row, columns), count as int, moving).contains(ix),
{
    let d = at_least_one(columns);
    let q = ix as int / d;
    vstd::arithmetic::div_mod::lemma_fundamental_div_mod(ix as int, d);
    let start = window_start(top_row, columns);
    let end = window_end(bottom_row, columns);
    let above = if top_row == 0 {
        0
    } else {
        top_row - 1
    };
    assert(start == above * d);
    assert(start <= ix) by (nonlinear_arith)
        requires
            start == above * d,
            above <= q,
            ix == d * q + ix as int % d,
            0 <= ix as int % d,
            d >= 1,
    ;
    assert(end > ix) by (nonlinear_arith)
        requires
            end == (bottom_row + 1) * d,
            q <= bottom_row,
            ix == d * q + ix as int % d,
            ix as int % d < d,
            d >= 1,
    ;
    let all = drawn_indices(start, end, count as int, moving);
    assert(all[ix - start] == ix);
}

/// Squaring the thumbnails and showing them whole again leaves the feed as it was.
pub proof fn toggling_the_shape_twice_changes_nothing(shape: ThumbnailShape)
    ensures
        shape.other().other() == shape,
        shape.other() != shape,
{
}

/// The model of the view is what its fields hold.
pub proof fn the_feed_is_its_fields<B>(view: FeedView<B>)
    ensures
        view@.shape == view.shape,
        view@.filter == view.filter,
        view@.media_filter == view.media_filter,
        view@.favorites_only == view.favorites_only,
        view@.zoom == view.zoom,
        view@.columns == view.columns,
        view@.ids == view.ids@,
        view@.selected == view.selected@,
        view@.last_click == view.last_click,
        view@.deferred_click == view.deferred_click,
        view@.cells == view.cells@,
        view@.rendered == view.rendered@,
        view@.ticking == view.ticking,
        view@.debug_open == view.debug_open,
        view@.large_request == view.large_request,
{
}

/// What a drag carries of an entry is the entry's own: its kind, its file, the asset behind it and the
/// generation that made it. An entry is dragged exactly when the library has it and its file, and a generation
/// also its output.
pub proof fn a_drag_carries_the_entrys_own_file(lib: Library, id: EntryId)
    ensures
        drag_of(lib, id) matches Some(d) ==> {
            &&& lib.entry_at(id) is Some
            &&& d.kind == (lib.entry_at(id)->0).media_kind()
            &&& Some(d.path) == (lib.entry_at(id)->0).readable()
            &&& lib.entry_at(id)->0 matches Entry::Generation(item) ==> item.output_asset_id == Some(d.id) && d.generation == Some(item.id)
            &&& lib.entry_at(id)->0 matches Entry::Asset(asset) ==> asset.id == d.id && d.generation == asset.produced_by
        },
        drag_of(lib, id) is Some <==> lib.entry_at(id) is Some && (lib.entry_at(id)->0).readable() is Some && (lib.entry_at(
            id,
        )->0 matches Entry::Generation(item) ==> item.output_asset_id is Some),
{
}

/// A drag from a selected cell carries what there is to carry of every selected entry, in order; from any other
/// cell it carries that cell's entry alone.
pub proof fn a_drag_leaves_nothing_behind(lib: Library, selected: Seq<EntryId>, id: EntryId)
    ensures
        selected.contains(id) ==> picks(selected, |other: EntryId| drag_of(lib, other), dragged_from(lib, selected, id)),
        !selected.contains(id) && drag_of(lib, id) is Some ==> dragged_from(lib, selected, id) == seq![drag_of(lib, id)->0],
        !selected.contains(id) && drag_of(lib, id) is None ==> dragged_from(lib, selected, id).len() == 0,
{
    let pick = |other: EntryId| drag_of(lib, other);
    if selected.contains(id) {
        picking_goes_entry_by_entry(selected, pick);
    } else {
        reveal_with_fuel(picked, 2);
        assert(seq![id].drop_last() =~= Seq::empty());
        assert(seq![id].last() == id);
        assert(dragged_from(lib, selected, id) =~= match drag_of(lib, id) {
            Some(d) => seq![d],
            None => Seq::empty(),
        });
    }
}

/// What stays selected is what was selected and is still listed, in the order it was selected.
pub proof fn only_unlisted_entries_are_deselected(selected: Seq<EntryId>, ids: Seq<EntryId>)
    ensures
        sifts(selected, |id: EntryId| ids.contains(id), still_selected(selected, ids)),
{
    keeping_leaves_out_only_what_does_not_fit(selected, |id: EntryId| ids.contains(id));
}

/// The actions work on the whole selection, in order: on the generations selected, on their rows and those of
/// the assets, and on every file behind them.
pub proof fn actions_take_the_whole_selection(lib: Library, selected: Seq<EntryId>)
    ensures
        picks(
            selected,
            |id: EntryId|
                match id {
                    EntryId::Generation(g) => Some(g),
                    EntryId::Asset(_) => None,
                },
            selected_generation_ids(selected),
        ),
        picks(
            selected,
            |id: EntryId|
                match id {
                    EntryId::Generation(g) => lib.generation_at(g),
                    EntryId::Asset(_) => None,
                },
            selected_generations(lib, selected),
        ),
        picks(
            selected,
            |id: EntryId|
                match id {
                    EntryId::Generation(_) => None,
                    EntryId::Asset(a) => lib.asset_at(a),
                },
            selected_asset_rows(lib, selected),
        ),
        picks(
            selected,
            |id: EntryId|
                match lib.entry_at(id) {
                    Some(entry) => Exportable::entry_export(entry),
                    None => None,
                },
            selected_files(lib, selected),
        ),
{
    let one = |id: EntryId|
        match id {
            EntryId::Generation(g) => Some(g),
            EntryId::Asset(_) => None,
        };
    let two = |id: EntryId|
        match id {
            EntryId::Generation(g) => lib.generation_at(g),
            EntryId::Asset(_) => None,
        };
    let three = |id: EntryId|
        match id {
            EntryId::Generation(_) => None,
            EntryId::Asset(a) => lib.asset_at(a),
        };
    assert((|id: EntryId| id.generation()) =~= one);
    assert((|id: EntryId|
        match id.generation() {
            Some(id) => lib.generation_at(id),
            None => None,
        }) =~= two);
    assert((|id: EntryId|
        match id.plain_asset() {
            Some(id) => lib.asset_at(id),
            None => None,
        }) =~= three);
    picking_goes_entry_by_entry(selected, one);
    picking_goes_entry_by_entry(selected, two);
    picking_goes_entry_by_entry(selected, three);
    picking_goes_entry_by_entry(
        selected,
        |id: EntryId|
            match lib.entry_at(id) {
                Some(entry) => Exportable::entry_export(entry),
                None => None,
            },
    );
}

/// The asset a cell draws is the asset itself, or what its generation produced.
pub proof fn a_cell_draws_its_own_asset(lib: Library, generation: GenerationId, asset: AssetId)
    ensures
        drawn_asset(lib, EntryId::Asset(asset)) == Some(asset),
        lib.generation_at(generation) matches Some(item) ==> drawn_asset(lib, EntryId::Generation(generation)) == item.output_asset_id,
        lib.generation_at(generation) is None ==> drawn_asset(lib, EntryId::Generation(generation)) is None,
{
}

/// Opening a listed cell opens the detail on that cell within the whole listing, out of the box it was last
/// drawn in; a cell that is not listed opens nothing.
pub proof fn a_cell_opens_where_it_is<B>(feed: FeedModel<B>, index: int, event: Option<FeedEvent<B>>)
    requires
        opens(feed, index, event),
    ensures
        event is Some <==> 0 <= index < feed.ids.len(),
        event matches Some(opened) ==> (opened matches FeedEvent::Open { ids, index: at, origin } && ids@ == feed.ids && at == index && origin
            == box_of(feed.cells, feed.ids[index])),
{
}

/// The box of a cell is the one it was last recorded with, if it was.
pub proof fn a_box_is_found_if_recorded<B>(cells: Seq<(EntryId, B)>, id: EntryId)
    ensures
        match box_of(cells, id) {
            Some(cell) => exists|i: int|
                0 <= i < cells.len() && #[trigger] cells[i] == (id, cell) && (forall|j: int| i < j < cells.len() ==> (#[trigger] cells[j]).0 != id),
            None => forall|j: int| 0 <= j < cells.len() ==> (#[trigger] cells[j]).0 != id,
        },
    decreases cells.len(),
{
    if cells.len() > 0 {
        let head = cells.drop_last();
        a_box_is_found_if_recorded(head, id);
        let last = cells.len() - 1;
        if cells.last().0 == id {
            assert(cells[last] == (id, cells.last().1));
        } else if let Some(cell) = box_of(head, id) {
            let i = choose|i: int|
                0 <= i < head.len() && #[trigger] head[i] == (id, cell) && (forall|j: int| i < j < head.len() ==> (#[trigger] head[j]).0 != id);
            assert(cells[i] == (id, cell));
            assert forall|j: int| i < j < cells.len() implies (#[trigger] cells[j]).0 != id by {
                if j < head.len() {
                    assert(head[j] == cells[j]);
                }
            }
        } else {
            assert forall|j: int| 0 <= j < cells.len() implies (#[trigger] cells[j]).0 != id by {
                if j < head.len() {
                    assert(head[j] == cells[j]);
                }
            }
        }
    }
}

/// A press with neither key held opens on the second click, waits on one of several selected cells, and else
/// selects its cell alone; with a key held it leaves the selection to its owner. A press remembers its cell for
/// the next, but for one that opened.
pub proof fn a_press_does_one_thing<B>(feed: FeedModel<B>, ix: usize, id: EntryId, clicks: usize, again: bool, command: bool, shift: bool)
    ensures
        ({
            let after = pressed(feed, ix, id, clicks, again, command, shift);
            let plain = !command && !shift;
            let double = clicks >= 2 || again;
            let several = feed.selected.contains(id) && feed.selected.len() > 1;
            &&& opens_on_press(clicks, again, command, shift) <==> plain && double
            &&& defers(feed, id, command, shift) <==> plain && several
            &&& plain && double ==> after.selected == feed.selected && after.last_click is None && after.deferred_click == feed.deferred_click
            &&& plain && !double && several ==> after.selected == feed.selected && after.deferred_click == Some((id, ix))
            &&& plain && !double && !several ==> after.selected == seq![id] && after.deferred_click is None
            &&& !plain ==> after.selected == feed.selected && after.deferred_click is None
            &&& !(plain && double) ==> after.last_click == Some(id)
            &&& after.ids == feed.ids
            &&& after.filter == feed.filter
            &&& after.media_filter == feed.media_filter
            &&& after.favorites_only == feed.favorites_only
            &&& after.cells == feed.cells
            &&& after.columns == feed.columns
            &&& after.zoom == feed.zoom
        }),
{
}

/// Releasing a press collapses the selection to the cell it waited on, and else leaves it; either way nothing
/// waits any more. A drag only ends the wait.
pub proof fn releasing_ends_the_wait<B>(feed: FeedModel<B>, id: EntryId, ix: usize)
    ensures
        clicked(feed).deferred_click is None,
        released(feed).deferred_click is None,
        released(feed).selected == feed.selected,
        feed.deferred_click is None ==> clicked(feed).selected == feed.selected && release_change(feed) == SelectionChange::Keep,
        feed.deferred_click == Some((id, ix)) ==> clicked(feed).selected == seq![id] && release_change(feed) == (SelectionChange::Click {
            id,
            index: ix,
            command: false,
            shift: false,
        }),
        clicked(feed).ids == feed.ids,
        clicked(feed).cells == feed.cells,
        clicked(feed).last_click == feed.last_click,
        plain_click(id, ix as int) == (SelectionChange::Click { id, index: ix, command: false, shift: false }),
{
}

/// What a generation's cell shows follows its status: the time an attempt has taken, that it failed or lost its
/// file, or what came of it.
pub proof fn a_cell_shows_how_its_item_stands(item: Generation, now_ms: u64, large_tier: bool, large: Option<Seq<char>>, content: CellContent)
    requires
        item_content(item, now_ms, large_tier, large, content),
    ensures
        content is Generating <==> item.status == Status::Generating,
        content is Failed <==> item.status == Status::Failed,
        content is Missing <==> item.status == Status::Missing,
        content is Audio <==> item.status == Status::Completed && item.media_type == MediaType::Audio,
        content is Thumbnail <==> item.status == Status::Completed && item.media_type != MediaType::Audio && item.thumbnail is Some,
        content is Placeholder <==> item.status == Status::Completed && item.media_type != MediaType::Audio && item.thumbnail is None,
        content matches CellContent::Generating { kind, elapsed_secs } ==> kind == item.media_type && elapsed_secs == elapsed_seconds(
            now_ms,
            item.queued_at_ms,
        ),
        content matches CellContent::Thumbnail(path) ==> path@ == cell_thumbnail((item.thumbnail->0)@, large_tier, large),
{
}

/// What an asset's cell shows: that its file is missing, that it is audio, its thumbnail, or that it has none
/// yet.
pub proof fn an_assets_cell_shows_its_file(asset: Asset, large_tier: bool, large: Option<Seq<char>>, content: CellContent)
    requires
        asset_content(asset, large_tier, large, content),
    ensures
        content is Missing <==> asset.missing,
        content is Audio <==> !asset.missing && asset.kind == MediaType::Audio,
        content is Thumbnail <==> !asset.missing && asset.kind != MediaType::Audio && asset.thumbnail is Some,
        content is Placeholder <==> !asset.missing && asset.kind != MediaType::Audio && asset.thumbnail is None,
        !(content is Generating) && !(content is Failed),
        content matches CellContent::Thumbnail(path) ==> path@ == cell_thumbnail((asset.thumbnail->0)@, large_tier, large),
{
}

/// The large thumbnail is drawn exactly where the cell wants it and it is there.
pub proof fn the_large_thumbnail_waits_to_be_rendered(standard: Seq<char>, large: Seq<char>)
    ensures
        cell_thumbnail(standard, true, Some(large)) == large,
        cell_thumbnail(standard, true, None) == standard,
        cell_thumbnail(standard, false, Some(large)) == standard,
        cell_thumbnail(standard, false, None) == standard,
        settle_time(true) == Some(250u64),
        settle_time(false) is None,
{
}

/// The time an attempt has taken is counted in whole seconds since it was asked for; a clock that ran backwards
/// counts as none.
pub proof fn time_is_counted_in_whole_seconds(now_ms: u64, queued_at_ms: u64)
    ensures
        now_ms < queued_at_ms ==> elapsed_seconds(now_ms, queued_at_ms) == 0,
        now_ms >= queued_at_ms ==> elapsed_seconds(now_ms, queued_at_ms) * 1000 <= now_ms - queued_at_ms < elapsed_seconds(now_ms, queued_at_ms)
            * 1000 + 1000,
{
}

/// A cell's badges are how long its clip runs, where it is one, and HD where it was upscaled, in that order.
pub proof fn badges_say_length_and_upscaling(length: Seq<char>, duration: Option<Seq<char>>, media_type: MediaType, is_upscaled: bool)
    ensures
        badge_texts(duration, media_type, is_upscaled).len() == (if duration is Some && media_type != MediaType::Image {
            1nat
        } else {
            0nat
        }) + (if is_upscaled {
            1nat
        } else {
            0nat
        }),
        is_upscaled ==> badge_texts(duration, media_type, is_upscaled).last() == "HD"@,
        media_type != MediaType::Image ==> badge_texts(Some(length), media_type, is_upscaled)[0] == length,
{
}

/// A cell without a picture has the icon of what it is, and a line where there is something to say.
pub proof fn a_cell_without_a_picture_says_what_it_is(content: CellContent, label: Seq<char>, elapsed: Seq<char>)
    ensures
        cell_glyph(content) is None <==> content is Thumbnail,
        content is Generating ==> cell_glyph(content) == Some("loader-circle"@) && cell_line(content, label, elapsed) == Some(
            label + "  ·  "@ + elapsed,
        ),
        content is Failed ==> cell_glyph(content) == Some("circle-alert"@) && cell_line(content, label, elapsed) == Some("Failed"@),
        content is Missing ==> cell_glyph(content) == Some("file-x"@) && cell_line(content, label, elapsed) == Some("File missing"@),
        content is Audio ==> cell_glyph(content) == Some("audio-lines"@),
        content is Placeholder ==> cell_glyph(content) == Some("image"@),
        content is Audio || content is Placeholder || content is Thumbnail ==> cell_line(content, label, elapsed) is None,
{
}

/// A cell draws its own entry: ringed exactly while it is selected, with the heart of a favorite, which only a
/// generation can be, and its badges.
pub proof fn a_cell_draws_its_own_entry(
    selected: Seq<EntryId>,
    entry: Entry,
    now_ms: u64,
    large_tier: bool,
    large: Option<Seq<char>>,
    body: CellBody,
)
    requires
        body_shows(selected, entry, now_ms, large_tier, large, body),
    ensures
        body.selected <==> selected.contains(entry.key()),
        body.favorite <==> (entry matches Entry::Generation(item) && item.is_favorite),
        entry matches Entry::Generation(item) ==> item_content(item, now_ms, large_tier, large, body.content) && texts(body.badges@)
            == badge_texts(opt_text(item.duration), item.media_type, item.is_upscaled),
        entry matches Entry::Asset(asset) ==> asset_content(asset, large_tier, large, body.content) && texts(body.badges@) == badge_texts(
            opt_text(asset.duration),
            asset.kind,
            false,
        ),
{
}

/// The grid has as many rows as hold all cells, and no more.
pub proof fn the_rows_hold_all_cells(count: nat, columns: usize)
    ensures
        at_least_one(columns) == (if columns == 0 {
            1int
        } else {
            columns as int
        }),
        rows_for(count, columns) * at_least_one(columns) >= count,
        (rows_for(count, columns) - 1) * at_least_one(columns) < count,
{
    let d = at_least_one(columns);
    let x = count + d - 1;
    vstd::arithmetic::div_mod::lemma_fundamental_div_mod(x, d);
    let q = x / d;
    assert(q * d >= count && (q - 1) * d < count) by (nonlinear_arith)
        requires
            x == d * q + x % d,
            0 <= x % d < d,
            x == count + d - 1,
    ;
}

/// The cells drawn are those listed from the row above the topmost visible one to the row below the last, in
/// order, and after them the ones in motion elsewhere; none is drawn twice on that account.
pub proof fn the_cells_around_the_view_are_drawn(start: int, end: int, count: nat, moving: Seq<usize>, m: usize)
    requires
        0 <= start,
        count <= usize::MAX,
    ensures
        drawn_indices(start, end, count as int, moving).contains(m) <==> (start <= m < end && m < count) || (moving.contains(m) && !(start <= m
            < end)),
        ({
            let all = drawn_indices(start, end, count as int, moving);
            exists|n: int|
                0 <= n <= all.len() && (forall|i: int, j: int| 0 <= i < j < n ==> all[i] < all[j]) && sifts(
                    moving,
                    |x: usize| !(start <= x < end),
                    #[trigger] all.skip(n),
                )
        }),
{
    let all = drawn_indices(start, end, count as int, moving);
    let fits = |x: usize| !(start <= x < end);
    let away = |x: usize| x < start || x >= end;
    assert(fits =~= away);
    let from = if start < count {
        start
    } else {
        count as int
    };
    let to = if end < count {
        end
    } else {
        count as int
    };
    let n: int = if from < to {
        to - from
    } else {
        0
    };
    keeping_leaves_out_only_what_does_not_fit(moving, away);
    let rest = kept(moving, away);
    assert(all.skip(n) =~= rest);
    assert forall|i: int, j: int| 0 <= i < j < n implies all[i] < all[j] by {}
    if start <= m < end && m < count {
        assert(all[m - from] == m);
    }
    if rest.contains(m) {
        let k = choose|k: int| 0 <= k < rest.len() && rest[k] == m;
        assert(all[n + k] == m);
    }
    if all.contains(m) {
        let k = choose|k: int| 0 <= k < all.len() && all[k] == m;
        if k >= n {
            assert(rest[k - n] == m);
        }
    }
}

/// The rows drawn are those in view and one more above and below, as far as there is one.
pub proof fn a_row_more_is_drawn_above_and_below(top_row: nat, bottom_row: nat, columns: usize)
    ensures
        window_start(0, columns) == 0,
        top_row > 0 ==> window_start(top_row, columns) == (top_row - 1) * at_least_one(columns),
        window_end(bottom_row, columns) == (bottom_row + 1) * at_least_one(columns),
{
}

/// A cell is drawn from the entry listed at its place, while the library has it; every such cell around the
/// view is in the frame.
pub proof fn a_cell_is_drawn_from_its_entry<B>(lib: Library, feed: FeedModel<B>, window: GridWindow, ix: usize)
    ensures
        drawn_cell(lib, feed.ids, ix) is Some <==> ix < feed.ids.len() && lib.entry_at(feed.ids[ix as int]) is Some,
        drawn_cell(lib, feed.ids, ix) matches Some((at, entry)) ==> at == ix && Some(entry) == lib.entry_at(feed.ids[ix as int]),
        picks(
            drawn_indices(
                window_start(window.top_row as nat, feed.columns),
                window_end(window.bottom_row as nat, feed.columns),
                feed.ids.len() as int,
                window.moving@,
            ),
            |ix: usize| drawn_cell(lib, feed.ids, ix),
            drawn_cells(lib, feed, window),
        ),
{
    picking_goes_entry_by_entry(
        drawn_indices(
            window_start(window.top_row as nat, feed.columns),
            window_end(window.bottom_row as nat, feed.columns),
            feed.ids.len() as int,
            window.moving@,
        ),
        |ix: usize| drawn_cell(lib, feed.ids, ix),
    );
}

/// The toolbar names the feed, counts what it lists, and shows its switches as they stand: Import on the Assets
/// feed, the favorites toggle where every kind of generation is listed, and a zoom button while it leads
/// elsewhere.
pub proof fn the_toolbar_shows_the_feed<B>(lib: Library, feed: FeedModel<B>, zoomed_out: u32, zoomed_in: u32, bar: FeedToolbar)
    requires
        toolbar_for(lib, feed, zoomed_out, zoomed_in, bar),
    ensures
        bar.title@ == title_text(lib, feed.filter),
        bar.count@ == dec(feed.ids.len()) + " items"@,
        bar.imports <==> feed.filter is Assets,
        bar.favorites is Some <==> feed.filter is Library || feed.filter is Album,
        bar.favorites matches Some((icon, on)) ==> on == feed.favorites_only && (on ==> icon@ == "heart-filled"@) && (!on ==> icon@ == "heart"@),
        bar.filtered <==> !(feed.media_filter is All),
        feed.shape is Square ==> bar.shape_icon@ == "square"@,
        feed.shape is AspectRatio ==> bar.shape_icon@ == "ratio"@,
        bar.can_zoom_out <==> zoomed_out != feed.zoom,
        bar.can_zoom_in <==> zoomed_in != feed.zoom,
{
}

/// A feed is called after what it lists: an album by its own name while there is one.
pub proof fn a_feed_is_called_after_what_it_lists(lib: Library, album: AlbumId)
    ensures
        title_text(lib, FeedFilter::Library) == "Library"@,
        title_text(lib, FeedFilter::Favorites) == "Favorites"@,
        title_text(lib, FeedFilter::Assets) == "Assets"@,
        lib.album_place(album) matches Some(i) ==> title_text(lib, FeedFilter::Album(album)) == lib.albums@[i].name@,
        lib.album_place(album) is None ==> title_text(lib, FeedFilter::Album(album)) == "Album"@,
        album_shown(FeedFilter::Album(album)) == Some(album),
        album_shown(FeedFilter::Library) is None && album_shown(FeedFilter::Favorites) is None && album_shown(FeedFilter::Assets) is None,
        has_favorites_toggle(FeedFilter::Library) && has_favorites_toggle(FeedFilter::Album(album)),
        !has_favorites_toggle(FeedFilter::Favorites) && !has_favorites_toggle(FeedFilter::Assets),
{
}

/// An empty feed says why it is empty: that the favorites toggle hides what is there, that nothing was made,
/// marked, added or imported yet, or that the album is gone.
pub proof fn an_empty_feed_says_why(lib: Library, filter: FeedFilter, favorites_only: bool, shortcut: Seq<char>)
    ensures
        favorites_only && (filter is Library || filter is Album) ==> empty_texts(lib, filter, favorites_only, shortcut).1 == "No Favorites Here"@
            && empty_texts(lib, filter, favorites_only, shortcut).0 == "heart"@,
        filter is Library && !favorites_only ==> empty_texts(lib, filter, favorites_only, shortcut) == (
            "images"@,
            "Nothing Here Yet"@,
            "Press "@ + shortcut + " to open the composer"@,
        ),
        filter is Favorites ==> empty_texts(lib, filter, favorites_only, shortcut).1 == "No Favorites Yet"@ && empty_texts(
            lib,
            filter,
            favorites_only,
            shortcut,
        ).0 == "heart"@,
        filter is Assets ==> empty_texts(lib, filter, favorites_only, shortcut).1 == "No Assets Yet"@ && empty_texts(
            lib,
            filter,
            favorites_only,
            shortcut,
        ).0 == "layers"@,
        filter matches FeedFilter::Album(id) ==> (!favorites_only ==> empty_texts(lib, filter, favorites_only, shortcut).1 == (if lib.album_place(
            id,
        ) is Some {
            "Empty Album"@
        } else {
            "Album Unavailable"@
        })),
{
}

/// The first listed entry of a kind is of that kind, and none listed before it is.
pub proof fn the_first_of_a_kind_comes_first(lib: Library, ids: Seq<EntryId>, kind: MediaType)
    requires
        ids.len() <= usize::MAX,
    ensures
        match usize_place(first_of_kind(lib, ids, kind)) {
            Some(i) => i < ids.len() && is_of_kind(lib, ids[i as int], kind) && (forall|j: int|
                0 <= j < i ==> !is_of_kind(lib, #[trigger] ids[j], kind)),
            None => forall|j: int| 0 <= j < ids.len() ==> !is_of_kind(lib, #[trigger] ids[j], kind),
        },
{
    assert forall|fits: spec_fn(EntryId) -> bool| match #[trigger] first_place(ids, fits) {
        Some(i) => 0 <= i < ids.len() && fits(ids[i]) && (forall|j: int| 0 <= j < i ==> !fits(#[trigger] ids[j])),
        None => forall|j: int| 0 <= j < ids.len() ==> !fits(#[trigger] ids[j]),
    } by {
        crate::seqs::lemma_first_from(ids, fits, 0);
    }
}

/// Whether the library has the entry and it is of this kind.
pub open spec fn is_of_kind(lib: Library, id: EntryId, kind: MediaType) -> bool {
    match lib.entry_at(id) {
        Some(entry) => entry.media_kind() == kind,
        None => false,
    }
}

proof fn lemma_dec_is_digits(n: nat)
    ensures
        digits_value(dec(n)) == Some(n),
        dec(n).len() > 0,
        dec(n)[0] != '+',
    decreases n,
{
    reveal_with_fuel(digits_value, 2);
    if n < 10 {
        assert(dec(n).drop_last() =~= Seq::empty());
    } else {
        lemma_dec_is_digits(n / 10);
        assert(dec(n).drop_last() =~= dec(n / 10));
        assert(dec(n)[0] == dec(n / 10)[0]);
        assert(n == (n / 10) * 10 + n % 10);
    }
}

/// A position written in digits names that position, with or without a plus sign ahead of it; a text with
/// anything else in it names none, and neither does an empty one.
pub proof fn a_position_is_written_in_digits(n: usize, s: Seq<char>, i: int)
    ensures
        position_in(dec(n as nat)) == Some(n),
        position_in(seq!['+'] + dec(n as nat)) == Some(n),
        position_in(Seq::<char>::empty()) is None,
        position_in(seq!['+']) is None,
        0 <= i < s.len() && !('0' <= s[i] <= '9') && !(i == 0 && s[0] == '+') ==> position_in(s) is None,
{
    lemma_dec_is_digits(n as nat);
    assert((seq!['+'] + dec(n as nat)).drop_first() =~= dec(n as nat));
    assert(seq!['+'].drop_first() =~= Seq::empty());
    if 0 <= i < s.len() && !('0' <= s[i] <= '9') && !(i == 0 && s[0] == '+') {
        let plus = s[0] == '+';
        let digits = if plus {
            s.drop_first()
        } else {
            s
        };
        let k = if plus {
            i - 1
        } else {
            i
        };
        assert(digits[k] == s[i]);
        if digits_value(digits) is Some {
            lemma_digits_prefix(digits, k + 1);
            assert(digits.take(k + 1).last() == digits[k]);
        }
    }
}

/// A column count that stays as it is leaves the layout alone.
pub proof fn the_same_columns_change_nothing(columns: usize, top_row: int)
    ensures
        relayout_for(columns, columns, top_row) == Relayout::Unchanged,
{
}

/// Delete is about the generations selected where there are any, and all of them; else about the assets, all of
/// them, unless one is used by a generation: then nothing is deleted, and the first such file is named.
pub proof fn delete_takes_the_whole_selection(lib: Library, selected: Seq<EntryId>, answer: DeleteRequest)
    requires
        delete_answer(lib, selected, answer),
    ensures
        ({
            let generations = selected_generation_ids(selected);
            let assets = selected_asset_rows(lib, selected);
            let used = exists|i: int| 0 <= i < assets.len() && (#[trigger] assets[i]).referenced;
            &&& answer is Generations <==> generations.len() > 0
            &&& answer is Nothing <==> generations.len() == 0 && assets.len() == 0
            &&& answer is Refused <==> generations.len() == 0 && used
            &&& answer is Assets <==> generations.len() == 0 && assets.len() > 0 && !used
            &&& answer matches DeleteRequest::Generations { message, ids, .. } ==> ids@ == generations && (generations.len() == 1 ==> message@
                == "Delete this item?"@) && (generations.len() > 1 ==> message@ == "Delete "@ + dec(generations.len()) + " items?"@)
            &&& answer matches DeleteRequest::Assets { message, ids, .. } ==> ids@.len() == assets.len() && (forall|i: int|
                0 <= i < assets.len() ==> #[trigger] ids@[i] == assets[i].id) && (assets.len() == 1 ==> message@ == "Delete this asset?"@) && (
            assets.len() > 1 ==> message@ == "Delete "@ + dec(assets.len()) + " assets?"@)
            &&& answer matches DeleteRequest::Refused(text) ==> exists|i: int|
                0 <= i < assets.len() && (#[trigger] assets[i]).referenced && text@ == assets[i].file_name@
                    + " is used by a generation and can't be deleted."@ && (forall|j: int| 0 <= j < i ==> !(#[trigger] assets[j]).referenced)
        }),
{
    let assets = selected_asset_rows(lib, selected);
    crate::seqs::lemma_first_from(assets, |a: Asset| a.referenced, 0);
    let place = first_place(assets, |a: Asset| a.referenced);
    if place is Some {
        assert(assets[place->0].referenced);
    }
}

/// Each button of the toolbar says what it does.
pub proof fn each_toolbar_button_says_what_it_does()
    ensures
        button_tooltip(ToolbarButton::Import) == "Import files as assets"@,
        button_tooltip(ToolbarButton::Favorites) == "Favorites only"@,
        button_tooltip(ToolbarButton::Filter) == "Filter by type"@,
        button_tooltip(ToolbarButton::Shape) == "Square or full-aspect thumbnails"@,
        button_tooltip(ToolbarButton::ZoomOut) == "Smaller thumbnails"@,
        button_tooltip(ToolbarButton::ZoomIn) == "Larger thumbnails"@,
{
}

/// Delete says what becomes of the files: those of a generation stay as assets, those of assets go to the trash.
pub proof fn delete_says_what_becomes_of_the_files(lib: Library, selected: Seq<EntryId>, answer: DeleteRequest)
    requires
        delete_answer(lib, selected, answer),
    ensures
        answer matches DeleteRequest::Generations { detail, .. } ==> detail@ == "The files stay in the library as assets."@,
        answer matches DeleteRequest::Assets { detail, .. } ==> detail@ == "The files are moved to the library's .majik/trash folder."@,
{
}

/// An empty feed says what would fill it, under its own icon.
pub proof fn an_empty_feed_says_what_would_fill_it(lib: Library, filter: FeedFilter, favorites_only: bool, shortcut: Seq<char>)
    ensures
        favorites_only && (filter is Library || filter is Album) ==> empty_texts(lib, filter, favorites_only, shortcut).2
            == "Click the heart on an item to add it to your favorites, or turn the favorites filter off"@,
        empty_texts(lib, FeedFilter::Favorites, favorites_only, shortcut) == (
            "heart"@,
            "No Favorites Yet"@,
            "Click the heart on an item to add it to your favorites"@,
        ),
        empty_texts(lib, FeedFilter::Assets, favorites_only, shortcut) == (
            "layers"@,
            "No Assets Yet"@,
            "Generated files and the inputs you add to the composer collect here"@,
        ),
        filter matches FeedFilter::Album(id) ==> (!favorites_only ==> empty_texts(lib, filter, favorites_only, shortcut).0 == "layers"@
            && empty_texts(lib, filter, favorites_only, shortcut).2 == (if lib.album_place(id) is Some {
            "Add items from the library using the context menu"@
        } else {
            "This album has been deleted"@
        })),
{
}

} // verus!

//! The feed's context menu, built from the selection alone.

use vstd::prelude::*;

use crate::model::{AlbumId, Asset, Generation, GenerationId, Status};
use crate::seqs::{lemma_picked_ends, lemma_picked_step, picked, picking_goes_entry_by_entry, picks};

verus! {

/// The actions a menu row can send to the feed.
#[derive(Clone, Copy, Debug, PartialEq, Eq, Structural)]
pub enum MenuAction {
    OpenSelection,
    CopyMedia,
    SaveMedia,
    Recreate,
    ToggleFavorite,
    DeleteMedia,
    Retry,
}

/// What choosing a row does.
#[derive(Clone, Debug, PartialEq, Eq)]
pub enum MenuEntryKind {
    Action(MenuAction),
    AddToAlbum(Vec<GenerationId>),
    RemoveFromAlbum(AlbumId, Vec<GenerationId>),
    CancelGeneration(Vec<GenerationId>),
    Separator,
}

/// One row of the context menu as the user sees it: a label and whether it can be chosen.
#[derive(Clone, Debug, PartialEq, Eq)]
pub struct MenuEntry {
    pub label: &'static str,
    pub enabled: bool,
    pub kind: MenuEntryKind,
}

/// Everything the context menu needs to know of the selection.
pub struct MenuInfo {
    pub items: Vec<Generation>,
    pub assets: Vec<Asset>,
    /// No selected asset is referenced by a live generation.
    pub assets_deletable: bool,
    /// The album the feed shows.
    pub album: Option<AlbumId>,
}

/// What a row does, over plain sequences.
pub enum RowKind {
    Action(MenuAction),
    AddToAlbum(Seq<GenerationId>),
    RemoveFromAlbum(AlbumId, Seq<GenerationId>),
    CancelGeneration(Seq<GenerationId>),
    Separator,
}

/// A menu row as contracts speak of it.
pub struct Row {
    pub label: Seq<char>,
    pub enabled: bool,
    pub kind: RowKind,
}

impl View for MenuEntryKind {
    type V = RowKind;

    open spec fn view(&self) -> RowKind {
        match *self {
            MenuEntryKind::Action(a) => RowKind::Action(a),
            MenuEntryKind::AddToAlbum(ids) => RowKind::AddToAlbum(ids@),
            MenuEntryKind::RemoveFromAlbum(album, ids) => RowKind::RemoveFromAlbum(album, ids@),
            MenuEntryKind::CancelGeneration(ids) => RowKind::CancelGeneration(ids@),
            MenuEntryKind::Separator => RowKind::Separator,
        }
    }
}

impl View for MenuEntry {
    type V = Row;

    open spec fn view(&self) -> Row {
        Row { label: self.label@, enabled: self.enabled, kind: self.kind@ }
    }
}

/// The rows of a built menu.
pub open spec fn rows_of(entries: Seq<MenuEntry>) -> Seq<Row> {
    Seq::new(entries.len(), |i: int| entries[i]@)
}

pub open spec fn action_row(label: Seq<char>, action: MenuAction, enabled: bool) -> Row {
    Row { label, enabled, kind: RowKind::Action(action) }
}

pub open spec fn separator_row() -> Row {
    Row { label: ""@, enabled: false, kind: RowKind::Separator }
}

/// Whether there are items and all of them have this status.
pub open spec fn all_are(items: Seq<Generation>, status: Status) -> bool {
    items.len() > 0 && forall|i: int| 0 <= i < items.len() ==> (#[trigger] items[i]).status == status
}

pub open spec fn any_recreatable(items: Seq<Generation>) -> bool {
    exists|i: int| 0 <= i < items.len() && (#[trigger] items[i]).can_recreate
}

pub open spec fn any_retryable(items: Seq<Generation>) -> bool {
    exists|i: int| 0 <= i < items.len() && (#[trigger] items[i]).can_retry
}

/// Toggling the favorite of `items` sets it: at least one of them is not a favorite yet.
pub open spec fn sets_favorite(items: Seq<Generation>) -> bool {
    exists|i: int| 0 <= i < items.len() && !(#[trigger] items[i]).is_favorite
}

pub open spec fn ids_of(items: Seq<Generation>) -> Seq<GenerationId> {
    Seq::new(items.len(), |i: int| items[i].id)
}

/// The ids of the items still generating, in order.
pub open spec fn generating_ids(items: Seq<Generation>) -> Seq<GenerationId> {
    picked(
        items,
        |g: Generation|
            if g.status == Status::Generating {
                Some(g.id)
            } else {
                None
            },
    )
}

pub open spec fn recreate_row(items: Seq<Generation>) -> Seq<Row> {
    if items.len() == 1 {
        seq![action_row("Recreate"@, MenuAction::Recreate, any_recreatable(items))]
    } else {
        Seq::empty()
    }
}

pub open spec fn delete_row(n: nat, enabled: bool) -> Row {
    action_row(
        if n > 1 {
            "Delete Selected"@
        } else {
            "Delete"@
        },
        MenuAction::DeleteMedia,
        enabled,
    )
}

/// The menu of finished generations.
pub open spec fn completed_rows(items: Seq<Generation>, album: Option<AlbumId>) -> Seq<Row> {
    seq![
        action_row("Open"@, MenuAction::OpenSelection, items.len() == 1),
        action_row("Copy"@, MenuAction::CopyMedia, true),
        action_row("Save…"@, MenuAction::SaveMedia, true),
        separator_row(),
    ] + recreate_row(items) + seq![
        separator_row(),
        Row { label: "Add to Album…"@, enabled: true, kind: RowKind::AddToAlbum(ids_of(items)) },
    ] + match album {
        Some(album) => seq![
            Row { label: "Remove from Album"@, enabled: true, kind: RowKind::RemoveFromAlbum(album, ids_of(items)) },
        ],
        None => Seq::empty(),
    } + seq![
        separator_row(),
        action_row(
            if sets_favorite(items) {
                "Favorite"@
            } else {
                "Unfavorite"@
            },
            MenuAction::ToggleFavorite,
            true,
        ),
        delete_row(items.len(), true),
    ]
}

/// The menu of generations that all failed, or whose files all went missing.
pub open spec fn failed_rows(items: Seq<Generation>) -> Seq<Row> {
    seq![
        action_row(
            if items.len() > 1 {
                "Retry Selected"@
            } else {
                "Retry"@
            },
            MenuAction::Retry,
            all_are(items, Status::Failed) || any_retryable(items),
        ),
    ] + recreate_row(items) + seq![delete_row(items.len(), true)]
}

/// The menu of any other selection of generations: some still generating, or a mixture.
pub open spec fn other_rows(items: Seq<Generation>) -> Seq<Row> {
    let generating = generating_ids(items);
    (if generating.len() == 0 {
        Seq::empty()
    } else {
        seq![
            Row {
                label: if generating.len() > 1 {
                    "Cancel Generations"@
                } else {
                    "Cancel Generation"@
                },
                enabled: true,
                kind: RowKind::CancelGeneration(generating),
            },
        ]
    }) + recreate_row(items) + seq![delete_row(items.len(), true)]
}

/// The menu of a selection of generations.
pub open spec fn generation_rows(items: Seq<Generation>, album: Option<AlbumId>) -> Seq<Row> {
    if all_are(items, Status::Completed) {
        completed_rows(items, album)
    } else if all_are(items, Status::Failed) || all_are(items, Status::Missing) {
        failed_rows(items)
    } else {
        other_rows(items)
    }
}

/// The menu of a selection of assets.
pub open spec fn asset_rows(assets: Seq<Asset>, deletable: bool) -> Seq<Row> {
    let exportable = exists|i: int| 0 <= i < assets.len() && (#[trigger] assets[i]).file is Some;
    seq![
        action_row("Copy"@, MenuAction::CopyMedia, exportable),
        action_row("Save…"@, MenuAction::SaveMedia, exportable),
        separator_row(),
        delete_row(assets.len(), deletable),
    ]
}

/// The menu of generations and assets together.
pub open spec fn export_rows() -> Seq<Row> {
    seq![action_row("Copy"@, MenuAction::CopyMedia, true), action_row("Save…"@, MenuAction::SaveMedia, true)]
}

/// The menu of whatever is selected.
pub open spec fn selection_rows(info: MenuInfo) -> Seq<Row> {
    if info.items@.len() > 0 && info.assets@.len() == 0 {
        generation_rows(info.items@, info.album)
    } else if info.items@.len() == 0 && info.assets@.len() > 0 {
        asset_rows(info.assets@, info.assets_deletable)
    } else if info.items@.len() > 0 {
        export_rows()
    } else {
        Seq::empty()
    }
}

impl MenuEntry {
    pub fn action(label: &'static str, action: MenuAction) -> (r: MenuEntry)
        ensures
            r@ == action_row(label@, action, true),
    {
        MenuEntry { label, enabled: true, kind: MenuEntryKind::Action(action) }
    }

    pub fn enabled(self, enabled: bool) -> (r: MenuEntry)
        ensures
            r@ == (Row { enabled, ..self@ }),
    {
        MenuEntry { label: self.label, enabled, kind: self.kind }
    }

    pub fn custom(label: &'static str, kind: MenuEntryKind) -> (r: MenuEntry)
        ensures
            r@ == (Row { label: label@, enabled: true, kind: kind@ }),
    {
        MenuEntry { label, enabled: true, kind }
    }

    pub fn separator() -> (r: MenuEntry)
        ensures
            r@ == separator_row(),
    {
        MenuEntry { label: "", enabled: false, kind: MenuEntryKind::Separator }
    }
}

/// Whether there are items and all of them have this status.
fn all_have(items: &Vec<Generation>, status: Status) -> (r: bool)
    ensures
        r == all_are(items@, status),
{
    let mut i: usize = 0;
    while i < items.len()
        invariant
            i <= items.len(),
            forall|k: int| 0 <= k < i ==> (#[trigger] items@[k]).status == status,
        decreases items.len() - i,
    {
        if items[i].status != status {
            assert(items@[i as int].status != status);
            return false;
        }
        i += 1;
    }
    items.len() > 0
}

fn some_recreatable(items: &Vec<Generation>) -> (r: bool)
    ensures
        r == any_recreatable(items@),
{
    let mut i: usize = 0;
    while i < items.len()
        invariant
            i <= items.len(),
            forall|k: int| 0 <= k < i ==> !(#[trigger] items@[k]).can_recreate,
        decreases items.len() - i,
    {
        if items[i].can_recreate {
            assert(items@[i as int].can_recreate);
            return true;
        }
        i += 1;
    }
    false
}

fn some_retryable(items: &Vec<Generation>) -> (r: bool)
    ensures
        r == any_retryable(items@),
{
    let mut i: usize = 0;
    while i < items.len()
        invariant
            i <= items.len(),
            forall|k: int| 0 <= k < i ==> !(#[trigger] items@[k]).can_retry,
        decreases items.len() - i,
    {
        if items[i].can_retry {
            assert(items@[i as int].can_retry);
            return true;
        }
        i += 1;
    }
    false
}

/// Whether toggling the favorite of `items` sets it: not all of them are favorites yet.
pub fn should_set_favorite(items: &Vec<Generation>) -> (r: bool)
    ensures
        r == sets_favorite(items@),
{
    let mut i: usize = 0;
    while i < items.len()
        invariant
            i <= items.len(),
            forall|k: int| 0 <= k < i ==> (#[trigger] items@[k]).is_favorite,
        decreases items.len() - i,
    {
        if !items[i].is_favorite {
            assert(!items@[i as int].is_favorite);
            return true;
        }
        i += 1;
    }
    false
}

/// The ids of `items`, in order.
pub fn item_ids(items: &Vec<Generation>) -> (r: Vec<GenerationId>)
    ensures
        r@ == ids_of(items@),
{
    let mut out: Vec<GenerationId> = Vec::new();
    let mut i: usize = 0;
    while i < items.len()
        invariant
            i <= items.len(),
            out@ == ids_of(items@.take(i as int)),
        decreases items.len() - i,
    {
        out.push(items[i].id);
        i += 1;
        assert(out@ =~= ids_of(items@.take(i as int)));
    }
    assert(items@.take(items@.len() as int) =~= items@);
    out
}

fn still_generating(items: &Vec<Generation>) -> (r: Vec<GenerationId>)
    ensures
        r@ == generating_ids(items@),
{
    let ghost pick = |g: Generation|
        if g.status == Status::Generating {
            Some(g.id)
        } else {
            None
        };
    let mut out: Vec<GenerationId> = Vec::new();
    let mut i: usize = 0;
    proof {
        lemma_picked_ends(items@, pick);
    }
    while i < items.len()
        invariant
            i <= items.len(),
            pick == (|g: Generation|
                if g.status == Status::Generating {
                    Some(g.id)
                } else {
                    None
                }),
            out@ == picked(items@.take(i as int), pick),
        decreases items.len() - i,
    {
        proof {
            lemma_picked_step(items@, pick, i as int);
        }
        if items[i].status == Status::Generating {
            out.push(items[i].id);
        }
        i += 1;
    }
    proof {
        lemma_picked_ends(items@, pick);
    }
    out
}

fn delete_entry(n: usize) -> (r: MenuEntry)
    ensures
        r@ == delete_row(n as nat, true),
{
    if n > 1 {
        MenuEntry::action("Delete Selected", MenuAction::DeleteMedia)
    } else {
        MenuEntry::action("Delete", MenuAction::DeleteMedia)
    }
}

/// The menu for a selection of assets: the export actions and Delete, which only applies while no
/// live generation references any of them. Nothing about the composer: an asset is dragged there.
pub fn asset_menu_entries(assets: &Vec<Asset>, deletable: bool) -> (r: Vec<MenuEntry>)
    ensures
        rows_of(r@) == asset_rows(assets@, deletable),
{
    let mut exportable = false;
    let mut i: usize = 0;
    while i < assets.len()
        invariant
            i <= assets.len(),
            exportable == exists|k: int| 0 <= k < i && (#[trigger] assets@[k]).file is Some,
        decreases assets.len() - i,
    {
        if assets[i].file.is_some() {
            assert(assets@[i as int].file is Some);
            exportable = true;
        }
        i += 1;
    }
    let mut entries: Vec<MenuEntry> = Vec::new();
    entries.push(MenuEntry::action("Copy", MenuAction::CopyMedia).enabled(exportable));
    entries.push(MenuEntry::action("Save…", MenuAction::SaveMedia).enabled(exportable));
    entries.push(MenuEntry::separator());
    entries.push(delete_entry(assets.len()).enabled(deletable));
    assert(rows_of(entries@) =~= asset_rows(assets@, deletable));
    entries
}

/// The menu for generations and assets selected together: the export actions alone.
pub fn export_menu_entries() -> (r: Vec<MenuEntry>)
    ensures
        rows_of(r@) == export_rows(),
{
    let mut entries: Vec<MenuEntry> = Vec::new();
    entries.push(MenuEntry::action("Copy", MenuAction::CopyMedia));
    entries.push(MenuEntry::action("Save…", MenuAction::SaveMedia));
    assert(rows_of(entries@) =~= export_rows());
    entries
}

/// The context menu for whatever is selected: generations, assets, or both.
pub fn selection_menu_entries(info: &MenuInfo) -> (r: Vec<MenuEntry>)
    ensures
        rows_of(r@) == selection_rows(*info),
{
    if info.items.len() > 0 {
        if info.assets.len() == 0 {
            context_menu_entries(&info.items, info.album)
        } else {
            export_menu_entries()
        }
    } else if info.assets.len() > 0 {
        asset_menu_entries(&info.assets, info.assets_deletable)
    } else {
        let none: Vec<MenuEntry> = Vec::new();
        assert(rows_of(none@) =~= Seq::empty());
        none
    }
}

/// The feed's context menu. It has Open but never Reveal in Finder: the library folder belongs to
/// the app, and files leave it through Save, Copy and drag. Rows that don't apply to the selection
/// stay visible but disabled (single selection), except that a multi-selection drops Recreate
/// entirely. A single generating item offers Cancel and, since its request is already stored,
/// Recreate too, so a variation can be queued without waiting for it. Items whose file went missing
/// get Retry, which regenerates in place, and Delete, like failed ones; a single one of either also
/// gets Recreate, so the request can be changed in the composer before it runs again.
pub fn context_menu_entries(items: &Vec<Generation>, in_album: Option<AlbumId>) -> (r: Vec<MenuEntry>)
    ensures
        rows_of(r@) == generation_rows(items@, in_album),
{
    let n: usize = items.len();
    let mut entries: Vec<MenuEntry> = Vec::new();
    if all_have(items, Status::Completed) {
        entries.push(MenuEntry::action("Open", MenuAction::OpenSelection).enabled(n == 1));
        entries.push(MenuEntry::action("Copy", MenuAction::CopyMedia));
        entries.push(MenuEntry::action("Save…", MenuAction::SaveMedia));
        entries.push(MenuEntry::separator());
        if n == 1 {
            entries.push(MenuEntry::action("Recreate", MenuAction::Recreate).enabled(some_recreatable(items)));
        }
        entries.push(MenuEntry::separator());
        entries.push(MenuEntry::custom("Add to Album…", MenuEntryKind::AddToAlbum(item_ids(items))));
        if let Some(album) = in_album {
            entries.push(MenuEntry::custom("Remove from Album", MenuEntryKind::RemoveFromAlbum(album, item_ids(items))));
        }
        entries.push(MenuEntry::separator());
        entries.push(
            MenuEntry::action(
                if should_set_favorite(items) {
                    "Favorite"
                } else {
                    "Unfavorite"
                },
                MenuAction::ToggleFavorite,
            ),
        );
        entries.push(delete_entry(n));
        assert(rows_of(entries@) =~= completed_rows(items@, in_album));
    } else {
        let all_failed = all_have(items, Status::Failed);
        if all_failed || all_have(items, Status::Missing) {
            entries.push(
                MenuEntry::action(
                    if n > 1 {
                        "Retry Selected"
                    } else {
                        "Retry"
                    },
                    MenuAction::Retry,
                ).enabled(all_failed || some_retryable(items)),
            );
            if n == 1 {
                entries.push(MenuEntry::action("Recreate", MenuAction::Recreate).enabled(some_recreatable(items)));
            }
            entries.push(delete_entry(n));
            assert(rows_of(entries@) =~= failed_rows(items@));
        } else {
            let generating = still_generating(items);
            if generating.len() > 0 {
                let label = if generating.len() > 1 {
                    "Cancel Generations"
                } else {
                    "Cancel Generation"
                };
                entries.push(MenuEntry::custom(label, MenuEntryKind::CancelGeneration(generating)));
            }
            if n == 1 {
                entries.push(MenuEntry::action("Recreate", MenuAction::Recreate).enabled(some_recreatable(items)));
            }
            entries.push(delete_entry(n));
            assert(rows_of(entries@) =~= other_rows(items@));
        }
    }
    entries
}

/// Whether a menu has a row for `action`.
pub open spec fn has_action(rows: Seq<Row>, action: MenuAction) -> bool {
    exists|i: int| 0 <= i < rows.len() && (#[trigger] rows[i]).kind == RowKind::Action(action)
}

/// A selection of more than one generation never offers Recreate.
pub proof fn a_multi_selection_has_no_recreate(items: Seq<Generation>, album: Option<AlbumId>)
    requires
        items.len() > 1,
    ensures
        !has_action(generation_rows(items, album), MenuAction::Recreate),
{
}

/// A single generation always has a Recreate row, which can be chosen when its request is stored.
pub proof fn a_single_generation_shows_recreate(item: Generation, album: Option<AlbumId>)
    ensures
        generation_rows(seq![item], album).contains(action_row("Recreate"@, MenuAction::Recreate, item.can_recreate)),
{
    let items = seq![item];
    let rows = generation_rows(items, album);
    assert(items[0] == item);
    assert(any_recreatable(items) == item.can_recreate);
    let row = action_row("Recreate"@, MenuAction::Recreate, item.can_recreate);
    if all_are(items, Status::Completed) {
        assert(rows[4] == row);
    } else if all_are(items, Status::Failed) || all_are(items, Status::Missing) {
        assert(rows[1] == row);
    } else if generating_ids(items).len() > 0 {
        assert(rows[1] == row);
    } else {
        assert(rows[0] == row);
    }
}

/// Whatever generations are selected, the menu's last row deletes them and can be chosen.
pub proof fn generations_can_always_be_deleted(items: Seq<Generation>, album: Option<AlbumId>)
    requires
        items.len() > 0,
    ensures
        generation_rows(items, album).len() > 0,
        generation_rows(items, album).last() == delete_row(items.len(), true),
{
}

/// Assets can be deleted exactly while none of them is referenced, and a selection that mixes
/// generations with assets deletes nothing.
pub proof fn assets_are_deleted_only_unreferenced(info: MenuInfo)
    requires
        info.assets@.len() > 0,
    ensures
        info.items@.len() == 0 ==> selection_rows(info).last() == delete_row(info.assets@.len(), info.assets_deletable),
        info.items@.len() > 0 ==> !has_action(selection_rows(info), MenuAction::DeleteMedia),
{
}

/// Cancel is offered exactly when something selected is generating, and names all of it.
pub proof fn cancel_names_what_is_generating(items: Seq<Generation>, album: Option<AlbumId>)
    ensures
        forall|i: int|
            0 <= i < generation_rows(items, album).len() && (#[trigger] generation_rows(items, album)[i]).kind is CancelGeneration
                ==> generation_rows(items, album)[i].kind == RowKind::CancelGeneration(generating_ids(items)),
        (exists|k: int| 0 <= k < items.len() && (#[trigger] items[k]).status == Status::Generating) ==> exists|i: int|
            0 <= i < generation_rows(items, album).len() && (#[trigger] generation_rows(items, album)[i]).kind
                == RowKind::CancelGeneration(generating_ids(items)),
{
    if exists|k: int| 0 <= k < items.len() && (#[trigger] items[k]).status == Status::Generating {
        let k = choose|k: int| 0 <= k < items.len() && (#[trigger] items[k]).status == Status::Generating;
        let pick = |g: Generation|
            if g.status == Status::Generating {
                Some(g.id)
            } else {
                None
            };
        crate::seqs::lemma_picked_has(items, pick, k);
        assert(generating_ids(items).len() > 0);
        assert(generation_rows(items, album)[0].kind == RowKind::CancelGeneration(generating_ids(items)));
    }
}


/// The album rows speak of the whole selection: Add to Album and Remove from Album name the id of every
/// generation selected, in order, and what is removed is removed from the album the feed shows. They are
/// there exactly for a finished selection, Remove only in an album.
pub proof fn album_rows_name_the_whole_selection(items: Seq<Generation>, album: Option<AlbumId>, k: int)
    requires
        0 <= k < generation_rows(items, album).len(),
    ensures
        generation_rows(items, album)[k].kind matches RowKind::AddToAlbum(ids) ==> ids.len() == items.len() && (forall|i: int|
            0 <= i < items.len() ==> #[trigger] ids[i] == items[i].id),
        generation_rows(items, album)[k].kind matches RowKind::RemoveFromAlbum(from, ids) ==> album == Some(from) && ids.len()
            == items.len() && (forall|i: int| 0 <= i < items.len() ==> #[trigger] ids[i] == items[i].id),
        generation_rows(items, album)[k].kind is AddToAlbum || generation_rows(items, album)[k].kind is RemoveFromAlbum ==> items.len() > 0
            && generation_rows(items, album)[k].enabled && (forall|i: int|
            0 <= i < items.len() ==> (#[trigger] items[i]).status == Status::Completed),
{
}

/// A finished selection can be filed into an album, and in an album also taken out of it.
pub proof fn a_finished_selection_can_be_filed(items: Seq<Generation>, album: Option<AlbumId>)
    requires
        items.len() > 0,
        forall|i: int| 0 <= i < items.len() ==> (#[trigger] items[i]).status == Status::Completed,
    ensures
        exists|k: int|
            0 <= k < generation_rows(items, album).len() && (#[trigger] generation_rows(items, album)[k]).kind is AddToAlbum && generation_rows(
                items,
                album,
            )[k].label == "Add to Album…"@,
        (exists|k: int|
            0 <= k < generation_rows(items, album).len() && (#[trigger] generation_rows(items, album)[k]).kind is RemoveFromAlbum
                && generation_rows(items, album)[k].label == "Remove from Album"@) <==> album is Some,
{
    let rows = generation_rows(items, album);
    let n: int = if items.len() == 1 {
        6
    } else {
        5
    };
    assert(rows[n].kind is AddToAlbum && rows[n].label == "Add to Album…"@);
    if album is Some {
        assert(rows[n + 1].kind is RemoveFromAlbum && rows[n + 1].label == "Remove from Album"@);
    }
}

/// What a row of the menu of generations says and whether it can be chosen follows from the selection: Open
/// takes one finished item, Copy and Save any that are finished, Recreate one whose request is stored, the
/// favorite is set while one of the items is none yet, Retry is for what failed or went missing, and Delete is
/// always there.
pub proof fn each_row_applies_to_the_selection(items: Seq<Generation>, album: Option<AlbumId>, k: int)
    requires
        items.len() > 0,
        0 <= k < generation_rows(items, album).len(),
    ensures
        ({
            let row = generation_rows(items, album)[k];
            let finished = forall|i: int| 0 <= i < items.len() ==> (#[trigger] items[i]).status == Status::Completed;
            let failed = forall|i: int| 0 <= i < items.len() ==> (#[trigger] items[i]).status == Status::Failed;
            let missing = forall|i: int| 0 <= i < items.len() ==> (#[trigger] items[i]).status == Status::Missing;
            match row.kind {
                RowKind::Action(MenuAction::OpenSelection) => finished && row.label == "Open"@ && row.enabled == (items.len() == 1),
                RowKind::Action(MenuAction::CopyMedia) => finished && row.label == "Copy"@ && row.enabled,
                RowKind::Action(MenuAction::SaveMedia) => finished && row.label == "Save…"@ && row.enabled,
                RowKind::Action(MenuAction::Recreate) => items.len() == 1 && row.label == "Recreate"@ && row.enabled == items[0].can_recreate,
                RowKind::Action(MenuAction::ToggleFavorite) => {
                    &&& finished
                    &&& row.enabled
                    &&& row.label == "Unfavorite"@ <==> forall|i: int| 0 <= i < items.len() ==> (#[trigger] items[i]).is_favorite
                    &&& row.label == "Favorite"@ <==> exists|i: int| 0 <= i < items.len() && !(#[trigger] items[i]).is_favorite
                },
                RowKind::Action(MenuAction::Retry) => {
                    &&& failed || missing
                    &&& row.label == (if items.len() > 1 {
                        "Retry Selected"@
                    } else {
                        "Retry"@
                    })
                    &&& row.enabled <==> failed || exists|i: int| 0 <= i < items.len() && (#[trigger] items[i]).can_retry
                },
                RowKind::Action(MenuAction::DeleteMedia) => {
                    &&& k == generation_rows(items, album).len() - 1
                    &&& row.enabled
                    &&& row.label == (if items.len() > 1 {
                        "Delete Selected"@
                    } else {
                        "Delete"@
                    })
                },
                RowKind::CancelGeneration(ids) => {
                    &&& k == 0
                    &&& row.enabled
                    &&& ids.len() > 0
                    &&& row.label == (if ids.len() > 1 {
                        "Cancel Generations"@
                    } else {
                        "Cancel Generation"@
                    })
                },
                RowKind::Separator => finished && !row.enabled && row.label == ""@,
                RowKind::AddToAlbum(_) => finished && row.enabled,
                RowKind::RemoveFromAlbum(_, _) => finished && row.enabled,
            }
        }),
{
    reveal_strlit("Favorite");
    reveal_strlit("Unfavorite");
    assert("Favorite"@.len() != "Unfavorite"@.len());
    if items.len() == 1 {
        assert(any_recreatable(items) == items[0].can_recreate);
    }
}

/// A finished selection can be opened, copied, saved and made a favorite; one that failed or went missing can
/// be retried; and nothing else can.
pub proof fn each_action_has_its_row(items: Seq<Generation>, album: Option<AlbumId>)
    requires
        items.len() > 0,
    ensures
        ({
            let rows = generation_rows(items, album);
            let finished = forall|i: int| 0 <= i < items.len() ==> (#[trigger] items[i]).status == Status::Completed;
            let failed = forall|i: int| 0 <= i < items.len() ==> (#[trigger] items[i]).status == Status::Failed;
            let missing = forall|i: int| 0 <= i < items.len() ==> (#[trigger] items[i]).status == Status::Missing;
            &&& has_action(rows, MenuAction::OpenSelection) <==> finished
            &&& has_action(rows, MenuAction::CopyMedia) <==> finished
            &&& has_action(rows, MenuAction::SaveMedia) <==> finished
            &&& has_action(rows, MenuAction::ToggleFavorite) <==> finished
            &&& has_action(rows, MenuAction::Retry) <==> failed || missing
            &&& has_action(rows, MenuAction::Recreate) <==> items.len() == 1
            &&& has_action(rows, MenuAction::DeleteMedia)
        }),
{
    let rows = generation_rows(items, album);
    assert(rows[rows.len() - 1].kind == RowKind::Action(MenuAction::DeleteMedia));
    assert(items[0] == items[0]);
    if all_are(items, Status::Completed) {
        assert(rows[0].kind == RowKind::Action(MenuAction::OpenSelection));
        assert(rows[1].kind == RowKind::Action(MenuAction::CopyMedia));
        assert(rows[2].kind == RowKind::Action(MenuAction::SaveMedia));
        assert(rows[rows.len() - 2].kind == RowKind::Action(MenuAction::ToggleFavorite));
        if items.len() == 1 {
            assert(rows[4].kind == RowKind::Action(MenuAction::Recreate));
        }
    } else if all_are(items, Status::Failed) || all_are(items, Status::Missing) {
        assert(rows[0].kind == RowKind::Action(MenuAction::Retry));
        if items.len() == 1 {
            assert(rows[1].kind == RowKind::Action(MenuAction::Recreate));
        }
    } else if items.len() == 1 {
        assert(rows[rows.len() - 2].kind == RowKind::Action(MenuAction::Recreate));
    }
}

/// Cancel names the generations still running, each of them and none other, in order.
pub proof fn cancel_names_exactly_the_running_ones(items: Seq<Generation>)
    ensures
        picks(
            items,
            |g: Generation|
                if g.status == Status::Generating {
                    Some(g.id)
                } else {
                    None
                },
            generating_ids(items),
        ),
{
    picking_goes_entry_by_entry(
        items,
        |g: Generation|
            if g.status == Status::Generating {
                Some(g.id)
            } else {
                None
            },
    );
}

/// Setting a favorite is for a selection that holds one that is none yet; the ids of a selection are those of
/// its items, in order.
pub proof fn toggling_favorites_evens_them_out(items: Seq<Generation>)
    ensures
        !sets_favorite(items) <==> forall|i: int| 0 <= i < items.len() ==> (#[trigger] items[i]).is_favorite,
        ids_of(items).len() == items.len(),
        forall|i: int| 0 <= i < items.len() ==> #[trigger] ids_of(items)[i] == items[i].id,
{
}

/// The menu follows what is selected: generations alone get their own menu, in the album the feed shows;
/// assets alone are copied, saved and, while unreferenced, deleted; both together are only copied and saved.
pub proof fn the_menu_follows_what_is_selected(info: MenuInfo)
    ensures
        info.items@.len() > 0 && info.assets@.len() == 0 ==> selection_rows(info) == generation_rows(info.items@, info.album),
        info.items@.len() > 0 && info.assets@.len() > 0 ==> {
            &&& selection_rows(info).len() == 2
            &&& selection_rows(info)[0] == (Row { label: "Copy"@, enabled: true, kind: RowKind::Action(MenuAction::CopyMedia) })
            &&& selection_rows(info)[1] == (Row { label: "Save…"@, enabled: true, kind: RowKind::Action(MenuAction::SaveMedia) })
        },
        info.items@.len() == 0 && info.assets@.len() > 0 ==> {
            let file = exists|i: int| 0 <= i < info.assets@.len() && (#[trigger] info.assets@[i]).file is Some;
            &&& selection_rows(info).len() == 4
            &&& selection_rows(info)[0] == (Row { label: "Copy"@, enabled: file, kind: RowKind::Action(MenuAction::CopyMedia) })
            &&& selection_rows(info)[1] == (Row { label: "Save…"@, enabled: file, kind: RowKind::Action(MenuAction::SaveMedia) })
            &&& selection_rows(info)[2].kind is Separator
            &&& selection_rows(info)[3] == (Row {
                label: if info.assets@.len() > 1 {
                    "Delete Selected"@
                } else {
                    "Delete"@
                },
                enabled: info.assets_deletable,
                kind: RowKind::Action(MenuAction::DeleteMedia),
            })
        },
        info.items@.len() == 0 && info.assets@.len() == 0 ==> selection_rows(info).len() == 0,
{
}

/// The model of a menu is its entries, one by one.
pub proof fn a_menu_is_its_entries(entries: Seq<MenuEntry>, i: int)
    requires
        0 <= i < entries.len(),
    ensures
        rows_of(entries).len() == entries.len(),
        rows_of(entries)[i] == entries[i]@,
        entries[i]@.label == entries[i].label@,
        entries[i]@.enabled == entries[i].enabled,
        match entries[i].kind {
            MenuEntryKind::Action(action) => entries[i]@.kind == RowKind::Action(action),
            MenuEntryKind::AddToAlbum(ids) => entries[i]@.kind matches RowKind::AddToAlbum(all) && all == ids@,
            MenuEntryKind::RemoveFromAlbum(album, ids) => entries[i]@.kind matches RowKind::RemoveFromAlbum(from, all) && from == album && all
                == ids@,
            MenuEntryKind::CancelGeneration(ids) => entries[i]@.kind matches RowKind::CancelGeneration(all) && all == ids@,
            MenuEntryKind::Separator => entries[i]@.kind is Separator,
        },
{
}

} // verus!

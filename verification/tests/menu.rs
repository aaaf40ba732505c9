//! One test per selection shape the context menu distinguishes. Each checks that the rows a user can
//! act on are exactly the relevant ones: `present` must be there and enabled, `absent` must be
//! missing or disabled.

use majik_views::feed::FeedView;
use majik_views::menu::{
    asset_menu_entries, context_menu_entries, export_menu_entries, selection_menu_entries, MenuAction, MenuEntry, MenuEntryKind, MenuInfo,
};
use majik_views::model::{
    AlbumId, Asset, AssetId, EntryId, FeedFilter, Generation, GenerationId, Library, MediaType, Status, ThumbnailShape,
};

#[derive(Clone, Copy)]
struct Seed {
    media_type: MediaType,
    status: Status,
    favorite: bool,
    upscaled: bool,
    recreatable: bool,
}

fn seed() -> Seed {
    Seed { media_type: MediaType::Image, status: Status::Completed, favorite: false, upscaled: false, recreatable: true }
}

fn item(id: u64, seed: Seed) -> Generation {
    let has_file = seed.status == Status::Completed;
    Generation {
        id: GenerationId(id),
        media_type: seed.media_type,
        tool: None,
        status: seed.status,
        is_favorite: seed.favorite,
        is_upscaled: seed.upscaled,
        can_recreate: seed.recreatable,
        prompt: None,
        can_retry: seed.recreatable && (seed.status == Status::Failed || seed.status == Status::Missing),
        path: if has_file || seed.status == Status::Missing { Some(format!("/library/{id}.png")) } else { None },
        file: if has_file { Some(format!("/library/{id}.png")) } else { None },
        file_name: format!("{id}.png"),
        thumbnail: None,
        output_asset_id: if has_file { Some(AssetId(id + 1000)) } else { None },
        duration: None,
        queued_at_ms: 0,
        model_name: None,
        width: None,
        height: None,
        file_size: None,
        created: "today".to_string(),
        error: None,
    }
}

fn asset(id: u64, kind: MediaType, referenced: bool) -> Asset {
    Asset {
        id: AssetId(id),
        kind,
        path: format!("/library/assets/{id}"),
        missing: false,
        file: Some(format!("/library/assets/{id}")),
        file_name: format!("{id}.png"),
        thumbnail: None,
        duration: None,
        width: None,
        height: None,
        file_size: None,
        created_at_ms: 0,
        created: "today".to_string(),
        referenced,
        produced_by: None,
    }
}

/// The menu the feed builds with exactly `items` selected, on the feed of `filter`.
fn menu_in(items: Vec<Generation>, filter: FeedFilter) -> Vec<MenuEntry> {
    let ids: Vec<EntryId> = items.iter().map(|i| EntryId::Generation(i.id)).collect();
    let n = items.len();
    let lib = Library { generations: items, assets: Vec::new(), albums: Vec::new() };
    let mut feed: FeedView<()> = FeedView::new(160, ThumbnailShape::Square, 4);
    feed.set_filter(filter);
    feed.refresh(ids, 0, false);
    feed.select_all();
    let info = feed.menu_info(&lib);
    assert_eq!(info.items.len(), n, "menu is built for the whole selection");
    selection_menu_entries(&info)
}

fn menu_for(items: Vec<Generation>) -> Vec<MenuEntry> {
    menu_in(items, FeedFilter::Library)
}

/// The menu of assets selected on the Assets feed.
fn assets_menu(assets: Vec<Asset>) -> Vec<MenuEntry> {
    let ids: Vec<EntryId> = assets.iter().map(|a| EntryId::Asset(a.id)).collect();
    let lib = Library { generations: Vec::new(), assets, albums: Vec::new() };
    let mut feed: FeedView<()> = FeedView::new(160, ThumbnailShape::Square, 4);
    feed.set_filter(FeedFilter::Assets);
    feed.refresh(ids, 0, false);
    feed.select_all();
    selection_menu_entries(&feed.menu_info(&lib))
}

/// Labels the user can choose.
fn actionable(entries: &[MenuEntry]) -> Vec<&'static str> {
    entries.iter().filter(|e| e.enabled && e.kind != MenuEntryKind::Separator).map(|e| e.label).collect()
}

fn assert_menu(entries: &[MenuEntry], present: &[&str], absent: &[&str]) {
    let actionable = actionable(entries);
    for label in present {
        assert!(actionable.iter().any(|l| l == label), "expected {label:?} to be actionable; menu = {actionable:?}");
    }
    for label in absent {
        assert!(!actionable.iter().any(|l| l == label), "expected {label:?} to be absent or disabled; menu = {actionable:?}");
    }
}

const IMAGE_FULL: &[&str] = &["Open", "Copy", "Save…", "Recreate", "Add to Album…", "Favorite", "Delete"];

// ----- single, completed ------------------------------------------------

#[test]
fn single_image() {
    let entries = menu_for(vec![item(1, seed())]);
    assert_menu(&entries, IMAGE_FULL, &["Remove from Album", "Unfavorite", "Retry", "Cancel Generation", "Delete Selected", "Retry Selected"]);
    assert_eq!(actionable(&entries), IMAGE_FULL, "in this order");
    assert_eq!(entries.len(), 10, "seven rows in four groups");
}

#[test]
fn single_upscaled_image() {
    let entries = menu_for(vec![item(1, Seed { upscaled: true, ..seed() })]);
    // An upscale stores its request like any generation, so it recreates (onto the Upscale tab).
    assert_menu(&entries, &["Recreate", "Delete"], &["Retry"]);
}

#[test]
fn single_imported_image() {
    let entries = menu_for(vec![item(1, Seed { recreatable: false, ..seed() })]);
    assert_menu(&entries, &["Open", "Copy", "Delete"], &["Recreate"]);
}

#[test]
fn single_video() {
    let entries = menu_for(vec![item(1, Seed { media_type: MediaType::Video, ..seed() })]);
    assert_menu(&entries, &["Open", "Copy", "Save…", "Recreate", "Add to Album…", "Favorite", "Delete"], &["Retry", "Cancel Generation"]);
}

#[test]
fn single_audio() {
    let entries = menu_for(vec![item(1, Seed { media_type: MediaType::Audio, ..seed() })]);
    assert_menu(&entries, &["Open", "Copy", "Save…", "Recreate", "Add to Album…", "Favorite", "Delete"], &["Retry", "Cancel Generation"]);
}

#[test]
fn single_favorite_image() {
    let entries = menu_for(vec![item(1, Seed { favorite: true, ..seed() })]);
    assert_menu(&entries, &["Unfavorite"], &["Favorite"]);
}

#[test]
fn single_image_inside_an_album() {
    let entries = menu_in(vec![item(1, seed())], FeedFilter::Album(AlbumId(5)));
    assert_menu(&entries, &["Add to Album…", "Remove from Album"], &[]);
    let removal = entries.iter().find(|e| e.label == "Remove from Album").expect("the row is there");
    assert_eq!(removal.kind, MenuEntryKind::RemoveFromAlbum(AlbumId(5), vec![GenerationId(1)]));
}

#[test]
fn single_image_outside_an_album_cannot_be_removed_from_one() {
    let entries = menu_for(vec![item(1, seed())]);
    assert_menu(&entries, &["Add to Album…"], &["Remove from Album"]);
}

// ----- single, not completed --------------------------------------------

#[test]
fn single_failed() {
    let entries = menu_for(vec![item(1, Seed { status: Status::Failed, ..seed() })]);
    assert_menu(
        &entries,
        &["Retry", "Recreate", "Delete"],
        &["Retry Selected", "Delete Selected", "Open", "Copy", "Cancel Generation", "Favorite", "Add to Album…"],
    );
}

#[test]
fn single_missing() {
    let entries = menu_for(vec![item(1, Seed { status: Status::Missing, ..seed() })]);
    assert_menu(
        &entries,
        &["Retry", "Recreate", "Delete"],
        &["Retry Selected", "Delete Selected", "Open", "Copy", "Save…", "Cancel Generation", "Favorite", "Add to Album…"],
    );
}

#[test]
fn single_missing_without_a_request_cannot_retry() {
    let entries = menu_for(vec![item(1, Seed { status: Status::Missing, recreatable: false, ..seed() })]);
    assert_menu(&entries, &["Delete"], &["Retry", "Recreate"]);
}

#[test]
fn missing_selected() {
    let missing = Seed { status: Status::Missing, ..seed() };
    let entries = menu_for(vec![item(1, missing), item(2, missing)]);
    assert_menu(&entries, &["Retry Selected", "Delete Selected"], &["Retry", "Recreate", "Delete", "Open", "Favorite"]);
}

#[test]
fn completed_and_missing() {
    let entries = menu_for(vec![item(1, seed()), item(2, Seed { status: Status::Missing, ..seed() })]);
    assert_menu(&entries, &["Delete Selected"], &["Retry Selected", "Copy", "Open", "Favorite", "Add to Album…"]);
}

#[test]
fn single_generating() {
    let entries = menu_for(vec![item(1, Seed { status: Status::Generating, ..seed() })]);
    assert_menu(
        &entries,
        &["Cancel Generation", "Recreate", "Delete"],
        &["Cancel Generations", "Delete Selected", "Retry", "Open", "Copy", "Favorite", "Add to Album…"],
    );
    assert!(entries.iter().find(|e| e.label == "Recreate").unwrap().enabled, "a row the app queued stores its request");
    assert_eq!(entries[0].kind, MenuEntryKind::CancelGeneration(vec![GenerationId(1)]));
}

#[test]
fn single_generating_without_a_request_has_recreate_disabled() {
    let entries = menu_for(vec![item(1, Seed { status: Status::Generating, recreatable: false, ..seed() })]);
    assert_menu(&entries, &["Cancel Generation", "Delete"], &["Recreate", "Retry"]);
    assert!(entries.iter().any(|e| e.label == "Recreate" && !e.enabled), "the row is shown but greyed: nothing stored to replay");
}

// ----- multiple, all completed ------------------------------------------

#[test]
fn two_images() {
    let entries = menu_for(vec![item(1, seed()), item(2, seed())]);
    assert_menu(&entries, &["Copy", "Save…", "Add to Album…", "Favorite", "Delete Selected"], &["Open", "Recreate", "Delete"]);
    assert!(entries.iter().any(|e| e.label == "Open" && !e.enabled), "Open stays visible but disabled");
    assert!(!entries.iter().any(|e| e.label == "Recreate"), "a multi-selection drops Recreate entirely");
}

#[test]
fn two_videos() {
    let video = Seed { media_type: MediaType::Video, ..seed() };
    let entries = menu_for(vec![item(1, video), item(2, video)]);
    assert_menu(&entries, &["Copy", "Save…", "Add to Album…", "Favorite", "Delete Selected"], &["Open", "Recreate", "Delete"]);
}

#[test]
fn image_and_video() {
    let entries = menu_for(vec![item(1, seed()), item(2, Seed { media_type: MediaType::Video, ..seed() })]);
    // A mixed selection still exports, files and deletes together.
    assert_menu(&entries, &["Copy", "Save…", "Add to Album…", "Favorite", "Delete Selected"], &["Open", "Recreate", "Delete"]);
}

#[test]
fn all_selected_favorited() {
    let favorite = Seed { favorite: true, ..seed() };
    let entries = menu_for(vec![item(1, favorite), item(2, favorite)]);
    assert_menu(&entries, &["Unfavorite"], &["Favorite"]);
}

#[test]
fn some_selected_favorited() {
    let entries = menu_for(vec![item(1, Seed { favorite: true, ..seed() }), item(2, seed())]);
    assert_menu(&entries, &["Favorite"], &["Unfavorite"]);
}

#[test]
fn two_images_inside_an_album() {
    let entries = menu_in(vec![item(1, seed()), item(2, seed())], FeedFilter::Album(AlbumId(5)));
    assert_menu(&entries, &["Add to Album…", "Remove from Album", "Delete Selected"], &["Delete"]);
    let adding = entries.iter().find(|e| e.label == "Add to Album…").expect("the row is there");
    assert_eq!(adding.kind, MenuEntryKind::AddToAlbum(vec![GenerationId(1), GenerationId(2)]));
}

// ----- multiple, not all completed --------------------------------------

#[test]
fn two_failed() {
    let failed = Seed { status: Status::Failed, ..seed() };
    let entries = menu_for(vec![item(1, failed), item(2, failed)]);
    assert_menu(&entries, &["Retry Selected", "Delete Selected"], &["Retry", "Recreate", "Delete", "Open", "Cancel Generations", "Favorite"]);
}

#[test]
fn two_generating() {
    let generating = Seed { status: Status::Generating, ..seed() };
    let entries = menu_for(vec![item(1, generating), item(2, generating)]);
    assert_menu(&entries, &["Cancel Generations", "Delete Selected"], &["Cancel Generation", "Delete", "Recreate", "Retry Selected", "Open", "Favorite"]);
}

#[test]
fn completed_and_failed() {
    let entries = menu_for(vec![item(1, seed()), item(2, Seed { status: Status::Failed, ..seed() })]);
    assert_menu(
        &entries,
        &["Delete Selected"],
        &["Delete", "Retry", "Retry Selected", "Copy", "Open", "Cancel Generation", "Favorite", "Add to Album…"],
    );
}

#[test]
fn completed_and_generating() {
    let entries = menu_for(vec![item(1, seed()), item(2, Seed { status: Status::Generating, ..seed() })]);
    assert_menu(
        &entries,
        &["Cancel Generation", "Delete Selected"],
        &["Cancel Generations", "Delete", "Recreate", "Retry", "Copy", "Open", "Favorite", "Add to Album…"],
    );
    assert_eq!(entries[0].kind, MenuEntryKind::CancelGeneration(vec![GenerationId(2)]), "only what is generating");
}

// ----- assets -----------------------------------------------------------

#[test]
fn asset_menu_offers_exports_and_delete_only() {
    let entries = assets_menu(vec![asset(3, MediaType::Image, false)]);
    assert_menu(&entries, &["Copy", "Save…", "Delete"], &["Recreate", "Favorite", "Add to Album…", "Open"]);
    let entries = assets_menu(vec![asset(1, MediaType::Audio, false)]);
    assert_menu(&entries, &["Copy", "Delete"], &["Use Image"]);
}

#[test]
fn a_referenced_asset_has_no_delete_and_a_mixed_selection_only_exports() {
    let entries = assets_menu(vec![asset(1, MediaType::Image, true)]);
    assert_menu(&entries, &["Copy"], &["Delete"]);
    let entries = assets_menu(vec![asset(1, MediaType::Image, true), asset(5, MediaType::Image, false)]);
    assert_menu(&entries, &["Copy"], &["Delete", "Delete Selected"]);
    let info = MenuInfo { items: vec![item(1, seed())], assets: vec![asset(5, MediaType::Image, false)], assets_deletable: true, album: None };
    assert_menu(&selection_menu_entries(&info), &["Copy", "Save…"], &["Delete", "Recreate"]);
}

#[test]
fn assets_without_a_file_export_nothing() {
    let mut gone = asset(1, MediaType::Image, false);
    gone.file = None;
    gone.missing = true;
    assert_eq!(actionable(&asset_menu_entries(&vec![gone], true)), ["Delete"]);
}

#[test]
fn nothing_selected_has_no_menu() {
    let info = MenuInfo { items: Vec::new(), assets: Vec::new(), assets_deletable: true, album: None };
    assert!(selection_menu_entries(&info).is_empty());
    assert_eq!(actionable(&export_menu_entries()), ["Copy", "Save…"]);
}

#[test]
fn menu_rows_carry_their_actions() {
    let entries = context_menu_entries(&vec![item(1, Seed { status: Status::Failed, ..seed() })], None);
    let kinds: Vec<&MenuEntryKind> = entries.iter().map(|e| &e.kind).collect();
    assert_eq!(kinds, [
        &MenuEntryKind::Action(MenuAction::Retry),
        &MenuEntryKind::Action(MenuAction::Recreate),
        &MenuEntryKind::Action(MenuAction::DeleteMedia),
    ]);
}

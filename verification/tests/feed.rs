use majik_views::export::Exportable;
use majik_views::feed::{
    cell_caption, delete_confirmed, delete_failed_toast, drag_badge, grid_indices, import_paths, parse_position, place, right_badges, thumbnail_for_cell, toolbar_tooltip, CellContent,
    DeleteRequest, FeedEvent, FeedQuery, FeedView, GridWindow, Landing, PendingCompose, Press, RecreateRequest, Relayout, SelectionChange, ToolbarButton,
};
use majik_views::model::{
    Album, AlbumId, Asset, AssetId, Entry, EntryId, FeedFilter, Generation, GenerationId, Library, MediaFilter, MediaType, Status, ThumbnailShape,
};

fn item(id: u64, status: Status) -> Generation {
    let done = status == Status::Completed;
    Generation {
        id: GenerationId(id),
        media_type: MediaType::Image,
        tool: None,
        status,
        is_favorite: false,
        is_upscaled: false,
        can_recreate: true,
        can_retry: false,
        prompt: None,
        path: if done || status == Status::Missing { Some(format!("/library/{id}.png")) } else { None },
        file: if done { Some(format!("/library/{id}.png")) } else { None },
        file_name: format!("{id}.png"),
        thumbnail: None,
        output_asset_id: if done { Some(AssetId(id + 100)) } else { None },
        duration: None,
        queued_at_ms: 1_000,
        model_name: None,
        width: None,
        height: None,
        file_size: None,
        created: "today".to_string(),
        error: None,
    }
}

fn asset(id: u64, kind: MediaType, produced_by: Option<u64>) -> Asset {
    Asset {
        id: AssetId(id),
        kind,
        path: format!("/library/assets/{id}"),
        missing: false,
        file: Some(format!("/library/assets/{id}")),
        file_name: format!("asset-{id}"),
        thumbnail: None,
        duration: None,
        width: None,
        height: None,
        file_size: None,
        created_at_ms: 0,
        created: "today".to_string(),
        referenced: produced_by.is_some(),
        produced_by: produced_by.map(GenerationId),
    }
}

fn gen(id: u64) -> EntryId {
    EntryId::Generation(GenerationId(id))
}

fn library(n: u64) -> Library {
    Library { generations: (0..n).map(|i| item(i, Status::Completed)).collect(), assets: Vec::new(), albums: Vec::new() }
}

/// A feed over `n` finished images; boxes are plain numbers.
fn feed(n: u64) -> (FeedView<u32>, Library) {
    let mut feed = FeedView::new(160, ThumbnailShape::Square, 4);
    feed.refresh((0..n).map(gen).collect(), 0, false);
    (feed, library(n))
}

/// An upscaled clip carries both badges, and they are two pills in one strip — before this,
/// HD and the length were both pinned to the bottom-right corner and drew on top of each other.
#[test]
fn an_upscaled_clip_shows_its_length_and_hd_side_by_side() {
    assert_eq!(right_badges(Some("0:05".into()), MediaType::Video, true), vec!["0:05", "HD"], "length first, HD outermost");
    assert_eq!(right_badges(Some("0:05".into()), MediaType::Video, false), vec!["0:05"]);
    assert_eq!(right_badges(None, MediaType::Image, true), vec!["HD"]);
    assert_eq!(right_badges(None, MediaType::Image, false), Vec::<String>::new(), "a plain image gets no strip at all");
    assert_eq!(right_badges(Some("0:05".into()), MediaType::Image, false), Vec::<String>::new(), "a still has no length to state");
    assert_eq!(right_badges(Some("1:15".into()), MediaType::Audio, false), vec!["1:15"]);
}

#[test]
fn the_toolbar_buttons_have_tooltips() {
    let all = [ToolbarButton::Import, ToolbarButton::Favorites, ToolbarButton::Filter, ToolbarButton::Shape, ToolbarButton::ZoomOut, ToolbarButton::ZoomIn];
    let tooltips = ["Import files as assets", "Favorites only", "Filter by type", "Square or full-aspect thumbnails", "Smaller thumbnails", "Larger thumbnails"];
    assert_eq!(all.map(toolbar_tooltip), tooltips);
}

#[test]
fn favorites_only_asks_the_library_once() {
    let (mut f, _) = feed(2);
    assert!(!f.favorites_only, "off by default");
    let query = FeedQuery { filter: FeedFilter::Library, media_filter: MediaFilter::All, favorites_only: true };
    assert_eq!(f.set_favorites_only(true), Some(query));
    assert_eq!(f.set_favorites_only(true), None);
    assert_eq!(f.set_media_filter(MediaFilter::Video), FeedQuery { media_filter: MediaFilter::Video, ..query }, "combines with the media filter");
    let (query, change) = f.set_filter(FeedFilter::Album(AlbumId(3)));
    assert_eq!(query, FeedQuery { filter: FeedFilter::Album(AlbumId(3)), media_filter: MediaFilter::Video, favorites_only: true }, "survives feed changes");
    assert_eq!(change, SelectionChange::Clear);
    assert_eq!(f.filter(), FeedFilter::Album(AlbumId(3)));
    assert_eq!(f.current_album(), Some(AlbumId(3)));
}

#[test]
fn favorites_only_toggle_is_offered_where_favorites_can_differ() {
    let (mut f, _) = feed(1);
    assert!(f.shows_favorites_toggle());
    f.set_filter(FeedFilter::Album(AlbumId(1)));
    assert!(f.shows_favorites_toggle());
    f.set_filter(FeedFilter::Favorites);
    assert!(!f.shows_favorites_toggle(), "the Favorites feed already is that filter");
    f.set_filter(FeedFilter::Assets);
    assert!(!f.shows_favorites_toggle(), "assets carry no favorite");
    assert_eq!((f.set_favorites_only(true).unwrap().filter, f.ids.len()), (FeedFilter::Assets, 1));
}

#[test]
fn favorites_only_empty_state_names_the_filter() {
    let (mut f, lib) = feed(0);
    f.set_favorites_only(true);
    assert_eq!(f.empty_state(&lib, "⌘N").1, "No Favorites Here");
    f.set_filter(FeedFilter::Favorites);
    assert_eq!(f.empty_state(&lib, "⌘N").1, "No Favorites Yet", "the feed's own copy where the toggle is not offered");
}

#[test]
fn empty_state_copy_follows_filter() {
    let (mut f, mut lib) = feed(0);
    lib.albums.push(Album { id: AlbumId(1), name: "Trips".into(), items: Vec::new() });
    assert_eq!(f.empty_state(&lib, "⌘N").1, "Nothing Here Yet");
    f.set_filter(FeedFilter::Favorites);
    assert_eq!(f.empty_state(&lib, "⌘N").1, "No Favorites Yet");
    f.set_filter(FeedFilter::Album(AlbumId(1)));
    assert_eq!(f.empty_state(&lib, "⌘N").1, "Empty Album");
    assert_eq!(f.title(&lib), "Trips");
    f.set_filter(FeedFilter::Album(AlbumId(2)));
    assert_eq!(f.empty_state(&lib, "⌘N").1, "Album Unavailable");
    assert_eq!(f.title(&lib), "Album");
    f.set_filter(FeedFilter::Assets);
    assert_eq!(f.empty_state(&lib, "⌘N").1, "No Assets Yet");
    assert_eq!(f.title(&lib), "Assets");
}

#[test]
fn empty_library_hint_names_the_platform_shortcut() {
    let (f, lib) = feed(0);
    assert_eq!(f.empty_state(&lib, "⌘N").2, "Press ⌘N to open the composer");
    assert_eq!(f.empty_state(&lib, "Ctrl+N").2, "Press Ctrl+N to open the composer");
}

#[test]
fn multi_selection_drag_defers_collapse() {
    let (mut f, lib) = feed(4);
    f.select_all();
    // Plain press on a member must NOT collapse the selection yet (so a drag can carry all).
    assert_eq!(f.cell_mouse_down(1, gen(1), 1, false, false, false), Press::Deferred);
    assert_eq!(f.selected_count(), 4, "multi-selection preserved on press");
    assert_eq!(f.deferred_click, Some((gen(1), 1)));
    assert_eq!(f.dragged(gen(1), &lib).len(), 4);
    assert_eq!(f.mouse_up(), SelectionChange::Click { id: gen(1), index: 1, command: false, shift: false });
    assert_eq!(f.selected, [gen(1)], "released in place, the click selects the cell alone");
    f.select_all();
    f.cell_mouse_down(1, gen(1), 1, false, false, false);
    f.drag_started();
    assert_eq!(f.mouse_up(), SelectionChange::Keep, "a drag leaves the selection whole");
    assert_eq!(f.selected_count(), 4);
}

#[test]
fn a_plain_click_selects_alone_and_held_keys_are_handed_on() {
    let (mut f, _) = feed(5);
    let click = |id: u64, index: usize, command: bool, shift: bool| SelectionChange::Click { id: gen(id), index, command, shift };
    assert_eq!(f.cell_mouse_down(0, gen(0), 1, false, false, false), Press::Select(click(0, 0, false, false)));
    assert_eq!(f.selected, [gen(0)], "a plain click selects one");
    assert_eq!(f.cell_mouse_down(2, gen(2), 1, false, true, false), Press::Select(click(2, 2, true, false)));
    assert_eq!(f.cell_mouse_down(4, gen(4), 1, false, false, true), Press::Select(click(4, 4, false, true)));
    f.set_selected(vec![gen(0), gen(2)]);
    assert_eq!(f.right_click(1, gen(1)), click(1, 1, false, false), "right-click on an unselected item replaces the selection");
    assert_eq!(f.selected, [gen(1)]);
    f.select_all();
    assert_eq!(f.right_click(2, gen(2)), SelectionChange::Keep);
    assert_eq!(f.selected_count(), 5, "right-click on a member of a multi-selection preserves it");
    assert_eq!(f.clear_selection(), SelectionChange::Clear);
    assert_eq!(f.selected_count(), 0);
}

#[test]
fn double_click_emits_open() {
    let (mut f, _) = feed(4);
    f.record_cell(gen(2), 77);
    let all: Vec<EntryId> = (0..4).map(gen).collect();
    let open = FeedEvent::Open { ids: all.clone(), index: 2, origin: Some(77) };
    assert_eq!(f.cell_mouse_down(2, gen(2), 2, false, false, false), Press::Open(Some(open.clone())));
    assert_eq!(f.last_click, None);
    assert_eq!(f.cell_mouse_down(2, gen(2), 1, true, false, false), Press::Open(Some(open)));
    assert!(matches!(f.cell_mouse_down(2, gen(2), 2, false, true, false), Press::Select(_)), "a command click never opens");
    assert_eq!(f.open_at(9), None);
}

#[test]
fn open_carries_the_cell_origin_when_drawn() {
    let (mut f, _) = feed(3);
    f.record_cell(gen(1), 5);
    f.record_cell(gen(1), 6);
    assert_eq!(f.cell_bounds(gen(1)), Some(6));
    assert!(matches!(f.open_at(1), Some(FeedEvent::Open { origin: Some(6), .. })));
    assert!(matches!(f.open_at(0), Some(FeedEvent::Open { origin: None, .. })));
    f.set_selected(vec![gen(2)]);
    assert!(matches!(f.open_selection(), Some(FeedEvent::Open { index: 2, .. })));
    f.set_selected(vec![gen(2), gen(1)]);
    assert_eq!(f.open_selection(), None);
    f.set_selected(vec![gen(9)]);
    assert_eq!(f.open_selection(), None, "no longer listed");
}

#[test]
fn a_library_change_forgets_the_cell_boxes_of_the_old_layout() {
    let (mut f, _) = feed(4);
    f.record_cell(gen(1), 5);
    f.refresh((0..4).map(gen).collect(), 0, false);
    assert_eq!(f.cell_bounds(gen(1)), Some(5), "the same listing keeps its boxes");
    f.set_selected(vec![gen(0), gen(1)]);
    f.refresh((1..4).map(gen).collect(), 0, false);
    assert_eq!(f.selected, [gen(1)], "what is gone is no longer selected");
    assert_eq!(f.land_on(gen(1)), Landing::Scroll { select: SelectionChange::Click { id: gen(1), index: 0, command: false, shift: false }, index: 0 });
}

#[test]
fn land_on_selects_and_scrolls_only_when_off_screen() {
    let (mut f, _) = feed(8);
    let select = |id: u64| SelectionChange::Click { id: gen(id), index: id as usize, command: false, shift: false };
    assert_eq!(f.land_on(gen(7)), Landing::Scroll { select: select(7), index: 7 }, "not drawn: not on screen");
    assert_eq!(f.selected, [gen(7)]);
    assert_eq!(f.land_on(gen(99)), Landing::Nowhere);
    assert_eq!(f.selected, [gen(7)], "unknown ids are ignored");
    f.record_cell(gen(0), 12);
    assert_eq!(f.land_on(gen(0)), Landing::Cell { select: select(0), cell: 12 }, "on screen: hand the box back");
    assert_eq!(f.selected, [gen(0)]);
}

#[test]
fn arrow_keys_move_the_selection() {
    let (mut f, _) = feed(8);
    assert_eq!(f.move_selection(Some(5)), Some((SelectionChange::Click { id: gen(5), index: 5, command: false, shift: false }, 5)));
    assert_eq!(f.selected, [gen(5)]);
    assert_eq!(f.move_selection(None), None);
    assert_eq!(f.move_selection(Some(8)), None);
    assert_eq!(f.selected, [gen(5)]);
}

#[test]
fn the_timer_runs_while_something_generates() {
    let (mut f, _) = feed(1);
    assert!(f.refresh(vec![gen(0)], 2, false).0, "started");
    assert!(!f.refresh(vec![gen(0)], 1, false).0, "already running");
    assert!(f.tick(1));
    assert!(!f.tick(0));
    assert!(!f.ticking);
    assert!(f.refresh(vec![gen(0)], 1, false).0, "started again");
}

#[test]
fn a_drag_carries_the_assets_behind_the_cells() {
    let (mut f, mut lib) = feed(2);
    lib.generations.push(item(2, Status::Generating));
    lib.assets.push(asset(7, MediaType::Audio, None));
    lib.assets.push(asset(8, MediaType::Image, Some(0)));
    f.refresh(vec![gen(0), gen(1), gen(2)], 1, false);
    f.select_all();
    let dragged = f.dragged(gen(0), &lib);
    assert_eq!(dragged.iter().map(|d| (d.id, d.generation)).collect::<Vec<_>>(), [(AssetId(100), Some(GenerationId(0))), (AssetId(101), Some(GenerationId(1)))]);
    f.clear_selection();
    assert!(f.dragged(gen(2), &lib).is_empty(), "one in flight has nothing to drag");
    let sound = f.dragged(EntryId::Asset(AssetId(7)), &lib);
    assert_eq!((sound.len(), sound[0].kind, sound[0].generation), (1, MediaType::Audio, None), "an import has no generation behind it");
    assert_eq!(f.dragged(EntryId::Asset(AssetId(8)), &lib)[0].generation, Some(GenerationId(0)), "an output names the generation that made it");
    assert_eq!(drag_badge(1), None);
    assert_eq!(drag_badge(3).as_deref(), Some("3"));
}

#[test]
fn a_missing_file_is_not_exportable() {
    let (mut f, mut lib) = feed(1);
    lib.generations.push(item(1, Status::Missing));
    f.refresh(vec![gen(0), gen(1)], 0, false);
    f.select_all();
    let files = f.selected_exportables(&lib);
    assert_eq!(files, [Exportable { path: "/library/0.png".into(), kind: MediaType::Image, name: "0.png".into() }], "only the seeded image has a file");
    assert_eq!(Exportable::of_item(&lib.generations[1]), None);
    assert_eq!(Exportable::of_entry(&Entry::Asset(asset(7, MediaType::Audio, None))).unwrap().name, "asset-7");
    let mut gone = asset(7, MediaType::Audio, None);
    gone.file = None;
    assert_eq!(Exportable::of_asset(&gone), None);
}

#[test]
fn deleting_asks_first() {
    let (mut f, mut lib) = feed(3);
    assert_eq!(f.delete(&lib), DeleteRequest::Nothing, "delete with nothing selected does not prompt");
    f.set_selected(vec![gen(0)]);
    match f.delete(&lib) {
        DeleteRequest::Generations { message, detail, ids } => {
            assert_eq!((message.as_str(), ids), ("Delete this item?", vec![GenerationId(0)]));
            assert!(detail.contains("stay"), "{detail}");
        }
        other => panic!("{other:?}"),
    }
    f.select_all();
    assert!(matches!(f.delete(&lib), DeleteRequest::Generations { message, .. } if message == "Delete 3 items?"));
    lib.assets.push(asset(7, MediaType::Image, None));
    lib.assets.push(asset(8, MediaType::Image, None));
    lib.assets.push(asset(9, MediaType::Image, Some(0)));
    let only = |id: u64| EntryId::Asset(AssetId(id));
    f.set_selected(vec![only(7)]);
    match f.delete(&lib) {
        DeleteRequest::Assets { message, detail, ids } => {
            assert_eq!((message.as_str(), ids), ("Delete this asset?", vec![AssetId(7)]));
            assert!(detail.contains(".majik/trash"), "{detail}");
        }
        other => panic!("{other:?}"),
    }
    f.set_selected(vec![only(7), only(8)]);
    assert!(matches!(f.delete(&lib), DeleteRequest::Assets { message, .. } if message == "Delete 2 assets?"));
    f.set_selected(vec![only(7), only(9)]);
    assert_eq!(f.delete(&lib), DeleteRequest::Refused("asset-9 is used by a generation and can't be deleted.".into()));
    f.set_selected(vec![only(9), gen(0)]);
    assert!(matches!(f.delete(&lib), DeleteRequest::Generations { .. }), "a selection of both deletes the generations only");
    assert!(delete_confirmed(Some(0)) && !delete_confirmed(Some(1)) && !delete_confirmed(None));
    assert_eq!(delete_failed_toast("busy"), "Couldn't delete: busy");
}

#[test]
fn recreate_hands_the_rows_id_to_the_composer_tools_included() {
    let (mut f, mut lib) = feed(2);
    lib.generations[0].can_recreate = false;
    f.select_all();
    assert_eq!(f.recreate(&lib), RecreateRequest::Compose(PendingCompose { recreate: Some(GenerationId(1)) }), "the first that can be");
    f.set_selected(vec![gen(0)]);
    assert_eq!(f.recreate(&lib), RecreateRequest::Toast("This item can't be recreated."));
    assert_eq!(f.retry(), [GenerationId(0)]);
}

#[test]
fn favorite_actions_follow_the_selection() {
    let (mut f, mut lib) = feed(2);
    assert_eq!(f.toggle_favorite(&lib), None);
    f.select_all();
    assert_eq!(f.toggle_favorite(&lib), Some((vec![GenerationId(0), GenerationId(1)], true)));
    lib.generations[0].is_favorite = true;
    assert_eq!(f.toggle_favorite(&lib).unwrap().1, true, "some are not favorites yet");
    lib.generations[1].is_favorite = true;
    assert_eq!(f.toggle_favorite(&lib).unwrap().1, false);
}

#[test]
fn import_paths_adds_assets_and_reports_the_rest() {
    let none = import_paths(0, 0, &Vec::new());
    assert_eq!((none.toast, none.imported), (None, false));
    let two = import_paths(2, 2, &Vec::new());
    assert_eq!((two.toast.as_deref(), two.imported), (Some("Imported 2 asset(s)"), true));
    let some = import_paths(3, 1, &vec!["a is no media".into(), "b is no media".into()]);
    assert_eq!((some.toast.as_deref(), some.imported), (Some("a is no media\nb is no media"), true));
    assert!(!import_paths(1, 0, &vec!["x".into()]).imported);
}

#[test]
fn zoom_changes_keep_the_top_row() {
    let (mut f, _) = feed(60);
    assert!(f.can_zoom_to(200) && !f.can_zoom_to(160));
    assert_eq!(f.set_zoom(160, 9, 3), None, "zooming at the limit is a no-op");
    assert_eq!(f.columns, 4);
    // Three rows of four are above: item 12 leads the top row, in row 4 of three columns.
    assert_eq!(f.set_zoom(200, 3, 3), Some((Relayout::ScrollTo { row: 4 }, Some(f.query()))));
    assert_eq!((f.zoom, f.columns), (200, 3));
    assert_eq!(f.set_zoom(240, 3, 4), Some((Relayout::Unchanged, None)), "the level is stored all the same");
    assert_eq!(f.zoom, 240);
    assert_eq!(f.fit_columns(false, 5, 4), Relayout::Unchanged, "no width measured yet");
    assert_eq!(f.fit_columns(true, 5, 4), Relayout::ScrollTo { row: 2 });
    assert_eq!(f.columns, 5);
}

#[test]
fn thumbnail_shape_toggles_and_persists() {
    let (mut f, _) = feed(3);
    assert_eq!(f.shape, ThumbnailShape::Square);
    assert_eq!((f.toggle_shape(), f.shape), (ThumbnailShape::AspectRatio, ThumbnailShape::AspectRatio));
    assert_eq!((f.toggle_shape(), f.shape), (ThumbnailShape::Square, ThumbnailShape::Square));
}

#[test]
fn only_the_rows_around_the_viewport_are_drawn() {
    assert_eq!(grid_indices(0, 2, 4, 400, &Vec::new()), (0..12).collect::<Vec<_>>());
    assert_eq!(grid_indices(10, 12, 4, 400, &Vec::new()), (36..52).collect::<Vec<_>>());
    assert_eq!(grid_indices(98, 101, 4, 400, &Vec::new()), (388..400).collect::<Vec<_>>(), "no further than the last cell");
    assert_eq!(grid_indices(2, 2, 2, 8, &vec![0, 3, 7]), [2, 3, 4, 5, 0, 7], "and cells still moving from elsewhere");
    assert!(grid_indices(5, 6, 0, 3, &Vec::new()).is_empty());
    assert_eq!(place(7, 3), (1, 2));
    assert_eq!(place(7, 0), (0, 7));
}

#[test]
fn a_frame_draws_what_the_library_still_has() {
    let (mut f, mut lib) = feed(6);
    lib.generations.remove(1);
    f.record_cell(gen(0), 1);
    let window = GridWindow { top_row: 0, bottom_row: 0, moving: vec![5, 9], moved: true, large_tier: true };
    let frame = f.render(&lib, &window, 120, 160, "⌘N");
    assert_eq!(frame.cells.iter().map(|(ix, e)| (*ix, e.id())).collect::<Vec<_>>(), [(0, gen(0)), (2, gen(2)), (3, gen(3)), (5, gen(5))]);
    assert_eq!(frame.rows, 2);
    assert!(frame.empty.is_none() && !frame.takes_files);
    assert_eq!(f.cell_bounds(gen(0)), None, "the boxes of the last frame are forgotten");
    assert_eq!((frame.settle_ms, frame.opens.is_none()), (Some(250), true), "the window moved");
    let bar = frame.toolbar;
    assert_eq!((bar.title.as_str(), bar.count.as_str(), bar.imports), ("Library", "6 items", false));
    assert_eq!((bar.favorites, bar.filtered, bar.shape_icon), (Some(("heart", false)), false, "square"));
    assert!(bar.can_zoom_out && !bar.can_zoom_in, "one step leads back to this level");
    f.drew(vec![gen(0), gen(2)]);
    assert_eq!(f.request_large_thumbnails(true, &lib), [AssetId(100), AssetId(102)]);
    assert!(f.request_large_thumbnails(false, &lib).is_empty());
    f.refresh((0..6).map(gen).collect(), 0, true);
    assert!(f.large_request, "a refresh asks for the large thumbnails of cells that want them");
    assert_eq!(f.refresh((0..6).map(gen).collect(), 0, true).1, Some(250));
    assert_eq!(f.refresh((0..6).map(gen).collect(), 0, false), (false, None));
    assert_eq!((f.schedule_large_thumbnails(true), f.large_request), (Some(250), true));
    assert_eq!((f.schedule_large_thumbnails(false), f.large_request), (None, false));
}

#[test]
fn an_empty_assets_feed_imports_files() {
    let (mut f, lib) = feed(0);
    f.set_filter(FeedFilter::Assets);
    f.set_favorites_only(true);
    f.toggle_shape();
    f.set_media_filter(MediaFilter::Audio);
    let frame = f.render(&lib, &GridWindow { top_row: 0, bottom_row: 3, moving: Vec::new(), moved: false, large_tier: true }, 120, 200, "⌘N");
    assert_eq!(frame.settle_ms, None, "nothing moved");
    assert!(frame.takes_files && frame.toolbar.imports && frame.toolbar.filtered);
    assert_eq!(frame.toolbar.favorites, None);
    assert_eq!(frame.toolbar.shape_icon, "ratio");
    assert_eq!(frame.empty.unwrap().1, "No Assets Yet");
    assert_eq!(f.filter_menu(&vec![MediaFilter::All, MediaFilter::Audio]), [(MediaFilter::All, false), (MediaFilter::Audio, true)]);
}

#[test]
fn cells_show_what_became_of_the_generation() {
    let (mut f, lib) = feed(1);
    f.select_all();
    let content = |g: &Generation| f.render_cell_body(g, 3_999, false, &None).content;
    assert_eq!(content(&item(1, Status::Generating)), CellContent::Generating { kind: MediaType::Image, elapsed_secs: 2 });
    assert_eq!(f.render_cell_body(&item(1, Status::Generating), 0, false, &None).content, CellContent::Generating { kind: MediaType::Image, elapsed_secs: 0 });
    let busy = CellContent::Generating { kind: MediaType::Image, elapsed_secs: 2 };
    assert_eq!((busy.icon(), cell_caption(&busy, "Image", "0:02").as_deref()), (Some("loader-circle"), Some("Image  ·  0:02")));
    assert_eq!((CellContent::Failed.icon(), cell_caption(&CellContent::Failed, "Image", "").as_deref()), (Some("circle-alert"), Some("Failed")));
    assert_eq!((CellContent::Missing.icon(), cell_caption(&CellContent::Missing, "Image", "").as_deref()), (Some("file-x"), Some("File missing")));
    assert_eq!((CellContent::Audio.icon(), cell_caption(&CellContent::Audio, "Audio", "")), (Some("audio-lines"), None));
    assert_eq!(CellContent::Thumbnail("/t".into()).icon(), None);
    assert_eq!(content(&item(1, Status::Failed)), CellContent::Failed);
    assert_eq!(content(&item(1, Status::Missing)), CellContent::Missing);
    let mut done = item(1, Status::Completed);
    assert_eq!(content(&done), CellContent::Placeholder);
    done.thumbnail = Some("/t/1".into());
    assert_eq!(content(&done), CellContent::Thumbnail("/t/1".into()));
    assert_eq!(f.render_cell_body(&done, 0, true, &Some("/t/1@800".into())).content, CellContent::Thumbnail("/t/1@800".into()));
    assert_eq!(f.render_cell_body(&done, 0, true, &None).content, CellContent::Thumbnail("/t/1".into()), "until the large one has been rendered");
    done.media_type = MediaType::Audio;
    assert_eq!(content(&done), CellContent::Audio);
    assert_eq!(CellContent::Failed.caption(), Some("Failed"));
    assert_eq!(CellContent::Missing.caption(), Some("File missing"));
    assert_eq!((CellContent::Missing.icon(), CellContent::Audio.icon()), (Some("file-x"), Some("audio-lines")));
    assert_eq!(CellContent::Thumbnail("x".into()).icon(), None);
    let cell = f.render_cell(&Entry::Generation(lib.generations[0].copy()), 0, false, &None, &lib);
    assert!(cell.body.selected && cell.draggable && !cell.body.favorite);
    assert_eq!((cell.dragged.len(), cell.drag_badge), (1, None));
    let mut gone = asset(7, MediaType::Video, None);
    gone.duration = Some("0:05".into());
    let body = f.render_asset_body(&gone, false, &None);
    assert_eq!((body.content, body.badges, body.selected), (CellContent::Placeholder, vec!["0:05".to_string()], false));
    gone.missing = true;
    assert_eq!(f.render_snapshot_body(&Entry::Asset(gone), 0, false, &None).content, CellContent::Missing);
    assert_eq!(thumbnail_for_cell("/t/1", false, &Some("/t/1@800".into())), "/t/1");
}

#[test]
fn a_cell_can_be_opened_at_launch() {
    let (mut f, mut lib) = feed(3);
    lib.generations[1].media_type = MediaType::Video;
    f.open_first("video", &lib);
    assert!(matches!(f.take_debug_open(), Some(FeedEvent::Open { index: 1, .. })));
    assert_eq!(f.take_debug_open(), None, "once");
    f.open_first("audio", &lib);
    assert_eq!(f.debug_open, None);
    f.open_first("2", &lib);
    assert_eq!(f.debug_open, Some(2));
    for text in ["", "+", "+7", "007", "7a", "-1", " 7", "18446744073709551615", "18446744073709551616", "99999999999999999999999"] {
        assert_eq!(parse_position(text), text.parse::<usize>().ok(), "{text:?}");
    }
}

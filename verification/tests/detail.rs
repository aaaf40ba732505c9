use majik_views::detail::{
    item_for_asset, item_pixel_size, morphable, safe_index, stage_cursor, AudioStep, CloseStep, CursorStyle, DetailDelete, DetailEvent, DetailView,
    Direction, InfoAsset, LibraryNews, LinkedInput, MorphStep, RequestFacts, RequestSettings, SaveState, ScrollRoute, StageDrag, Step, Transport,
    VideoStep, ZoomReset,
};
use majik_views::detail_frame::{
    info_heading, input_card, slot_texts, stage_tooltip, Backdrop, DetailFrame, DetailMenuEntry, InfoSection, ItemFacts, PictureFacts, Playing, PresetZoom, Recovery,
    SlotContent, SlotTexts, StageButton, Surface,
};
use majik_views::export::{Exportable, SaveOutcome};
use majik_views::feed::PendingCompose;
use majik_views::model::{Asset, AssetId, EntryId, Generation, GenerationId, Library, MediaType, Status, ToolId};
use majik_views::playback::{pump_delay, FramePixels, FrameUpload, Playback, PumpTurn};

#[test]
fn a_slot_says_what_became_of_the_item() {
    let says = |content: &SlotContent| slot_texts(content, "Image", "0:03");
    let texts = |icon: &'static str, line: Option<&str>, button: Option<&'static str>| SlotTexts { icon: Some(icon), line: line.map(String::from), button, halves: None };
    assert_eq!(says(&SlotContent::Generating { kind: MediaType::Image, elapsed_secs: 3 }), texts("loader-circle", Some("Generating image  ·  0:03"), None));
    let failed = |retry: bool| SlotContent::Failed { error: "".into(), retry, recovery: None };
    assert_eq!(says(&failed(true)), texts("circle-alert", Some("Something went wrong"), Some("Try Again")));
    assert_eq!(says(&failed(false)), texts("circle-alert", Some("Something went wrong"), None));
    assert_eq!(says(&SlotContent::Missing { text: "".into(), regenerate: true }), texts("file-x", Some("File is missing"), Some("Generate Again")));
    assert_eq!(says(&SlotContent::Compare { before: "/a".into(), after: "/b".into() }).halves, Some(("Before", "After")));
    assert_eq!(says(&SlotContent::Image("/a".into())), SlotTexts { icon: None, line: None, button: None, halves: None });
    let audio = |playing: bool| SlotContent::Audio { playing, name: "a.mp3".into(), error: None, interactive: true };
    assert_eq!((says(&audio(true)).icon, says(&audio(false)).icon), (Some("pause"), Some("audio-lines")));
    let video = |play_badge: bool| SlotContent::Video { surface: Surface::Blank, play_badge, error: None, interactive: true };
    assert_eq!((says(&video(true)).icon, says(&video(false)).icon), (Some("play"), None));
    assert_eq!([info_heading(InfoSection::Panel), info_heading(InfoSection::Inputs), info_heading(InfoSection::Prompt)], ["Info", "Input", "Prompt"]);
}

fn item(id: u64, kind: MediaType, status: Status) -> Generation {
    let done = status == Status::Completed;
    Generation {
        id: GenerationId(id),
        media_type: kind,
        tool: None,
        status,
        is_favorite: false,
        is_upscaled: false,
        can_recreate: true,
        can_retry: status == Status::Missing,
        prompt: None,
        path: if done || status == Status::Missing { Some(format!("/library/{id}")) } else { None },
        file: if done { Some(format!("/library/{id}")) } else { None },
        file_name: format!("{id}.png"),
        thumbnail: None,
        output_asset_id: if done { Some(AssetId(id + 100)) } else { None },
        duration: None,
        queued_at_ms: 1_000,
        model_name: None,
        width: None,
        height: None,
        file_size: None,
        created: "today".into(),
        error: None,
    }
}

fn image(id: u64) -> Generation {
    item(id, MediaType::Image, Status::Completed)
}

fn asset(id: u64, kind: MediaType, produced_by: Option<u64>) -> Asset {
    Asset {
        id: AssetId(id),
        kind,
        path: format!("/library/assets/{id}.wav"),
        missing: false,
        file: Some(format!("/library/assets/{id}.wav")),
        file_name: format!("asset-{id}"),
        thumbnail: None,
        duration: None,
        width: Some(5),
        height: Some(5),
        file_size: None,
        created_at_ms: 7,
        created: "today".into(),
        referenced: false,
        produced_by: produced_by.map(GenerationId),
    }
}

fn gen(id: u64) -> EntryId {
    EntryId::Generation(GenerationId(id))
}

fn library(generations: Vec<Generation>, assets: Vec<Asset>) -> Library {
    Library { generations, assets, albums: Vec::new() }
}

/// A settled detail over `n` images, on the one at `index`; boxes are plain numbers.
fn detail(n: u64, index: usize) -> (DetailView<u32>, Library) {
    let mut d = DetailView::new((0..n).map(gen).collect(), index, None);
    let lib = library((0..n).map(image).collect(), Vec::new());
    d.tick_morph(&image(0), false, true, true);
    assert!(!d.is_transitioning());
    (d, lib)
}

#[test]
fn stage_cursor_reflects_zoom_and_drag() {
    assert_eq!(stage_cursor(false, false), None);
    assert_eq!(stage_cursor(true, false), Some(CursorStyle::OpenHand));
    assert_eq!(stage_cursor(true, true), Some(CursorStyle::ClosedHand));
}

// ----- paging ---------------------------------------------------------------

#[test]
fn navigation_clamps_and_wraps_at_ends() {
    let (mut d, _) = detail(5, 2);
    assert_eq!(d.go(1, true, false), Some(Step::Next), "slides in when measured");
    assert_eq!(d.index, 3);
    assert_eq!(d.go(-2, true, false), Some(Step::Prev));
    assert_eq!(d.index, 1);
    d.go(-9, false, false);
    assert_eq!(d.index, 0);
    assert_eq!(d.go(-1, true, false), None);
    d.go(i64::MAX, false, false);
    assert_eq!(d.index, 4);
    assert_eq!(d.edges(), (false, true));
    assert_eq!(safe_index(9, 3), 2);
    assert_eq!(safe_index(9, 0), 0);
}

#[test]
fn reduce_motion_jumps_instead_of_sliding() {
    let (mut d, _) = detail(5, 2);
    assert_eq!(d.go(1, true, true), None, "key navigation jump-cuts");
    assert_eq!(d.index, 3);
    assert_eq!(d.go(1, false, false), None, "an unmeasured stage has nothing to slide");
    assert_eq!(d.index, 4);
}

#[test]
fn a_gesture_pages_and_fits_the_next_item() {
    let (mut d, _) = detail(3, 1);
    d.set_zoomed(true);
    d.arm_gesture_timeout(true);
    assert!(d.finish_gesture(Some(Step::Next)));
    assert_eq!((d.index, d.stage.zoomed, d.gesture_timeout), (2, false, false));
    assert!(!d.apply_step(Some(Step::Next)) && !d.apply_step(None));
    assert_eq!(d.index, 2);
    assert!(d.apply_step(Some(Step::Prev)));
    assert_eq!(d.index, 1);
}

#[test]
fn removing_an_earlier_item_does_not_change_pages() {
    let (mut d, mut lib) = detail(4, 2);
    lib.generations.remove(0);
    assert_eq!(d.library_changed(&lib), LibraryNews::Followed);
    assert_eq!((d.index, d.current_id()), (1, Some(gen(2))));
    lib.generations.remove(1);
    assert_eq!(d.library_changed(&lib), LibraryNews::Moved, "the current item vanished");
    assert_eq!((d.index, d.current_id()), (1, Some(gen(3))), "clamped onto the next item");
}

#[test]
fn deleting_current_item_closes_when_empty() {
    let (mut d, mut lib) = detail(1, 0);
    lib.generations.clear();
    assert_eq!(d.library_changed(&lib), LibraryNews::Close);
    assert_eq!(d.current_id(), None);
    assert_eq!(d.back(), Some(DetailEvent::Close));
}

// ----- open and close -------------------------------------------------------

#[test]
fn open_grows_from_the_cell_once_the_stage_is_measured() {
    let mut shown = image(0);
    shown.thumbnail = Some("/t/0".into());
    let mut d: DetailView<u32> = DetailView::new(vec![gen(0)], 0, Some(42));
    assert!(d.is_transitioning(), "pending until the stage is measured");
    assert_eq!(d.tick_morph(&shown, false, false, false), MorphStep::Rest, "nowhere to grow to yet");
    assert_eq!(d.travel_box(&shown, None), Some(42), "the box waits at its cell");
    assert_eq!(d.tick_morph(&shown, false, true, false), MorphStep::Start { cell: Some(42) });
    assert_eq!(d.transition.origin, None, "consumed");
    assert_eq!(d.tick_morph(&shown, false, true, false), MorphStep::Playing);
    assert_eq!(d.travel_box(&shown, Some(50)), Some(50));
    assert_eq!(d.tick_morph(&shown, true, true, false), MorphStep::Finished);
    assert!(!d.is_transitioning(), "settled");
    assert_eq!(d.travel_box(&shown, None), None);
}

#[test]
fn no_thumbnail_or_reduce_motion_skips_the_geometry() {
    let mut d: DetailView<u32> = DetailView::new(vec![gen(0)], 0, Some(42));
    assert!(!morphable(&image(0)));
    assert_eq!(d.tick_morph(&image(0), false, true, false), MorphStep::Start { cell: None }, "nothing to travel with");
    let (mut d, lib) = detail(1, 0);
    assert_eq!(d.close_towards(Some(7), &lib, true), CloseStep::Close, "closes on the spot");
    assert!(!d.is_transitioning());
}

#[test]
fn back_asks_then_closes_after_the_morph() {
    let (mut d, mut lib) = detail(3, 1);
    assert_eq!(d.back(), Some(DetailEvent::WillClose { id: gen(1) }), "the owner gets to pick the cell first");
    lib.generations[1].thumbnail = Some("/t/1".into());
    d.set_zoomed(true);
    assert_eq!(d.close_towards(Some(9), &lib, false), CloseStep::Play { cell: Some(9) });
    assert!(!d.stage.zoomed, "a zoomed image shrinks from its fitted rect");
    assert_eq!(d.transition.morph, Some(Direction::Close));
    // Input during the morph is ignored.
    assert_eq!(d.go(1, true, false), None);
    d.show_info();
    assert_eq!((d.index, d.show_info), (1, false));
    assert_eq!(d.back(), None);
    assert_eq!(d.on_scroll(true, true, true), ScrollRoute::Ignore);
    assert_eq!(d.close_towards(Some(9), &lib, false), CloseStep::Nothing);
    assert_eq!(d.tick_morph(&image(1), true, true, false), MorphStep::Playing, "a close morph stays until the view is dropped");
}

// ----- the stage ------------------------------------------------------------

#[test]
fn scrolling_zooms_pans_or_pages() {
    let (mut d, _) = detail(2, 0);
    assert_eq!(d.on_scroll(true, false, true), ScrollRoute::Zoom);
    assert_eq!(d.on_scroll(false, true, true), ScrollRoute::Page);
    assert_eq!(d.on_scroll(false, true, false), ScrollRoute::Ignore, "no measured stage");
    assert_eq!(d.on_scroll(false, false, true), ScrollRoute::Ignore, "wheel mice stay inert");
    d.set_zoomed(true);
    assert_eq!(d.on_scroll(false, false, true), ScrollRoute::Pan);
}

#[test]
fn reset_zoom_toggles_fit_and_actual_size() {
    let (mut d, _) = detail(1, 0);
    assert_eq!(d.reset_zoom(), ZoomReset::ActualSize);
    assert!(d.stage.zoomed);
    assert_eq!(d.reset_zoom(), ZoomReset::Fit);
    assert!(!d.stage.zoomed);
    assert_eq!(d.zoom_preset(4), PresetZoom::Times(4));
    assert!(d.stage.zoomed);
    assert_eq!(d.zoom_preset(1), PresetZoom::Fit, "1× is fit to view");
    assert!(!d.stage.zoomed);
}

#[test]
fn dragging_moves_the_divider_at_fit_and_pans_when_zoomed() {
    let (mut d, _) = detail(1, 0);
    assert_eq!(d.mouse_down(), StageDrag::Nothing);
    assert_eq!(d.mouse_move(), StageDrag::Nothing);
    d.read.compare = Some("/before".into());
    assert_eq!(d.cursor(), Some(CursorStyle::ResizeLeftRight));
    assert_eq!(d.mouse_down(), StageDrag::Divider);
    assert_eq!(d.mouse_move(), StageDrag::Divider);
    d.mouse_up();
    d.set_zoomed(true);
    assert_eq!(d.cursor(), Some(CursorStyle::OpenHand));
    assert_eq!(d.mouse_down(), StageDrag::Image);
    assert_eq!((d.mouse_move(), d.cursor()), (StageDrag::Image, Some(CursorStyle::ClosedHand)));
    d.mouse_up();
    assert_eq!(d.mouse_move(), StageDrag::Nothing);
}

// ----- subjects -------------------------------------------------------------

#[test]
fn an_output_opened_from_assets_is_shown_as_its_generation() {
    let lib = library(vec![image(1)], vec![asset(9, MediaType::Image, Some(1))]);
    let d: DetailView<u32> = DetailView::new(vec![EntryId::Asset(AssetId(9))], 0, None);
    let subject = d.subject(&lib).unwrap();
    assert_eq!((subject.generation, subject.asset), (Some(GenerationId(1)), Some(AssetId(9))));
    assert!(subject.item.can_recreate, "the generation's request is there");
    assert_eq!(d.toggle_favorite(&lib), Some((GenerationId(1), true)), "favourite lands on the generation");
}

#[test]
fn an_import_shows_file_facts_and_where_it_was_used_without_generation_chrome() {
    let mut user = image(3);
    user.thumbnail = Some("/t/3".into());
    let lib = library(vec![user, image(4)], vec![asset(9, MediaType::Image, None)]);
    let mut d: DetailView<u32> = DetailView::new(vec![EntryId::Asset(AssetId(9))], 0, None);
    let subject = d.subject(&lib).unwrap();
    assert!(subject.generation.is_none() && subject.asset == Some(AssetId(9)));
    let it = subject.item;
    assert_eq!(it.status, Status::Completed);
    assert!(it.model_name.is_none() && !it.can_recreate && !it.can_retry);
    assert_eq!((it.width, it.height), (Some(5), Some(5)), "file facts come from the asset");
    assert_eq!(item_pixel_size(&it), Some((5, 5)));
    d.show_info();
    d.sync_info_assets(&it, &Vec::new(), &vec![GenerationId(3), GenerationId(4), GenerationId(5)], &lib);
    assert!(d.read.info_assets.is_empty(), "an import has no inputs of its own");
    assert_eq!(d.read.info_uses, ["/t/3", "/library/4"], "but it went into generations");
    assert_eq!(d.render_info(&it, "Image", &Vec::new()).uses_title.as_deref(), Some("Used in 2 generation(s)"));
    assert_eq!(d.toggle_favorite(&lib), None, "favouriting a plain asset touches nothing");
    assert_eq!(d.recreate(&lib), Err("This item can't be recreated."));
    assert_eq!(d.retry(&lib), None);
    let mut gone = asset(9, MediaType::Image, None);
    gone.missing = true;
    assert_eq!(item_for_asset(&gone).status, Status::Missing);
}

#[test]
fn deleting_from_the_detail() {
    let (d, lib) = detail(1, 0);
    match d.delete(&lib, "Image") {
        DetailDelete::Generation { message, detail, id } => {
            assert_eq!((message.as_str(), id), ("Delete this image?", GenerationId(0)));
            assert!(detail.contains("stay"));
        }
        other => panic!("{other:?}"),
    }
    assert!(matches!(d.delete_called(&lib, "clip"), DetailDelete::Generation { message, .. } if message == "Delete this clip?"));
    let d: DetailView<u32> = DetailView::new(vec![EntryId::Asset(AssetId(9))], 0, None);
    let mut lib = library(Vec::new(), vec![asset(9, MediaType::Image, None)]);
    match d.delete(&lib, "Image") {
        DetailDelete::Asset { message, detail, id } => {
            assert_eq!((message, id), ("Delete this asset?", AssetId(9)));
            assert!(detail.contains(".majik/trash"));
        }
        other => panic!("{other:?}"),
    }
    lib.assets[0].referenced = true;
    assert_eq!(d.delete(&lib, "Image"), DetailDelete::Refused("asset-9 is used by a generation and can't be deleted.".into()));
    lib.assets.clear();
    assert_eq!(d.delete(&lib, "Image"), DetailDelete::Nothing);
}

#[test]
fn recreate_and_retry_name_the_row() {
    let (d, mut lib) = detail(2, 1);
    assert_eq!(d.recreate(&lib), Ok(DetailEvent::Compose(PendingCompose { recreate: Some(GenerationId(1)) })));
    assert_eq!(d.retry(&lib), Some(GenerationId(1)));
    lib.generations[1].can_recreate = false;
    assert_eq!(d.recreate(&lib), Err("This item can't be recreated."));
    assert_eq!(d.copy(&lib), Some(Exportable { path: "/library/1".into(), kind: MediaType::Image, name: "1.png".into() }));
}

// ----- save -----------------------------------------------------------------

#[test]
fn save_button_cycles_saving_saved_idle() {
    let (mut d, lib) = detail(1, 0);
    assert!(d.save(&lib).is_some());
    assert_eq!(d.save_state, SaveState::Saving);
    assert_eq!(d.save(&lib), None, "one save at a time");
    assert_eq!(d.saved(&SaveOutcome::Saved), (Some(2000), None));
    assert_eq!(d.save_state, SaveState::Saved);
    assert_eq!(d.save(&lib), None);
    d.save_settled();
    assert_eq!(d.save_state, SaveState::Idle);
}

#[test]
fn save_failure_shows_x_then_reverts_and_cancel_is_idle() {
    let (mut d, mut lib) = detail(1, 0);
    d.save(&lib);
    assert_eq!(d.saved(&SaveOutcome::Failed("denied".into())), (Some(2000), Some("Save failed: denied".into())));
    assert_eq!(d.save_state, SaveState::Failed);
    d.save_settled();
    d.save(&lib);
    assert_eq!(d.saved(&SaveOutcome::Cancelled), (None, None));
    assert_eq!(d.save_state, SaveState::Idle);
    lib.generations[0].status = Status::Missing;
    assert_eq!(d.save(&lib), None, "only a finished item is saved");
    assert_eq!(d.save_state, SaveState::Idle);
}

// ----- what is read of the item ---------------------------------------------

fn linked(role: &str, asset: Asset) -> LinkedInput {
    LinkedInput { role: role.into(), asset }
}

#[test]
fn an_upscale_with_its_input_shows_a_before_after_split() {
    let mut up = image(1);
    up.tool = Some(ToolId::Upscale);
    let inputs = vec![linked("first_frame", asset(4, MediaType::Image, None)), linked("reference_image", asset(5, MediaType::Image, None))];
    let (mut d, _) = detail(2, 1);
    d.sync_compare(&up, &inputs, "reference_image");
    assert_eq!(d.read.compare.as_deref(), Some("/library/assets/5.wav"), "the image the tool ran over");
    assert_eq!(d.render_slot(&up, true, 0, Playing { video: false, audio: false }, Recovery::Retry), SlotContent::Compare { before: "/library/assets/5.wav".into(), after: "/library/1".into() });
    assert_eq!(d.render_slot(&up, false, 0, Playing { video: false, audio: false }, Recovery::Retry), SlotContent::Image("/library/1".into()));
    d.sync_compare(&up, &Vec::new(), "reference_image");
    assert!(d.read.compare.is_some(), "resolved once per item");
    d.sync_compare(&image(2), &inputs, "reference_image");
    assert_eq!(d.read.compare, None, "a plain image has nothing to compare");
    let mut other = up.copy();
    other.id = GenerationId(8);
    let mut gone = asset(5, MediaType::Image, None);
    gone.file = None;
    d.sync_compare(&other, &vec![linked("reference_image", gone)], "reference_image");
    assert_eq!(d.read.compare, None, "its file is gone");
}

#[test]
fn info_assets_are_not_loaded_while_the_panel_is_closed() {
    let (mut d, lib) = detail(2, 0);
    let mut clip = asset(5, MediaType::Video, None);
    clip.thumbnail = Some("/t/5".into());
    let inputs = vec![linked("first_frame", asset(4, MediaType::Image, None)), linked("clip", clip), linked("audio", asset(6, MediaType::Audio, None))];
    d.sync_info_assets(&image(0), &inputs, &Vec::new(), &lib);
    assert!(d.read.info_assets.is_empty(), "closed panel: nothing read");
    d.show_info();
    d.sync_info_assets(&image(0), &inputs, &Vec::new(), &lib);
    let pictures: Vec<(MediaType, Option<&str>)> = d.read.info_assets.iter().map(|a| (a.kind, a.picture.as_deref())).collect();
    assert_eq!(pictures, [(MediaType::Image, Some("/library/assets/4.wav")), (MediaType::Video, Some("/t/5")), (MediaType::Audio, None)], "the card draws the thumbnail, never the clip");
    d.sync_info_assets(&image(0), &Vec::new(), &Vec::new(), &lib);
    assert_eq!(d.read.info_assets.len(), 3, "loaded once per item");
    d.sync_info_assets(&image(1), &Vec::new(), &Vec::new(), &lib);
    assert!(d.read.info_assets.is_empty(), "the next item's strip replaces it");
    d.sync_info_assets(&image(0), &inputs, &Vec::new(), &lib);
    d.library_changed(&lib);
    assert!(d.read.info_assets.is_empty() && d.read.info_for.is_none(), "a library change drops the stale cache");
}

#[test]
fn info_chips_state_what_is_known() {
    let (mut d, _) = detail(1, 0);
    let mut it = image(0);
    it.model_name = Some("Veo".into());
    it.width = Some(64);
    it.height = Some(48);
    it.duration = Some("0:05".into());
    it.file_size = Some("1 MB".into());
    it.is_upscaled = true;
    it.error = Some("oops".into());
    it.prompt = Some("a cat".into());
    let settings = RequestSettings::Video { aspect: Some("16:9".into()), resolution: None, seconds: 8, audio: true };
    d.sync_request(&it, Some(RequestFacts { provider: "Mock".into(), settings }));
    let panel = d.render_info(&it, "Video", &Vec::new());
    let chips: Vec<(&str, &str)> = panel.chips.iter().map(|c| (c.label, c.value.as_str())).collect();
    assert_eq!(chips, [
        ("Type", "Video"),
        ("Model", "Veo"),
        ("Dimensions", "64 × 48"),
        ("Duration", "0:05"),
        ("Size", "1 MB"),
        ("Provider", "Mock"),
        ("Aspect", "16:9"),
        ("Length", "8s"),
        ("Audio", "On"),
        ("Upscaled", "Yes"),
        ("Created", "today"),
    ]);
    assert_eq!((panel.prompt.as_deref(), panel.error.as_deref(), panel.file_name.as_str()), (Some("a cat"), Some("oops"), "0.png"));
    assert_eq!(panel.uses_title, None);
    it.prompt = None;
    d.sync_request(&it, None);
    assert_eq!(d.copy_shown_prompt(), Some(("a cat".into(), "Prompt copied")), "read once per item");
    d.sync_request(&image(5), Some(RequestFacts { provider: "Mock".into(), settings: RequestSettings::Audio { voice1: "Kore".into(), voice2: Some("Puck".into()) } }));
    let chips: Vec<&str> = d.render_info(&image(5), "Audio", &Vec::new()).chips.iter().map(|c| c.label).collect();
    assert_eq!(chips, ["Type", "Provider", "Voice 1", "Voice 2", "Created"]);
    d.sync_request(&image(6), Some(RequestFacts { provider: "Mock".into(), settings: RequestSettings::Image { aspect: "1:1".into(), resolution: "1K".into() } }));
    let chips: Vec<&str> = d.render_info(&image(6), "Image", &Vec::new()).chips.iter().map(|c| c.label).collect();
    assert_eq!(chips, ["Type", "Provider", "Aspect", "Resolution", "Created"]);
}

#[test]
fn input_cards_are_captioned_by_role_or_kind_of_file() {
    let audio = InfoAsset { role: "odd".into(), kind: MediaType::Audio, path: "/a/one.wav".into(), picture: None };
    let card = input_card(&audio, &None);
    assert_eq!((card.caption.as_str(), card.icon, card.picture), ("WAV", "audio-lines", None));
    assert_eq!(input_card(&audio, &Some("Audio Track".into())).caption, "Audio Track");
    let bare = InfoAsset { path: "/a/one".into(), kind: MediaType::Video, ..audio.clone() };
    assert_eq!((input_card(&bare, &None).caption.as_str(), input_card(&bare, &None).icon), ("FILE", "film"));
    let (mut d, lib) = detail(1, 0);
    d.show_info();
    d.sync_info_assets(&image(0), &vec![linked("x", asset(4, MediaType::Image, None)), linked("y", asset(5, MediaType::Image, None))], &Vec::new(), &lib);
    let panel = d.render_info(&image(0), "Image", &vec![Some("Start Frame".into())]);
    assert_eq!(panel.inputs.iter().map(|c| c.caption.as_str()).collect::<Vec<_>>(), ["Start Frame", "WAV"]);
    assert!(d.render_info(&image(7), "Image", &Vec::new()).inputs.is_empty(), "another item's strip is not shown");
}

#[test]
fn generating_item_runs_elapsed_ticker() {
    let (mut d, _) = detail(1, 0);
    let busy = item(3, MediaType::Video, Status::Generating);
    assert!(d.sync_elapsed_ticker(&busy));
    assert!(!d.sync_elapsed_ticker(&busy), "already running");
    assert!(!d.sync_elapsed_ticker(&image(0)));
    assert!(!d.elapsed_ticking, "dropped once the item is no longer generating");
}

// ----- players --------------------------------------------------------------

fn video(id: u64) -> Generation {
    item(id, MediaType::Video, Status::Completed)
}

fn audio(id: u64) -> Generation {
    item(id, MediaType::Audio, Status::Completed)
}

#[test]
fn the_player_follows_the_item() {
    let (mut d, _) = detail(3, 0);
    assert_eq!(d.transport_for(&video(1)), Transport::Waiting, "the bar is there before the player is open");
    assert_eq!(d.sync_player(&video(1), true), None, "mid-slide nothing changes hands");
    assert_eq!(d.sync_player(&video(1), false), Some((AudioStep::Stop, VideoStep::Open("/library/1".into()))));
    assert!(d.media.player_opening);
    assert_eq!(d.sync_player(&video(1), false), Some((AudioStep::Stop, VideoStep::Keep)));
    assert!(!d.player_opened(GenerationId(9), Ok(())), "an answer for another item is dropped");
    assert!(d.player_opened(GenerationId(1), Ok(())));
    assert_eq!((d.transport_for(&video(1)), d.toggle_playback()), (Transport::Video, Playback::Video));
    assert!(d.ensure_pump(true));
    assert!(!d.ensure_pump(true), "already running");
    d.upload_frame(Some(FramePixels { width: 1, height: 1, bytes: vec![1, 2, 3, 4] }));
    assert!(d.media.frame);
    assert_eq!(d.sync_player(&image(0), false), Some((AudioStep::Stop, VideoStep::Drop)));
    assert!(!d.media.player && !d.media.pumping && !d.media.frame && d.media.player_for.is_none());
    assert_eq!(d.transport_for(&image(0)), Transport::Absent);
}

#[test]
fn a_video_that_cannot_be_opened_says_why() {
    let (mut d, _) = detail(3, 0);
    d.sync_player(&video(1), false);
    assert!(!d.player_opened(GenerationId(1), Err("no moov".into())));
    assert_eq!(d.media.player_error.as_deref(), Some("no moov"));
    assert!(!d.ensure_pump(true), "no player to pump");
    d.sync_player(&video(2), false);
    assert_eq!(d.media.player_error, None);
}

#[test]
fn audio_item_gets_a_player_and_transport_or_a_visible_error() {
    let (mut d, _) = detail(3, 0);
    assert_eq!(d.sync_player(&audio(2), false), Some((AudioStep::Open("/library/2".into()), VideoStep::Drop)));
    d.audio_opened(Err("no device".into()));
    assert_eq!((d.media.audio, d.media.player_error.as_deref()), (false, Some("no device")));
    d.sync_player(&image(0), false);
    d.sync_player(&audio(2), false);
    d.audio_opened(Ok(()));
    assert!(!d.media.player, "audio never gets the video player");
    assert!(d.media.player_error.is_none());
    assert_eq!((d.transport_for(&audio(2)), d.toggle_playback()), (Transport::Audio, Playback::Audio));
    assert_eq!(d.sync_player(&audio(2), false), Some((AudioStep::Keep, VideoStep::Drop)));
    d.sync_player(&image(0), false);
    assert!(!d.media.audio && d.media.audio_for.is_none(), "leaving the item hard-stops its player");
    assert_eq!(d.toggle_playback(), Playback::Nothing);
}

#[test]
fn the_decode_loop_ends_when_nothing_is_wanted() {
    let (mut d, _) = detail(3, 0);
    d.sync_player(&video(1), false);
    d.player_opened(GenerationId(1), Ok(()));
    d.ensure_pump(true);
    assert!(d.pump_job(true));
    assert_eq!(d.pump_applied(true, None, true), PumpTurn { upload: true, again: true });
    assert_eq!(d.pump_applied(false, Some("bad frame".into()), false), PumpTurn { upload: false, again: false });
    assert_eq!((d.media.pumping, d.media.player_error.as_deref()), (false, Some("bad frame")));
    d.ensure_pump(true);
    assert!(!d.pump_job(false));
    assert!(!d.media.pumping);
    d.drop_player();
    assert_eq!(d.pump_applied(true, None, true), PumpTurn { upload: false, again: false });
    assert_eq!((pump_delay(40_000_000), pump_delay(1_000)), (20_000_000, 4_000_000));
}

#[test]
fn a_frame_needs_bytes_for_its_size() {
    let (mut d, _) = detail(1, 0);
    assert_eq!(d.upload_frame(None), FrameUpload::Nothing);
    let frame = FramePixels { width: 2, height: 1, bytes: vec![1, 2, 3, 4, 5, 6, 7, 8] };
    assert_eq!(d.upload_frame(Some(frame.clone())), FrameUpload::Show { pixels: frame.clone(), release: false });
    assert_eq!(d.upload_frame(Some(frame.clone())), FrameUpload::Show { pixels: frame, release: true });
    let short = FramePixels { width: 2, height: 2, bytes: vec![0; 15] };
    assert_eq!(d.upload_frame(Some(short)), FrameUpload::Short("video frame has 15 bytes for 2x2".into()));
    let huge = FramePixels { width: u32::MAX, height: u32::MAX, bytes: vec![0; 4] };
    assert!(matches!(d.upload_frame(Some(huge)), FrameUpload::Short(_)));
    let more = FramePixels { width: 1, height: 1, bytes: vec![0; 6] };
    assert!(matches!(d.upload_frame(Some(more)), FrameUpload::Show { .. }));
}

// ----- slots and the frame --------------------------------------------------

const QUIET: Playing = Playing { video: false, audio: false };

#[test]
fn slots_show_what_became_of_the_item() {
    let (mut d, _) = detail(3, 0);
    let slot = |d: &DetailView<u32>, it: &Generation, current: bool, recovery: Recovery| d.render_slot(it, current, 4_000, QUIET, recovery);
    let busy = item(1, MediaType::Video, Status::Generating);
    assert_eq!(slot(&d, &busy, true, Recovery::Retry), SlotContent::Generating { kind: MediaType::Video, elapsed_secs: 3 });
    let mut failed = item(1, MediaType::Image, Status::Failed);
    assert_eq!(slot(&d, &failed, true, Recovery::Retry), SlotContent::Failed { error: "".into(), retry: true, recovery: None });
    failed.error = Some("no credits".into());
    let credits = Recovery::CheckCredits("https://fal.ai".into());
    assert_eq!(slot(&d, &failed, true, credits.clone()), SlotContent::Failed { error: "no credits".into(), retry: true, recovery: Some(credits.clone()) });
    assert_eq!(slot(&d, &failed, false, credits), SlotContent::Failed { error: "no credits".into(), retry: false, recovery: None });
    let missing = item(1, MediaType::Image, Status::Missing);
    let text = "1.png is no longer in the library folder. It may have been moved or deleted outside Majik.";
    assert_eq!(slot(&d, &missing, true, Recovery::Retry), SlotContent::Missing { text: text.into(), regenerate: true });
    assert_eq!(slot(&d, &missing, false, Recovery::Retry), SlotContent::Missing { text: text.into(), regenerate: false });
    let mut clip = video(1);
    assert_eq!(slot(&d, &clip, false, Recovery::Retry), SlotContent::Video { surface: Surface::Blank, play_badge: true, error: None, interactive: false });
    clip.thumbnail = Some("/t/1".into());
    assert!(matches!(slot(&d, &clip, true, Recovery::Retry), SlotContent::Video { surface: Surface::Thumbnail(_), .. }));
    d.sync_player(&clip, false);
    d.player_opened(GenerationId(1), Ok(()));
    d.upload_frame(Some(FramePixels { width: 1, height: 1, bytes: vec![0; 4] }));
    let playing = Playing { video: true, audio: false };
    assert_eq!(d.render_slot(&clip, true, 0, playing, Recovery::Retry), SlotContent::Video { surface: Surface::Frame, play_badge: false, error: None, interactive: true });
    assert!(matches!(d.render_slot(&video(2), false, 0, playing, Recovery::Retry), SlotContent::Video { surface: Surface::Blank, play_badge: true, .. }));
    d.sync_player(&audio(2), false);
    d.audio_opened(Ok(()));
    let playing = Playing { video: false, audio: true };
    assert_eq!(d.render_slot(&audio(2), true, 0, playing, Recovery::Retry), SlotContent::Audio { playing: true, name: "2.png".into(), error: None, interactive: true });
    assert_eq!(d.render_slot(&audio(2), false, 0, playing, Recovery::Retry), SlotContent::Audio { playing: false, name: "2.png".into(), error: None, interactive: false });
}

fn picture() -> PictureFacts<u32> {
    PictureFacts { morph_frame: None, player_size: false, visible: vec![0, 1, 2], matched_preset: None, playing: QUIET, dark: true }
}

fn drawn(d: &DetailView<u32>, lib: &Library) -> DetailFrame {
    d.render(lib, &picture()).expect("something to show")
}

#[test]
fn a_frame_at_rest() {
    let (mut d, mut lib) = detail(3, 0);
    lib.generations[0].is_favorite = true;
    lib.generations[0].width = Some(64);
    lib.generations[0].height = Some(64);
    lib.generations.remove(2);
    d.hover(Step::Prev, true);
    d.hover(Step::Next, true);
    let f = drawn(&d, &lib);
    assert_eq!(f.slots.iter().map(|(k, s)| (*k, s.item.id)).collect::<Vec<_>>(), [(0, GenerationId(0)), (1, GenerationId(1))]);
    let controls = f.controls.unwrap();
    assert_eq!((controls.favorite, controls.save_icon, controls.save_enabled, controls.recreate), (Some("heart-filled"), "download", true, true));
    assert_eq!(controls.menu, [
        DetailMenuEntry::Copy { enabled: true },
        DetailMenuEntry::CopyPrompt { enabled: false },
        DetailMenuEntry::Recreate { enabled: true },
        DetailMenuEntry::Separator,
        DetailMenuEntry::Delete { enabled: true },
    ]);
    let labels: Vec<_> = controls.menu.iter().map(|entry| entry.label()).collect();
    assert_eq!(labels, [Some("Copy"), Some("Copy Prompt"), Some("Recreate"), None, Some("Delete")]);
    let (left, right) = f.arrows.unwrap();
    assert!(!left.shown && !left.enabled, "no previous item: hovering the zone shows nothing");
    assert!(right.shown && right.enabled);
    let presets = f.zoom_row.unwrap();
    assert_eq!(presets.iter().map(|p| (p.label.as_str(), p.selected)).collect::<Vec<_>>(), [("1×", true), ("2×", false), ("4×", false), ("6×", false), ("8×", false)], "fit to view is 1×");
    assert_eq!((f.backdrop, f.transport, f.play_icon, f.info, f.checkerboard), (Backdrop::Black, Transport::Absent, None, false, false));
    d.set_zoomed(true);
    let f = d.render(&lib, &PictureFacts { matched_preset: Some(4), dark: false, ..picture() }).unwrap();
    assert_eq!(f.zoom_row.unwrap().iter().position(|p| p.selected), Some(2));
    assert_eq!((f.backdrop, f.cursor), (Backdrop::White, Some(CursorStyle::OpenHand)));
    d.save(&lib);
    let controls = drawn(&d, &lib).controls.unwrap();
    assert!(controls.save_spins && !controls.save_enabled);
    d.saved(&SaveOutcome::Failed("x".into()));
    assert_eq!(drawn(&d, &lib).controls.unwrap().save_icon, "x");
}

#[test]
fn copy_prompt_writes_the_clipboard_and_toasts() {
    let (mut d, mut lib) = detail(1, 0);
    lib.generations[0].prompt = Some("seeded".into());
    assert!(!drawn(&d, &lib).info, "no info panel, no copy button");
    d.show_info();
    let it = d.item(&lib).unwrap();
    d.begin_frame(&it, &lib, ItemFacts { played: true, ..facts() });
    assert_eq!(d.render_info(&it, "Image", &Vec::new()).prompt.as_deref(), Some("seeded"), "copy button next to the prompt");
    assert_eq!(d.copy_shown_prompt(), Some(("seeded".into(), "Prompt copied")));
    assert_eq!(d.copy_prompt(&lib), Some(("seeded".into(), "Prompt copied")));
    lib.generations[0].prompt = None;
    assert_eq!(d.copy_prompt(&lib), None);
}

#[test]
fn the_controls_of_the_stage_have_tooltips() {
    let all = [StageButton::Favorite, StageButton::Save, StageButton::Info, StageButton::Recreate, StageButton::Close, StageButton::PlayPause, StageButton::CopyPrompt];
    assert_eq!(all.map(stage_tooltip), ["Favorite", "Save…", "Info", "Recreate", "Close", "Play / Pause", "Copy prompt"]);
}

#[test]
fn checkerboard_backs_only_background_removals() {
    let (d, mut lib) = detail(1, 0);
    assert!(!drawn(&d, &lib).checkerboard, "a plain image sits on the black stage");
    lib.generations[0].tool = Some(ToolId::RemoveBackground);
    assert!(drawn(&d, &lib).checkerboard, "a background removal shows its transparency");
    lib.generations[0].media_type = MediaType::Audio;
    let f = drawn(&d, &lib);
    assert!(!f.checkerboard);
    assert_eq!((f.backdrop, f.transport, f.play_icon), (Backdrop::Theme, Transport::Waiting, Some("play")));
    assert!(f.zoom_row.is_none(), "no known size");
}

#[test]
fn nothing_floats_over_the_stage_while_it_morphs() {
    let (mut d, mut lib) = detail(2, 0);
    lib.generations[0].thumbnail = Some("/t/0".into());
    d.show_info();
    assert!(drawn(&d, &lib).info);
    d.close_towards(Some(3), &lib, false);
    let f = d.render(&lib, &PictureFacts { morph_frame: Some(3), ..picture() }).unwrap();
    assert!(f.controls.is_none() && f.arrows.is_none() && f.zoom_row.is_none() && !f.info);
    assert!(f.slots.is_empty(), "the travelling box stands in for the strip");
    let box_ = f.travelling.unwrap();
    assert_eq!((box_.thumbnail.as_str(), box_.prewarm.as_deref()), ("/t/0", Some("/library/0")));
    lib.generations.clear();
    assert!(d.render(&lib, &picture()).is_none());
}

fn facts() -> ItemFacts {
    ItemFacts {
        sliding: false,
        request: None,
        inputs: Vec::new(),
        users: Vec::new(),
        reference_role: "reference_image".into(),
        audio_playing: false,
        played: false,
        measured: true,
        reduce_motion: false,
    }
}

#[test]
fn a_frame_begins_by_catching_up_with_the_item() {
    let mut clip = video(0);
    clip.prompt = Some("a cat".into());
    let lib = library(vec![clip.clone()], Vec::new());
    let mut d: DetailView<u32> = DetailView::new(vec![gen(0)], 0, None);
    let start = d.begin_frame(&clip, &lib, ItemFacts { sliding: true, ..facts() });
    assert!(start.players.is_none() && start.animate);
    assert_eq!(start.morph, MorphStep::Start { cell: None });
    let start = d.begin_frame(&clip, &lib, ItemFacts { played: true, ..facts() });
    assert_eq!(start.players, Some((AudioStep::Stop, VideoStep::Open("/library/0".into()))));
    assert_eq!((start.morph, start.animate, start.start_timer), (MorphStep::Finished, false, false));
    assert_eq!(d.read.prompt.as_deref(), Some("a cat"));
    d.library_changed(&lib);
    assert_eq!(d.copy_shown_prompt(), None, "what was read of the item is forgotten");
    assert_eq!(d.copy_prompt(&lib), Some(("a cat".into(), "Prompt copied")), "the menu asks the library");
    let busy = item(0, MediaType::Audio, Status::Generating);
    assert!(d.begin_frame(&busy, &lib, facts()).start_timer);
}

use majik_views::model::{MediaType, ToolId};
use majik_views::model_picker::{
    open_model_picker, open_palette, recent_rows, resolution_range, rows, terms_occur, Catalog, ComposeTab, ImageCapabilities, ImageModel, IndexPath,
    ModelInfo, ModelRow, PaletteAction, PaletteEvent, PaletteExtras, ReferenceLimits, Resolution, ToolModel, VideoCapabilities, VideoModel,
};

fn info(id: &'static str, name: &'static str, manufacturer: &'static str) -> ModelInfo {
    ModelInfo { id, name, manufacturer, logo: "logo", short_description: "A model" }
}

fn image(id: &'static str, name: &'static str, manufacturer: &'static str) -> ImageModel {
    ImageModel { info: info(id, name, manufacturer), capabilities: None }
}

fn catalog() -> Catalog {
    Catalog {
        image: vec![
            image("gpt-5-image", "GPT-5 Image", "OpenAI"),
            image("flux-2-pro", "FLUX.2 Pro", "Black Forest Labs"),
            image("flux-2-max", "FLUX.2 Max", "Black Forest Labs"),
            image("seedream-4.5", "Seedream 4.5", "ByteDance"),
        ],
        video: Vec::new(),
        audio: vec![info("voice", "Voice", "Maker")],
        upscale: vec![
            ToolModel { info: info("up", "Upscaler", "Maker"), media: "Image", upscale_factors: vec!["2".into(), "4".into()] },
            ToolModel { info: info("vup", "Video Upscaler", "Maker"), media: "Video", upscale_factors: vec!["2".into()] },
        ],
        remove_background: vec![ToolModel { info: info("cut", "Cutout", "Maker"), media: "Image", upscale_factors: Vec::new() }],
    }
}

fn ids(all: &[&str]) -> Vec<String> {
    all.iter().map(|s| s.to_string()).collect()
}

const IMAGES: ComposeTab = ComposeTab::Media(MediaType::Image);

#[test]
fn matches_is_case_insensitive_over_name_maker_and_description() {
    let row = ModelRow { index: 0, id: "flux-2-pro", name: "FLUX.2 Pro", manufacturer: "Black Forest Labs", logo: "", description: "Fast photoreal images", chips: Vec::new() };
    assert!(row.matches(""));
    assert!(row.matches("flux"));
    assert!(row.matches("forest"));
    assert!(row.matches("photoreal"));
    assert!(row.matches("flux pro"), "every term has to match, in any order");
    assert!(row.matches("pro flux"));
    assert!(!row.matches("flux max"));
    assert!(!row.matches("kling"));
}

#[test]
fn matching_lowers_both_sides() {
    let row = ModelRow { index: 0, id: "a", name: "ÉCLAIR", manufacturer: "Ü", logo: "", description: "", chips: Vec::new() };
    assert!(row.matches("éclair"), "the name is lowered");
    assert!(row.matches("ÉCLAIR"), "and so is the query");
    assert!(terms_occur("éclair ü ", &ids(&["écl", "ü"])));
    assert!(!terms_occur("éclair ü ", &ids(&["écl", "Ü"])));
}

#[test]
fn without_recents_there_is_one_section() {
    let (list, palette) = open_model_picker(&catalog(), IMAGES, 2, &Vec::new());
    assert!(list.recent_names().is_empty());
    assert_eq!(list.sections_count(), 1);
    assert_eq!(list.items_count(0), 4);
    assert_eq!(list.selected, Some(IndexPath { section: 0, row: 2 }));
    assert_eq!(list.render_section_header(0), None);
    assert_eq!(palette.placeholder, "Search models");
}

#[test]
fn recently_used_models_are_listed_first_newest_first() {
    let (list, _) = open_model_picker(&catalog(), IMAGES, 0, &ids(&["seedream-4.5", "flux-2-pro"]));
    assert_eq!(list.recent_names(), ["Seedream 4.5", "FLUX.2 Pro"]);
    assert_eq!(list.sections_count(), 2, "Recent above All models");
    assert_eq!((list.items_count(0), list.items_count(1)), (2, 4));
    assert_eq!(list.matched_names().len(), 4, "the catalog below is still complete");
    assert_eq!((list.render_section_header(0), list.render_section_header(1)), (Some("RECENT"), Some("ALL MODELS")));
}

#[test]
fn a_remembered_model_the_provider_does_not_offer_is_skipped() {
    let all = rows(&catalog(), IMAGES);
    let recent = recent_rows(&all, &ids(&["no-such-model", "seedream-4.5"]));
    assert_eq!(recent.iter().map(|r| r.name).collect::<Vec<_>>(), ["Seedream 4.5"]);
    assert_eq!(recent[0].index, 3);
}

#[test]
fn the_current_model_is_highlighted_in_recent_when_it_is_there() {
    let recent = ids(&["seedream-4.5", "flux-2-pro"]);
    let (list, _) = open_model_picker(&catalog(), IMAGES, 1, &recent);
    assert_eq!(list.selected, Some(IndexPath { section: 0, row: 1 }));
    assert!(list.render_item(IndexPath { section: 0, row: 1 }).unwrap().current, "checked");
    let (list, _) = open_model_picker(&catalog(), IMAGES, 0, &recent);
    assert_eq!(list.selected, Some(IndexPath { section: 1, row: 0 }), "not recent: highlighted in the catalog");
}

#[test]
fn typing_hides_the_recent_section_and_enter_picks_the_first_match() {
    let (mut list, _) = open_model_picker(&catalog(), IMAGES, 0, &ids(&["flux-2-pro"]));
    list.perform_search("seedream 4.5");
    assert!(list.recent_names().is_empty(), "the matches are the shortcut while searching");
    assert_eq!(list.matched_names(), ["Seedream 4.5"]);
    list.set_selected_index(Some(IndexPath { section: 0, row: 0 }));
    assert_eq!(list.confirm(), Some(3), "the pick maps the filtered row back to the catalog index");
    list.perform_search("  ");
    assert_eq!(list.recent_names(), ["FLUX.2 Pro"], "clearing the search brings the section back");
    assert_eq!(list.matched_names().len(), 4);
}

#[test]
fn search_matches_the_manufacturer_too() {
    let (mut list, _) = open_model_picker(&catalog(), IMAGES, 0, &Vec::new());
    list.perform_search("black forest");
    assert_eq!(list.matched_names(), ["FLUX.2 Pro", "FLUX.2 Max"]);
}

#[test]
fn enter_with_no_match_keeps_the_picker_open() {
    let (mut list, _) = open_model_picker(&catalog(), IMAGES, 0, &Vec::new());
    list.perform_search("no such model");
    assert!(list.matched_names().is_empty());
    assert_eq!(list.render_empty(), "No models match");
    assert_eq!(list.confirm(), None, "nothing to pick, nothing to close");
    assert!(list.render_item(IndexPath { section: 0, row: 0 }).is_none());
    list.set_selected_index(None);
    assert_eq!(list.confirm(), None);
}

#[test]
fn a_highlighted_row_is_drawn_selected() {
    let (list, _) = open_model_picker(&catalog(), IMAGES, 0, &Vec::new());
    let item = list.render_item(IndexPath { section: 0, row: 1 }).unwrap();
    assert!(!item.is_selected() && !item.current);
    assert_eq!(item.adornments(), (false, false));
    assert!(item.with_selected(true).is_selected());
}

#[test]
fn video_rows_carry_capability_chips_and_tool_rows_carry_their_media() {
    let mut c = catalog();
    c.video = vec![
        VideoModel { info: info("seedance-2", "Seedance 2", "ByteDance"), capabilities: Some(video()) },
        VideoModel { info: info("veo-3.1", "Veo 3.1", "Google"), capabilities: Some(VideoCapabilities { min_seconds: 8, max_seconds: 8, ..video() }) },
    ];
    let clips = rows(&c, ComposeTab::Media(MediaType::Video));
    assert!(!clips.is_empty() && clips.iter().all(|row| row.chips.iter().any(|c| c.ends_with('s'))), "every video row states its duration");
    let up = rows(&c, ComposeTab::Tool(ToolId::Upscale));
    assert!(!up.is_empty() && up.iter().all(|row| row.chips[0] == "Image" || row.chips[0] == "Video"));
    assert_eq!(up.iter().filter(|row| row.chips[0] == "Video").count(), 1, "one video upscaler");
    assert!(up.iter().all(|row| row.chips.iter().any(|c| c.contains('×'))));
    assert_eq!(up[0].chips, ["Image", "2× / 4×"]);
    assert_eq!(up[1].chips, ["Video", "2×"]);
    let cut = rows(&c, ComposeTab::Tool(ToolId::RemoveBackground));
    assert!(!cut.is_empty() && cut.iter().all(|row| row.chips == ["Image"]), "background removal has no factors");
    assert!(rows(&c, ComposeTab::Media(MediaType::Audio))[0].chips.is_empty());
}

#[test]
fn upscale_rows_have_no_description() {
    let c = catalog();
    assert!(rows(&c, ComposeTab::Tool(ToolId::Upscale)).iter().all(|r| r.description.is_empty()));
    assert!(rows(&c, ComposeTab::Tool(ToolId::RemoveBackground)).iter().all(|r| !r.description.is_empty()));
}

fn res(rank: u32, label: &'static str) -> Resolution {
    Resolution { rank, label }
}

fn video() -> VideoCapabilities {
    VideoCapabilities {
        min_seconds: 4,
        max_seconds: 30,
        resolutions: vec![res(4, "4K"), res(1, "480p"), res(2, "720p")],
        takes_first_frame: true,
        takes_last_frame: true,
        references: None,
        takes_audio: false,
        supports_audio: false,
    }
}

fn video_chips(capabilities: VideoCapabilities) -> Vec<String> {
    let mut c = catalog();
    c.video = vec![VideoModel { info: info("v", "Video", "Maker"), capabilities: Some(capabilities) }];
    rows(&c, ComposeTab::Media(MediaType::Video)).remove(0).chips
}

#[test]
fn video_chips_state_what_the_tables_declare() {
    assert_eq!(video_chips(video()), ["4 - 30s", "480p - 4K", "Start / End"]);
    assert_eq!(video_chips(VideoCapabilities { min_seconds: 5, max_seconds: 5, resolutions: Vec::new(), takes_last_frame: false, ..video() }), ["5s", "Start"]);
    assert_eq!(video_chips(VideoCapabilities { takes_first_frame: false, resolutions: vec![res(1, "480p")], ..video() }), ["4 - 30s", "480p", "End"]);
    let references = Some(ReferenceLimits { images: 1, audio: 0 });
    let plain = VideoCapabilities { takes_first_frame: false, takes_last_frame: false, resolutions: Vec::new(), ..video() };
    assert_eq!(video_chips(VideoCapabilities { references, takes_audio: true, supports_audio: true, ..plain }), ["4 - 30s", "1 reference", "Audio input", "Audio"]);
    let references = Some(ReferenceLimits { images: 3, audio: 2 });
    let plain = VideoCapabilities { takes_first_frame: false, takes_last_frame: false, resolutions: Vec::new(), ..video() };
    assert_eq!(video_chips(VideoCapabilities { references, takes_audio: true, ..plain }), ["4 - 30s", "3 references"], "reference audio is a list, not a conditioning track");
    let mut c = catalog();
    c.video = vec![VideoModel { info: info("v", "Video", "Maker"), capabilities: None }];
    assert!(rows(&c, ComposeTab::Media(MediaType::Video))[0].chips.is_empty());
}

#[test]
fn image_chips_count_references_and_span_resolutions() {
    let mut c = catalog();
    c.image[0].capabilities = Some(ImageCapabilities { max_input_images: 1, resolutions: vec![res(2, "2K"), res(1, "1K")] });
    c.image[1].capabilities = Some(ImageCapabilities { max_input_images: 0, resolutions: Vec::new() });
    c.image[2].capabilities = Some(ImageCapabilities { max_input_images: 4, resolutions: vec![res(1, "1K")] });
    let all = rows(&c, IMAGES);
    assert_eq!(all[0].chips, ["1 reference", "1K - 2K"]);
    assert!(all[1].chips.is_empty());
    assert_eq!(all[2].chips, ["4 references", "1K"]);
    assert_eq!(all.iter().map(|r| r.index).collect::<Vec<_>>(), [0, 1, 2, 3]);
    assert_eq!(resolution_range(&Vec::new()), None);
}

#[test]
fn a_palette_hands_its_keys_to_the_list() {
    let palette = open_palette("Search voices", PaletteExtras { banner: Some("No preview".into()), on_dismiss: true });
    assert_eq!(palette.handle(PaletteEvent::Typed("al".into())), PaletteAction::Search("al".into()));
    assert_eq!(palette.handle(PaletteEvent::Up), PaletteAction::SelectUp);
    assert_eq!(palette.handle(PaletteEvent::Down), PaletteAction::SelectDown);
    assert_eq!(palette.handle(PaletteEvent::Enter), PaletteAction::Confirm);
    assert_eq!(palette.handle(PaletteEvent::Dismissed), PaletteAction::Dismiss);
    let (_, palette) = open_model_picker(&catalog(), IMAGES, 0, &Vec::new());
    assert_eq!(palette.handle(PaletteEvent::Dismissed), PaletteAction::Nothing);
}

use majik_views::compose::{
    accepts_kind, input_content_type, options_menu, path_content_type, picker_key, placeholder, plural, provider_menu, ratio_icon, role_rank,
    stored_content_type, tab_of_role, thumb_key, Amount, AssetRole, CardKey, ClipboardPiece, ComposeView, Composer, DraftAsset, ExitKind,
    Divide, Focus, GenerateChecks, GenerateOutcome, ImproveOutcome, Motion, PasteStep, PathOutcome, Provider, ProviderEntry, RecreateOutcome,
    RequestQuery, Rewritten, RoleSlot, Speaker, TabAssets, TabDraft, ToolStart,
};
use majik_views::compose_frame::{
    panel_text, render_asset_card, AudioOptions, Card, CardPicture, ComposeFrame, Control, ImageOptions, ImproveControl, PanelPart, Ratio, TabOptions, VideoOptions, VideoRatio,
};
use majik_views::feed::DraggedAsset;
use majik_views::model::{Album, AlbumId, Asset, AssetId, Library, MediaType, ToolId};
use majik_views::model_picker::{ComposeTab, ModelInfo};

const IMAGE: ComposeTab = ComposeTab::Media(MediaType::Image);
const VIDEO: ComposeTab = ComposeTab::Media(MediaType::Video);
const AUDIO: ComposeTab = ComposeTab::Media(MediaType::Audio);
const UPSCALE: ComposeTab = ComposeTab::Tool(ToolId::Upscale);
const MOVING: Motion = Motion { reduced: false, now_ms: 1_000 };
const STILL: Motion = Motion { reduced: true, now_ms: 1_000 };

fn slot(role: AssetRole, max: usize) -> RoleSlot {
    RoleSlot { role, max, side: None }
}

fn sided(role: AssetRole, max: usize, side: Divide) -> RoleSlot {
    RoleSlot { role, max, side: Some(side) }
}

fn model() -> ModelInfo {
    ModelInfo { id: "flux-2-pro", name: "FLUX.2 Pro", manufacturer: "Black Forest Labs", logo: "bfl", short_description: "Fast" }
}

fn tab_draft(tab: ComposeTab, slots: Vec<RoleSlot>, image_order: Vec<AssetRole>) -> TabDraft {
    TabDraft { tab, slots, image_order, count: 1, prompt_optional: false, prompt_limit: None, model: Some(model()), ready: true }
}

fn plain(tab: ComposeTab) -> TabDraft {
    tab_draft(tab, vec![slot(AssetRole::ReferenceImage, 2)], vec![AssetRole::ReferenceImage])
}

fn composer(draft: TabDraft, others: Vec<TabDraft>) -> Composer {
    Composer {
        provider: Provider { id: "mock".into(), display_name: "Mock".into(), requires_api_key: true, supports_prompt_improvement: true },
        draft,
        others,
        assets: TabAssets::nothing(),
        speaker1: None,
        speaker2: None,
    }
}

fn draft(tab: ComposeTab) -> Composer {
    composer(plain(tab), [IMAGE, VIDEO, UPSCALE].into_iter().filter(|t| *t != tab).map(plain).collect())
}

/// The drafts of the selected provider, read again: the one the panel has.
fn same() -> Composer {
    draft(IMAGE)
}

/// The drafts of another provider.
fn other(id: &str, name: &str) -> Composer {
    let mut to = draft(IMAGE);
    to.provider.id = id.into();
    to.provider.display_name = name.into();
    to
}

/// No model declares anything.
fn no_options() -> TabOptions {
    TabOptions { image: None, video: None, audio: None }
}

/// A video model that takes a start and an end frame.
fn framed() -> TabDraft {
    tab_draft(VIDEO, vec![slot(AssetRole::FirstFrame, 1), slot(AssetRole::LastFrame, 1)], vec![AssetRole::FirstFrame, AssetRole::LastFrame])
}

/// A video model that takes frames or references.
fn divided() -> TabDraft {
    tab_draft(
        VIDEO,
        vec![
            sided(AssetRole::FirstFrame, 1, Divide::Frames),
            sided(AssetRole::LastFrame, 1, Divide::Frames),
            sided(AssetRole::ReferenceImage, 4, Divide::References),
            sided(AssetRole::ReferenceVideo, 3, Divide::References),
            sided(AssetRole::Audio, 3, Divide::References),
        ],
        vec![AssetRole::FirstFrame, AssetRole::LastFrame, AssetRole::ReferenceImage],
    )
}

fn roles(assets: &[DraftAsset]) -> Vec<AssetRole> {
    assets.iter().map(|a| a.role).collect()
}

fn view(tab: ComposeTab) -> ComposeView {
    ComposeView::new(draft(tab), String::new())
}

fn typed(tab: ComposeTab, prompt: &str) -> ComposeView {
    ComposeView::new(draft(tab), prompt.into())
}

fn asset(id: u64, missing: bool) -> Asset {
    Asset {
        id: AssetId(id),
        kind: MediaType::Image,
        path: format!("/library/assets/{id}.mp3"),
        missing,
        file: if missing { None } else { Some(format!("/library/assets/{id}.mp3")) },
        file_name: format!("{id}.mp3"),
        thumbnail: None,
        duration: None,
        width: None,
        height: None,
        file_size: None,
        created_at_ms: 0,
        created: "today".into(),
        referenced: false,
        produced_by: None,
    }
}

fn library(assets: Vec<Asset>) -> Library {
    Library { generations: Vec::new(), assets, albums: vec![Album { id: AlbumId(1), name: "Cats".into(), items: Vec::new() }] }
}

fn passing() -> GenerateChecks {
    GenerateChecks { has_key: true, constraints: Ok(()), requests: 1, validation: Ok(()) }
}

fn attached(id: u64, role: AssetRole) -> DraftAsset {
    DraftAsset { asset: AssetId(id), role }
}

// ----- the count ------------------------------------------------------------

#[test]
fn count_stepper_clamps_between_1_and_8() {
    let mut v = view(IMAGE);
    v.step_count(-1);
    assert_eq!(v.state.draft.count, 1, "minus at 1 stays at 1");
    for _ in 0..10 {
        v.step_count(1);
    }
    assert_eq!(v.state.draft.count, 8, "plus never exceeds 8");
    v.step_count(-1);
    assert_eq!(v.state.draft.count, 7);
    v.step_count(i64::MAX);
    assert_eq!(v.state.draft.count, 8);
    v.step_count(i64::MIN);
    assert_eq!(v.state.draft.count, 1);
}

#[test]
fn count_stepper_does_nothing_on_the_audio_tab() {
    for tab in [AUDIO, UPSCALE] {
        let mut v = view(tab);
        v.step_count(1);
        assert_eq!(v.state.draft.count, 1);
    }
    let mut v = view(VIDEO);
    v.step_count(1);
    assert_eq!(v.state.draft.count, 2);
}

// ----- cards ----------------------------------------------------------------

#[test]
fn removing_asset_queues_exit_until_timer() {
    let mut v = view(IMAGE);
    assert!(v.add_asset(AssetId(7), AssetRole::ReferenceImage, MOVING));
    assert!(v.entering.contains(&CardKey::Thumb(AssetId(7))), "new cards play the enter transition");
    v.remove_asset(0, MOVING);
    assert!(v.state.active_assets().is_empty());
    assert!(!v.entering.contains(&CardKey::Thumb(AssetId(7))));
    assert_eq!(v.exiting.len(), 1);
    assert!(matches!(v.exiting[0].kind, ExitKind::Thumb { index: 0, .. }));
    v.prune_exits(1_149, 150);
    assert_eq!(v.exiting.len(), 1, "still shrinking");
    v.prune_exits(1_160, 150);
    assert!(v.exiting.is_empty(), "timer pruned the ghost");
    v.remove_asset(3, MOVING);
    assert!(v.exiting.is_empty(), "no such card");
}

#[test]
fn reduce_motion_removes_immediately() {
    let mut v = view(IMAGE);
    v.add_asset(AssetId(7), AssetRole::ReferenceImage, STILL);
    v.remove_asset(0, STILL);
    assert!(v.state.active_assets().is_empty());
    assert!(v.exiting.is_empty());
}

#[test]
fn filling_a_role_queues_picker_exit_and_reappears_on_remove() {
    let mut v = view(IMAGE);
    v.add_asset(AssetId(1), AssetRole::ReferenceImage, MOVING);
    assert!(v.exiting.is_empty());
    v.add_asset(AssetId(2), AssetRole::ReferenceImage, MOVING);
    assert!(v.exiting.iter().any(|e| e.kind == ExitKind::Picker(AssetRole::ReferenceImage)), "full role hides its picker");
    assert!(!v.add_asset(AssetId(3), AssetRole::ReferenceImage, MOVING), "a full role takes nothing more");
    assert_eq!(v.state.active_assets().len(), 2);
    v.prune_exits(1_200, 150);
    assert!(v.exiting.is_empty());
    v.remove_asset(0, MOVING);
    assert!(v.entering.contains(&CardKey::Picker(AssetRole::ReferenceImage)), "picker re-enters once the role has room");
}

#[test]
fn removing_while_the_picker_leaves_cancels_its_exit() {
    let mut v = view(IMAGE);
    v.add_asset(AssetId(1), AssetRole::ReferenceImage, MOVING);
    v.add_asset(AssetId(2), AssetRole::ReferenceImage, MOVING);
    v.remove_asset(1, MOVING);
    assert!(!v.exiting.iter().any(|e| e.kind == ExitKind::Picker(AssetRole::ReferenceImage)));
    assert!(!v.entering.contains(&CardKey::Picker(AssetRole::ReferenceImage)), "it never left, so it does not enter");
    assert_eq!(*v.state.active_assets(), [attached(1, AssetRole::ReferenceImage)]);
}

#[test]
fn drop_target_follows_drag_position() {
    let mut v = view(IMAGE);
    assert!(v.set_drop_target(AssetRole::ReferenceImage, true));
    assert_eq!(v.drop_target, Some(AssetRole::ReferenceImage));
    // Another card reporting "outside" doesn't clear a different target.
    assert!(!v.set_drop_target(AssetRole::Audio, false));
    assert_eq!(v.drop_target, Some(AssetRole::ReferenceImage));
    assert!(v.set_drop_target(AssetRole::ReferenceImage, false));
    assert_eq!(v.drop_target, None);
}

#[test]
fn the_frame_pickers_come_before_the_reference_pickers() {
    let mut v = view(VIDEO);
    v.state.draft.slots = vec![
        slot(AssetRole::ReferenceImage, 2),
        slot(AssetRole::Audio, 0),
        slot(AssetRole::LastFrame, 1),
        slot(AssetRole::FirstFrame, 1),
    ];
    v.drop_target = Some(AssetRole::LastFrame);
    let picker = |role: AssetRole, hot: bool| Card::Picker { role, hot, entering: false };
    assert_eq!(v.render_cards(), [picker(AssetRole::FirstFrame, false), picker(AssetRole::LastFrame, true), picker(AssetRole::ReferenceImage, false)]);
}

#[test]
fn ghosts_shrink_where_they_were() {
    let mut v = view(IMAGE);
    v.state.draft.slots = vec![slot(AssetRole::ReferenceImage, 3)];
    for id in 1..4 {
        v.add_asset(AssetId(id), AssetRole::ReferenceImage, MOVING);
    }
    v.state.assets.image.push(attached(9, AssetRole::Audio));
    v.remove_asset(1, MOVING);
    let cards = v.render_cards();
    assert_eq!(cards, [
        Card::Asset { asset: attached(1, AssetRole::ReferenceImage), index: 0, entering: true },
        Card::AssetGhost { asset: attached(2, AssetRole::ReferenceImage) },
        Card::Asset { asset: attached(3, AssetRole::ReferenceImage), index: 1, entering: true },
        Card::Picker { role: AssetRole::ReferenceImage, hot: false, entering: false },
    ], "roles the model does not take are hidden, and the picker is back");
}

#[test]
fn a_card_whose_file_is_gone_stays() {
    let lib = library(vec![asset(1, false), asset(2, true)]);
    assert_eq!(render_asset_card(&attached(1, AssetRole::ReferenceImage), &lib), CardPicture::Picture("/library/assets/1.mp3".into()));
    assert_eq!(render_asset_card(&attached(1, AssetRole::Audio), &lib), CardPicture::Audio("MP3".into()));
    assert_eq!(render_asset_card(&attached(2, AssetRole::Audio), &lib), CardPicture::Gone);
    assert_eq!(render_asset_card(&attached(3, AssetRole::Audio), &lib), CardPicture::Gone);
    let v = view(IMAGE);
    assert_eq!(v.render_picker_card(AssetRole::ReferenceImage, "reference_image", true).key, "asset-add-reference_image");
    assert_eq!(v.render_picker_card(AssetRole::ReferenceImage, "reference_image", false).key, "exit-asset-add-reference_image");
    assert_eq!(thumb_key("ref-a"), "asset-ref-a");
    assert_eq!(picker_key("audio"), "asset-add-audio");
}

// ----- tabs, providers, recreate ----------------------------------------------

#[test]
fn switching_tab_or_model_cancels_a_rewrite() {
    let mut v = typed(IMAGE, "a cat");
    v.toggle_improve(same(), true);
    assert!(v.improving);
    v.set_tab(IMAGE);
    assert!(v.improving, "the same tab again is no switch");
    v.set_tab(VIDEO);
    assert!(!v.improving);
    assert_eq!(v.prompt, "a cat");
    assert_eq!(v.placeholder, "Describe a video…");
    v.toggle_improve(same(), true);
    v.select_model(plain(VIDEO));
    assert!(!v.improving);
    v.toggle_improve(same(), true);
    v.set_tab(AUDIO);
    assert!(!v.improving && v.state.draft.tab == VIDEO, "the provider has no such tab");
}

#[test]
fn a_provider_switch_settles_the_panel() {
    let mut v = typed(IMAGE, "a cat");
    v.add_asset(AssetId(1), AssetRole::ReferenceImage, MOVING);
    v.remove_asset(0, MOVING);
    v.set_drop_target(AssetRole::ReferenceImage, true);
    assert!(!v.sync_provider(draft(VIDEO)), "the same provider");
    assert_eq!(v.exiting.len(), 1);
    let mut other = draft(VIDEO);
    other.provider.id = "fal.ai".into();
    let mut configured = "mock".to_string();
    assert!(v.select_provider("fal.ai".into(), &mut configured, other));
    assert_eq!(configured, "fal.ai");
    assert!(v.exiting.is_empty() && v.drop_target.is_none());
    assert_eq!((v.state.draft.tab, v.prompt.as_str()), (VIDEO, "a cat"));
}

#[test]
fn recreate_loads_stored_settings() {
    let mut v = typed(VIDEO, "typed");
    let third = ModelInfo { id: "seedream-4.5", name: "Seedream 4.5", ..model() };
    let stored = TabDraft { model: Some(third), ..plain(IMAGE) };
    let loaded = RecreateOutcome::Loaded { draft: stored, inputs: Vec::new(), voices: None, warning: None, prompt: Some("recreate me".into()) };
    assert_eq!(v.apply(same(), Some(loaded)).0, None);
    assert_eq!(v.state.draft.tab, IMAGE);
    assert_eq!(v.state.draft.model.unwrap().id, "seedream-4.5");
    assert_eq!(v.prompt, "recreate me");
}

#[test]
fn recreating_replaces_the_draft_of_one_tab() {
    let mut v = typed(IMAGE, "typed");
    v.add_asset(AssetId(1), AssetRole::ReferenceImage, MOVING);
    v.state.assets.video.push(attached(2, AssetRole::FirstFrame));
    let loaded = RecreateOutcome::Loaded {
        draft: framed(),
        inputs: vec![attached(3, AssetRole::FirstFrame)],
        voices: None,
        warning: Some("one warning".into()),
        prompt: Some("stored".into()),
    };
    assert_eq!(v.apply(same(), Some(loaded)).0.as_deref(), Some("one warning"));
    assert_eq!((v.state.draft.tab, v.prompt.as_str()), (VIDEO, "stored"));
    assert_eq!(v.state.assets.video, [attached(3, AssetRole::FirstFrame)], "replaced, not appended");
    assert_eq!(roles(&v.state.assets.image), [AssetRole::ReferenceImage], "the image tab is untouched");
    let tool = RecreateOutcome::Loaded { draft: plain(UPSCALE), inputs: vec![attached(4, AssetRole::ReferenceImage)], voices: None, warning: None, prompt: None };
    assert_eq!(v.apply(same(), Some(tool)), (None, Focus::Panel), "a tool tab has no prompt box to focus");
    assert_eq!((v.state.draft.tab, v.prompt.as_str()), (UPSCALE, "stored"), "a tool has no prompt to load over what is typed");
    assert_eq!(v.state.assets.upscale, [attached(4, AssetRole::ReferenceImage)], "the one image the row was made from");
    let voices = Some((Some("Rachel".to_string()), None));
    let audio = RecreateOutcome::Loaded { draft: plain(AUDIO), inputs: Vec::new(), voices, warning: None, prompt: Some("recreated audio".into()) };
    assert_eq!(v.apply(same(), Some(audio)).0, None);
    assert_eq!((v.state.draft.tab, v.state.speaker1.as_deref(), v.prompt.as_str()), (AUDIO, Some("Rachel"), "recreated audio"));
    v.set_tab(IMAGE);
    assert_eq!(v.state.draft.tab, IMAGE, "every tab is still there");
}

#[test]
fn recreate_unsupported_modality_keeps_prompt_and_assets() {
    let mut v = typed(IMAGE, "typed");
    v.add_asset(AssetId(1), AssetRole::ReferenceImage, MOVING);
    assert_eq!(v.apply(same(), Some(RecreateOutcome::Unsupported("Mock makes no audio.".into()))).0.as_deref(), Some("Mock makes no audio."));
    assert_eq!((v.prompt.as_str(), v.state.active_assets().len()), ("typed", 1));
    assert_eq!(v.apply(same(), None), (None, Focus::Prompt));
}

#[test]
fn speaker_one_keeps_a_voice() {
    let mut v = view(AUDIO);
    v.set_voice(Speaker::One, Some("Kore".into()), true);
    v.set_voice(Speaker::One, None, true);
    assert_eq!(v.state.speaker1.as_deref(), Some("Kore"));
    assert_eq!(v.placeholder, "What should the speaker say?");
    v.set_voice(Speaker::Two, Some("Puck".into()), true);
    assert_eq!(v.placeholder, "Speaker 1: …\nSpeaker 2: …");
    v.set_voice(Speaker::Two, None, true);
    assert_eq!(v.state.speaker2, None);
    assert!(v.set_album(Some(AlbumId(1))) && !v.set_album(Some(AlbumId(1))));
}

// ----- generate -------------------------------------------------------------

#[test]
fn generate_is_gated_on_prompt() {
    let limit = 5_000;
    let script = TabDraft { prompt_limit: Some(limit), ..plain(AUDIO) };
    let mut v = ComposeView::new(composer(plain(IMAGE), vec![script]), String::new());
    assert!(!v.can_generate(), "no prompt: disabled");
    v.set_prompt("a red apple".into());
    assert!(v.can_generate(), "prompt: enabled");
    // Image models declare no cap: the length is the provider's business, so nothing is limited here.
    assert_eq!(v.state.draft.prompt_limit, None);
    v.set_prompt("x".repeat(20_000));
    assert!(v.can_generate(), "no declared cap: still enabled");
    // Audio models do declare one, and going over it disables again.
    v.set_tab(AUDIO);
    v.set_prompt("x".repeat(limit));
    assert!(v.can_generate(), "at the cap: enabled");
    v.set_prompt("x".repeat(limit + 1));
    assert!(!v.can_generate(), "over the cap: disabled");
    v.set_prompt(format!("  {}  ", "x".repeat(limit)));
    assert!(v.can_generate(), "white space around it does not count");
    v.state.draft.ready = false;
    assert!(!v.can_generate());
}

#[test]
fn an_attached_asset_can_stand_in_for_a_prompt() {
    let mut v = view(IMAGE);
    v.state.draft.prompt_optional = true;
    v.state.draft.count = 3;
    assert_eq!(v.total(), 0);
    assert!(!v.add_asset(AssetId(1), AssetRole::Audio, MOVING), "the model takes no audio");
    v.state.assets.image.push(attached(1, AssetRole::Audio));
    assert_eq!(v.total(), 0, "an asset the model doesn't take can't stand in");
    v.add_asset(AssetId(2), AssetRole::ReferenceImage, MOVING);
    assert_eq!(v.total(), 3);
}

#[test]
fn generate_clears_only_what_was_submitted() {
    let lib = library(vec![asset(1, false)]);
    let mut v = typed(IMAGE, "a cat");
    v.set_album(Some(AlbumId(1)));
    v.add_asset(AssetId(1), AssetRole::ReferenceImage, MOVING);
    match v.generate(same(), &lib, GenerateChecks { requests: 2, ..passing() }) {
        GenerateOutcome::Submit { total, inputs, album, toast } => {
            assert_eq!((total, inputs, album), (2, vec![attached(1, AssetRole::ReferenceImage)], Some(AlbumId(1))));
            assert_eq!(toast, "Generating 2 item(s) with Mock…");
        }
        other => panic!("{other:?}"),
    }
    assert_eq!((v.prompt.as_str(), v.state.active_assets().len()), ("", 0));
    assert_eq!((v.state.draft.tab, v.album), (IMAGE, Some(AlbumId(1))));
}

fn refused(v: &mut ComposeView, checks: GenerateChecks, text: &str) {
    let lib = library(vec![asset(1, false), asset(2, true)]);
    assert_eq!(v.generate(same(), &lib, checks), GenerateOutcome::Refused(text.into()));
    assert_eq!(v.prompt, "a cat", "nothing is lost");
}

#[test]
fn generate_says_what_is_missing() {
    let lib = library(Vec::new());
    let mut v = typed(IMAGE, "a cat");
    let missing = GenerateChecks { has_key: false, ..passing() };
    assert_eq!(v.generate(same(), &lib, missing), GenerateOutcome::OpenSettings { provider: "mock".into(), message: "Please configure your Mock API key to generate images.".into() });
    refused(&mut v, GenerateChecks { constraints: Err("Too many references.".into()), ..passing() }, "Too many references.");
    refused(&mut v, GenerateChecks { requests: 0, ..passing() }, "Write a prompt first.");
    refused(&mut v, GenerateChecks { validation: Err("Too long.".into()), ..passing() }, "Too long.");
    v.state.draft.ready = false;
    refused(&mut v, passing(), "Pick a model first.");
    v.state.provider.requires_api_key = false;
    v.state.draft.ready = true;
    assert!(matches!(v.generate(same(), &lib, GenerateChecks { has_key: false, ..passing() }), GenerateOutcome::Submit { .. }));
}

#[test]
fn generate_refuses_an_input_whose_file_is_gone() {
    let mut v = typed(IMAGE, "a cat");
    v.add_asset(AssetId(2), AssetRole::ReferenceImage, MOVING);
    refused(&mut v, passing(), "An input's file is no longer available. Remove it or add it again.");
    assert_eq!(v.state.active_assets().len(), 1);
    let lib = library(vec![asset(1, false), asset(2, true)]);
    assert!(v.missing_input(&lib));
    assert!(v.load_asset_inputs(&lib).is_empty());
    v.remove_asset(0, MOVING);
    v.add_asset(AssetId(1), AssetRole::ReferenceImage, MOVING);
    assert_eq!(v.load_asset_inputs(&lib), [attached(1, AssetRole::ReferenceImage)]);
    v.set_prompt("  a cat ".into());
    v.step_count(2);
    let query = RequestQuery { provider: "mock".into(), model: Some(model()), prompt: "  a cat ".into(), inputs: vec![attached(1, AssetRole::ReferenceImage)], count: 3 };
    assert_eq!(v.request_query(&lib), query, "the requests are built from the prompt as typed");
}

#[test]
fn a_tool_runs_once_per_image() {
    let mut v = view(UPSCALE);
    let lib = library(Vec::new());
    assert_eq!(v.generate(same(), &lib, passing()), GenerateOutcome::Tool(ToolId::Upscale));
    assert_eq!(v.run_tool(Ok(())), ToolStart::Refused("Add an image first.".into()));
    v.add_asset(AssetId(1), AssetRole::ReferenceImage, MOVING);
    v.add_asset(AssetId(2), AssetRole::ReferenceImage, MOVING);
    assert_eq!(v.total(), 2);
    assert_eq!(v.run_tool(Err("Too many.".into())), ToolStart::Refused("Too many.".into()));
    assert_eq!(v.run_tool(Ok(())), ToolStart::Run { provider: "mock".into(), model: model(), assets: vec![AssetId(1), AssetId(2)], album: None });
    assert_eq!(v.tool_ran("Upscale", 0), "No supported images (PNG, JPEG, WebP or GIF).");
    assert_eq!(v.state.active_assets().len(), 2, "the images stay attached");
    assert_eq!(v.tool_ran("Upscale", 2), "Upscale: processing 2 image(s)…");
    assert!(v.state.active_assets().is_empty() && v.exiting.is_empty());
    v.add_asset(AssetId(1), AssetRole::ReferenceImage, MOVING);
    v.state.draft.model = None;
    assert_eq!(v.run_tool(Ok(())), ToolStart::Refused("Pick a model first.".into()));
}

// ----- cost -----------------------------------------------------------------

fn amount(text: &str) -> Option<Amount> {
    Some(Amount { text: text.into(), is_zero: false })
}

#[test]
fn cost_shows_the_per_output_price_before_anything_is_typed() {
    let v = view(IMAGE);
    assert_eq!(v.cost_query(), Some((0, 1)));
    assert_eq!(v.cost_caption(&amount("$0.01")).as_deref(), Some("≈ $0.01 each"), "the settings cost this much per image");
}

#[test]
fn cost_totals_the_batch_once_there_is_a_prompt() {
    let mut v = typed(IMAGE, " a cat ");
    assert_eq!(v.cost_caption(&amount("$0.01")).as_deref(), Some("≈ $0.01 estimated"));
    for _ in 0..3 {
        v.step_count(1);
    }
    assert_eq!(v.cost_query(), Some((5, 4)), "4 images at $0.01");
    assert_eq!(v.cost_caption(&amount("$0.04")).as_deref(), Some("≈ $0.04 estimated"));
    assert_eq!(v.cost_caption(&Some(Amount { text: "$0.00".into(), is_zero: true })).as_deref(), Some("Free"));
}

#[test]
fn cost_says_so_when_the_model_has_no_price() {
    assert_eq!(typed(IMAGE, "a cat").cost_caption(&None).as_deref(), Some("No estimate available"), "never guess a number");
}

#[test]
fn cost_on_the_audio_tab_waits_for_text_to_price() {
    let mut v = view(AUDIO);
    assert_eq!(v.cost_query(), None);
    assert_eq!(v.cost_caption(&amount("$0.10")), None, "audio bills per character; with no text there is nothing to say");
    v.set_prompt("a".repeat(1_000));
    assert_eq!(v.cost_query(), Some((1_000, 1)));
    assert_eq!(v.cost_caption(&amount("$0.10")).as_deref(), Some("≈ $0.10 estimated"));
}

// ----- improve --------------------------------------------------------------

#[test]
fn improve_is_offered_on_image_and_video_but_not_audio_or_a_tool() {
    assert!(view(IMAGE).can_improve() && view(VIDEO).can_improve());
    assert!(!view(AUDIO).can_improve(), "an audio script is spoken verbatim");
    assert!(!view(UPSCALE).can_improve(), "a tool has no prompt");
    let mut v = view(IMAGE);
    v.state.provider.supports_prompt_improvement = false;
    assert!(!v.can_improve());
}

#[test]
fn improve_does_nothing_until_something_is_typed() {
    let mut v = view(IMAGE);
    assert_eq!(v.improve(same(), true), ImproveOutcome::Nothing, "a blank prompt asks nothing");
    v.set_prompt("  a cat  ".into());
    v.add_asset(AssetId(1), AssetRole::ReferenceImage, MOVING);
    assert!(matches!(v.improve(same(), true), ImproveOutcome::Ask { .. }));
    assert!(v.improving);
}

#[test]
fn improve_sends_the_prompt_the_model_and_the_reference_roles() {
    let mut v = typed(IMAGE, "  a cat  ");
    let banana = ModelInfo { id: "gemini-3-pro", name: "Nano Banana Pro", ..model() };
    v.select_model(TabDraft { model: Some(banana), ..plain(IMAGE) });
    v.add_asset(AssetId(1), AssetRole::ReferenceImage, MOVING);
    match v.improve(same(), true) {
        ImproveOutcome::Ask { provider, model, prompt, roles } => {
            assert_eq!(prompt, "a cat", "the prompt goes as typed, trimmed");
            assert_eq!(provider, "mock");
            assert_eq!(model.unwrap().name, "Nano Banana Pro");
            assert_eq!(roles, [AssetRole::ReferenceImage]);
        }
        other => panic!("{other:?}"),
    }
}

#[test]
fn clicking_again_cancels_the_rewrite_and_leaves_the_prompt_alone() {
    let mut v = typed(IMAGE, "a cat");
    v.toggle_improve(same(), true);
    assert_eq!(v.toggle_improve(same(), true), ImproveOutcome::Cancelled);
    assert_eq!(v.prompt, "a cat");
    assert_eq!(v.improved(Some(Ok("late".into()))), Rewritten::Nothing);
    assert_eq!(v.prompt, "a cat", "an answer to a cancelled rewrite is dropped");
}

#[test]
fn escape_cancels_a_rewrite_in_flight() {
    let mut v = typed(IMAGE, "a cat");
    v.toggle_improve(same(), true);
    assert!(v.cancel_improve());
    assert!(!v.cancel_improve(), "with none running Escape means what it does elsewhere");
}

#[test]
fn improve_without_a_key_opens_settings_on_that_provider() {
    let mut v = typed(IMAGE, "a cat");
    assert_eq!(v.improve(same(), false), ImproveOutcome::OpenSettings { provider: "mock".into(), message: "Please configure your Mock API key to improve prompts.".into() });
    assert!(!v.improving);
    v.state.draft.ready = false;
    assert_eq!(v.improve(same(), true), ImproveOutcome::Toast("Pick a model first."));
}

#[test]
fn improve_replaces_the_prompt_and_keeps_the_draft() {
    let mut v = view(IMAGE);
    v.set_prompt("a cat".into());
    assert_eq!(v.stored_prompt, "a cat");
    v.improve(same(), true);
    v.improved(Some(Ok("  a tabby cat on a windowsill  ".into())));
    assert_eq!(v.prompt, "a tabby cat on a windowsill", "trimmed into the field");
    assert_eq!(v.stored_prompt, "a tabby cat on a windowsill", "the draft follows the edit");
}

#[test]
fn an_empty_rewrite_is_not_written_into_the_prompt() {
    let mut v = typed(IMAGE, "a cat");
    v.improve(same(), true);
    assert!(matches!(v.improved(Some(Ok("   ".into()))), Rewritten::Toast(_)), "the user is told why nothing changed");
    assert_eq!(v.prompt, "a cat");
}

#[test]
fn a_failed_rewrite_toasts_and_unfreezes() {
    let mut v = typed(IMAGE, "a cat");
    v.improve(same(), true);
    assert!(matches!(v.improved(Some(Err("slow down".into()))), Rewritten::Toast(_)), "the failure is shown");
    assert!(!v.improving);
    assert_eq!(v.prompt, "a cat", "the prompt is left as typed");
}

#[test]
fn a_rewrite_replaces_the_prompt_unless_it_is_empty() {
    let mut v = typed(IMAGE, "a cat");
    v.toggle_improve(same(), true);
    assert_eq!(v.improved(Some(Ok("  a tabby cat on a windowsill  ".into()))), Rewritten::Replace { text: "a tabby cat on a windowsill".into(), focus: Focus::Prompt }, "one edit");
    assert_eq!(v.prompt, "a tabby cat on a windowsill", "trimmed into the field");
    assert!(!v.improving);
    v.toggle_improve(same(), true);
    assert_eq!(v.improved(Some(Ok("  ".into()))), Rewritten::Toast("The model returned an empty prompt.".into()));
    assert_eq!(v.prompt, "a tabby cat on a windowsill");
    v.toggle_improve(same(), true);
    assert_eq!(v.improved(Some(Err("timed out".into()))), Rewritten::Toast("Couldn't improve the prompt: timed out".into()));
    v.toggle_improve(same(), true);
    assert_eq!(v.improved(None), Rewritten::Nothing);
    assert!(!v.improving);
}

// ----- inputs ---------------------------------------------------------------

fn dragged(id: u64, kind: MediaType) -> DraggedAsset {
    DraggedAsset { id: AssetId(id), kind, path: "/a".into(), generation: None }
}

#[test]
fn a_drop_on_a_role_card_attaches_the_dragged_assets_that_fit() {
    let mut v = ComposeView::new(composer(framed(), vec![plain(IMAGE)]), String::new());
    let all = vec![dragged(1, MediaType::Image), dragged(2, MediaType::Audio), dragged(3, MediaType::Image)];
    v.drop_target = Some(AssetRole::FirstFrame);
    v.add_dragged(AssetRole::FirstFrame, &all, MOVING);
    assert_eq!(roles(&v.state.assets.video), [AssetRole::FirstFrame], "one slot: the first image that fits");
    assert_eq!(v.state.assets.video[0].asset, all[0].id);
    assert!(v.drop_target.is_none(), "the card stops glowing");
    v.add_dragged(AssetRole::LastFrame, &all, MOVING);
    assert_eq!(roles(&v.state.assets.video), [AssetRole::FirstFrame, AssetRole::LastFrame]);
    assert_eq!(v.state.assets.video[1].asset, all[0].id, "the same asset can fill another role");
    v.add_dragged(AssetRole::FirstFrame, &all, MOVING);
    assert_eq!(v.state.assets.video.len(), 2, "a full role takes nothing more");
    assert!(v.can_drop(AssetRole::Audio, &all) && !v.can_drop(AssetRole::ReferenceVideo, &all));
    assert!(accepts_kind(AssetRole::ReferenceVideo, MediaType::Video) && accepts_kind(AssetRole::MaskImage, MediaType::Image));
}

#[test]
fn a_drop_on_the_panel_routes_by_kind() {
    let mut v = ComposeView::new(composer(plain(IMAGE), vec![divided(), plain(AUDIO)]), String::new());
    assert!(v.drop_on_panel(&vec![dragged(1, MediaType::Image)], "Audio", MOVING).is_empty());
    assert_eq!(v.state.draft.tab, IMAGE);
    assert_eq!(roles(&v.state.assets.image), [AssetRole::ReferenceImage], "an image lands in the first free image role");

    // A video is a reference, on the tab that takes one; the image beside it follows, because a
    // reference request takes no frames.
    assert!(v.drop_on_panel(&vec![dragged(2, MediaType::Video)], "Audio", MOVING).is_empty());
    assert!(v.drop_on_panel(&vec![dragged(3, MediaType::Image)], "Audio", MOVING).is_empty());
    assert_eq!(v.state.draft.tab, VIDEO, "the video moved to the tab that takes one");
    assert_eq!(roles(&v.state.assets.video), [AssetRole::ReferenceVideo, AssetRole::ReferenceImage]);

    // A model with no reference list has nowhere to put a video.
    v.select_model(framed());
    let toasts = v.drop_on_panel(&vec![dragged(4, MediaType::Video)], "Audio", MOVING);
    assert_eq!(toasts, ["This model doesn't take a video reference."], "a video has no role to land in");

    // Audio goes to the video tab, beside the references it is one of.
    v.select_model(divided());
    assert!(v.drop_on_panel(&vec![dragged(5, MediaType::Audio)], "Audio", MOVING).is_empty());
    assert_eq!(v.state.draft.tab, VIDEO, "audio belongs to a video model");
    assert_eq!(roles(&v.state.assets.video), [AssetRole::ReferenceVideo, AssetRole::ReferenceImage, AssetRole::Audio]);
}

#[test]
fn a_drop_of_several_places_each_after_the_one_before() {
    let mut v = ComposeView::new(composer(framed(), vec![tab_draft(IMAGE, Vec::new(), Vec::new())]), String::new());
    let all: Vec<DraggedAsset> = (1..4).map(|id| dragged(id, MediaType::Image)).collect();
    assert_eq!(v.drop_on_panel(&all, "Audio", MOVING), ["No room for another input image."], "two frames, and the image model takes none");
    assert_eq!(roles(&v.state.assets.video), [AssetRole::FirstFrame, AssetRole::LastFrame]);
    assert_eq!(v.state.draft.tab, IMAGE);
    assert_eq!(v.drop_called(&vec![dragged(4, MediaType::Audio)], "audio", MOVING), ["The selected model doesn't take a audio input."]);
}

#[test]
fn an_asset_moves_to_the_tab_that_takes_it() {
    let sound = tab_draft(VIDEO, vec![slot(AssetRole::Audio, 1)], Vec::new());
    let mut v = ComposeView::new(composer(plain(IMAGE), vec![sound]), String::new());
    assert_eq!(v.add_as(AssetId(1), AssetRole::Audio, "Audio Track", MOVING), (true, None));
    assert_eq!(v.state.draft.tab, VIDEO);
    assert_eq!(v.add_as(AssetId(2), AssetRole::Audio, "Audio Track", MOVING), (false, Some("No room for another audio track input.".into())));
    let mut v = view(IMAGE);
    let toast = "The selected model doesn't take a start frame input.";
    assert_eq!(v.add_as(AssetId(1), AssetRole::FirstFrame, "Start Frame", MOVING), (false, Some(toast.into())));
    assert_eq!(v.state.draft.tab, VIDEO, "the tab switched all the same");
    assert_eq!((tab_of_role(AssetRole::LastFrame), tab_of_role(AssetRole::MaskImage)), (MediaType::Video, MediaType::Image));
}

#[test]
fn a_roleless_image_lands_on_current_tab_first_free_role() {
    let silent = tab_draft(AUDIO, Vec::new(), Vec::new());
    let mut v = ComposeView::new(composer(plain(IMAGE), vec![framed(), silent]), String::new());
    v.set_tab(VIDEO);
    for id in [1, 2] {
        assert_eq!(v.add_image(AssetId(id), MOVING), (true, None));
    }
    assert_eq!(v.state.draft.tab, VIDEO, "no tab switch while the video tab has room");
    assert_eq!(roles(&v.state.assets.video), [AssetRole::FirstFrame, AssetRole::LastFrame]);
    v.set_tab(AUDIO);
    assert_eq!(v.add_image(AssetId(3), MOVING), (true, None));
    assert_eq!(v.state.draft.tab, IMAGE, "audio has no image slot, so the image tab takes it");
    assert_eq!(roles(&v.state.assets.image), [AssetRole::ReferenceImage]);
}

#[test]
fn a_roleless_image_toasts_when_nothing_has_room() {
    let flux = tab_draft(IMAGE, vec![slot(AssetRole::ReferenceImage, 1)], vec![AssetRole::ReferenceImage]);
    let mut v = ComposeView::new(composer(flux, Vec::new()), String::new());
    assert!(v.add_asset(AssetId(1), AssetRole::ReferenceImage, MOVING));
    assert!(!v.render_cards().contains(&Card::Picker { role: AssetRole::ReferenceImage, hot: false, entering: false }), "a full role has no picker");
    assert_eq!(v.add_image(AssetId(2), MOVING), (false, Some("No room for another input image.".into())));
    assert_eq!(v.state.assets.image.len(), 1);
    v.remove_asset(0, MOVING);
    assert!(v.render_cards().contains(&Card::Picker { role: AssetRole::ReferenceImage, hot: false, entering: false }), "the picker comes back");
}

#[test]
fn a_roleless_image_lands_in_tool_tab_when_it_has_room() {
    let cutout = ComposeTab::Tool(ToolId::RemoveBackground);
    let mut v = ComposeView::new(composer(plain(cutout), vec![plain(IMAGE)]), String::new());
    v.add_image(AssetId(1), MOVING);
    assert_eq!(v.state.draft.tab, cutout, "no tab switch while the tool tab has room");
    assert_eq!(roles(&v.state.assets.remove_background), [AssetRole::ReferenceImage]);
    assert!(v.state.assets.image.is_empty());
}

#[test]
fn asset_add_respects_reference_capacity() {
    let mut v = view(IMAGE);
    for id in 0..5 {
        v.add_asset(AssetId(id), AssetRole::ReferenceImage, MOVING);
    }
    assert_eq!(v.state.assets.image.len(), 2, "capped at the model's max input images");
}

#[test]
fn tool_tab_takes_at_most_ten_images() {
    let tool = tab_draft(UPSCALE, vec![slot(AssetRole::ReferenceImage, 10)], vec![AssetRole::ReferenceImage]);
    let mut v = ComposeView::new(composer(plain(IMAGE), vec![tool]), String::new());
    v.set_tab(UPSCALE);
    for id in 0..12 {
        v.add_asset(AssetId(id), AssetRole::ReferenceImage, MOVING);
    }
    assert_eq!(v.state.active_assets().len(), 10);
    assert!(v.state.role_is_full(AssetRole::ReferenceImage));
    assert_eq!(v.total(), 10);
}

#[test]
fn references_and_frames_close_each_other() {
    let mut v = ComposeView::new(composer(divided(), Vec::new()), String::new());
    assert!(v.state.role_is_open(AssetRole::FirstFrame) && v.state.role_is_open(AssetRole::ReferenceImage));

    v.add_asset(AssetId(1), AssetRole::ReferenceImage, MOVING);
    assert!(!v.state.role_is_open(AssetRole::FirstFrame), "a reference closes the frames");
    assert!(!v.state.role_is_open(AssetRole::LastFrame));
    assert!(v.state.role_is_open(AssetRole::ReferenceImage), "more references still fit");
    assert_eq!(v.state.first_available_image_role(), Some(AssetRole::ReferenceImage));

    v.remove_asset(0, MOVING);
    v.state.clear_active_assets();
    v.add_asset(AssetId(2), AssetRole::FirstFrame, MOVING);
    assert!(!v.state.role_is_open(AssetRole::ReferenceImage), "a frame closes the references");
    assert!(v.state.role_is_open(AssetRole::LastFrame), "the other frame still fits");
    assert_eq!(v.add_video(AssetId(3), MOVING), (false, Some("Remove the start or end frame to use references instead.".into())));
}

#[test]
fn image_assets_survive_tab_round_trip() {
    let mut v = ComposeView::new(composer(plain(IMAGE), vec![framed(), plain(AUDIO)]), String::new());
    v.add_asset(AssetId(1), AssetRole::ReferenceImage, MOVING);
    v.step_count(3);
    for tab in [VIDEO, AUDIO, IMAGE] {
        v.set_tab(tab);
        assert_eq!(v.state.active_assets().len(), usize::from(tab == IMAGE), "only the image tab shows the image draft");
    }
    assert_eq!(roles(&v.state.assets.image), [AssetRole::ReferenceImage]);
    assert_eq!(v.state.draft.count, 4, "and its settings");
}

#[test]
fn video_assets_are_separate_from_image_assets() {
    let mut v = ComposeView::new(composer(plain(IMAGE), vec![framed()]), String::new());
    v.add_asset(AssetId(1), AssetRole::ReferenceImage, MOVING);
    v.set_tab(VIDEO);
    v.add_asset(AssetId(2), AssetRole::FirstFrame, MOVING);
    assert_eq!(roles(v.state.active_assets()), [AssetRole::FirstFrame]);
    v.set_tab(IMAGE);
    assert_eq!(roles(v.state.active_assets()), [AssetRole::ReferenceImage]);
    assert_eq!(roles(&v.state.assets.video), [AssetRole::FirstFrame]);
}

#[test]
fn select_model_keeps_unaccepted_assets() {
    let masked = || tab_draft(IMAGE, vec![slot(AssetRole::ReferenceImage, 4), slot(AssetRole::MaskImage, 1)], vec![AssetRole::ReferenceImage]);
    let mut v = ComposeView::new(composer(masked(), Vec::new()), String::new());
    v.add_asset(AssetId(1), AssetRole::ReferenceImage, MOVING);
    v.add_asset(AssetId(2), AssetRole::MaskImage, MOVING);
    v.select_model(plain(IMAGE));
    assert_eq!(v.state.assets.image.len(), 2, "nothing is pruned");
    assert_eq!(roles(&v.state.accepted_assets()), [AssetRole::ReferenceImage], "the mask is hidden");
    v.select_model(masked());
    assert_eq!(v.state.accepted_assets().len(), 2, "and back");
}

#[test]
fn generate_clears_only_active_tab() {
    let lib = library(vec![asset(1, false)]);
    let mut v = ComposeView::new(composer(plain(IMAGE), vec![framed()]), String::new());
    v.add_asset(AssetId(1), AssetRole::ReferenceImage, MOVING);
    v.set_tab(VIDEO);
    v.add_asset(AssetId(1), AssetRole::FirstFrame, MOVING);
    v.set_tab(IMAGE);
    v.set_prompt("with a reference".into());
    assert!(matches!(v.generate(same(), &lib, passing()), GenerateOutcome::Submit { .. }));
    assert!(v.state.assets.image.is_empty(), "the sent tab is cleared");
    assert_eq!(roles(&v.state.assets.video), [AssetRole::FirstFrame], "the other tab keeps its draft");
    assert_eq!((v.prompt.as_str(), v.stored_prompt.as_str()), ("", ""), "the prompt is empty, and so is what the settings keep of it");
}

#[test]
fn provider_switch_keeps_assets() {
    let mut v = view(IMAGE);
    v.add_asset(AssetId(1), AssetRole::ReferenceImage, MOVING);
    v.state.assets.video.push(attached(2, AssetRole::FirstFrame));
    let mut fal = composer(plain(IMAGE), Vec::new());
    fal.provider.id = "fal.ai".into();
    let mut configured = "mock".to_string();
    assert!(v.select_provider("fal.ai".into(), &mut configured, fal));
    assert_eq!(v.state.provider.id, "fal.ai");
    assert_eq!(roles(&v.state.assets.image), [AssetRole::ReferenceImage]);
    assert_eq!(v.state.assets.video.len(), 1, "a tab the provider lacks keeps its own for later");
}

#[test]
fn losing_the_picked_providers_key_generates_with_one_that_has_a_key() {
    let lib = library(Vec::new());
    let mut v = ComposeView::new(other("fal.ai", "fal.ai"), String::new());
    v.set_prompt("runs on Mock".into());
    match v.generate(other("Mock", "Mock"), &lib, passing()) {
        GenerateOutcome::Submit { total, toast, .. } => {
            assert_eq!(total, 1, "one row created with the fallback provider");
            assert_eq!(toast, "Generating 1 item(s) with Mock…");
        }
        other => panic!("no key prompt: a provider was ready: {other:?}"),
    }
    assert_eq!(v.state.provider.display_name, "Mock");
    let mut v = ComposeView::new(other("fal.ai", "fal.ai"), "a cat".into());
    assert!(matches!(v.improve(other("Mock", "Mock"), true), ImproveOutcome::Ask { provider, .. } if provider == "Mock"));
    let mut v = ComposeView::new(other("fal.ai", "fal.ai"), "a cat".into());
    assert_eq!(v.apply(other("Mock", "Mock"), None), (None, Focus::Prompt));
    assert_eq!(v.state.provider.display_name, "Mock");
}

#[test]
fn selecting_a_provider_persists_it_for_the_whole_app() {
    let mut v = view(IMAGE);
    let mut configured = "Mock".to_string();
    v.select_provider("Replicate".into(), &mut configured, other("Replicate", "Replicate"));
    assert_eq!(v.state.provider.id, "Replicate");
    assert_eq!(configured, "Replicate");
}

#[test]
fn removing_the_selected_providers_key_moves_the_composer_to_one_that_has_one() {
    let mut v = ComposeView::new(other("Replicate", "Replicate"), String::new());
    assert_eq!(v.state.provider.id, "Replicate");
    v.sync_provider(other("Mock", "Mock"));
    assert_eq!(v.state.provider.display_name, "Mock", "first available provider");
}

#[test]
fn generate_without_any_key_opens_settings_on_that_provider() {
    let mut v = ComposeView::new(other("Replicate", "Replicate"), String::new());
    v.set_prompt("a cat".into());
    let no_key = GenerateChecks { has_key: false, ..passing() };
    match v.generate(other("Replicate", "Replicate"), &library(Vec::new()), no_key) {
        GenerateOutcome::OpenSettings { provider, message } => {
            assert_eq!(provider, "Replicate");
            assert_eq!(message, "Please configure your Replicate API key to generate images.");
        }
        other => panic!("settings opened for the key: {other:?}"),
    }
    assert_eq!(v.prompt, "a cat", "nothing generated");
}

#[test]
fn recreate_of_a_row_that_is_gone_or_unreadable_toasts() {
    let mut v = view(IMAGE);
    let (toast, focus) = v.apply(same(), Some(RecreateOutcome::Unreadable));
    assert_eq!(toast.as_deref(), Some("This was made with a model or setting not available in this version."));
    assert_eq!(focus, Focus::Prompt);
    assert_eq!(v.state.draft.tab, IMAGE);
}

#[test]
fn a_frame_keeps_the_providers_drafts() {
    let mut v = view(IMAGE);
    v.step_count(2);
    v.set_tab(VIDEO);
    v.add_asset(AssetId(1), AssetRole::ReferenceImage, MOVING);
    let f = frame(&mut v, no_options());
    assert_eq!((f.saved.provider.as_str(), f.saved.draft.tab, f.provider_name.as_str()), ("mock", VIDEO, "Mock"));
    assert!(f.saved.others.iter().any(|t| t.tab == IMAGE && t.count == 3), "every tab's settings are kept");
    let f = v.render(other("fal.ai", "fal"), &vec![IMAGE], &no_options(), &Vec::new(), "Upscale", &None, &library(Vec::new()), false);
    assert_eq!((f.saved.provider.as_str(), f.provider_name.as_str(), f.selected_tab), ("fal.ai", "fal", 0), "the frame is on the selected provider");
    let mut back = same();
    let kept = view(IMAGE);
    back.draft = TabDraft { count: 3, ..plain(IMAGE) };
    back.others = kept.state.others;
    v.sync_provider(back);
    assert_eq!((v.state.draft.tab, v.state.draft.count, v.state.assets.video.len()), (IMAGE, 3, 1), "its drafts come back, and what is attached stays");
}

#[test]
fn tool_tabs_hidden_for_a_provider_without_tools() {
    let mut v = ComposeView::new(composer(plain(IMAGE), Vec::new()), String::new());
    v.set_tab(UPSCALE);
    assert_eq!(v.state.draft.tab, IMAGE, "an unsupported tab is refused");
}

#[test]
fn generate_rejects_too_many_assets_for_model() {
    let lib = library(vec![asset(1, false), asset(2, false)]);
    let mut v = typed(IMAGE, "two refs, one slot");
    v.add_asset(AssetId(1), AssetRole::ReferenceImage, MOVING);
    v.add_asset(AssetId(2), AssetRole::ReferenceImage, MOVING);
    v.select_model(tab_draft(IMAGE, vec![slot(AssetRole::ReferenceImage, 1)], vec![AssetRole::ReferenceImage]));
    let checks = GenerateChecks { constraints: Err("Too many reference images.".into()), ..passing() };
    assert_eq!(v.generate(same(), &lib, checks), GenerateOutcome::Refused("Too many reference images.".into()), "refused before dispatch");
    assert_eq!(v.state.assets.image.len(), 2, "nothing was cleared");
}

#[test]
fn a_dropped_clip_needs_a_reference_video_slot() {
    let mut v = ComposeView::new(composer(plain(IMAGE), vec![divided()]), String::new());
    assert_eq!(v.add_video(AssetId(1), MOVING), (true, None));
    assert_eq!(v.state.assets.video, [attached(1, AssetRole::ReferenceVideo)]);
    let mut v = view(VIDEO);
    assert_eq!(v.add_video(AssetId(1), MOVING), (false, Some("This model doesn't take a video reference.".into())));
}

#[test]
fn only_cards_that_take_something_of_a_drag_light_up() {
    let mut v = view(IMAGE);
    let clip = vec![dragged(1, MediaType::Video)];
    assert!(!v.drag_over(AssetRole::ReferenceImage, &clip, true), "a picture's card takes no clip");
    assert_eq!(v.drop_target, None);
    let both = vec![dragged(1, MediaType::Video), dragged(2, MediaType::Image)];
    assert!(v.drag_over(AssetRole::ReferenceImage, &both, true));
    assert_eq!(v.drop_target, Some(AssetRole::ReferenceImage));
    let files = vec![PathOutcome::Imported(AssetId(3))];
    assert_eq!(v.drop_paths(AssetRole::ReferenceImage, &files, MOVING), None);
    assert_eq!((v.drop_target, v.state.active_assets().len()), (None, 1), "the drop is over and the file attached");
}

#[test]
fn files_that_fail_are_told_together() {
    let mut v = view(IMAGE);
    let outcomes = vec![
        PathOutcome::Imported(AssetId(1)),
        PathOutcome::Rejected("Not an image.".into()),
        PathOutcome::Unreadable("/pictures/a.png".into()),
        PathOutcome::Rejected("Not an image.".into()),
        PathOutcome::Unreadable("a.png".into()),
        PathOutcome::Imported(AssetId(2)),
        PathOutcome::Imported(AssetId(3)),
    ];
    let toast = v.add_paths(AssetRole::ReferenceImage, &outcomes, MOVING);
    assert_eq!(toast.as_deref(), Some("Not an image.\na.png couldn't be read.\na.png couldn't be read."));
    assert_eq!(*v.state.active_assets(), [attached(1, AssetRole::ReferenceImage), attached(2, AssetRole::ReferenceImage)], "two slots, so the third is left");
    assert_eq!(v.add_paths(AssetRole::ReferenceImage, &Vec::new(), MOVING), None);
    let nameless = vec![PathOutcome::Unreadable("/".into())];
    assert_eq!(v.add_paths(AssetRole::ReferenceImage, &nameless, MOVING).as_deref(), Some(" couldn't be read."));
    assert_eq!(v.add_named(AssetRole::ReferenceImage, &nameless, &vec![Some("b.png".into())], MOVING).as_deref(), Some("b.png couldn't be read."));
    assert!(v.pick_assets(AssetRole::ReferenceImage) && !v.pick_assets(AssetRole::Audio));
}

#[test]
fn content_types_follow_the_role_and_the_extension() {
    assert_eq!(path_content_type(AssetRole::Audio, "/a/One.WAV"), "audio/wav");
    assert_eq!(path_content_type(AssetRole::Audio, "/a/one.mp3"), "audio/mpeg");
    assert_eq!(path_content_type(AssetRole::Audio, "/a/one.FLAC"), "flac");
    assert_eq!(path_content_type(AssetRole::Audio, "/a/one"), "");
    assert_eq!(path_content_type(AssetRole::Audio, "C:\\a\\One.Mp3"), "audio/mpeg");
    assert_eq!(path_content_type(AssetRole::Audio, "C:\\a\\one"), "");
    assert_eq!(path_content_type(AssetRole::ReferenceVideo, "/a/one.mov"), "video/mp4");
    assert_eq!(path_content_type(AssetRole::FirstFrame, "/a/one.png"), "image");
    assert_eq!(input_content_type(AssetRole::Audio, &Some("MP3".into())), "audio/mpeg");
    assert_eq!(stored_content_type(AssetRole::Audio, "audio/wav", &Some("image/png".into())), "audio/wav");
    assert_eq!(stored_content_type(AssetRole::ReferenceImage, "image", &Some("image/webp".into())), "image/webp");
    assert_eq!(stored_content_type(AssetRole::ReferenceImage, "image", &None), "image/png");
}

#[test]
fn paste_takes_the_first_picture_that_can_be_one() {
    let v = view(IMAGE);
    let png = ClipboardPiece::Image { png: true, transcodes: false };
    let jpeg = ClipboardPiece::Image { png: false, transcodes: true };
    let broken = ClipboardPiece::Image { png: false, transcodes: false };
    assert!(matches!(v.paste_image(&None), PasteStep::Nothing));
    assert!(matches!(v.paste_image(&Some(vec![ClipboardPiece::Other, broken, jpeg, png])), PasteStep::Import(2)));
    assert!(matches!(v.paste_image(&Some(vec![broken])), PasteStep::Toast("No image on the clipboard.")));
    assert_eq!(v.pasted(Ok(true)).as_deref(), Some("Pasted image"));
    assert_eq!(v.pasted(Ok(false)), None);
    assert_eq!(v.pasted(Err("too big".into())).as_deref(), Some("too big"));
}

#[test]
fn a_tag_chip_inserts_its_handle_at_the_caret() {
    let mut v = view(VIDEO);
    assert_eq!(v.insert_handle(0, "@Image1"), Focus::Prompt, "a click reads as typing");
    assert_eq!(v.prompt, "@Image1 ", "nothing typed yet: no leading space");
    assert_eq!(v.stored_prompt, "@Image1 ", "the settings follow the edit");
    v.set_prompt("@Image1 waves at".into());
    v.insert_handle(99, "@Image2");
    assert_eq!(v.prompt, "@Image1 waves at @Image2 ");
    v.set_prompt("é to".into());
    v.insert_handle(1, "@Image1");
    assert_eq!(v.prompt, "é @Image1  to");
    v.clear_prompt();
    assert_eq!(v.prompt, "");
}

// ----- menus and the frame ----------------------------------------------------

#[test]
fn provider_menu_offers_only_providers_with_a_key() {
    assert_eq!(provider_menu(&Vec::new(), "mock"), [ProviderEntry::Settings("Add an API key…")]);
    let menu = provider_menu(&vec![draft(IMAGE).provider], "mock");
    assert_eq!(menu, [ProviderEntry::Provider { id: "mock".into(), name: "Mock".into(), checked: true }, ProviderEntry::Separator, ProviderEntry::Settings("Provider settings…")]);
    let choices = options_menu(&vec!["1:1".into(), "16:9".into()], &Some("16:9".into()));
    assert_eq!(choices.iter().map(|c| c.checked).collect::<Vec<_>>(), [false, true]);
}

fn frame(v: &mut ComposeView, options: TabOptions) -> ComposeFrame {
    v.render(same(), &vec![IMAGE, VIDEO, AUDIO, UPSCALE], &options, &vec!["@Image1".into()], "Upscale", &amount("$0.01"), &library(Vec::new()), false)
}

fn labels(controls: &[Control]) -> Vec<(&'static str, &'static str, String)> {
    controls
        .iter()
        .map(|c| match c {
            Control::Menu { id, icon, label, .. } => (*id, *icon, label.clone()),
            Control::Toggle { id, icon, on, .. } => (*id, *icon, format!("{on}")),
            Control::Voice { id, icon, label, .. } => (*id, *icon, label.clone()),
        })
        .collect()
}

#[test]
fn a_frame_of_the_image_tab() {
    let mut v = typed(IMAGE, "a cat");
    v.set_drop_target(AssetRole::ReferenceImage, true);
    v.set_album(Some(AlbumId(1)));
    v.state.draft.count = 3;
    let f = frame(&mut v, no_options());
    assert_eq!(v.drop_target, None, "no drag is under way");
    assert_eq!((f.selected_tab, f.model_name, f.model_maker, f.model_description), (0, "FLUX.2 Pro", "Black Forest Labs", Some("Fast")));
    let references = f.references.unwrap();
    assert_eq!((references.note.as_str(), references.cards.len()), ("0/2", 1));
    assert!(f.prompt && !f.readonly);
    assert_eq!(f.improve, Some(ImproveControl::Idle { enabled: true }));
    assert_eq!(f.reference_tags, Some(vec!["@Image1".to_string()]));
    let count = f.count.unwrap();
    assert_eq!((count.label.as_str(), count.tooltip, count.can_decrease, count.can_increase), ("3 images", "Number of images", true, true));
    assert_eq!(f.album_hint.as_deref(), Some("→ Cats album"));
    assert_eq!((f.generate_label.as_str(), f.generate_icon, f.generate_enabled), ("Generate 3", "magic-wand", true));
    assert_eq!(f.caption.as_deref(), Some("≈ $0.01 estimated"));
}

#[test]
fn the_prompt_and_generate_are_frozen_while_improving() {
    let mut v = typed(IMAGE, "a cat");
    assert!(v.can_generate(), "generate is available before the rewrite");
    v.improve(same(), true);
    assert!(v.improving, "a rewrite is in flight");
    let f = frame(&mut v, no_options());
    assert!(f.readonly && !f.generate_enabled, "the field refuses edits meanwhile");
    assert_eq!(f.improve, Some(ImproveControl::Running));
    assert_eq!(v.prompt, "a cat");
    v.improved(Some(Ok("a tabby cat".into())));
    assert!(!v.improving);
    assert!(v.can_generate(), "generate is available again");
    let f = frame(&mut v, no_options());
    assert!(!f.readonly && f.generate_enabled, "and the field takes edits again");
    v.set_prompt("!a tabby cat".into());
    assert_eq!(v.prompt, "!a tabby cat");
}

#[test]
fn switching_to_tool_tab_hides_prompt_and_shows_tool_model() {
    let mut v = view(UPSCALE);
    v.state.draft.model = None;
    v.state.draft.slots = Vec::new();
    v.set_album(Some(AlbumId(9)));
    let f = frame(&mut v, no_options());
    assert_eq!((f.selected_tab, f.model_name, f.model_logo), (3, "No model", None));
    assert!(!f.prompt && f.improve.is_none() && f.reference_tags.is_none() && f.references.is_none() && f.count.is_none());
    assert_eq!((f.generate_label.as_str(), f.generate_icon, f.generate_enabled), ("Upscale", "chevron-up", false));
    assert_eq!(f.album_hint.as_deref(), Some("→  album"));
    let mut v = view(ComposeTab::Tool(ToolId::RemoveBackground));
    let f = frame(&mut v, no_options());
    assert_eq!((f.selected_tab, f.generate_icon), (0, "scissor"), "an unknown tab counts as the first");
}

#[test]
fn a_description_that_says_nothing_is_not_shown() {
    for description in ["", "TBD"] {
        let mut v = view(IMAGE);
        v.state.draft.model = Some(ModelInfo { short_description: description, ..model() });
        assert_eq!(frame(&mut v, no_options()).model_description, None);
    }
}

#[test]
fn options_of_an_image_model() {
    let options = |ratio: Option<Ratio>, resolution: Option<&str>| {
        let image = ImageOptions {
            ratios: Some(vec!["1:1".into(), "9:16".into()]),
            ratio,
            resolutions: Some(vec!["1K".into()]),
            resolution: resolution.map(String::from),
        };
        TabOptions { image: Some(image), ..no_options() }
    };
    let mut v = view(IMAGE);
    let f = frame(&mut v, options(None, None));
    assert_eq!(labels(&f.controls), [("ratio", "square", "Ratio".into()), ("res", "scaling", "Size".into())]);
    let portrait = Ratio { label: "9:16".into(), portrait: true, square: false };
    let f = frame(&mut v, options(Some(portrait), Some("1K")));
    assert_eq!(labels(&f.controls), [("ratio", "rectangle-vertical", "9:16".into()), ("res", "scaling", "1K".into())]);
    match &f.controls[0] {
        Control::Menu { choices, .. } => assert_eq!(choices.iter().map(|c| (c.label.as_str(), c.checked)).collect::<Vec<_>>(), [("1:1", false), ("9:16", true)]),
        other => panic!("{other:?}"),
    }
    let none = ImageOptions { ratios: None, ratio: None, resolutions: None, resolution: None };
    assert!(frame(&mut v, TabOptions { image: Some(none), ..no_options() }).controls.is_empty());
    v.set_tab(UPSCALE);
    assert!(frame(&mut v, options(None, None)).controls.is_empty(), "a tool has no options, whatever the image tab's model declares");
}

#[test]
fn options_of_a_video_model() {
    let ratio = Some(VideoRatio { label: "16:9".into(), proportions: Some((16, 9)) });
    let options = VideoOptions {
        ratios: vec!["16:9".into()],
        ratio,
        resolutions: None,
        resolution: None,
        durations: vec![4, 8],
        duration: 8,
        audio: Some(true),
    };
    let mut v = view(VIDEO);
    let f = frame(&mut v, TabOptions { video: Some(options), ..no_options() });
    assert_eq!(labels(&f.controls), [("vratio", "rectangle-horizontal", "16:9".into()), ("duration", "timer", "8s".into()), ("audio", "volume-2", "true".into())]);
    match &f.controls[1] {
        Control::Menu { choices, .. } => assert_eq!(choices.iter().map(|c| (c.label.as_str(), c.checked)).collect::<Vec<_>>(), [("4s", false), ("8s", true)]),
        other => panic!("{other:?}"),
    }
    assert_eq!(f.count.unwrap().label, "1 video");
    let square = Some(VideoRatio { label: "1:1".into(), proportions: Some((1, 1)) });
    let options = VideoOptions { ratios: vec!["1:1".into()], ratio: square, resolutions: Some(vec!["720p".into()]), resolution: None, durations: Vec::new(), duration: 5, audio: Some(false) };
    let f = frame(&mut v, TabOptions { video: Some(options), ..no_options() });
    assert_eq!(labels(&f.controls), [("vratio", "square", "1:1".into()), ("vres", "scaling", "Size".into()), ("duration", "timer", "5s".into()), ("audio", "volume-x", "false".into())]);
}

#[test]
fn audio_capable_provider_offers_two_speakers() {
    let mut v = view(AUDIO);
    let f = frame(&mut v, TabOptions { audio: Some(AudioOptions { two_speakers: false }), ..no_options() });
    assert_eq!(labels(&f.controls), [("speaker1", "mic", "Speaker 1".into())]);
    v.set_voice(Speaker::One, Some("Kore".into()), true);
    let f = frame(&mut v, TabOptions { audio: Some(AudioOptions { two_speakers: true }), ..no_options() });
    assert_eq!(labels(&f.controls), [("speaker1", "mic", "Kore".into()), ("speaker2", "user", "Speaker 2: None".into())]);
    assert!(f.count.is_none());
    v.set_voice(Speaker::Two, Some("Puck".into()), true);
    assert_eq!(v.state.speaker2.as_deref(), Some("Puck"));
    v.set_voice(Speaker::Two, None, true);
    assert!(v.state.speaker2.is_none(), "speaker 2 can be cleared");
    v.set_voice(Speaker::One, Some("Zephyr".into()), true);
    v.set_voice(Speaker::One, None, true);
    assert_eq!(v.state.speaker1.as_deref(), Some("Zephyr"), "speaker 1 can't be cleared");
}

#[test]
fn names_of_things() {
    let headings = [PanelPart::ModelHeading, PanelPart::ReferencesHeading, PanelPart::PromptHeading, PanelPart::TagsHeading];
    assert_eq!(headings.map(panel_text), ["Model", "References", "Prompt", "Reference tags"]);
    let tooltips = [PanelPart::ModelTooltip, PanelPart::TagTooltip, PanelPart::ImproveTooltip, PanelPart::GenerateTooltip];
    assert_eq!(tooltips.map(panel_text), ["Choose a model", "Insert into the prompt", "Improve prompt with AI", "Generate"]);
    assert_eq!([PanelPart::Improving, PanelPart::CancelImprove].map(panel_text), ["Improving…", "Cancel"]);
    assert_eq!([plural(IMAGE), plural(VIDEO), plural(AUDIO), plural(UPSCALE)], ["images", "videos", "audio", "upscaled images"]);
    assert_eq!(plural(ComposeTab::Tool(ToolId::RemoveBackground)), "images without a background");
    assert_eq!([placeholder(IMAGE, false), placeholder(UPSCALE, false)], ["Describe an image…", ""]);
    assert_eq!([ratio_icon(None), ratio_icon(Some(true)), ratio_icon(Some(false))], ["square", "rectangle-vertical", "rectangle-horizontal"]);
    assert_eq!([role_rank(AssetRole::FirstFrame), role_rank(AssetRole::LastFrame), role_rank(AssetRole::Audio)], [0, 1, 2]);
}

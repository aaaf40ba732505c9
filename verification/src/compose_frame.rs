//! One frame of the composer panel: what each of its sections shows.

use vstd::prelude::*;

use crate::compose::{
    a_role_takes_what_its_slot_says, caption_text, has_prompt, has_slot, options_menu, picker_key, rank_of, ratio_glyph, ratio_icon, role_rank,
    Amount, AssetRole, CardKey, Choice,
    ComposeView, Composer, DraftAsset, DraftModel, ExitKind, ExitingCard, PanelModel, RoleSlot, SavedDraft, MAX_COUNT,
};
use crate::model::{AlbumId, Library, MediaType, ToolId};
use crate::model_picker::{ComposeTab, ModelInfo};
use crate::paths::{may_have, path_extension};
use crate::seqs::{
    first_from, first_place, is_among, kept, lemma_picked_ends, lemma_picked_from, lemma_picked_step, picked, picking_goes_entry_by_entry, picks,
};
use crate::text::{cat, cat3, copy_texts, count_text, decimal, dec, is_blank, blank, opt_text, same_text, texts, to_uppercase, uppercase};

verus! {

// ----- cards ----------------------------------------------------------------------------------

/// A card of the References row.
#[derive(Clone, Copy, Debug, PartialEq, Eq, Structural)]
pub enum Card {
    /// An attached asset, which can be removed.
    Asset { asset: DraftAsset, index: usize, entering: bool },
    /// A removed asset still shrinking away.
    AssetGhost { asset: DraftAsset },
    /// The dashed card that adds to a role; `hot` while a drag is over it.
    Picker { role: AssetRole, hot: bool, entering: bool },
    /// The picker card of a role that just became full, shrinking away.
    PickerGhost { role: AssetRole },
}

/// The cards of the first `n` assets attached: only roles the model takes are shown.
pub open spec fn asset_cards(panel: PanelModel, n: nat) -> Seq<Card>
    decreases n,
{
    if n == 0 {
        Seq::empty()
    } else {
        let before = asset_cards(panel, (n - 1) as nat);
        let asset = panel.state.assets()[n - 1];
        if panel.state.takes(asset.role) {
            before.push(
                Card::Asset {
                    asset,
                    index: (n - 1) as usize,
                    entering: panel.entering.contains(CardKey::Thumb(asset.asset)),
                },
            )
        } else {
            before
        }
    }
}

/// `cards` with the removed assets back where they were, as far as there still is such a place.
pub open spec fn with_ghosts(cards: Seq<Card>, exiting: Seq<ExitingCard>) -> Seq<Card>
    decreases exiting.len(),
{
    if exiting.len() == 0 {
        cards
    } else {
        let before = with_ghosts(cards, exiting.drop_last());
        match exiting.last().kind {
            ExitKind::Thumb { asset, index } => before.insert(
                if index < before.len() {
                    index as int
                } else {
                    before.len() as int
                },
                Card::AssetGhost { asset },
            ),
            ExitKind::Picker(_) => before,
        }
    }
}

/// The picker cards of the open roles of one rank.
pub open spec fn picker_cards(panel: PanelModel, rank: u8) -> Seq<Card> {
    picked(panel.state.draft.slots, |s: RoleSlot| picker_card(panel, rank, s))
}

pub open spec fn picker_card(panel: PanelModel, rank: u8, slot: RoleSlot) -> Option<Card> {
    if panel.state.is_open(slot.role) && rank_of(slot.role) == rank {
        Some(
            Card::Picker {
                role: slot.role,
                hot: panel.drop_target == Some(slot.role),
                entering: panel.entering.contains(CardKey::Picker(slot.role)),
            },
        )
    } else {
        None
    }
}

/// The picker cards shrinking away.
pub open spec fn picker_ghosts(exiting: Seq<ExitingCard>) -> Seq<Card> {
    picked(exiting, |e: ExitingCard| picker_ghost(e))
}

pub open spec fn picker_ghost(card: ExitingCard) -> Option<Card> {
    match card.kind {
        ExitKind::Picker(role) => Some(Card::PickerGhost { role }),
        ExitKind::Thumb { .. } => None,
    }
}

/// The References row: the attached assets with the removed ones among them, then the cards that
/// add to a role, the frames' first.
pub open spec fn all_cards(panel: PanelModel) -> Seq<Card> {
    with_ghosts(asset_cards(panel, panel.state.assets().len()), panel.exiting) + picker_cards(panel, 0) + picker_cards(panel, 1)
        + picker_cards(panel, 2) + picker_ghosts(panel.exiting)
}

/// What an attached asset's card shows.
#[derive(Clone, Debug, PartialEq, Eq)]
pub enum CardPicture {
    /// Its kind of file.
    Audio(String),
    Picture(String),
    /// The asset's file is gone, or the asset itself; the card stays so it can be removed.
    Gone,
}

/// Whether `picture` is what the card of an asset in a role shows.
pub open spec fn card_picture(lib: Library, asset: DraftAsset, picture: CardPicture) -> bool {
    match lib.asset_at(asset.asset) {
        Some(stored) if !stored.missing => if asset.role == AssetRole::Audio {
            picture matches CardPicture::Audio(label) && exists|extension: Option<Seq<char>>|
                #[trigger] may_have(stored.path@, extension) && label@ == audio_label(extension)
        } else {
            picture matches CardPicture::Picture(path) && path@ == match stored.thumbnail {
                Some(thumbnail) => thumbnail@,
                None => stored.path@,
            }
        },
        _ => picture is Gone,
    }
}

/// What the card of a piece of audio reads.
pub open spec fn audio_label(extension: Option<Seq<char>>) -> Seq<char> {
    uppercase(
        match extension {
            Some(e) => e,
            None => "audio"@,
        },
    )
}

/// What the card of a piece of audio with this extension reads.
pub fn audio_card_label(extension: &Option<String>) -> (r: String)
    ensures
        r@ == audio_label(opt_text(*extension)),
{
    match extension {
        Some(e) => to_uppercase(e.as_str()),
        None => to_uppercase("audio"),
    }
}

/// What an attached asset's card shows.
pub fn render_asset_card(asset: &DraftAsset, lib: &Library) -> (r: CardPicture)
    ensures
        card_picture(*lib, *asset, r),
{
    match lib.asset(asset.asset) {
        Some(stored) => if stored.missing {
            CardPicture::Gone
        } else if asset.role == AssetRole::Audio {
            let extension = path_extension(stored.path.as_str());
            let label = audio_card_label(&extension);
            assert(may_have(stored.path@, opt_text(extension)));
            CardPicture::Audio(label)
        } else {
            match &stored.thumbnail {
                Some(thumbnail) => CardPicture::Picture(thumbnail.clone()),
                None => CardPicture::Picture(stored.path.clone()),
            }
        },
        None => CardPicture::Gone,
    }
}

/// The dashed card that adds to a role.
#[derive(Clone, Debug, PartialEq, Eq)]
pub struct PickerCard {
    pub key: String,
    /// It picks files and takes drops; one that shrinks away does not.
    pub interactive: bool,
    /// A drag is over it: its border is solid and its colours the accent's.
    pub hot: bool,
}

// ----- options --------------------------------------------------------------------------------

/// A picture's aspect ratio.
#[derive(Clone, Debug, PartialEq, Eq)]
pub struct Ratio {
    pub label: String,
    pub portrait: bool,
    pub square: bool,
}

/// A clip's aspect ratio; without proportions when the model chooses.
#[derive(Clone, Debug, PartialEq, Eq)]
pub struct VideoRatio {
    pub label: String,
    pub proportions: Option<(u32, u32)>,
}

/// What the selected models leave to the user, each where it declares its capabilities.
pub struct TabOptions {
    pub image: Option<ImageOptions>,
    pub video: Option<VideoOptions>,
    pub audio: Option<AudioOptions>,
}

pub struct ImageOptions {
    /// The ratios to choose from, where there is a choice.
    pub ratios: Option<Vec<String>>,
    pub ratio: Option<Ratio>,
    /// The resolutions to choose from, where there is a choice.
    pub resolutions: Option<Vec<String>>,
    pub resolution: Option<String>,
}

pub struct VideoOptions {
    /// The ratios to choose from; none where the model offers none.
    pub ratios: Vec<String>,
    pub ratio: Option<VideoRatio>,
    /// The resolutions to choose from, where there is a choice.
    pub resolutions: Option<Vec<String>>,
    pub resolution: Option<String>,
    /// The durations to choose from, in seconds.
    pub durations: Vec<u64>,
    pub duration: u64,
    /// Whether the clip has sound, where there is a choice.
    pub audio: Option<bool>,
}

pub struct AudioOptions {
    /// The model speaks a dialogue.
    pub two_speakers: bool,
}

/// A control of the options row.
#[derive(Clone, Debug, PartialEq, Eq)]
pub enum Control {
    Menu { id: &'static str, icon: &'static str, label: String, tooltip: &'static str, choices: Vec<Choice> },
    Toggle { id: &'static str, icon: &'static str, on: bool, tooltip: &'static str },
    /// Opens the voice picker, which can also choose none where `clearable`.
    Voice { id: &'static str, icon: &'static str, label: String, tooltip: &'static str, clearable: bool },
}

/// A control as contracts speak of it.
pub enum ControlModel {
    Menu { id: Seq<char>, icon: Seq<char>, label: Seq<char>, tooltip: Seq<char>, choices: Seq<(Seq<char>, bool)> },
    Toggle { id: Seq<char>, icon: Seq<char>, on: bool, tooltip: Seq<char> },
    Voice { id: Seq<char>, icon: Seq<char>, label: Seq<char>, tooltip: Seq<char>, clearable: bool },
}

impl View for Control {
    type V = ControlModel;

    open spec fn view(&self) -> ControlModel {
        match *self {
            Control::Menu { id, icon, label, tooltip, choices } => ControlModel::Menu {
                id: id@,
                icon: icon@,
                label: label@,
                tooltip: tooltip@,
                choices: choice_models(choices@),
            },
            Control::Toggle { id, icon, on, tooltip } => ControlModel::Toggle { id: id@, icon: icon@, on, tooltip: tooltip@ },
            Control::Voice { id, icon, label, tooltip, clearable } => ControlModel::Voice {
                id: id@,
                icon: icon@,
                label: label@,
                tooltip: tooltip@,
                clearable,
            },
        }
    }
}

pub open spec fn choice_models(choices: Seq<Choice>) -> Seq<(Seq<char>, bool)> {
    Seq::new(choices.len(), |i: int| (choices[i].label@, choices[i].checked))
}

pub open spec fn controls_of(controls: Seq<Control>) -> Seq<ControlModel> {
    Seq::new(controls.len(), |i: int| controls[i]@)
}

/// `options`, the one in force checked.
pub open spec fn checked_options(options: Seq<Seq<char>>, current: Option<Seq<char>>) -> Seq<(Seq<char>, bool)> {
    Seq::new(options.len(), |i: int| (options[i], current == Some(options[i])))
}

pub open spec fn or_text(text: Option<Seq<char>>, otherwise: Seq<char>) -> Seq<char> {
    match text {
        Some(text) => text,
        None => otherwise,
    }
}

/// The label of the picture ratio in force.
pub open spec fn ratio_label(ratio: Option<Ratio>) -> Option<Seq<char>> {
    match ratio {
        Some(r) => Some(r.label@),
        None => None,
    }
}

pub open spec fn ratio_portrait(ratio: Option<Ratio>) -> Option<bool> {
    match ratio {
        Some(r) if !r.square => Some(r.portrait),
        _ => None,
    }
}

pub open spec fn video_ratio_label(ratio: Option<VideoRatio>) -> Option<Seq<char>> {
    match ratio {
        Some(r) => Some(r.label@),
        None => None,
    }
}

pub open spec fn video_portrait(ratio: Option<VideoRatio>) -> Option<bool> {
    match ratio {
        Some(r) => match r.proportions {
            Some((width, height)) if width != height => Some(width < height),
            _ => None,
        },
        None => None,
    }
}

pub open spec fn resolution_control(id: Seq<char>, resolutions: Option<Vec<String>>, current: Option<String>) -> Seq<ControlModel> {
    match resolutions {
        Some(all) => seq![
            ControlModel::Menu {
                id,
                icon: "scaling"@,
                label: or_text(opt_text(current), "Size"@),
                tooltip: "Resolution"@,
                choices: checked_options(texts(all@), opt_text(current)),
            },
        ],
        None => Seq::empty(),
    }
}

pub open spec fn image_controls(o: ImageOptions) -> Seq<ControlModel> {
    (match o.ratios {
        Some(all) => seq![
            ControlModel::Menu {
                id: "ratio"@,
                icon: ratio_glyph(ratio_portrait(o.ratio)),
                label: or_text(ratio_label(o.ratio), "Ratio"@),
                tooltip: "Aspect ratio"@,
                choices: checked_options(texts(all@), ratio_label(o.ratio)),
            },
        ],
        None => Seq::empty(),
    }) + resolution_control("res"@, o.resolutions, o.resolution)
}

/// The durations to choose from.
pub open spec fn duration_choices(durations: Seq<u64>, current: u64) -> Seq<(Seq<char>, bool)> {
    Seq::new(durations.len(), |i: int| (dec(durations[i] as nat) + "s"@, durations[i] == current))
}

pub open spec fn video_ratio_control(o: VideoOptions) -> Seq<ControlModel> {
    if o.ratios@.len() > 0 {
        seq![
            ControlModel::Menu {
                id: "vratio"@,
                icon: ratio_glyph(video_portrait(o.ratio)),
                label: or_text(video_ratio_label(o.ratio), "Ratio"@),
                tooltip: "Aspect ratio"@,
                choices: checked_options(texts(o.ratios@), video_ratio_label(o.ratio)),
            },
        ]
    } else {
        Seq::empty()
    }
}

pub open spec fn duration_control(o: VideoOptions) -> ControlModel {
    ControlModel::Menu {
        id: "duration"@,
        icon: "timer"@,
        label: dec(o.duration as nat) + "s"@,
        tooltip: "Duration"@,
        choices: duration_choices(o.durations@, o.duration),
    }
}

pub open spec fn sound_control(audio: Option<bool>) -> Seq<ControlModel> {
    match audio {
        Some(on) => seq![
            ControlModel::Toggle {
                id: "audio"@,
                icon: if on {
                    "volume-2"@
                } else {
                    "volume-x"@
                },
                on,
                tooltip: "Generate audio"@,
            },
        ],
        None => Seq::empty(),
    }
}

pub open spec fn video_controls(o: VideoOptions) -> Seq<ControlModel> {
    video_ratio_control(o) + resolution_control("vres"@, o.resolutions, o.resolution) + seq![duration_control(o)] + sound_control(
        o.audio,
    )
}

pub open spec fn audio_controls(state: DraftModel, two_speakers: bool) -> Seq<ControlModel> {
    seq![
        ControlModel::Voice {
            id: "speaker1"@,
            icon: "mic"@,
            label: or_text(state.speaker1, "Speaker 1"@),
            tooltip: "Speaker 1"@,
            clearable: false,
        },
    ] + (if two_speakers {
        seq![
            ControlModel::Voice {
                id: "speaker2"@,
                icon: "user"@,
                label: or_text(state.speaker2, "Speaker 2: None"@),
                tooltip: "Speaker 2"@,
                clearable: true,
            },
        ]
    } else {
        Seq::empty()
    })
}

/// The options row: those of the active tab's model. No tool has any.
pub open spec fn option_controls(state: DraftModel, options: TabOptions) -> Seq<ControlModel> {
    match (state.draft.tab, options.image, options.video, options.audio) {
        (ComposeTab::Media(MediaType::Image), Some(o), _, _) => image_controls(o),
        (ComposeTab::Media(MediaType::Video), _, Some(o), _) => video_controls(o),
        (ComposeTab::Media(MediaType::Audio), _, _, Some(o)) => audio_controls(state, o.two_speakers),
        _ => Seq::empty(),
    }
}

fn text_or(text: &Option<String>, otherwise: &str) -> (r: String)
    ensures
        r@ == or_text(opt_text(*text), otherwise@),
{
    match text {
        Some(t) => t.clone(),
        None => otherwise.to_owned(),
    }
}

fn menu(id: &'static str, icon: &'static str, label: String, tooltip: &'static str, options: &Vec<String>, current: &Option<String>) -> (r:
    Control)
    ensures
        r@ == (ControlModel::Menu {
            id: id@,
            icon: icon@,
            label: label@,
            tooltip: tooltip@,
            choices: checked_options(texts(options@), opt_text(*current)),
        }),
{
    let choices = options_menu(options, current);
    assert(choice_models(choices@) =~= checked_options(texts(options@), opt_text(*current)));
    Control::Menu { id, icon, label, tooltip, choices }
}

fn push_resolutions(controls: &mut Vec<Control>, id: &'static str, resolutions: &Option<Vec<String>>, current: &Option<String>)
    ensures
        controls_of(final(controls)@) == controls_of(old(controls)@) + resolution_control(id@, *resolutions, *current),
{
    let ghost before = controls_of(controls@);
    if let Some(all) = resolutions {
        controls.push(menu(id, "scaling", text_or(current, "Size"), "Resolution", all, current));
    }
    assert(controls_of(controls@) =~= before + resolution_control(id@, *resolutions, *current));
}

/// The controls of an image model's options.
pub fn controls_of_image(o: &ImageOptions) -> (r: Vec<Control>)
    ensures
        controls_of(r@) == image_controls(*o),
{
    let mut controls: Vec<Control> = Vec::new();
    let current = match &o.ratio {
        Some(ratio) => Some(ratio.label.clone()),
        None => None,
    };
    let portrait = match &o.ratio {
        Some(ratio) => if ratio.square {
            None
        } else {
            Some(ratio.portrait)
        },
        None => None,
    };
    if let Some(all) = &o.ratios {
        controls.push(menu("ratio", ratio_icon(portrait), text_or(&current, "Ratio"), "Aspect ratio", all, &current));
    }
    assert(controls_of(controls@) =~= match o.ratios {
        Some(all) => seq![
            ControlModel::Menu {
                id: "ratio"@,
                icon: ratio_glyph(ratio_portrait(o.ratio)),
                label: or_text(ratio_label(o.ratio), "Ratio"@),
                tooltip: "Aspect ratio"@,
                choices: checked_options(texts(all@), ratio_label(o.ratio)),
            },
        ],
        None => Seq::empty(),
    });
    push_resolutions(&mut controls, "res", &o.resolutions, &o.resolution);
    controls
}

fn seconds(n: u64) -> (r: String)
    ensures
        r@ == dec(n as nat) + "s"@,
{
    cat(decimal(n).as_str(), "s")
}

/// The controls of a video model's options.
pub fn controls_of_video(o: &VideoOptions) -> (r: Vec<Control>)
    ensures
        controls_of(r@) == video_controls(*o),
{
    let mut controls: Vec<Control> = Vec::new();
    let current = match &o.ratio {
        Some(ratio) => Some(ratio.label.clone()),
        None => None,
    };
    let portrait = match &o.ratio {
        Some(ratio) => match ratio.proportions {
            Some((width, height)) => if width == height {
                None
            } else {
                Some(width < height)
            },
            None => None,
        },
        None => None,
    };
    if o.ratios.len() > 0 {
        controls.push(menu("vratio", ratio_icon(portrait), text_or(&current, "Ratio"), "Aspect ratio", &o.ratios, &current));
    }
    assert(controls_of(controls@) =~= video_ratio_control(*o));
    push_resolutions(&mut controls, "vres", &o.resolutions, &o.resolution);
    let mut choices: Vec<Choice> = Vec::new();
    let mut i: usize = 0;
    while i < o.durations.len()
        invariant
            i <= o.durations.len(),
            choices.len() == i,
            forall|k: int|
                0 <= k < i ==> (#[trigger] choices@[k]).label@ == dec(o.durations@[k] as nat) + "s"@ && choices@[k].checked == (
                o.durations@[k] == o.duration),
        decreases o.durations.len() - i,
    {
        choices.push(Choice { label: seconds(o.durations[i]), checked: o.durations[i] == o.duration });
        i += 1;
    }
    assert(choice_models(choices@) =~= duration_choices(o.durations@, o.duration));
    let ghost sized = controls_of(controls@);
    controls.push(
        Control::Menu { id: "duration", icon: "timer", label: seconds(o.duration), tooltip: "Duration", choices },
    );
    assert(controls_of(controls@) =~= sized + seq![duration_control(*o)]);
    let ghost timed = controls_of(controls@);
    if let Some(on) = o.audio {
        controls.push(
            Control::Toggle {
                id: "audio",
                icon: if on {
                    "volume-2"
                } else {
                    "volume-x"
                },
                on,
                tooltip: "Generate audio",
            },
        );
    }
    assert(controls_of(controls@) =~= timed + sound_control(o.audio));
    controls
}

// ----- the frame ------------------------------------------------------------------------------

/// A part of the panel whose text never changes.
#[derive(Clone, Copy, Debug, PartialEq, Eq, Structural)]
pub enum PanelPart {
    /// Over the model.
    ModelHeading,
    /// Over the attached assets.
    ReferencesHeading,
    /// Over the prompt.
    PromptHeading,
    /// On the model button.
    ModelTooltip,
    /// Ahead of the chips of the attached references.
    TagsHeading,
    /// On such a chip.
    TagTooltip,
    /// On the Improve button.
    ImproveTooltip,
    /// Beside the button while a rewrite runs.
    Improving,
    /// On the button that cancels it, also as its tooltip.
    CancelImprove,
    /// On the Generate button.
    GenerateTooltip,
}

/// What the part reads.
pub open spec fn part_text(part: PanelPart) -> Seq<char> {
    match part {
        PanelPart::ModelHeading => "Model"@,
        PanelPart::ReferencesHeading => "References"@,
        PanelPart::PromptHeading => "Prompt"@,
        PanelPart::ModelTooltip => "Choose a model"@,
        PanelPart::TagsHeading => "Reference tags"@,
        PanelPart::TagTooltip => "Insert into the prompt"@,
        PanelPart::ImproveTooltip => "Improve prompt with AI"@,
        PanelPart::Improving => "Improving…"@,
        PanelPart::CancelImprove => "Cancel"@,
        PanelPart::GenerateTooltip => "Generate"@,
    }
}

/// What the part reads.
pub fn panel_text(part: PanelPart) -> (r: &'static str)
    ensures
        r@ == part_text(part),
{
    match part {
        PanelPart::ModelHeading => "Model",
        PanelPart::ReferencesHeading => "References",
        PanelPart::PromptHeading => "Prompt",
        PanelPart::ModelTooltip => "Choose a model",
        PanelPart::TagsHeading => "Reference tags",
        PanelPart::TagTooltip => "Insert into the prompt",
        PanelPart::ImproveTooltip => "Improve prompt with AI",
        PanelPart::Improving => "Improving…",
        PanelPart::CancelImprove => "Cancel",
        PanelPart::GenerateTooltip => "Generate",
    }
}

/// The output-count stepper.
#[derive(Clone, Debug, PartialEq, Eq)]
pub struct CountStepper {
    pub label: String,
    pub tooltip: &'static str,
    pub can_decrease: bool,
    pub can_increase: bool,
}

/// The References section: its used and capacity count, and its cards.
pub struct References {
    pub note: String,
    pub cards: Vec<Card>,
}

/// The Improve button under the prompt.
#[derive(Clone, Copy, Debug, PartialEq, Eq, Structural)]
pub enum ImproveControl {
    /// A rewrite is running; the button cancels it.
    Running,
    Idle { enabled: bool },
}

/// One frame of the composer panel.
pub struct ComposeFrame {
    /// The provider's drafts, to be kept for when it is selected again.
    pub saved: SavedDraft,
    /// The name on the provider button.
    pub provider_name: String,
    pub selected_tab: usize,
    pub model_name: &'static str,
    pub model_maker: &'static str,
    pub model_logo: Option<&'static str>,
    pub model_description: Option<&'static str>,
    pub controls: Vec<Control>,
    /// Absent where the model takes no input.
    pub references: Option<References>,
    /// The prompt is shown.
    pub prompt: bool,
    /// The prompt refuses edits while it is being rewritten.
    pub readonly: bool,
    pub improve: Option<ImproveControl>,
    /// The handles of the attached references, as chips under the prompt.
    pub reference_tags: Option<Vec<String>>,
    pub count: Option<CountStepper>,
    pub album_hint: Option<String>,
    pub generate_label: String,
    pub generate_icon: &'static str,
    pub generate_enabled: bool,
    pub caption: Option<String>,
}

/// The description shown under a model: none where there is nothing to say yet.
pub open spec fn shown_description(model: Option<ModelInfo>) -> Option<Seq<char>> {
    match model {
        Some(m) if m.short_description@.len() > 0 && m.short_description@ != "TBD"@ => Some(m.short_description@),
        _ => None,
    }
}

/// How many assets the model takes altogether.
pub open spec fn capacity(slots: Seq<RoleSlot>) -> nat
    decreases slots.len(),
{
    if slots.len() == 0 {
        0
    } else {
        capacity(slots.drop_last()) + slots.last().max as nat
    }
}

/// Text of the count stepper, where the tab has one.
pub open spec fn stepper_text(tab: ComposeTab, count: nat) -> Option<Seq<char>> {
    let noun = match tab {
        ComposeTab::Media(MediaType::Image) => Some(" image"@),
        ComposeTab::Media(MediaType::Video) => Some(" video"@),
        _ => None,
    };
    match noun {
        Some(noun) => Some(
            dec(count) + noun + (if count == 1 {
                ""@
            } else {
                "s"@
            }),
        ),
        None => None,
    }
}

/// What the Generate button says, with `tool` the name of the tab's tool.
pub open spec fn generate_text(panel: PanelModel, tool: Seq<char>) -> Seq<char> {
    let verb = if has_prompt(panel.state.draft.tab) {
        "Generate"@
    } else {
        tool
    };
    if panel.total() > 1 {
        verb + " "@ + dec(panel.total())
    } else {
        verb
    }
}

pub open spec fn generate_glyph(tab: ComposeTab) -> Seq<char> {
    match tab {
        ComposeTab::Media(_) => "magic-wand"@,
        ComposeTab::Tool(ToolId::Upscale) => "chevron-up"@,
        ComposeTab::Tool(ToolId::RemoveBackground) => "scissor"@,
    }
}

/// The album new generations go into, as the footer says it.
pub open spec fn album_text(lib: Library, album: Option<AlbumId>) -> Option<Seq<char>> {
    match album {
        Some(id) => Some(
            "→ "@ + (match lib.album_place(id) {
                Some(i) => lib.albums@[i].name@,
                None => Seq::empty(),
            }) + " album"@,
        ),
        None => None,
    }
}

/// The Improve button, where it is offered.
pub open spec fn improve_button(panel: PanelModel) -> Option<ImproveControl> {
    if has_prompt(panel.state.draft.tab) && panel.offers_improve() {
        Some(
            if panel.improving {
                ImproveControl::Running
            } else {
                ImproveControl::Idle { enabled: !blank(panel.prompt) }
            },
        )
    } else {
        None
    }
}

/// Whether `frame` shows the model section of `panel`.
pub open spec fn shows_model(panel: PanelModel, frame: ComposeFrame) -> bool {
    &&& frame.model_name@ == match panel.state.draft.model {
        Some(m) => m.name@,
        None => "No model"@,
    }
    &&& frame.model_maker@ == match panel.state.draft.model {
        Some(m) => m.manufacturer@,
        None => ""@,
    }
    &&& match (frame.model_logo, panel.state.draft.model) {
        (Some(logo), Some(m)) => logo@ == m.logo@,
        (None, None) => true,
        _ => false,
    }
    &&& match (frame.model_description, shown_description(panel.state.draft.model)) {
        (Some(a), Some(b)) => a@ == b,
        (None, None) => true,
        _ => false,
    }
}

/// Whether `frame` shows the References section of `panel`.
pub open spec fn shows_references(panel: PanelModel, frame: ComposeFrame) -> bool {
    match frame.references {
        Some(section) => {
            &&& panel.state.draft.slots.len() > 0
            &&& section.note@ == dec(panel.state.accepted().len()) + "/"@ + dec(capacity(panel.state.draft.slots))
            &&& section.cards@ == all_cards(panel)
        },
        None => panel.state.draft.slots.len() == 0,
    }
}

/// Whether `frame` shows the prompt section of `panel`, whose references go by `handles`.
pub open spec fn shows_prompt(panel: PanelModel, handles: Seq<Seq<char>>, frame: ComposeFrame) -> bool {
    &&& frame.prompt == has_prompt(panel.state.draft.tab)
    &&& frame.readonly == panel.improving
    &&& frame.improve == improve_button(panel)
    &&& match frame.reference_tags {
        Some(tags) => has_prompt(panel.state.draft.tab) && handles.len() > 0 && texts(tags@) == handles,
        None => !has_prompt(panel.state.draft.tab) || handles.len() == 0,
    }
}

/// Whether `frame` shows the footer of `panel`.
pub open spec fn shows_footer(panel: PanelModel, lib: Library, tool: Seq<char>, amount: Option<Amount>, frame: ComposeFrame) -> bool {
    &&& match (frame.count, stepper_text(panel.state.draft.tab, panel.state.draft.count as nat)) {
        (Some(stepper), Some(text)) => {
            &&& stepper.label@ == text
            &&& stepper.tooltip@ == (if panel.state.draft.tab == ComposeTab::Media(MediaType::Image) {
                "Number of images"@
            } else {
                "Number of videos"@
            })
            &&& stepper.can_decrease == (panel.state.draft.count > 1)
            &&& stepper.can_increase == (panel.state.draft.count < MAX_COUNT)
        },
        (None, None) => true,
        _ => false,
    }
    &&& opt_text(frame.album_hint) == album_text(lib, panel.album)
    &&& frame.generate_label@ == generate_text(panel, tool)
    &&& frame.generate_icon@ == generate_glyph(panel.state.draft.tab)
    &&& frame.generate_enabled == (panel.generates() && !panel.improving)
    &&& opt_text(frame.caption) == caption_text(panel, amount)
}

fn slot_capacity(slots: &Vec<RoleSlot>) -> (r: usize)
    requires
        capacity(slots@) <= usize::MAX,
    ensures
        r == capacity(slots@),
{
    let mut sum: usize = 0;
    let mut i: usize = 0;
    assert(slots@.take(0) =~= Seq::empty());
    while i < slots.len()
        invariant
            i <= slots.len(),
            sum == capacity(slots@.take(i as int)),
            capacity(slots@) <= usize::MAX,
        decreases slots.len() - i,
    {
        proof {
            assert(slots@.take(i + 1).drop_last() =~= slots@.take(i as int));
            lemma_capacity_grows(slots@, i + 1);
        }
        sum = sum + slots[i].max;
        i += 1;
    }
    assert(slots@.take(slots@.len() as int) =~= slots@);
    sum
}

proof fn lemma_capacity_grows(slots: Seq<RoleSlot>, k: int)
    requires
        0 <= k <= slots.len(),
    ensures
        capacity(slots.take(k)) <= capacity(slots),
    decreases slots.len() - k,
{
    if k < slots.len() {
        lemma_capacity_grows(slots, k + 1);
        assert(slots.take(k + 1).drop_last() =~= slots.take(k));
    } else {
        assert(slots.take(k) =~= slots);
    }
}

impl ComposeView {
    fn push_pickers(&self, cards: &mut Vec<Card>, rank: u8)
        ensures
            final(cards)@ == old(cards)@ + picker_cards(self@, rank),
    {
        let ghost before = cards@;
        let ghost slots = self.state.draft.slots@;
        let ghost pick = |s: RoleSlot| picker_card(self@, rank, s);
        let mut i: usize = 0;
        proof {
            lemma_picked_ends(slots, pick);
            assert(before + Seq::<Card>::empty() =~= before);
        }
        while i < self.state.draft.slots.len()
            invariant
                i <= self.state.draft.slots.len(),
                slots == self.state.draft.slots@,
                pick == (|s: RoleSlot| picker_card(self@, rank, s)),
                cards@ == before + picked(slots.take(i as int), pick),
            decreases self.state.draft.slots.len() - i,
        {
            proof {
                lemma_picked_step(slots, pick, i as int);
            }
            let ghost so_far = picked(slots.take(i as int), pick);
            let slot = self.state.draft.slots[i];
            if role_rank(slot.role) == rank && self.state.role_is_open(slot.role) {
                let card = Card::Picker {
                    role: slot.role,
                    hot: self.drop_target == Some(slot.role),
                    entering: is_among(&self.entering, CardKey::Picker(slot.role)),
                };
                cards.push(card);
                assert(cards@ =~= before + so_far.push(card));
            }
            i += 1;
        }
        proof {
            lemma_picked_ends(slots, pick);
        }
    }

    /// The dashed card for `role`, whose own name is `name`. Interactive cards light up while a drag
    /// is over them; exit ghosts are plain, under a key of their own.
    pub fn render_picker_card(&self, role: AssetRole, name: &str, interactive: bool) -> (r: PickerCard)
        ensures
            r.key@ == if interactive {
                "asset-add-"@ + name@
            } else {
                "exit-"@ + ("asset-add-"@ + name@)
            },
            r.interactive == interactive,
            r.hot == (interactive && self@.drop_target == Some(role)),
    {
        let key = picker_key(name);
        PickerCard {
            key: if interactive {
                key
            } else {
                cat("exit-", key.as_str())
            },
            interactive,
            hot: interactive && self.drop_target == Some(role),
        }
    }

    /// The cards of the References row.
    pub fn render_cards(&self) -> (r: Vec<Card>)
        ensures
            r@ == all_cards(self@),
    {
        let assets = self.state.active_assets();
        let mut cards: Vec<Card> = Vec::new();
        let mut i: usize = 0;
        while i < assets.len()
            invariant
                i <= assets.len(),
                assets@ == self@.state.assets(),
                cards@ == asset_cards(self@, i as nat),
            decreases assets.len() - i,
        {
            let asset = assets[i];
            if self.state.accepts(asset.role) {
                cards.push(Card::Asset { asset, index: i, entering: is_among(&self.entering, CardKey::Thumb(asset.asset)) });
            }
            i += 1;
        }
        let ghost shown = cards@;
        let mut j: usize = 0;
        assert(self.exiting@.take(0) =~= Seq::empty());
        while j < self.exiting.len()
            invariant
                j <= self.exiting.len(),
                cards@ == with_ghosts(shown, self.exiting@.take(j as int)),
            decreases self.exiting.len() - j,
        {
            assert(self.exiting@.take(j + 1).drop_last() =~= self.exiting@.take(j as int));
            assert(self.exiting@.take(j + 1).last() == self.exiting@[j as int]);
            if let ExitKind::Thumb { asset, index } = self.exiting[j].kind {
                let at: usize = if index < cards.len() {
                    index
                } else {
                    cards.len()
                };
                cards.insert(at, Card::AssetGhost { asset });
            }
            j += 1;
        }
        assert(self.exiting@.take(self.exiting@.len() as int) =~= self.exiting@);
        self.push_pickers(&mut cards, 0);
        self.push_pickers(&mut cards, 1);
        self.push_pickers(&mut cards, 2);
        let ghost before = cards@;
        let ghost pick = |e: ExitingCard| picker_ghost(e);
        let mut k: usize = 0;
        proof {
            lemma_picked_ends(self.exiting@, pick);
            assert(before + Seq::<Card>::empty() =~= before);
        }
        while k < self.exiting.len()
            invariant
                k <= self.exiting.len(),
                pick == (|e: ExitingCard| picker_ghost(e)),
                cards@ == before + picked(self.exiting@.take(k as int), pick),
            decreases self.exiting.len() - k,
        {
            proof {
                lemma_picked_step(self.exiting@, pick, k as int);
            }
            let ghost so_far = picked(self.exiting@.take(k as int), pick);
            if let ExitKind::Picker(role) = self.exiting[k].kind {
                cards.push(Card::PickerGhost { role });
                assert(cards@ =~= before + so_far.push(Card::PickerGhost { role }));
            }
            k += 1;
        }
        proof {
            lemma_picked_ends(self.exiting@, pick);
        }
        cards
    }

    /// The options row.
    pub fn render_options(&self, options: &TabOptions) -> (r: Vec<Control>)
        ensures
            controls_of(r@) == option_controls(self@.state, *options),
    {
        match (self.state.draft.tab, &options.image, &options.video, &options.audio) {
            (ComposeTab::Media(MediaType::Image), Some(o), _, _) => controls_of_image(o),
            (ComposeTab::Media(MediaType::Video), _, Some(o), _) => controls_of_video(o),
            (ComposeTab::Media(MediaType::Audio), _, _, Some(o)) => self.controls_of_audio(o),
            _ => {
                let none: Vec<Control> = Vec::new();
                assert(controls_of(none@) =~= Seq::empty());
                none
            },
        }
    }

    fn controls_of_audio(&self, o: &AudioOptions) -> (r: Vec<Control>)
        ensures
            controls_of(r@) == audio_controls(self@.state, o.two_speakers),
    {
        let mut controls: Vec<Control> = Vec::new();
        controls.push(
            Control::Voice {
                id: "speaker1",
                icon: "mic",
                label: text_or(&self.state.speaker1, "Speaker 1"),
                tooltip: "Speaker 1",
                clearable: false,
            },
        );
        if o.two_speakers {
            controls.push(
                Control::Voice {
                    id: "speaker2",
                    icon: "user",
                    label: text_or(&self.state.speaker2, "Speaker 2: None"),
                    tooltip: "Speaker 2",
                    clearable: true,
                },
            );
        }
        assert(controls_of(controls@) =~= audio_controls(self@.state, o.two_speakers));
        controls
    }

    fn stepper(&self) -> (r: Option<CountStepper>)
        ensures
            match (r, stepper_text(self@.state.draft.tab, self@.state.draft.count as nat)) {
                (Some(stepper), Some(text)) => {
                    &&& stepper.label@ == text
                    &&& stepper.tooltip@ == (if self@.state.draft.tab == ComposeTab::Media(MediaType::Image) {
                        "Number of images"@
                    } else {
                        "Number of videos"@
                    })
                    &&& stepper.can_decrease == (self@.state.draft.count > 1)
                    &&& stepper.can_increase == (self@.state.draft.count < MAX_COUNT)
                },
                (None, None) => true,
                _ => false,
            },
    {
        let (noun, tooltip) = match self.state.draft.tab {
            ComposeTab::Media(MediaType::Image) => (" image", "Number of images"),
            ComposeTab::Media(MediaType::Video) => (" video", "Number of videos"),
            _ => {
                return None;
            },
        };
        let count: usize = self.state.draft.count;
        let label = cat3(
            count_text(count).as_str(),
            noun,
            if count == 1 {
                ""
            } else {
                "s"
            },
        );
        Some(CountStepper { label, tooltip, can_decrease: count > 1, can_increase: count < MAX_COUNT })
    }

    fn album_hint(&self, lib: &Library) -> (r: Option<String>)
        ensures
            opt_text(r) == album_text(*lib, self@.album),
    {
        match self.album {
            Some(id) => {
                let name = match lib.album(id) {
                    Some(album) => album.name.clone(),
                    None => String::new(),
                };
                Some(cat3("→ ", name.as_str(), " album"))
            },
            None => None,
        }
    }

    fn generate_button(&self, tool: &str) -> (r: String)
        ensures
            r@ == generate_text(self@, tool@),
    {
        let verb = if self.takes_prompt() {
            "Generate"
        } else {
            tool
        };
        let total: usize = self.total();
        if total > 1 {
            cat3(verb, " ", count_text(total).as_str())
        } else {
            verb.to_owned()
        }
    }

    /// The chips of the attached references, shown with the first of them.
    pub fn render_reference_tags(&self, handles: &Vec<String>) -> (r: Option<Vec<String>>)
        ensures
            match r {
                Some(tags) => handles@.len() > 0 && texts(tags@) == texts(handles@),
                None => handles@.len() == 0,
            },
    {
        if handles.len() == 0 {
            None
        } else {
            Some(copy_texts(handles))
        }
    }

    /// One frame of the panel, on the selected provider, read again as `to`. `tabs` are the tabs the provider has, `options` what the model leaves
    /// to the user, `handles` the handles of the attached references, `tool` the name of the tab's
    /// tool, `amount` what the cost query came to, and `dragging` whether a drag is under way; with
    /// none, no card is lit.
    pub fn render(
        &mut self,
        to: Composer,
        tabs: &Vec<ComposeTab>,
        options: &TabOptions,
        handles: &Vec<String>,
        tool: &str,
        amount: &Option<Amount>,
        lib: &Library,
        dragging: bool,
    ) -> (r: ComposeFrame)
        requires
            capacity(old(self)@.synced(to@).state.draft.slots) <= usize::MAX,
        ensures
            final(self)@ == (PanelModel {
                drop_target: if dragging {
                    old(self)@.synced(to@).drop_target
                } else {
                    None
                },
                ..old(self)@.synced(to@)
            }),
            r.saved@ == final(self)@.state.saved(),
            r.provider_name@ == final(self)@.state.provider_name,
            r.selected_tab == match first_place(tabs@, |t: ComposeTab| t == final(self)@.state.draft.tab) {
                Some(i) => i,
                None => 0,
            },
            shows_model(final(self)@, r),
            controls_of(r.controls@) == option_controls(final(self)@.state, *options),
            shows_references(final(self)@, r),
            shows_prompt(final(self)@, texts(handles@), r),
            shows_footer(final(self)@, *lib, tool@, *amount, r),
    {
        self.sync_provider(to);
        let saved = self.state.to_draft();
        if !dragging {
            self.drop_target = None;
        }
        let selected_tab = self.tab_place(tabs);
        let controls = self.render_options(options);
        let (model_name, model_maker, model_logo) = match &self.state.draft.model {
            Some(m) => (m.name, m.manufacturer, Some(m.logo)),
            None => ("No model", "", None),
        };
        let model_description = match &self.state.draft.model {
            Some(m) => if m.short_description.is_empty() || same_text(m.short_description, "TBD") {
                None
            } else {
                Some(m.short_description)
            },
            None => None,
        };
        let references = if self.state.draft.slots.len() > 0 {
            let used: usize = self.state.accepted_assets().len();
            let note = cat3(count_text(used).as_str(), "/", count_text(slot_capacity(&self.state.draft.slots)).as_str());
            Some(References { note, cards: self.render_cards() })
        } else {
            None
        };
        let prompt = self.takes_prompt();
        let improve = if prompt && self.can_improve() {
            Some(
                if self.improving {
                    ImproveControl::Running
                } else {
                    ImproveControl::Idle { enabled: !is_blank(self.prompt.as_str()) }
                },
            )
        } else {
            None
        };
        let reference_tags = if prompt {
            self.render_reference_tags(handles)
        } else {
            None
        };
        let generate_icon = match self.state.draft.tab {
            ComposeTab::Media(_) => "magic-wand",
            ComposeTab::Tool(ToolId::Upscale) => "chevron-up",
            ComposeTab::Tool(ToolId::RemoveBackground) => "scissor",
        };
        ComposeFrame {
            saved,
            provider_name: self.state.provider.display_name.clone(),
            selected_tab,
            model_name,
            model_maker,
            model_logo,
            model_description,
            controls,
            references,
            prompt,
            readonly: self.improving,
            improve,
            reference_tags,
            count: self.stepper(),
            album_hint: self.album_hint(lib),
            generate_label: self.generate_button(tool),
            generate_icon,
            generate_enabled: self.can_generate() && !self.improving,
            caption: self.cost_caption(amount),
        }
    }

    /// The segment of the active tab among the provider's tabs.
    fn tab_place(&self, tabs: &Vec<ComposeTab>) -> (r: usize)
        ensures
            r == match first_place(tabs@, |t: ComposeTab| t == self@.state.draft.tab) {
                Some(i) => i,
                None => 0,
            },
    {
        let ghost fits = |t: ComposeTab| t == self@.state.draft.tab;
        let mut i: usize = 0;
        while i < tabs.len()
            invariant
                i <= tabs.len(),
                fits == (|t: ComposeTab| t == self@.state.draft.tab),
                first_from(tabs@, fits, 0) == first_from(tabs@, fits, i as int),
            decreases tabs.len() - i,
        {
            if tabs[i] == self.state.draft.tab {
                return i;
            }
            i += 1;
        }
        0
    }
}

// ----- laws -----------------------------------------------------------------------------------

/// The cards that add to a role come frames first: the start frame's, then the end frame's, then the
/// others, each role's only while it is open.
pub proof fn frame_pickers_come_first(panel: PanelModel, rank: u8, k: int)
    requires
        0 <= k < picker_cards(panel, rank).len(),
    ensures
        picker_cards(panel, rank)[k] matches Card::Picker { role, .. } && rank_of(role) == rank && exists|i: int|
            0 <= i < panel.state.draft.slots.len() && (#[trigger] panel.state.draft.slots[i]).role == role && panel.state.is_open(role),
        picker_cards(panel, 0).len() + picker_cards(panel, 1).len() + picker_cards(panel, 2).len() <= all_cards(panel).len(),
{
    let pick = |s: RoleSlot| picker_card(panel, rank, s);
    lemma_picked_from(panel.state.draft.slots, pick);
    let i = choose|i: int|
        0 <= i < panel.state.draft.slots.len() && pick(#[trigger] panel.state.draft.slots[i]) == Some(picked(panel.state.draft.slots, pick)[k]);
    assert(pick(panel.state.draft.slots[i]) == Some(picker_cards(panel, rank)[k]));
}

/// Every attached asset the model takes has a card that can remove it, at its own index.
pub proof fn every_accepted_asset_has_a_card(panel: PanelModel, i: int, n: nat)
    requires
        0 <= i < n <= panel.state.assets().len(),
        panel.state.takes(panel.state.assets()[i].role),
    ensures
        exists|k: int|
            0 <= k < asset_cards(panel, n).len() && (#[trigger] asset_cards(panel, n)[k] matches Card::Asset { asset, index, .. } && asset
                == panel.state.assets()[i] && index == i as usize),
    decreases n,
{
    let before = asset_cards(panel, (n - 1) as nat);
    let all = asset_cards(panel, n);
    if i == n - 1 {
        assert(all[before.len() as int] matches Card::Asset { asset, index, .. } && asset == panel.state.assets()[i] && index
            == i as usize);
    } else {
        every_accepted_asset_has_a_card(panel, i, (n - 1) as nat);
        let k = choose|k: int|
            0 <= k < before.len() && (#[trigger] before[k] matches Card::Asset { asset, index, .. } && asset == panel.state.assets()[i]
                && index == i as usize);
        assert(all[k] == before[k]);
    }
}

/// The References row shows exactly the attached assets the model takes: one card each, and none for
/// the rest.
pub proof fn only_accepted_assets_have_a_card(panel: PanelModel, n: nat)
    requires
        n <= panel.state.assets().len() <= usize::MAX,
    ensures
        asset_cards(panel, n).len() == kept(panel.state.assets().take(n as int), |a: DraftAsset| panel.state.takes(a.role)).len(),
        forall|k: int|
            0 <= k < asset_cards(panel, n).len() ==> (#[trigger] asset_cards(panel, n)[k] matches Card::Asset { asset, index, .. }
                && index < n && asset == panel.state.assets()[index as int] && panel.state.takes(asset.role)),
    decreases n,
{
    let fits = |a: DraftAsset| panel.state.takes(a.role);
    let pick = |a: DraftAsset|
        if fits(a) {
            Some(a)
        } else {
            None
        };
    if n == 0 {
        lemma_picked_ends(panel.state.assets(), pick);
    } else {
        only_accepted_assets_have_a_card(panel, (n - 1) as nat);
        lemma_picked_step(panel.state.assets(), pick, n - 1);
        let before = asset_cards(panel, (n - 1) as nat);
        let all = asset_cards(panel, n);
        assert forall|k: int| 0 <= k < all.len() implies (#[trigger] all[k] matches Card::Asset { asset, index, .. } && index < n && asset
            == panel.state.assets()[index as int] && panel.state.takes(asset.role)) by {
            if k < before.len() {
                assert(all[k] == before[k]);
            }
        }
    }
}

/// The options shown are the active tab's: what the models of other tabs leave to the user does not
/// show, and a tool has none.
pub proof fn only_the_active_tabs_options_show(state: DraftModel, options: TabOptions, others: TabOptions)
    requires
        state.draft.tab == ComposeTab::Media(MediaType::Image) ==> options.image == others.image,
        state.draft.tab == ComposeTab::Media(MediaType::Video) ==> options.video == others.video,
        state.draft.tab == ComposeTab::Media(MediaType::Audio) ==> options.audio == others.audio,
    ensures
        option_controls(state, options) == option_controls(state, others),
        !has_prompt(state.draft.tab) ==> option_controls(state, options).len() == 0,
{
}

/// What pressing Generate would cost is always said, but for an audio script with nothing typed,
/// where there is nothing to price; and what cannot be priced is never guessed.
pub proof fn the_cost_is_said_before_generating(panel: PanelModel, amount: Option<Amount>)
    ensures
        caption_text(panel, amount) is None <==> panel.state.draft.tab == ComposeTab::Media(MediaType::Audio) && panel.characters() == 0,
        amount is None && caption_text(panel, amount) is Some ==> caption_text(panel, amount) == Some("No estimate available"@),
{
}

/// Generate is off while a rewrite runs, and whenever there is nothing to make.
pub proof fn generate_waits_for_the_rewrite(panel: PanelModel, lib: Library, tool: Seq<char>, amount: Option<Amount>, frame: ComposeFrame)
    requires
        shows_footer(panel, lib, tool, amount, frame),
    ensures
        panel.improving ==> !frame.generate_enabled,
        panel.total() == 0 ==> !frame.generate_enabled,
{
}

/// The References row is the attached assets that the model takes, with those shrinking away among them, then
/// the cards that add to an open role, and last the picker cards shrinking away.
pub proof fn the_references_row_is_in_order(panel: PanelModel)
    ensures
        all_cards(panel) == with_ghosts(asset_cards(panel, panel.state.assets().len()), panel.exiting) + picker_cards(panel, 0) + picker_cards(
            panel,
            1,
        ) + picker_cards(panel, 2) + picker_ghosts(panel.exiting),
        panel.exiting.len() == 0 ==> all_cards(panel) == asset_cards(panel, panel.state.assets().len()) + picker_cards(panel, 0) + picker_cards(
            panel,
            1,
        ) + picker_cards(panel, 2),
{
    if panel.exiting.len() == 0 {
        picking_goes_entry_by_entry(panel.exiting, |e: ExitingCard| picker_ghost(e));
        lemma_picked_from(panel.exiting, |e: ExitingCard| picker_ghost(e));
        assert(all_cards(panel) =~= asset_cards(panel, panel.state.assets().len()) + picker_cards(panel, 0) + picker_cards(panel, 1)
            + picker_cards(panel, 2));
    }
}

/// The cards of the attached assets come one by one: one more asset adds its own card where the model takes its
/// role, entering where it was just added, and none where it does not.
pub proof fn each_accepted_asset_adds_its_card(panel: PanelModel, n: nat)
    requires
        n < panel.state.assets().len() <= usize::MAX,
    ensures
        ({
            let asset = panel.state.assets()[n as int];
            let before = asset_cards(panel, n);
            let after = asset_cards(panel, n + 1);
            &&& asset_cards(panel, 0).len() == 0
            &&& !has_slot(panel.state.draft.slots, asset.role) ==> after == before
            &&& has_slot(panel.state.draft.slots, asset.role) ==> after == before.push(
                Card::Asset { asset, index: n as usize, entering: panel.entering.contains(CardKey::Thumb(asset.asset)) },
            )
        }),
{
    a_role_takes_what_its_slot_says(panel.state, panel.state.assets()[n as int].role, 0);
}

/// A removed asset is drawn where it was while it shrinks away, or at the end where there is no such place any
/// more; the other cards keep their order.
pub proof fn a_removed_asset_shrinks_where_it_was(cards: Seq<Card>, exiting: Seq<ExitingCard>, last: ExitingCard)
    ensures
        with_ghosts(cards, Seq::empty()) == cards,
        last.kind is Picker ==> with_ghosts(cards, exiting.push(last)) == with_ghosts(cards, exiting),
        last.kind matches ExitKind::Thumb { asset, index } ==> {
            let before = with_ghosts(cards, exiting);
            let after = with_ghosts(cards, exiting.push(last));
            &&& index <= before.len() ==> after == before.insert(index as int, Card::AssetGhost { asset })
            &&& index > before.len() ==> after == before.push(Card::AssetGhost { asset })
        },
{
    assert(exiting.push(last).drop_last() =~= exiting);
    if let ExitKind::Thumb { asset, index } = last.kind {
        let before = with_ghosts(cards, exiting);
        if index > before.len() {
            assert(before.insert(before.len() as int, Card::AssetGhost { asset }) =~= before.push(Card::AssetGhost { asset }));
        }
    }
}

/// Each open role has its card that adds to it, in the order of the slots, lit while a drag is over it; a role
/// that is not open has none. The picker cards shrinking away are those of the roles that just filled up.
pub proof fn each_open_role_has_its_picker(panel: PanelModel, rank: u8)
    ensures
        picks(
            panel.state.draft.slots,
            |s: RoleSlot|
                if panel.state.is_open(s.role) && rank_of(s.role) == rank {
                    Some(
                        Card::Picker {
                            role: s.role,
                            hot: panel.drop_target == Some(s.role),
                            entering: panel.entering.contains(CardKey::Picker(s.role)),
                        },
                    )
                } else {
                    None
                },
            picker_cards(panel, rank),
        ),
        picks(
            panel.exiting,
            |e: ExitingCard|
                match e.kind {
                    ExitKind::Picker(role) => Some(Card::PickerGhost { role }),
                    ExitKind::Thumb { .. } => None,
                },
            picker_ghosts(panel.exiting),
        ),
{
    let one = |s: RoleSlot|
        if panel.state.is_open(s.role) && rank_of(s.role) == rank {
            Some(
                Card::Picker {
                    role: s.role,
                    hot: panel.drop_target == Some(s.role),
                    entering: panel.entering.contains(CardKey::Picker(s.role)),
                },
            )
        } else {
            None
        };
    let two = |e: ExitingCard|
        match e.kind {
            ExitKind::Picker(role) => Some(Card::PickerGhost { role }),
            ExitKind::Thumb { .. } => None,
        };
    assert((|s: RoleSlot| picker_card(panel, rank, s)) =~= one);
    assert((|e: ExitingCard| picker_ghost(e)) =~= two);
    picking_goes_entry_by_entry(panel.state.draft.slots, one);
    picking_goes_entry_by_entry(panel.exiting, two);
}

/// A card shows its own asset: gone where the library or the file is, a label for audio, and else the thumbnail,
/// or the file itself.
pub proof fn a_card_shows_its_asset(lib: Library, asset: DraftAsset, picture: CardPicture)
    requires
        card_picture(lib, asset, picture),
    ensures
        ({
            let row = lib.asset_at(asset.asset);
            let there = row is Some && !(row->0).missing;
            &&& picture is Gone <==> !there
            &&& picture is Audio <==> there && asset.role == AssetRole::Audio
            &&& picture matches CardPicture::Picture(path) ==> path@ == (match (row->0).thumbnail {
                Some(thumbnail) => thumbnail@,
                None => (row->0).path@,
            })
        }),
        audio_label(None) == uppercase("audio"@),
        forall|e: Seq<char>| #[trigger] audio_label(Some(e)) == uppercase(e),
{
}

/// The model of a control is what it holds.
pub proof fn a_control_is_its_fields(id: &'static str, icon: &'static str, label: String, tooltip: &'static str, choices: Vec<Choice>, on: bool, i: int)
    ensures
        (Control::Menu { id, icon, label, tooltip, choices })@ == (ControlModel::Menu {
            id: id@,
            icon: icon@,
            label: label@,
            tooltip: tooltip@,
            choices: choice_models(choices@),
        }),
        (Control::Toggle { id, icon, on, tooltip })@ == (ControlModel::Toggle { id: id@, icon: icon@, on, tooltip: tooltip@ }),
        (Control::Voice { id, icon, label, tooltip, clearable: on })@ == (ControlModel::Voice {
            id: id@,
            icon: icon@,
            label: label@,
            tooltip: tooltip@,
            clearable: on,
        }),
        choice_models(choices@).len() == choices@.len(),
        0 <= i < choices@.len() ==> choice_models(choices@)[i] == (choices@[i].label@, choices@[i].checked),
{
}

/// A menu offers each of its options, the one in force checked and no other.
pub proof fn a_menu_checks_the_option_in_force(options: Seq<Seq<char>>, current: Option<Seq<char>>, durations: Seq<u64>, seconds: u64, i: int)
    ensures
        checked_options(options, current).len() == options.len(),
        0 <= i < options.len() ==> checked_options(options, current)[i].0 == options[i] && (checked_options(options, current)[i].1 <==> current
            == Some(options[i])),
        duration_choices(durations, seconds).len() == durations.len(),
        0 <= i < durations.len() ==> duration_choices(durations, seconds)[i].0 == dec(durations[i] as nat) + "s"@ && (duration_choices(
            durations,
            seconds,
        )[i].1 <==> durations[i] == seconds),
{
}

/// An image model offers its ratios and its resolutions where it leaves them to the user, each with the one in
/// force as its label.
pub proof fn an_image_models_options(o: ImageOptions)
    ensures
        image_controls(o).len() == (if o.ratios is Some {
            1nat
        } else {
            0nat
        }) + (if o.resolutions is Some {
            1nat
        } else {
            0nat
        }),
        o.ratios matches Some(all) ==> (image_controls(o)[0] matches ControlModel::Menu { id, label, choices, icon, .. } && id == "ratio"@ && label
            == (match o.ratio {
            Some(r) => r.label@,
            None => "Ratio"@,
        }) && choices == checked_options(
            texts(all@),
            match o.ratio {
                Some(r) => Some(r.label@),
                None => None,
            },
        ) && icon == (match o.ratio {
            Some(r) => if r.square {
                "square"@
            } else if r.portrait {
                "rectangle-vertical"@
            } else {
                "rectangle-horizontal"@
            },
            None => "square"@,
        })),
        o.resolutions matches Some(all) ==> (image_controls(o).last() matches ControlModel::Menu { id, label, choices, .. } && id == "res"@ && label
            == (match o.resolution {
            Some(r) => r@,
            None => "Size"@,
        }) && choices == checked_options(texts(all@), opt_text(o.resolution))),
{
}

/// A video model offers its ratios and resolutions where it leaves them to the user, always its durations, and
/// the sound where that is a choice.
pub proof fn a_video_models_options(o: VideoOptions)
    ensures
        ({
            let all = video_controls(o);
            let ratio: int = if o.ratios@.len() > 0 {
                1
            } else {
                0
            };
            let size: int = if o.resolutions is Some {
                1
            } else {
                0
            };
            let sound: int = if o.audio is Some {
                1
            } else {
                0
            };
            &&& all.len() == ratio + size + 1 + sound
            &&& ratio == 1 ==> (all[0] matches ControlModel::Menu { id, label, choices, icon, .. } && id == "vratio"@ && label == (match o.ratio {
                Some(r) => r.label@,
                None => "Ratio"@,
            }) && choices == checked_options(
                texts(o.ratios@),
                match o.ratio {
                    Some(r) => Some(r.label@),
                    None => None,
                },
            ) && icon == (match o.ratio {
                Some(r) => match r.proportions {
                    Some((width, height)) => if width < height {
                        "rectangle-vertical"@
                    } else if width > height {
                        "rectangle-horizontal"@
                    } else {
                        "square"@
                    },
                    None => "square"@,
                },
                None => "square"@,
            }))
            &&& o.resolutions matches Some(sizes) ==> (all[ratio] matches ControlModel::Menu { id, label, choices, .. } && id == "vres"@ && label
                == (match o.resolution {
                Some(r) => r@,
                None => "Size"@,
            }) && choices == checked_options(texts(sizes@), opt_text(o.resolution)))
            &&& all[ratio + size] matches ControlModel::Menu { id, label, choices, .. } && id == "duration"@ && label == dec(o.duration as nat) + "s"@
                && choices == duration_choices(o.durations@, o.duration)
            &&& o.audio matches Some(on) ==> (all.last() matches ControlModel::Toggle { id, on: shown, icon, .. } && id == "audio"@ && shown == on && icon
                == (if on {
                "volume-2"@
            } else {
                "volume-x"@
            }))
        }),
{
}

/// A speech model offers the first voice always and the second where it speaks a dialogue; only the second can
/// be none.
pub proof fn a_speech_models_options(state: DraftModel)
    ensures
        audio_controls(state, false).len() == 1 && audio_controls(state, true).len() == 2,
        audio_controls(state, true)[0] == audio_controls(state, false)[0],
        audio_controls(state, false)[0] matches ControlModel::Voice { id, label, clearable, .. } && id == "speaker1"@ && !clearable && label == (
        match state.speaker1 {
            Some(name) => name,
            None => "Speaker 1"@,
        }),
        audio_controls(state, true)[1] matches ControlModel::Voice { id, label, clearable, .. } && id == "speaker2"@ && clearable && label == (
        match state.speaker2 {
            Some(name) => name,
            None => "Speaker 2: None"@,
        }),
{
}

/// The options row is that of the active tab's model.
pub proof fn the_options_are_the_active_models(state: DraftModel, options: TabOptions)
    ensures
        state.draft.tab == ComposeTab::Media(MediaType::Image) ==> (options.image matches Some(o) ==> option_controls(state, options) == image_controls(o)),
        state.draft.tab == ComposeTab::Media(MediaType::Video) ==> (options.video matches Some(o) ==> option_controls(state, options) == video_controls(o)),
        state.draft.tab == ComposeTab::Media(MediaType::Audio) ==> (options.audio matches Some(o) ==> option_controls(state, options) == audio_controls(
            state,
            o.two_speakers,
        )),
        state.draft.tab == ComposeTab::Media(MediaType::Image) && options.image is None ==> option_controls(state, options).len() == 0,
        state.draft.tab == ComposeTab::Media(MediaType::Video) && options.video is None ==> option_controls(state, options).len() == 0,
        state.draft.tab == ComposeTab::Media(MediaType::Audio) && options.audio is None ==> option_controls(state, options).len() == 0,
{
}

/// The model section names the selected model, its maker and its logo, and describes it where there is something
/// to say.
pub proof fn the_selected_model_is_named(panel: PanelModel, frame: ComposeFrame)
    requires
        shows_model(panel, frame),
    ensures
        panel.state.draft.model is None ==> frame.model_name@ == "No model"@ && frame.model_maker@ == ""@ && frame.model_logo is None
            && frame.model_description is None,
        panel.state.draft.model matches Some(m) ==> {
            &&& frame.model_name@ == m.name@
            &&& frame.model_maker@ == m.manufacturer@
            &&& frame.model_logo is Some && (frame.model_logo->0)@ == m.logo@
            &&& frame.model_description is Some <==> m.short_description@.len() > 0 && m.short_description@ != "TBD"@
            &&& frame.model_description matches Some(text) ==> text@ == m.short_description@
        },
{
}

/// The References section is there where the model takes any input; it counts what would be sent and how many
/// the model takes in all its slots, and shows the row of cards.
pub proof fn the_references_count_what_would_be_sent(panel: PanelModel, frame: ComposeFrame, slots: Seq<RoleSlot>, slot: RoleSlot)
    requires
        shows_references(panel, frame),
    ensures
        frame.references is Some <==> panel.state.draft.slots.len() > 0,
        frame.references matches Some(section) ==> section.note@ == dec(panel.state.accepted().len()) + "/"@ + dec(capacity(panel.state.draft.slots))
            && section.cards@ == all_cards(panel),
        capacity(Seq::<RoleSlot>::empty()) == 0,
        capacity(slots.push(slot)) == capacity(slots) + slot.max,
{
    assert(slots.push(slot).drop_last() =~= slots);
}

/// The prompt section is there on media tabs: read only while a rewrite runs, with Improve where it is offered
/// and the chips of every reference.
pub proof fn the_prompt_section_follows_the_panel(panel: PanelModel, handles: Seq<Seq<char>>, frame: ComposeFrame)
    requires
        shows_prompt(panel, handles, frame),
    ensures
        frame.prompt <==> panel.state.draft.tab is Media,
        frame.readonly <==> panel.improving,
        frame.improve is Some <==> panel.offers_improve(),
        frame.improve == Some(ImproveControl::Running) <==> panel.offers_improve() && panel.improving,
        frame.improve matches Some(ImproveControl::Idle { enabled }) ==> !panel.improving && (enabled <==> !blank(panel.prompt)),
        frame.reference_tags is Some <==> panel.state.draft.tab is Media && handles.len() > 0,
        frame.reference_tags matches Some(tags) ==> texts(tags@) == handles,
{
}

/// The footer says how many are asked for, where they go, what Generate would do and make of it, and what it
/// costs.
pub proof fn the_footer_says_what_generate_does(panel: PanelModel, lib: Library, tool: Seq<char>, amount: Option<Amount>, frame: ComposeFrame)
    requires
        shows_footer(panel, lib, tool, amount, frame),
    ensures
        frame.count is Some <==> panel.state.draft.tab == ComposeTab::Media(MediaType::Image) || panel.state.draft.tab == ComposeTab::Media(
            MediaType::Video,
        ),
        frame.count matches Some(stepper) ==> {
            &&& stepper.can_decrease <==> panel.state.draft.count > 1
            &&& stepper.can_increase <==> panel.state.draft.count < 8
            &&& panel.state.draft.tab == ComposeTab::Media(MediaType::Image) ==> stepper.label@ == dec(panel.state.draft.count as nat) + " image"@ + (
            if panel.state.draft.count == 1 {
                ""@
            } else {
                "s"@
            })
            &&& panel.state.draft.tab == ComposeTab::Media(MediaType::Video) ==> stepper.label@ == dec(panel.state.draft.count as nat) + " video"@ + (
            if panel.state.draft.count == 1 {
                ""@
            } else {
                "s"@
            })
        },
        frame.album_hint is Some <==> panel.album is Some,
        panel.album matches Some(id) ==> (lib.album_place(id) matches Some(i) ==> opt_text(frame.album_hint) == Some(
            "→ "@ + lib.albums@[i].name@ + " album"@,
        )),
        panel.state.draft.tab is Media && panel.total() <= 1 ==> frame.generate_label@ == "Generate"@,
        panel.state.draft.tab is Media && panel.total() > 1 ==> frame.generate_label@ == "Generate"@ + " "@ + dec(panel.total()),
        panel.state.draft.tab is Tool && panel.total() <= 1 ==> frame.generate_label@ == tool,
        panel.state.draft.tab is Tool && panel.total() > 1 ==> frame.generate_label@ == tool + " "@ + dec(panel.total()),
        panel.state.draft.tab is Media ==> frame.generate_icon@ == "magic-wand"@,
        panel.state.draft.tab == ComposeTab::Tool(ToolId::Upscale) ==> frame.generate_icon@ == "chevron-up"@,
        panel.state.draft.tab == ComposeTab::Tool(ToolId::RemoveBackground) ==> frame.generate_icon@ == "scissor"@,
        frame.generate_enabled <==> panel.generates() && !panel.improving,
        opt_text(frame.caption) == caption_text(panel, amount),
{
}

/// Each part of the panel reads what it is.
pub proof fn each_part_of_the_panel_says_what_it_is()
    ensures
        part_text(PanelPart::ModelHeading) == "Model"@,
        part_text(PanelPart::ReferencesHeading) == "References"@,
        part_text(PanelPart::PromptHeading) == "Prompt"@,
        part_text(PanelPart::ModelTooltip) == "Choose a model"@,
        part_text(PanelPart::TagsHeading) == "Reference tags"@,
        part_text(PanelPart::TagTooltip) == "Insert into the prompt"@,
        part_text(PanelPart::ImproveTooltip) == "Improve prompt with AI"@,
        part_text(PanelPart::Improving) == "Improving…"@,
        part_text(PanelPart::CancelImprove) == "Cancel"@,
        part_text(PanelPart::GenerateTooltip) == "Generate"@,
{
}

/// The model of the options row is its controls, one by one.
pub proof fn the_options_row_is_its_controls(controls: Seq<Control>, i: int)
    requires
        0 <= i < controls.len(),
    ensures
        controls_of(controls).len() == controls.len(),
        controls_of(controls)[i] == controls[i]@,
{
}

/// Each option of a model says what it sets, under its own icon.
pub proof fn each_option_says_what_it_sets(image: ImageOptions, video: VideoOptions, state: DraftModel)
    ensures
        image.ratios is Some ==> (image_controls(image)[0] matches ControlModel::Menu { tooltip, .. } && tooltip == "Aspect ratio"@),
        image.resolutions is Some ==> (image_controls(image).last() matches ControlModel::Menu { icon, tooltip, .. } && icon == "scaling"@
            && tooltip == "Resolution"@),
        video.ratios@.len() > 0 ==> (video_controls(video)[0] matches ControlModel::Menu { tooltip, .. } && tooltip == "Aspect ratio"@),
        video.resolutions is Some ==> (video_controls(video)[if video.ratios@.len() > 0 {
            1
        } else {
            0
        }] matches ControlModel::Menu { icon, tooltip, .. } && icon == "scaling"@ && tooltip == "Resolution"@),
        video_controls(video)[video_controls(video).len() - (if video.audio is Some {
            2int
        } else {
            1int
        })] matches ControlModel::Menu { icon, tooltip, .. } && icon == "timer"@ && tooltip == "Duration"@,
        video.audio is Some ==> (video_controls(video).last() matches ControlModel::Toggle { tooltip, .. } && tooltip == "Generate audio"@),
        audio_controls(state, true)[0] matches ControlModel::Voice { icon, tooltip, .. } && icon == "mic"@ && tooltip == "Speaker 1"@,
        audio_controls(state, true)[1] matches ControlModel::Voice { icon, tooltip, .. } && icon == "user"@ && tooltip == "Speaker 2"@,
{
}

/// The stepper says what it counts.
pub proof fn the_stepper_says_what_it_counts(panel: PanelModel, lib: Library, tool: Seq<char>, amount: Option<Amount>, frame: ComposeFrame)
    requires
        shows_footer(panel, lib, tool, amount, frame),
    ensures
        frame.count matches Some(stepper) ==> (panel.state.draft.tab == ComposeTab::Media(MediaType::Image) ==> stepper.tooltip@
            == "Number of images"@) && (panel.state.draft.tab == ComposeTab::Media(MediaType::Video) ==> stepper.tooltip@ == "Number of videos"@),
{
}

} // verus!

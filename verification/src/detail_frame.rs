//! One frame of the detail: the slots of the carousel, the controls over the stage, and the info
//! panel.

use vstd::prelude::*;

use crate::detail::{
    item_pixel_size, pixel_size, stage_pointer, subject_of, AudioStep, CursorStyle, DetailModel, DetailView, InfoAsset, LinkedInput, Media,
    MorphStep, ReadModel, RequestFacts, RequestSettings, SaveState, Stage, Subject, Transport, VideoStep,
};
use crate::paths::{may_have, path_extension};
use crate::feed::elapsed_seconds;
use crate::model::{copy_text, Generation, GenerationId, Library, MediaType, Status, ToolId};
use crate::playback::{audio_step, audio_synced, transport_of, video_step, video_synced};
use crate::seqs::{lemma_picked_ends, lemma_picked_step, picked, picking_goes_entry_by_entry, picks};
use crate::text::{cat, cat3, copy_texts, count_text, decimal, dec, lowercase, opt_text, texts, to_lowercase, to_uppercase, uppercase};

verus! {

// ----- the carousel ---------------------------------------------------------------------------

/// What a failed generation can be recovered by, besides trying again.
#[derive(Clone, Debug, PartialEq, Eq)]
pub enum Recovery {
    Retry,
    OpenProviderSettings,
    CheckCredits(String),
}

/// What a video's slot draws.
#[derive(Clone, Debug, PartialEq, Eq)]
pub enum Surface {
    /// The player's current picture.
    Frame,
    Thumbnail(String),
    Blank,
}

/// What a slot of the carousel shows.
#[derive(Clone, Debug, PartialEq, Eq)]
pub enum SlotContent {
    Generating { kind: MediaType, elapsed_secs: u64 },
    /// `retry`: the button that tries again; `recovery`: the other way out, if there is one.
    Failed { error: String, retry: bool, recovery: Option<Recovery> },
    /// `regenerate`: the button that generates it again.
    Missing { text: String, regenerate: bool },
    /// The input underneath, and the result clipped to the right of the divider.
    Compare { before: String, after: String },
    Image(String),
    Video { surface: Surface, play_badge: bool, error: Option<String>, interactive: bool },
    Audio { playing: bool, name: String, error: Option<String>, interactive: bool },
}

/// What stands in a slot besides the media: an icon, a line, and the label of the button that tries
/// again.
#[derive(Clone, Debug, PartialEq, Eq)]
pub struct SlotTexts {
    pub icon: Option<&'static str>,
    pub line: Option<String>,
    pub button: Option<&'static str>,
    /// The marks over the two halves of a comparison.
    pub halves: Option<(&'static str, &'static str)>,
}

/// The line in a slot: for an attempt under way the kind of media, called `label` in the middle of a
/// sentence, and how long it has taken, written as `elapsed`.
pub open spec fn slot_line(content: SlotContent, label: Seq<char>, elapsed: Seq<char>) -> Option<Seq<char>> {
    match content {
        SlotContent::Generating { .. } => Some("Generating "@ + label + "  ·  "@ + elapsed),
        SlotContent::Failed { .. } => Some("Something went wrong"@),
        SlotContent::Missing { .. } => Some("File is missing"@),
        _ => None,
    }
}

/// The icon in a slot, where it has one.
pub open spec fn slot_icon(content: SlotContent) -> Option<Seq<char>> {
    match content {
        SlotContent::Generating { .. } => Some("loader-circle"@),
        SlotContent::Failed { .. } => Some("circle-alert"@),
        SlotContent::Missing { .. } => Some("file-x"@),
        SlotContent::Video { play_badge: true, .. } => Some("play"@),
        SlotContent::Audio { playing: true, .. } => Some("pause"@),
        SlotContent::Audio { .. } => Some("audio-lines"@),
        _ => None,
    }
}

/// The label of the button in a slot that tries again, where it has one.
pub open spec fn slot_button(content: SlotContent) -> Option<Seq<char>> {
    match content {
        SlotContent::Failed { retry: true, .. } => Some("Try Again"@),
        SlotContent::Missing { regenerate: true, .. } => Some("Generate Again"@),
        _ => None,
    }
}

/// What stands in a slot besides the media, with the kind of media called `label` and the time an
/// attempt has taken written as `elapsed`.
pub fn slot_texts(content: &SlotContent, label: &str, elapsed: &str) -> (r: SlotTexts)
    ensures
        opt_text(r.line) == slot_line(*content, lowercase(label@), elapsed@),
        has_text(r.icon, slot_icon(*content)),
        has_text(r.button, slot_button(*content)),
        match r.halves {
            Some((before, after)) => content is Compare && before@ == "Before"@ && after@ == "After"@,
            None => !(content is Compare),
        },
{
    let label = to_lowercase(label);
    slot_texts_called(content, label.as_str(), elapsed)
}

/// What stands in a slot besides the media, with the kind of media called `label` in the middle of a
/// sentence.
pub fn slot_texts_called(content: &SlotContent, label: &str, elapsed: &str) -> (r: SlotTexts)
    ensures
        opt_text(r.line) == slot_line(*content, label@, elapsed@),
        has_text(r.icon, slot_icon(*content)),
        has_text(r.button, slot_button(*content)),
        match r.halves {
            Some((before, after)) => content is Compare && before@ == "Before"@ && after@ == "After"@,
            None => !(content is Compare),
        },
{
    let icon = match content {
        SlotContent::Generating { .. } => Some("loader-circle"),
        SlotContent::Failed { .. } => Some("circle-alert"),
        SlotContent::Missing { .. } => Some("file-x"),
        SlotContent::Video { play_badge: true, .. } => Some("play"),
        SlotContent::Audio { playing: true, .. } => Some("pause"),
        SlotContent::Audio { .. } => Some("audio-lines"),
        _ => None,
    };
    let line = match content {
        SlotContent::Generating { .. } => {
            let mut line = cat3("Generating ", label, "  ·  ");
            line.append(elapsed);
            Some(line)
        },
        SlotContent::Failed { .. } => Some("Something went wrong".to_owned()),
        SlotContent::Missing { .. } => Some("File is missing".to_owned()),
        _ => None,
    };
    let button = match content {
        SlotContent::Failed { retry: true, .. } => Some("Try Again"),
        SlotContent::Missing { regenerate: true, .. } => Some("Generate Again"),
        _ => None,
    };
    let halves = match content {
        SlotContent::Compare { .. } => Some(("Before", "After")),
        _ => None,
    };
    SlotTexts { icon, line, button, halves }
}

/// Whether `shown` is the text `text`, or neither is there.
pub open spec fn has_text(shown: Option<&'static str>, text: Option<Seq<char>>) -> bool {
    match (shown, text) {
        (Some(shown), Some(text)) => shown@ == text,
        (None, None) => true,
        _ => false,
    }
}

/// What the players are doing.
#[derive(Clone, Copy, Debug, PartialEq, Eq, Structural)]
pub struct Playing {
    pub video: bool,
    /// The audio player is playing and has not come to the end.
    pub audio: bool,
}

/// Whether `content` is what the slot of `item` shows; only the current slot has the compared
/// picture, the buttons and the errors.
pub open spec fn slot_shows<B>(
    detail: DetailModel<B>,
    item: Generation,
    is_current: bool,
    now_ms: u64,
    playing: Playing,
    recovery: Recovery,
    content: SlotContent,
) -> bool {
    match item.status {
        Status::Generating => content == (SlotContent::Generating {
            kind: item.media_type,
            elapsed_secs: elapsed_seconds(now_ms, item.queued_at_ms),
        }),
        Status::Failed => {
            &&& content matches SlotContent::Failed { error, retry, recovery: way } && error@ == (match item.error {
                Some(e) => e@,
                None => Seq::empty(),
            }) && retry == is_current && way == (if is_current && recovery != Recovery::Retry {
                Some(recovery)
            } else {
                None
            })
        },
        Status::Missing => content matches SlotContent::Missing { text, regenerate } && text@ == item.file_name@
            + " is no longer in the library folder. It may have been moved or deleted outside Majik."@ && regenerate == (is_current
            && item.can_retry),
        Status::Completed => finished_slot_shows(detail, item, is_current, playing, content),
    }
}

/// Whether `content` is what the slot of a finished item shows.
pub open spec fn finished_slot_shows<B>(
    detail: DetailModel<B>,
    item: Generation,
    is_current: bool,
    playing: Playing,
    content: SlotContent,
) -> bool {
    if item.path is Some && item.media_type == MediaType::Image {
        match detail.read.compare {
            Some(before) if is_current => content == (SlotContent::Compare { before, after: item.path->0 }),
            _ => content == SlotContent::Image(item.path->0),
        }
    } else if item.path is Some && item.media_type == MediaType::Video {
        content == (SlotContent::Video {
            surface: video_surface(detail.media, item),
            play_badge: !(owns_player(detail.media, item) && detail.media.player && playing.video),
            error: if is_current {
                detail.media.player_error
            } else {
                None
            },
            interactive: is_current,
        })
    } else {
        content == (SlotContent::Audio {
            playing: is_current && detail.media.audio && playing.audio,
            name: item.file_name,
            error: if is_current {
                detail.media.player_error
            } else {
                None
            },
            interactive: is_current,
        })
    }
}

/// The picture follows the player, which mid-slide still belongs to the leaving item.
pub open spec fn owns_player(media: Media, item: Generation) -> bool {
    media.player_for == Some(item.id)
}

pub open spec fn video_surface(media: Media, item: Generation) -> Surface {
    if owns_player(media, item) && media.frame {
        Surface::Frame
    } else {
        match item.thumbnail {
            Some(thumbnail) => Surface::Thumbnail(thumbnail),
            None => Surface::Blank,
        }
    }
}

// ----- the info panel -------------------------------------------------------------------------

/// A chip of the info panel: a label and a value.
#[derive(Clone, Debug, PartialEq, Eq)]
pub struct InfoChip {
    pub label: &'static str,
    pub value: String,
}

pub open spec fn chip_texts(chips: Seq<InfoChip>) -> Seq<(Seq<char>, Seq<char>)> {
    Seq::new(chips.len(), |i: int| (chips[i].label@, chips[i].value@))
}

/// A chip, where there is a value.
pub open spec fn chip_for(label: Seq<char>, value: Option<Seq<char>>) -> Seq<(Seq<char>, Seq<char>)> {
    match value {
        Some(value) => seq![(label, value)],
        None => Seq::empty(),
    }
}

pub open spec fn dimensions_text(item: Generation) -> Option<Seq<char>> {
    match (item.width, item.height) {
        (Some(w), Some(h)) => Some(dec(w as nat) + " × "@ + dec(h as nat)),
        _ => None,
    }
}

/// The chips of the settings a request was made with.
pub open spec fn settings_chips(settings: RequestSettings) -> Seq<(Seq<char>, Seq<char>)> {
    match settings {
        RequestSettings::Image { aspect, resolution } => seq![("Aspect"@, aspect@), ("Resolution"@, resolution@)],
        RequestSettings::Video { aspect, resolution, seconds, audio } => chip_for("Aspect"@, opt_text(aspect)) + chip_for(
            "Resolution"@,
            opt_text(resolution),
        ) + seq![
            ("Length"@, dec(seconds as nat) + "s"@),
            (
                "Audio"@,
                if audio {
                    "On"@
                } else {
                    "Off"@
                },
            ),
        ],
        RequestSettings::Audio { voice1, voice2 } => seq![("Voice 1"@, voice1@)] + chip_for("Voice 2"@, opt_text(voice2)),
        RequestSettings::Tool => Seq::empty(),
    }
}

pub open spec fn request_chips(request: Option<RequestFacts>) -> Seq<(Seq<char>, Seq<char>)> {
    match request {
        Some(r) => seq![("Provider"@, r.provider@)] + settings_chips(r.settings),
        None => Seq::empty(),
    }
}

/// The chips of the file itself.
pub open spec fn file_chips(item: Generation, kind: Seq<char>) -> Seq<(Seq<char>, Seq<char>)> {
    seq![("Type"@, kind)] + chip_for("Model"@, opt_text(item.model_name)) + chip_for("Dimensions"@, dimensions_text(item)) + chip_for(
        "Duration"@,
        opt_text(item.duration),
    ) + chip_for("Size"@, opt_text(item.file_size))
}

/// The chips of the info panel, `kind` being the name of the item's kind of media.
pub open spec fn info_chips(item: Generation, request: Option<RequestFacts>, kind: Seq<char>) -> Seq<(Seq<char>, Seq<char>)> {
    file_chips(item, kind) + request_chips(request) + (if item.is_upscaled {
        seq![("Upscaled"@, "Yes"@)]
    } else {
        Seq::empty()
    }) + seq![("Created"@, item.created@)]
}

/// The card of an input asset: its picture, or the icon of its kind, and a caption.
#[derive(Clone, Debug, PartialEq, Eq)]
pub struct InfoCard {
    pub picture: Option<String>,
    pub icon: &'static str,
    pub caption: String,
}

pub open spec fn kind_icon(kind: MediaType) -> Seq<char> {
    match kind {
        MediaType::Audio => "audio-lines"@,
        MediaType::Video => "film"@,
        MediaType::Image => "image"@,
    }
}

/// What the caption of an asset reads: the name of its role, or else its kind of file.
pub open spec fn caption_for(role: Option<Seq<char>>, extension: Option<Seq<char>>) -> Seq<char> {
    match role {
        Some(name) => name,
        None => uppercase(
            match extension {
                Some(e) => e,
                None => "file"@,
            },
        ),
    }
}

/// Whether `card` is that of an asset whose role, where it is one that is known, is called `role`.
pub open spec fn card_for(asset: InfoAsset, role: Option<Seq<char>>, card: InfoCard) -> bool {
    &&& card.picture == asset.picture
    &&& card.icon@ == kind_icon(asset.kind)
    &&& exists|extension: Option<Seq<char>>|
        #[trigger] may_have(asset.path@, extension) && card.caption@ == caption_for(role, extension)
}

/// The sections of the info panel.
#[derive(Clone, Copy, Debug, PartialEq, Eq, Structural)]
pub enum InfoSection {
    Panel,
    Inputs,
    Prompt,
}

/// What stands over a section of the info panel.
pub fn info_heading(section: InfoSection) -> (r: &'static str)
    ensures
        r@ == match section {
            InfoSection::Panel => "Info"@,
            InfoSection::Inputs => "Input"@,
            InfoSection::Prompt => "Prompt"@,
        },
{
    match section {
        InfoSection::Panel => "Info",
        InfoSection::Inputs => "Input",
        InfoSection::Prompt => "Prompt",
    }
}

/// The info panel.
pub struct InfoPanel {
    pub chips: Vec<InfoChip>,
    /// The request's inputs; the section is absent without any.
    pub inputs: Vec<InfoCard>,
    /// Pictures of the generations a plain asset went into, and the line above them.
    pub uses: Vec<String>,
    pub uses_title: Option<String>,
    pub prompt: Option<String>,
    pub error: Option<String>,
    pub file_name: String,
}

/// Whether `panel` is the info panel of `item`. `roles` are the names of the inputs' roles, where
/// they are known.
pub open spec fn panel_shows(read: ReadModel, item: Generation, kind: Seq<char>, roles: Seq<Option<Seq<char>>>, panel: InfoPanel) -> bool {
    &&& chip_texts(panel.chips@) == info_chips(item, read.request, kind)
    &&& if read.info_for == Some(item.id) {
        &&& panel.inputs@.len() == read.info_assets.len()
        &&& forall|i: int|
            0 <= i < panel.inputs@.len() ==> card_for(
                read.info_assets[i],
                if i < roles.len() {
                    roles[i]
                } else {
                    None
                },
                #[trigger] panel.inputs@[i],
            )
    } else {
        panel.inputs@.len() == 0
    }
    &&& texts(panel.uses@) == texts(read.info_uses)
    &&& opt_text(panel.uses_title) == (if read.info_uses.len() > 0 {
        Some("Used in "@ + dec(read.info_uses.len()) + " generation(s)"@)
    } else {
        None
    })
    &&& panel.prompt == read.prompt
    &&& panel.error == item.error
    &&& panel.file_name == item.file_name
}

/// The names of the inputs' roles, where they are known.
pub open spec fn role_names(roles: Seq<Option<String>>) -> Seq<Option<Seq<char>>> {
    Seq::new(roles.len(), |i: int| opt_text(roles[i]))
}

fn push_chip(chips: &mut Vec<InfoChip>, label: &'static str, value: Option<String>)
    ensures
        chip_texts(final(chips)@) == chip_texts(old(chips)@) + chip_for(label@, opt_text(value)),
{
    let ghost before = chip_texts(chips@);
    if let Some(value) = value {
        chips.push(InfoChip { label, value });
    }
    assert(chip_texts(chips@) =~= before + chip_for(label@, opt_text(value)));
}

fn push_settings(chips: &mut Vec<InfoChip>, settings: &RequestSettings)
    ensures
        chip_texts(final(chips)@) == chip_texts(old(chips)@) + settings_chips(*settings),
{
    let ghost before = chip_texts(chips@);
    match settings {
        RequestSettings::Image { aspect, resolution } => {
            chips.push(InfoChip { label: "Aspect", value: aspect.clone() });
            chips.push(InfoChip { label: "Resolution", value: resolution.clone() });
        },
        RequestSettings::Video { aspect, resolution, seconds, audio } => {
            push_chip(chips, "Aspect", copy_text(aspect));
            push_chip(chips, "Resolution", copy_text(resolution));
            let ghost so_far = chip_texts(chips@);
            chips.push(InfoChip { label: "Length", value: cat(decimal(*seconds).as_str(), "s") });
            chips.push(
                InfoChip {
                    label: "Audio",
                    value: if *audio {
                        "On".to_owned()
                    } else {
                        "Off".to_owned()
                    },
                },
            );
            assert(chip_texts(chips@) =~= so_far + seq![
                ("Length"@, dec(*seconds as nat) + "s"@),
                (
                    "Audio"@,
                    if *audio {
                        "On"@
                    } else {
                        "Off"@
                    },
                ),
            ]);
        },
        RequestSettings::Audio { voice1, voice2 } => {
            chips.push(InfoChip { label: "Voice 1", value: voice1.clone() });
            assert(chip_texts(chips@) =~= before + seq![("Voice 1"@, voice1@)]);
            push_chip(chips, "Voice 2", copy_text(voice2));
        },
        RequestSettings::Tool => {},
    }
    assert(chip_texts(chips@) =~= before + settings_chips(*settings));
}

fn file_chips_of(item: &Generation, kind: &str) -> (r: Vec<InfoChip>)
    ensures
        chip_texts(r@) == file_chips(*item, kind@),
{
    let mut chips: Vec<InfoChip> = Vec::new();
    chips.push(InfoChip { label: "Type", value: kind.to_owned() });
    assert(chip_texts(chips@) =~= seq![("Type"@, kind@)]);
    push_chip(&mut chips, "Model", copy_text(&item.model_name));
    let dimensions = match (item.width, item.height) {
        (Some(w), Some(h)) => Some(cat3(decimal(w as u64).as_str(), " × ", decimal(h as u64).as_str())),
        _ => None,
    };
    push_chip(&mut chips, "Dimensions", dimensions);
    push_chip(&mut chips, "Duration", copy_text(&item.duration));
    push_chip(&mut chips, "Size", copy_text(&item.file_size));
    chips
}

/// The chips of the info panel.
pub fn chips_of_item(item: &Generation, request: &Option<RequestFacts>, kind: &str) -> (r: Vec<InfoChip>)
    ensures
        chip_texts(r@) == info_chips(*item, *request, kind@),
{
    let mut chips = file_chips_of(item, kind);
    let ghost file = chip_texts(chips@);
    if let Some(r) = request {
        chips.push(InfoChip { label: "Provider", value: r.provider.clone() });
        assert(chip_texts(chips@) =~= file + seq![("Provider"@, r.provider@)]);
        push_settings(&mut chips, &r.settings);
        assert(chip_texts(chips@) =~= file + request_chips(*request));
    } else {
        assert(chip_texts(chips@) =~= file + request_chips(*request));
    }
    let ghost asked = chip_texts(chips@);
    if item.is_upscaled {
        chips.push(InfoChip { label: "Upscaled", value: "Yes".to_owned() });
    }
    chips.push(InfoChip { label: "Created", value: item.created.clone() });
    assert(chip_texts(chips@) =~= asked + (if item.is_upscaled {
        seq![("Upscaled"@, "Yes"@)]
    } else {
        Seq::empty()
    }) + seq![("Created"@, item.created@)]);
    chips
}

/// The caption of an asset with this extension, whose role, where it is known, is called `role`.
pub fn asset_caption(role: &Option<String>, extension: &Option<String>) -> (r: String)
    ensures
        r@ == caption_for(opt_text(*role), opt_text(*extension)),
{
    match role {
        Some(name) => name.clone(),
        None => match extension {
            Some(e) => to_uppercase(e.as_str()),
            None => to_uppercase("file"),
        },
    }
}

/// The card of an input asset, whose role, where it is known, is called `role`.
pub fn input_card(asset: &InfoAsset, role: &Option<String>) -> (r: InfoCard)
    ensures
        card_for(*asset, opt_text(*role), r),
{
    let extension = path_extension(asset.path.as_str());
    let caption = asset_caption(role, &extension);
    assert(may_have(asset.path@, opt_text(extension)));
    InfoCard {
        picture: copy_text(&asset.picture),
        icon: match asset.kind {
            MediaType::Audio => "audio-lines",
            MediaType::Video => "film",
            MediaType::Image => "image",
        },
        caption,
    }
}

// ----- the frame ------------------------------------------------------------------------------

/// An entry of the detail's menu.
#[derive(Clone, Copy, Debug, PartialEq, Eq, Structural)]
pub enum DetailMenuEntry {
    Copy { enabled: bool },
    CopyPrompt { enabled: bool },
    Recreate { enabled: bool },
    Separator,
    Delete { enabled: bool },
}

/// What an entry of the detail's menu reads.
pub open spec fn menu_label(entry: DetailMenuEntry) -> Option<Seq<char>> {
    match entry {
        DetailMenuEntry::Copy { .. } => Some("Copy"@),
        DetailMenuEntry::CopyPrompt { .. } => Some("Copy Prompt"@),
        DetailMenuEntry::Recreate { .. } => Some("Recreate"@),
        DetailMenuEntry::Separator => None,
        DetailMenuEntry::Delete { .. } => Some("Delete"@),
    }
}

impl DetailMenuEntry {
    /// What the entry reads; a separator reads nothing.
    pub fn label(&self) -> (r: Option<&'static str>)
        ensures
            match (r, menu_label(*self)) {
                (Some(label), Some(text)) => label@ == text,
                (None, None) => true,
                _ => false,
            },
    {
        match self {
            DetailMenuEntry::Copy { .. } => Some("Copy"),
            DetailMenuEntry::CopyPrompt { .. } => Some("Copy Prompt"),
            DetailMenuEntry::Recreate { .. } => Some("Recreate"),
            DetailMenuEntry::Separator => None,
            DetailMenuEntry::Delete { .. } => Some("Delete"),
        }
    }
}

/// The controls floating over the stage.
pub struct StageControls {
    /// The favorite's icon, for a generation.
    pub favorite: Option<&'static str>,
    pub save_icon: &'static str,
    pub save_spins: bool,
    pub save_enabled: bool,
    pub info_selected: bool,
    /// The Recreate button, for a generation.
    pub recreate: bool,
    pub menu: Vec<DetailMenuEntry>,
}

/// A control of the stage, as its tooltip names it.
#[derive(Clone, Copy, Debug, PartialEq, Eq, Structural)]
pub enum StageButton {
    Favorite,
    Save,
    Info,
    Recreate,
    Close,
    PlayPause,
    /// Beside the prompt in the info panel.
    CopyPrompt,
}

/// The tooltip of a control.
pub open spec fn button_tooltip(part: StageButton) -> Seq<char> {
    match part {
        StageButton::Favorite => "Favorite"@,
        StageButton::Save => "Save…"@,
        StageButton::Info => "Info"@,
        StageButton::Recreate => "Recreate"@,
        StageButton::Close => "Close"@,
        StageButton::PlayPause => "Play / Pause"@,
        StageButton::CopyPrompt => "Copy prompt"@,
    }
}

/// The tooltip of a control.
pub fn stage_tooltip(part: StageButton) -> (r: &'static str)
    ensures
        r@ == button_tooltip(part),
{
    match part {
        StageButton::Favorite => "Favorite",
        StageButton::Save => "Save…",
        StageButton::Info => "Info",
        StageButton::Recreate => "Recreate",
        StageButton::Close => "Close",
        StageButton::PlayPause => "Play / Pause",
        StageButton::CopyPrompt => "Copy prompt",
    }
}

/// An arrow at the side of the stage.
#[derive(Clone, Copy, Debug, PartialEq, Eq, Structural)]
pub struct Arrow {
    pub shown: bool,
    pub enabled: bool,
}

/// A preset of the stage's zoom row.
#[derive(Clone, Debug, PartialEq, Eq)]
pub struct ZoomPreset {
    pub label: String,
    pub factor: u64,
    pub selected: bool,
}

/// What is behind the media.
#[derive(Clone, Copy, Debug, PartialEq, Eq, Structural)]
pub enum Backdrop {
    /// The app's own background.
    Theme,
    Black,
    White,
}

/// The picture that travels between the feed cell and the stage.
pub struct Travelling {
    pub thumbnail: String,
    /// The full-size image to decode meanwhile.
    pub prewarm: Option<String>,
}

/// One frame of the detail.
pub struct DetailFrame {
    /// The slots of the carousel, with what is shown in each.
    pub slots: Vec<(usize, Subject)>,
    pub travelling: Option<Travelling>,
    pub checkerboard: bool,
    pub controls: Option<StageControls>,
    /// The arrows to the page before and the page after.
    pub arrows: Option<(Arrow, Arrow)>,
    /// The presets, for media with a known pixel size.
    pub zoom_row: Option<Vec<ZoomPreset>>,
    pub backdrop: Backdrop,
    pub cursor: Option<CursorStyle>,
    pub transport: Transport,
    /// The icon of the transport bar's button, where there is a bar.
    pub play_icon: Option<&'static str>,
    /// The info panel is shown.
    pub info: bool,
}

/// The detail's menu. A plain asset gets the file actions only: it is dragged into the composer.
pub open spec fn menu_of(subject: Subject, prompt: bool, deletable: bool) -> Seq<DetailMenuEntry> {
    seq![DetailMenuEntry::Copy { enabled: subject.item.file is Some }] + (if subject.generation is Some {
        seq![
            DetailMenuEntry::CopyPrompt { enabled: prompt },
            DetailMenuEntry::Recreate { enabled: subject.item.can_recreate },
        ]
    } else {
        Seq::empty()
    }) + seq![DetailMenuEntry::Separator, DetailMenuEntry::Delete { enabled: deletable }]
}

/// Whether what is shown can be deleted: a generation always, an asset unless something uses it.
pub open spec fn can_delete(lib: Library, subject: Subject) -> bool {
    subject.generation is Some || match subject.asset {
        Some(asset) => !(lib.asset_at(asset) matches Some(row) && row.referenced),
        None => false,
    }
}

pub open spec fn save_glyph(state: SaveState) -> Seq<char> {
    match state {
        SaveState::Saved => "check"@,
        SaveState::Failed => "x"@,
        _ => "download"@,
    }
}

/// Whether `controls` are those over the stage.
pub open spec fn controls_show<B>(detail: DetailModel<B>, lib: Library, subject: Subject, controls: StageControls) -> bool {
    &&& match controls.favorite {
        Some(icon) => subject.generation is Some && icon@ == (if subject.item.is_favorite {
            "heart-filled"@
        } else {
            "heart"@
        }),
        None => subject.generation is None,
    }
    &&& controls.save_icon@ == save_glyph(detail.save_state)
    &&& controls.save_spins == (detail.save_state == SaveState::Saving)
    &&& controls.save_enabled == (detail.save_state == SaveState::Idle && subject.item.status == Status::Completed)
    &&& controls.info_selected == detail.show_info
    &&& controls.recreate == (subject.generation is Some)
    &&& controls.menu@ == menu_of(subject, detail.read.prompt is Some, can_delete(lib, subject))
}

/// The slots drawn: of those in view, the ones that have something to show. None while the
/// travelling box stands in for the strip.
pub open spec fn shown_slots<B>(detail: DetailModel<B>, lib: Library, travelling: bool, visible: Seq<usize>) -> Seq<(usize, Subject)> {
    if travelling {
        Seq::empty()
    } else {
        picked(visible, |k: usize| slot_at(detail, lib, k))
    }
}

pub open spec fn slot_at<B>(detail: DetailModel<B>, lib: Library, k: usize) -> Option<(usize, Subject)> {
    if k < detail.ids.len() {
        match subject_of(lib, detail.ids[k as int]) {
            Some(subject) => Some((k, subject)),
            None => None,
        }
    } else {
        None
    }
}

/// The stage's zoom row: multiples of the fitted size, 1× being fit-to-view.
pub open spec fn zoom_factors() -> Seq<u64> {
    seq![1u64, 2u64, 4u64, 6u64, 8u64]
}

/// Whether `presets` is the zoom row with `active` highlighted.
pub open spec fn presets_show(active: Option<u64>, presets: Seq<ZoomPreset>) -> bool {
    &&& presets.len() == zoom_factors().len()
    &&& forall|i: int|
        0 <= i < presets.len() ==> (#[trigger] presets[i]).factor == zoom_factors()[i] && presets[i].label@ == dec(
            zoom_factors()[i] as nat,
        ) + "×"@ && presets[i].selected == (active == Some(zoom_factors()[i]))
}

/// The preset that is highlighted: fit is 1×, and a zoom that matches none highlights none.
pub open spec fn active_preset<B>(detail: DetailModel<B>, matched: Option<u64>) -> Option<u64> {
    if detail.stage.zoomed {
        matched
    } else {
        Some(1)
    }
}

/// The stage is black (white in a light theme), as most viewers show media; audio has no picture.
pub open spec fn backdrop_of(kind: MediaType, dark: bool) -> Backdrop {
    if kind == MediaType::Audio {
        Backdrop::Theme
    } else if dark {
        Backdrop::Black
    } else {
        Backdrop::White
    }
}

pub open spec fn play_glyph(transport: Transport, playing: Playing) -> Option<Seq<char>> {
    match transport {
        Transport::Absent => None,
        Transport::Video => Some(
            if playing.video {
                "pause"@
            } else {
                "play"@
            },
        ),
        Transport::Audio => Some(
            if playing.audio {
                "pause"@
            } else {
                "play"@
            },
        ),
        Transport::Waiting => Some("play"@),
    }
}

/// What the app knows of the picture as a frame is drawn.
pub struct PictureFacts<B> {
    /// Where a morph under way has its travelling box.
    pub morph_frame: Option<B>,
    /// The player knows its picture's size.
    pub player_size: bool,
    /// The slots of the carousel in view.
    pub visible: Vec<usize>,
    /// The preset a zoom by hand matches.
    pub matched_preset: Option<u64>,
    pub playing: Playing,
    /// The theme is a dark one.
    pub dark: bool,
}

/// Whether `frame` is the frame of `detail` showing `subject`.
pub open spec fn frame_shows<B>(
    detail: DetailModel<B>,
    lib: Library,
    subject: Subject,
    facts: PictureFacts<B>,
    frame: DetailFrame,
) -> bool {
    let boxed = detail.travel_box(subject.item, facts.morph_frame) is Some;
    let item = subject.item;
    let morphing = detail.transitioning();
    &&& frame.slots@ == shown_slots(detail, lib, boxed, facts.visible@)
    &&& match frame.travelling {
        Some(t) => boxed && Some(t.thumbnail) == item.thumbnail && t.prewarm == (if item.media_type == MediaType::Image {
            item.file
        } else {
            None
        }),
        None => !boxed || item.thumbnail is None,
    }
    &&& frame.checkerboard == (item.tool == Some(ToolId::RemoveBackground) && item.media_type == MediaType::Image)
    &&& match frame.controls {
        Some(controls) => !morphing && controls_show(detail, lib, subject, controls),
        None => morphing,
    }
    &&& frame.arrows == (if morphing {
        None
    } else {
        Some(
            (
                Arrow { shown: detail.stage.hover_left && detail.index > 0, enabled: detail.index > 0 },
                Arrow {
                    shown: detail.stage.hover_right && detail.index + 1 < detail.ids.len(),
                    enabled: detail.index + 1 < detail.ids.len(),
                },
            ),
        )
    })
    &&& match frame.zoom_row {
        Some(presets) => zoomable(detail, item, facts.player_size) && presets_show(
            active_preset(detail, facts.matched_preset),
            presets@,
        ),
        None => !zoomable(detail, item, facts.player_size),
    }
    &&& frame.backdrop == backdrop_of(item.media_type, facts.dark)
    &&& match (frame.play_icon, play_glyph(transport_of(detail.media, item), facts.playing)) {
        (Some(icon), Some(glyph)) => icon@ == glyph,
        (None, None) => true,
        _ => false,
    }
    &&& frame.cursor == stage_pointer(detail)
    &&& frame.transport == transport_of(detail.media, item)
    &&& frame.info == (detail.show_info && !morphing)
}

/// The zoom row is for finished media of a known size, at rest.
pub open spec fn zoomable<B>(detail: DetailModel<B>, item: Generation, player_size: bool) -> bool {
    !detail.transitioning() && item.status == Status::Completed && (pixel_size(item) is Some || (player_size && detail.media.player
        && detail.media.player_for == Some(item.id)))
}

/// What zooming to a preset does: 1× is fit-to-view itself, and the rest that many times the fitted
/// size.
#[derive(Clone, Copy, Debug, PartialEq, Eq, Structural)]
pub enum PresetZoom {
    Fit,
    Times(u64),
}

/// The zoom row with `active` highlighted.
pub fn zoom_presets(active: Option<u64>) -> (r: Vec<ZoomPreset>)
    ensures
        presets_show(active, r@),
{
    let mut factors: Vec<u64> = Vec::new();
    factors.push(1);
    factors.push(2);
    factors.push(4);
    factors.push(6);
    factors.push(8);
    assert(factors@ =~= zoom_factors());
    let mut out: Vec<ZoomPreset> = Vec::new();
    let mut i: usize = 0;
    while i < factors.len()
        invariant
            i <= factors.len(),
            factors@ == zoom_factors(),
            out.len() == i,
            forall|k: int|
                0 <= k < i ==> (#[trigger] out@[k]).factor == zoom_factors()[k] && out@[k].label@ == dec(zoom_factors()[k] as nat)
                    + "×"@ && out@[k].selected == (active == Some(zoom_factors()[k])),
        decreases factors.len() - i,
    {
        let factor: u64 = factors[i];
        out.push(ZoomPreset { label: cat(decimal(factor).as_str(), "×"), factor, selected: active == Some(factor) });
        i += 1;
    }
    out
}

/// What the app knows of the item as a frame begins.
pub struct ItemFacts {
    /// A slide between pages is under way.
    pub sliding: bool,
    pub request: Option<RequestFacts>,
    pub inputs: Vec<LinkedInput>,
    /// The generations the asset shown was an input of.
    pub users: Vec<GenerationId>,
    /// The name the reference images' role is stored under.
    pub reference_role: String,
    /// The audio player is playing and has not come to the end.
    pub audio_playing: bool,
    /// The morph has played.
    pub played: bool,
    /// The stage is measured.
    pub measured: bool,
    pub reduce_motion: bool,
}

/// What is to be done as a frame begins.
pub struct FrameStart<B> {
    /// What to do about the players; nothing during a slide.
    pub players: Option<(AudioStep, VideoStep)>,
    /// Start the timer that keeps the elapsed time moving.
    pub start_timer: bool,
    pub morph: MorphStep<B>,
    /// Draw another frame after this one: something is moving.
    pub animate: bool,
}

/// The detail once a frame has begun on `item`: its players, its request, its comparison, its info
/// and its morph are up to date.
pub open spec fn begun<B>(detail: DetailModel<B>, item: Generation, lib: Library, facts: ItemFacts) -> DetailModel<B> {
    let played = if facts.sliding {
        detail
    } else {
        DetailModel { media: video_synced(audio_synced(detail.media, item), item), ..detail }
    };
    let ticked = DetailModel { elapsed_ticking: item.status == Status::Generating, ..played };
    ticked.with_request(item, facts.request).with_compare(item, facts.inputs@, facts.reference_role@).with_info(
        item,
        facts.inputs@,
        facts.users@,
        lib,
    ).after_morph_tick(facts.played, facts.measured, facts.reduce_motion)
}

impl<B: Copy> DetailView<B> {
    /// Begin a frame on the item shown: keep everything read of it and played of it up to date. The
    /// slide has advanced before, so the frame it settles on is the one that hands the player to the
    /// item it landed on.
    pub fn begin_frame(&mut self, item: &Generation, lib: &Library, facts: ItemFacts) -> (r: FrameStart<B>)
        ensures
            final(self)@ == begun(old(self)@, *item, *lib, facts),
            r.players == if facts.sliding {
                None
            } else {
                Some((audio_step(old(self)@.media, *item), video_step(old(self)@.media, *item)))
            },
            r.start_timer == (item.status == Status::Generating && !old(self)@.elapsed_ticking),
            r.morph == old(self)@.morph_step(*item, facts.played, facts.measured, facts.reduce_motion),
            r.animate == (facts.sliding || (final(self)@.media.audio && facts.audio_playing) || r.morph is Playing || r.morph is Start),
    {
        let players = self.sync_player(item, facts.sliding);
        let start_timer = self.sync_elapsed_ticker(item);
        self.sync_request(item, facts.request);
        self.sync_compare(item, &facts.inputs, facts.reference_role.as_str());
        self.sync_info_assets(item, &facts.inputs, &facts.users, lib);
        let morph = self.tick_morph(item, facts.played, facts.measured, facts.reduce_motion);
        let morphs = match morph {
            MorphStep::Playing => true,
            MorphStep::Start { .. } => true,
            _ => false,
        };
        let animate = facts.sliding || (self.media.audio && facts.audio_playing) || morphs;
        FrameStart { players, start_timer, morph, animate }
    }

    /// One slot of the strip. Only the current slot carries the live player and the interactive
    /// controls; neighbours are previews.
    pub fn render_slot(&self, item: &Generation, is_current: bool, now_ms: u64, playing: Playing, recovery: Recovery) -> (r: SlotContent)
        ensures
            slot_shows(self@, *item, is_current, now_ms, playing, recovery, r),
    {
        match item.status {
            Status::Generating => SlotContent::Generating {
                kind: item.media_type,
                elapsed_secs: if now_ms >= item.queued_at_ms {
                    (now_ms - item.queued_at_ms) / 1000
                } else {
                    0
                },
            },
            Status::Failed => {
                let error = match &item.error {
                    Some(e) => e.clone(),
                    None => String::new(),
                };
                let way = match recovery {
                    Recovery::Retry => None,
                    other => if is_current {
                        Some(other)
                    } else {
                        None
                    },
                };
                SlotContent::Failed { error, retry: is_current, recovery: way }
            },
            Status::Missing => SlotContent::Missing {
                text: cat(
                    item.file_name.as_str(),
                    " is no longer in the library folder. It may have been moved or deleted outside Majik.",
                ),
                regenerate: is_current && item.can_retry,
            },
            Status::Completed => self.render_finished(item, is_current, playing),
        }
    }

    fn render_finished(&self, item: &Generation, is_current: bool, playing: Playing) -> (r: SlotContent)
        ensures
            finished_slot_shows(self@, *item, is_current, playing, r),
    {
        let error = if is_current {
            copy_text(&self.media.player_error)
        } else {
            None
        };
        if let Some(path) = &item.path {
            if item.media_type == MediaType::Image {
                if is_current {
                    if let Some(before) = &self.read.compare {
                        return SlotContent::Compare { before: before.clone(), after: path.clone() };
                    }
                }
                return SlotContent::Image(path.clone());
            }
            if item.media_type == MediaType::Video {
                let owns = self.media.player_for == Some(item.id);
                let surface = if owns && self.media.frame {
                    Surface::Frame
                } else {
                    match &item.thumbnail {
                        Some(thumbnail) => Surface::Thumbnail(thumbnail.clone()),
                        None => Surface::Blank,
                    }
                };
                return SlotContent::Video {
                    surface,
                    play_badge: !(owns && self.media.player && playing.video),
                    error,
                    interactive: is_current,
                };
            }
        }
        SlotContent::Audio {
            playing: is_current && self.media.audio && playing.audio,
            name: item.file_name.clone(),
            error,
            interactive: is_current,
        }
    }

    /// The info panel of the item. `kind` is the name of its kind of media, and `roles` the names of
    /// the inputs' roles, where they are known.
    pub fn render_info(&self, item: &Generation, kind: &str, roles: &Vec<Option<String>>) -> (r: InfoPanel)
        ensures
            panel_shows(self@.read, *item, kind@, role_names(roles@), r),
    {
        let chips = chips_of_item(item, &self.read.request, kind);
        let mut inputs: Vec<InfoCard> = Vec::new();
        if self.read.info_for == Some(item.id) {
            let mut i: usize = 0;
            while i < self.read.info_assets.len()
                invariant
                    i <= self.read.info_assets.len(),
                    inputs.len() == i,
                    forall|k: int|
                        0 <= k < i ==> card_for(
                            self.read.info_assets@[k],
                            if k < roles@.len() {
                                opt_text(roles@[k])
                            } else {
                                None
                            },
                            #[trigger] inputs@[k],
                        ),
                decreases self.read.info_assets.len() - i,
            {
                let none: Option<String> = None;
                let card = if i < roles.len() {
                    input_card(&self.read.info_assets[i], &roles[i])
                } else {
                    input_card(&self.read.info_assets[i], &none)
                };
                inputs.push(card);
                i += 1;
            }
        }
        let uses = copy_texts(&self.read.info_uses);
        let uses_title = if uses.len() > 0 {
            Some(cat3("Used in ", count_text(uses.len()).as_str(), " generation(s)"))
        } else {
            None
        };
        InfoPanel {
            chips,
            inputs,
            uses,
            uses_title,
            prompt: copy_text(&self.read.prompt),
            error: copy_text(&item.error),
            file_name: item.file_name.clone(),
        }
    }

    fn controls(&self, lib: &Library, subject: &Subject) -> (r: StageControls)
        ensures
            controls_show(self@, *lib, *subject, r),
    {
        let generation = subject.generation.is_some();
        let deletable = generation || match subject.asset {
            Some(asset) => match lib.asset(asset) {
                Some(row) => !row.referenced,
                None => true,
            },
            None => false,
        };
        let mut menu: Vec<DetailMenuEntry> = Vec::new();
        menu.push(DetailMenuEntry::Copy { enabled: subject.item.file.is_some() });
        if generation {
            menu.push(DetailMenuEntry::CopyPrompt { enabled: self.read.prompt.is_some() });
            menu.push(DetailMenuEntry::Recreate { enabled: subject.item.can_recreate });
        }
        menu.push(DetailMenuEntry::Separator);
        menu.push(DetailMenuEntry::Delete { enabled: deletable });
        assert(menu@ =~= menu_of(*subject, self@.read.prompt is Some, can_delete(*lib, *subject)));
        StageControls {
            favorite: if generation {
                Some(
                    if subject.item.is_favorite {
                        "heart-filled"
                    } else {
                        "heart"
                    },
                )
            } else {
                None
            },
            save_icon: match self.save_state {
                SaveState::Saved => "check",
                SaveState::Failed => "x",
                _ => "download",
            },
            save_spins: self.save_state == SaveState::Saving,
            save_enabled: self.save_state == SaveState::Idle && subject.item.status == Status::Completed,
            info_selected: self.show_info,
            recreate: generation,
            menu,
        }
    }

    fn slots(&self, lib: &Library, travelling: bool, visible: &Vec<usize>) -> (r: Vec<(usize, Subject)>)
        ensures
            r@ == shown_slots(self@, *lib, travelling, visible@),
    {
        let mut out: Vec<(usize, Subject)> = Vec::new();
        if travelling {
            assert(out@ =~= Seq::empty());
            return out;
        }
        let ghost pick = |k: usize| slot_at(self@, *lib, k);
        let mut i: usize = 0;
        proof {
            lemma_picked_ends(visible@, pick);
        }
        while i < visible.len()
            invariant
                i <= visible.len(),
                pick == (|k: usize| slot_at(self@, *lib, k)),
                out@ == picked(visible@.take(i as int), pick),
            decreases visible.len() - i,
        {
            proof {
                lemma_picked_step(visible@, pick, i as int);
            }
            if let Some(subject) = self.subject_at(visible[i], lib) {
                out.push((visible[i], subject));
            }
            i += 1;
        }
        proof {
            lemma_picked_ends(visible@, pick);
        }
        out
    }

    /// Zoom to a preset of the zoom row.
    pub fn zoom_preset(&mut self, factor: u64) -> (r: PresetZoom)
        ensures
            r == if factor <= 1 {
                PresetZoom::Fit
            } else {
                PresetZoom::Times(factor)
            },
            final(self)@ == (DetailModel { stage: Stage { zoomed: factor > 1, ..old(self)@.stage }, ..old(self)@ }),
    {
        self.stage.zoomed = factor > 1;
        if factor <= 1 {
            PresetZoom::Fit
        } else {
            PresetZoom::Times(factor)
        }
    }

    /// One frame of the detail, once it was begun; nothing where there is nothing to show.
    pub fn render(&self, lib: &Library, facts: &PictureFacts<B>) -> (r: Option<DetailFrame>)
        ensures
            match (r, self@.subject(*lib)) {
                (Some(frame), Some(subject)) => frame_shows(self@, *lib, subject, *facts, frame),
                (None, None) => true,
                _ => false,
            },
    {
        let subject = match self.subject(lib) {
            Some(subject) => subject,
            None => {
                return None;
            },
        };
        let morphing = self.is_transitioning();
        let item = &subject.item;
        let boxed = self.travel_box(item, facts.morph_frame).is_some();
        let can_prev = self.index > 0;
        let can_next = self.ids.len() > 0 && self.index < self.ids.len() - 1;
        let sized = item_pixel_size(item).is_some() || (facts.player_size && self.media.player && self.media.player_for
            == Some(item.id));
        let travelling = if boxed {
            match &item.thumbnail {
                Some(thumbnail) => Some(
                    Travelling {
                        thumbnail: thumbnail.clone(),
                        prewarm: if item.media_type == MediaType::Image {
                            copy_text(&item.file)
                        } else {
                            None
                        },
                    },
                ),
                None => None,
            }
        } else {
            None
        };
        let arrows = if morphing {
            None
        } else {
            Some(
                (
                    Arrow { shown: self.stage.hover_left && can_prev, enabled: can_prev },
                    Arrow { shown: self.stage.hover_right && can_next, enabled: can_next },
                ),
            )
        };
        let controls = if morphing {
            None
        } else {
            Some(self.controls(lib, &subject))
        };
        let transport = self.transport_for(item);
        let play_icon = match transport {
            Transport::Absent => None,
            Transport::Video => Some(
                if facts.playing.video {
                    "pause"
                } else {
                    "play"
                },
            ),
            Transport::Audio => Some(
                if facts.playing.audio {
                    "pause"
                } else {
                    "play"
                },
            ),
            Transport::Waiting => Some("play"),
        };
        Some(
            DetailFrame {
                slots: self.slots(lib, boxed, &facts.visible),
                travelling,
                checkerboard: item.tool == Some(ToolId::RemoveBackground) && item.media_type == MediaType::Image,
                controls,
                arrows,
                zoom_row: if !morphing && item.status == Status::Completed && sized {
                    Some(
                        zoom_presets(
                            if self.stage.zoomed {
                                facts.matched_preset
                            } else {
                                Some(1)
                            },
                        ),
                    )
                } else {
                    None
                },
                backdrop: if item.media_type == MediaType::Audio {
                    Backdrop::Theme
                } else if facts.dark {
                    Backdrop::Black
                } else {
                    Backdrop::White
                },
                cursor: self.cursor(),
                transport,
                play_icon,
                info: self.show_info && !morphing,
            },
        )
    }
}

// ----- laws -----------------------------------------------------------------------------------

/// While the view morphs nothing floats over the stage: no controls, no arrows, no zoom row and no
/// info panel.
pub proof fn nothing_floats_over_a_morph<B>(
    detail: DetailModel<B>,
    lib: Library,
    subject: Subject,
    facts: PictureFacts<B>,
    frame: DetailFrame,
)
    requires
        frame_shows(detail, lib, subject, facts, frame),
        detail.transitioning(),
    ensures
        frame.controls is None,
        frame.arrows is None,
        frame.zoom_row is None,
        !frame.info,
{
}

/// A plain asset offers no favorite, no prompt and no recreate, and can be deleted exactly while
/// nothing references it.
pub proof fn a_plain_asset_gets_the_file_actions_only<B>(detail: DetailModel<B>, lib: Library, subject: Subject, controls: StageControls)
    requires
        subject.generation is None,
        controls_show(detail, lib, subject, controls),
    ensures
        controls.favorite is None,
        !controls.recreate,
        controls.menu@ == seq![
            DetailMenuEntry::Copy { enabled: subject.item.file is Some },
            DetailMenuEntry::Separator,
            DetailMenuEntry::Delete { enabled: can_delete(lib, subject) },
        ],
{
    assert(controls.menu@ =~= seq![
        DetailMenuEntry::Copy { enabled: subject.item.file is Some },
        DetailMenuEntry::Separator,
        DetailMenuEntry::Delete { enabled: can_delete(lib, subject) },
    ]);
}

/// The info panel starts with the kind of media and ends with when it was made.
pub proof fn the_chips_start_with_the_type(item: Generation, request: Option<RequestFacts>, kind: Seq<char>)
    ensures
        info_chips(item, request, kind).len() >= 2,
        info_chips(item, request, kind)[0] == ("Type"@, kind),
        info_chips(item, request, kind).last() == ("Created"@, item.created@),
{
}

/// A slot shows how its item stands: an attempt under way with its time, what went wrong with the ways out, that
/// the file is missing, or the media. Only the current slot offers anything to press.
pub proof fn a_slot_shows_how_its_item_stands<B>(
    detail: DetailModel<B>,
    item: Generation,
    is_current: bool,
    now_ms: u64,
    playing: Playing,
    recovery: Recovery,
    content: SlotContent,
)
    requires
        slot_shows(detail, item, is_current, now_ms, playing, recovery, content),
    ensures
        content is Generating <==> item.status == Status::Generating,
        content is Failed <==> item.status == Status::Failed,
        content is Missing <==> item.status == Status::Missing,
        content matches SlotContent::Generating { kind, elapsed_secs } ==> kind == item.media_type && elapsed_secs == elapsed_seconds(
            now_ms,
            item.queued_at_ms,
        ),
        content matches SlotContent::Failed { error, retry, recovery: way } ==> (retry <==> is_current) && (way is Some <==> is_current && recovery
            != Recovery::Retry) && (way matches Some(w) ==> w == recovery) && (item.error matches Some(e) ==> error@ == e@) && (item.error is None
            ==> error@.len() == 0),
        content matches SlotContent::Missing { text, regenerate } ==> (regenerate <==> is_current && item.can_retry) && text@ == item.file_name@
            + " is no longer in the library folder. It may have been moved or deleted outside Majik."@,
        item.status == Status::Completed ==> finished_slot_shows(detail, item, is_current, playing, content),
{
}

/// A finished item shows its own media: a picture from its file, beside what it is compared with on the current
/// slot; a video's current frame while the player is its own, else its thumbnail; audio by its name. Errors and
/// controls are the current slot's.
pub proof fn a_finished_slot_shows_its_media<B>(detail: DetailModel<B>, item: Generation, is_current: bool, playing: Playing, content: SlotContent)
    requires
        finished_slot_shows(detail, item, is_current, playing, content),
    ensures
        ({
            let picture = item.path is Some && item.media_type == MediaType::Image;
            let video = item.path is Some && item.media_type == MediaType::Video;
            let own = detail.media.player_for == Some(item.id);
            &&& content is Compare <==> picture && is_current && detail.read.compare is Some
            &&& content is Image <==> picture && !(is_current && detail.read.compare is Some)
            &&& content is Video <==> video
            &&& content is Audio <==> !picture && !video
            &&& content matches SlotContent::Compare { before, after } ==> detail.read.compare == Some(before) && item.path == Some(after)
            &&& content matches SlotContent::Image(path) ==> item.path == Some(path)
            &&& content matches SlotContent::Video { surface, play_badge, error, interactive } ==> {
                &&& surface is Frame <==> own && detail.media.frame
                &&& surface matches Surface::Thumbnail(path) ==> item.thumbnail == Some(path)
                &&& surface is Blank <==> !(own && detail.media.frame) && item.thumbnail is None
                &&& !play_badge <==> own && detail.media.player && playing.video
                &&& interactive <==> is_current
                &&& is_current ==> error == detail.media.player_error
                &&& !is_current ==> error is None
            }
            &&& content matches SlotContent::Audio { playing: sounds, name, error, interactive } ==> {
                &&& sounds <==> is_current && detail.media.audio && playing.audio
                &&& name == item.file_name
                &&& interactive <==> is_current
                &&& is_current ==> error == detail.media.player_error
                &&& !is_current ==> error is None
            }
        }),
{
}

/// What stands in a slot besides its media says what it is, and names the button that tries again where there is
/// one.
pub proof fn a_slot_says_what_it_is(content: SlotContent, label: Seq<char>, elapsed: Seq<char>)
    ensures
        content is Generating ==> slot_line(content, label, elapsed) == Some("Generating "@ + label + "  ·  "@ + elapsed) && slot_icon(content) == Some(
            "loader-circle"@,
        ),
        content is Failed ==> slot_line(content, label, elapsed) == Some("Something went wrong"@) && slot_icon(content) == Some("circle-alert"@),
        content is Missing ==> slot_line(content, label, elapsed) == Some("File is missing"@) && slot_icon(content) == Some("file-x"@),
        content is Image || content is Compare ==> slot_line(content, label, elapsed) is None && slot_icon(content) is None,
        content is Video || content is Audio ==> slot_line(content, label, elapsed) is None,
        content matches SlotContent::Video { play_badge, .. } ==> (slot_icon(content) == Some("play"@) <==> play_badge) && (slot_icon(content) is None
            <==> !play_badge),
        content matches SlotContent::Audio { playing, .. } ==> slot_icon(content) == Some(if playing {
            "pause"@
        } else {
            "audio-lines"@
        }),
        content matches SlotContent::Failed { retry, .. } ==> slot_button(content) == (if retry {
            Some("Try Again"@)
        } else {
            None
        }),
        content matches SlotContent::Missing { regenerate, .. } ==> slot_button(content) == (if regenerate {
            Some("Generate Again"@)
        } else {
            None
        }),
        !(content is Failed) && !(content is Missing) ==> slot_button(content) is None,
{
}

/// A chip is there where there is a value to show, and a size where both of its sides are known.
pub proof fn a_chip_is_there_for_a_value(label: Seq<char>, value: Seq<char>, item: Generation, chips: Seq<InfoChip>, i: int)
    ensures
        chip_for(label, Some(value)) == seq![(label, value)],
        chip_for(label, None).len() == 0,
        dimensions_text(item) is Some <==> item.width is Some && item.height is Some,
        item.width matches Some(w) ==> (item.height matches Some(h) ==> dimensions_text(item) == Some(dec(w as nat) + " × "@ + dec(h as nat))),
        chip_texts(chips).len() == chips.len(),
        0 <= i < chips.len() ==> chip_texts(chips)[i] == (chips[i].label@, chips[i].value@),
{
}

/// The chips say of the file its kind, and as far as they are known its model, size in pixels, length and size,
/// in that order; then what was asked for, that it was upscaled, and when it was made.
pub proof fn the_chips_say_what_is_known(item: Generation, request: Option<RequestFacts>, kind: Seq<char>)
    ensures
        info_chips(item, request, kind) == seq![("Type"@, kind)] + chip_for("Model"@, opt_text(item.model_name)) + chip_for(
            "Dimensions"@,
            dimensions_text(item),
        ) + chip_for("Duration"@, opt_text(item.duration)) + chip_for("Size"@, opt_text(item.file_size)) + request_chips(request) + (
        if item.is_upscaled {
            seq![("Upscaled"@, "Yes"@)]
        } else {
            Seq::empty()
        }) + seq![("Created"@, item.created@)],
        request is None ==> request_chips(request).len() == 0,
        request matches Some(r) ==> request_chips(request).len() == 1 + settings_chips(r.settings).len() && request_chips(request)[0] == (
            "Provider"@,
            r.provider@,
        ) && (forall|k: int| 0 <= k < settings_chips(r.settings).len() ==> #[trigger] settings_chips(r.settings)[k] == request_chips(request)[k + 1]),
{
}

/// The settings of a request are shown as they were made: aspect and resolution, the length and sound of a clip,
/// the voices of speech; a tool has none.
pub proof fn the_settings_are_shown_as_made(aspect: String, resolution: String, seconds: u64, audio: bool, voice: String, other: String)
    ensures
        settings_chips(RequestSettings::Image { aspect, resolution }) == seq![("Aspect"@, aspect@), ("Resolution"@, resolution@)],
        settings_chips(RequestSettings::Video { aspect: Some(aspect), resolution: Some(resolution), seconds, audio }) == seq![
            ("Aspect"@, aspect@),
            ("Resolution"@, resolution@),
            ("Length"@, dec(seconds as nat) + "s"@),
            ("Audio"@, if audio { "On"@ } else { "Off"@ }),
        ],
        settings_chips(RequestSettings::Video { aspect: None, resolution: None, seconds, audio }) == seq![
            ("Length"@, dec(seconds as nat) + "s"@),
            ("Audio"@, if audio { "On"@ } else { "Off"@ }),
        ],
        settings_chips(RequestSettings::Audio { voice1: voice, voice2: Some(other) }) == seq![("Voice 1"@, voice@), ("Voice 2"@, other@)],
        settings_chips(RequestSettings::Audio { voice1: voice, voice2: None }) == seq![("Voice 1"@, voice@)],
        settings_chips(RequestSettings::Tool).len() == 0,
{
    assert(settings_chips(RequestSettings::Video { aspect: Some(aspect), resolution: Some(resolution), seconds, audio }) =~= seq![
        ("Aspect"@, aspect@),
        ("Resolution"@, resolution@),
        ("Length"@, dec(seconds as nat) + "s"@),
        ("Audio"@, if audio { "On"@ } else { "Off"@ }),
    ]);
    assert(settings_chips(RequestSettings::Video { aspect: None, resolution: None, seconds, audio }) =~= seq![
        ("Length"@, dec(seconds as nat) + "s"@),
        ("Audio"@, if audio { "On"@ } else { "Off"@ }),
    ]);
    assert(settings_chips(RequestSettings::Audio { voice1: voice, voice2: Some(other) }) =~= seq![("Voice 1"@, voice@), ("Voice 2"@, other@)]);
    assert(settings_chips(RequestSettings::Audio { voice1: voice, voice2: None }) =~= seq![("Voice 1"@, voice@)]);
}

/// An input's card has its picture, the icon of its kind, and the name of its role for a caption, or without one
/// its kind of file.
pub proof fn an_inputs_card_is_its_own(asset: InfoAsset, role: Option<Seq<char>>, card: InfoCard, extension: Seq<char>)
    requires
        card_for(asset, role, card),
    ensures
        card.picture == asset.picture,
        asset.kind == MediaType::Audio ==> card.icon@ == "audio-lines"@,
        asset.kind == MediaType::Video ==> card.icon@ == "film"@,
        asset.kind == MediaType::Image ==> card.icon@ == "image"@,
        role matches Some(name) ==> card.caption@ == name,
        caption_for(None, Some(extension)) == uppercase(extension),
        caption_for(None, None) == uppercase("file"@),
{
}

/// The info panel is its item's: its chips, the inputs loaded for it, each on its own card, what it was used in,
/// its prompt, what went wrong and its file's name.
pub proof fn the_info_panel_shows_its_item(
    read: ReadModel,
    item: Generation,
    kind: Seq<char>,
    roles: Seq<Option<Seq<char>>>,
    panel: InfoPanel,
    i: int,
)
    requires
        panel_shows(read, item, kind, roles, panel),
    ensures
        chip_texts(panel.chips@) == info_chips(item, read.request, kind),
        read.info_for != Some(item.id) ==> panel.inputs@.len() == 0,
        read.info_for == Some(item.id) ==> panel.inputs@.len() == read.info_assets.len(),
        0 <= i < panel.inputs@.len() ==> panel.inputs@[i].picture == read.info_assets[i].picture,
        0 <= i < panel.inputs@.len() && i < roles.len() ==> (roles[i] matches Some(name) ==> panel.inputs@[i].caption@ == name),
        texts(panel.uses@) == texts(read.info_uses),
        panel.uses_title is Some <==> read.info_uses.len() > 0,
        panel.uses_title matches Some(title) ==> title@ == "Used in "@ + dec(read.info_uses.len()) + " generation(s)"@,
        panel.prompt == read.prompt,
        panel.error == item.error,
        panel.file_name == item.file_name,
{
    if 0 <= i < panel.inputs@.len() {
        assert(panel.inputs@[i] == panel.inputs@[i]);
    }
}

/// The menu of a generation copies its file and its prompt, recreates it where its request is stored, and
/// deletes it; each entry reads what it does.
pub proof fn a_generations_menu(subject: Subject, prompt: bool, deletable: bool)
    requires
        subject.generation is Some,
    ensures
        menu_of(subject, prompt, deletable) == seq![
            DetailMenuEntry::Copy { enabled: subject.item.file is Some },
            DetailMenuEntry::CopyPrompt { enabled: prompt },
            DetailMenuEntry::Recreate { enabled: subject.item.can_recreate },
            DetailMenuEntry::Separator,
            DetailMenuEntry::Delete { enabled: deletable },
        ],
        menu_label(DetailMenuEntry::Copy { enabled: prompt }) == Some("Copy"@),
        menu_label(DetailMenuEntry::CopyPrompt { enabled: prompt }) == Some("Copy Prompt"@),
        menu_label(DetailMenuEntry::Recreate { enabled: prompt }) == Some("Recreate"@),
        menu_label(DetailMenuEntry::Delete { enabled: prompt }) == Some("Delete"@),
        menu_label(DetailMenuEntry::Separator) is None,
{
    assert(menu_of(subject, prompt, deletable) =~= seq![
        DetailMenuEntry::Copy { enabled: subject.item.file is Some },
        DetailMenuEntry::CopyPrompt { enabled: prompt },
        DetailMenuEntry::Recreate { enabled: subject.item.can_recreate },
        DetailMenuEntry::Separator,
        DetailMenuEntry::Delete { enabled: deletable },
    ]);
}

/// A generation can always be deleted, and an asset of its own while no generation uses it.
pub proof fn what_is_unused_can_be_deleted(lib: Library, subject: Subject)
    ensures
        subject.generation is Some ==> can_delete(lib, subject),
        subject.generation is None && subject.asset is None ==> !can_delete(lib, subject),
        subject.generation is None && subject.asset is Some ==> (can_delete(lib, subject) <==> lib.asset_at(subject.asset->0) is None || !(lib.asset_at(
            subject.asset->0,
        )->0).referenced),
{
}

/// The controls over the stage show how the item stands: the heart of a generation, the save button and how its
/// save went, the info panel's state, and the menu.
pub proof fn the_controls_show_how_the_item_stands<B>(detail: DetailModel<B>, lib: Library, subject: Subject, controls: StageControls)
    requires
        controls_show(detail, lib, subject, controls),
    ensures
        controls.favorite is Some <==> subject.generation is Some,
        controls.favorite matches Some(icon) ==> (subject.item.is_favorite ==> icon@ == "heart-filled"@) && (!subject.item.is_favorite ==> icon@
            == "heart"@),
        controls.save_spins <==> detail.save_state == SaveState::Saving,
        controls.save_enabled <==> detail.save_state == SaveState::Idle && subject.item.status == Status::Completed,
        detail.save_state == SaveState::Saved ==> controls.save_icon@ == "check"@,
        detail.save_state == SaveState::Failed ==> controls.save_icon@ == "x"@,
        detail.save_state == SaveState::Idle || detail.save_state == SaveState::Saving ==> controls.save_icon@ == "download"@,
        controls.info_selected <==> detail.show_info,
        controls.recreate <==> subject.generation is Some,
        controls.menu@ == menu_of(subject, detail.read.prompt is Some, can_delete(lib, subject)),
{
}

/// Each slot in view shows the entry at its place, in order, while the library has it; while the picture travels
/// no slot is drawn.
pub proof fn each_slot_shows_its_own_entry<B>(detail: DetailModel<B>, lib: Library, visible: Seq<usize>, k: usize)
    ensures
        shown_slots(detail, lib, true, visible).len() == 0,
        picks(visible, |k: usize| slot_at(detail, lib, k), shown_slots(detail, lib, false, visible)),
        slot_at(detail, lib, k) is Some <==> k < detail.ids.len() && subject_of(lib, detail.ids[k as int]) is Some,
        slot_at(detail, lib, k) matches Some((at, subject)) ==> at == k && subject_of(lib, detail.ids[k as int]) == Some(subject),
{
    picking_goes_entry_by_entry(visible, |k: usize| slot_at(detail, lib, k));
}

/// The zoom row offers one, two, four, six and eight times the fitted size, the one in force highlighted: the
/// first while the picture is fitted.
pub proof fn the_zoom_row_highlights_the_zoom<B>(detail: DetailModel<B>, matched: Option<u64>, presets: Seq<ZoomPreset>, i: int)
    requires
        presets_show(active_preset(detail, matched), presets),
    ensures
        presets.len() == 5,
        presets[0].factor == 1 && presets[1].factor == 2 && presets[2].factor == 4 && presets[3].factor == 6 && presets[4].factor == 8,
        0 <= i < 5 ==> presets[i].label@ == dec(presets[i].factor as nat) + "×"@,
        0 <= i < 5 && !detail.stage.zoomed ==> (presets[i].selected <==> presets[i].factor == 1),
        0 <= i < 5 && detail.stage.zoomed ==> (presets[i].selected <==> matched == Some(presets[i].factor)),
{
}

/// The backdrop is black, or white in a light theme; audio has the app's own. The button of the transport bar
/// pauses what plays and plays what does not.
pub proof fn the_stage_suits_its_media(kind: MediaType, dark: bool, playing: Playing)
    ensures
        backdrop_of(MediaType::Audio, dark) == Backdrop::Theme,
        kind != MediaType::Audio ==> backdrop_of(kind, true) == Backdrop::Black && backdrop_of(kind, false) == Backdrop::White,
        play_glyph(Transport::Absent, playing) is None,
        play_glyph(Transport::Waiting, playing) == Some("play"@),
        play_glyph(Transport::Video, playing) == Some(if playing.video {
            "pause"@
        } else {
            "play"@
        }),
        play_glyph(Transport::Audio, playing) == Some(if playing.audio {
            "pause"@
        } else {
            "play"@
        }),
{
}

/// A frame shows the item: at rest its controls, the arrows where there is a page that way and the pointer is
/// there, and the zoom row for finished media of a known size; while it travels its thumbnail alone.
pub proof fn a_frame_shows_the_item<B>(detail: DetailModel<B>, lib: Library, subject: Subject, facts: PictureFacts<B>, frame: DetailFrame)
    requires
        frame_shows(detail, lib, subject, facts, frame),
    ensures
        ({
            let item = subject.item;
            let rests = !detail.transitioning();
            let travels = detail.travel_box(item, facts.morph_frame) is Some;
            let known = pixel_size(item) is Some || (facts.player_size && detail.media.player && detail.media.player_for == Some(item.id));
            &&& frame.slots@ == shown_slots(detail, lib, travels, facts.visible@)
            &&& frame.travelling is Some <==> travels && item.thumbnail is Some
            &&& frame.travelling matches Some(t) ==> item.thumbnail == Some(t.thumbnail) && (item.media_type == MediaType::Image ==> t.prewarm
                == item.file) && (item.media_type != MediaType::Image ==> t.prewarm is None)
            &&& frame.checkerboard <==> item.tool == Some(ToolId::RemoveBackground) && item.media_type == MediaType::Image
            &&& frame.controls is Some <==> rests
            &&& frame.controls matches Some(controls) ==> controls_show(detail, lib, subject, controls)
            &&& frame.arrows is Some <==> rests
            &&& frame.arrows matches Some((left, right)) ==> (left.enabled <==> detail.index > 0) && (left.shown <==> detail.stage.hover_left
                && detail.index > 0) && (right.enabled <==> detail.index + 1 < detail.ids.len()) && (right.shown <==> detail.stage.hover_right
                && detail.index + 1 < detail.ids.len())
            &&& frame.zoom_row is Some <==> rests && item.status == Status::Completed && known
            &&& frame.zoom_row matches Some(presets) ==> presets_show(active_preset(detail, facts.matched_preset), presets@)
            &&& frame.backdrop == backdrop_of(item.media_type, facts.dark)
            &&& frame.cursor == stage_pointer(detail)
            &&& frame.transport == transport_of(detail.media, item)
            &&& frame.play_icon is Some <==> frame.transport != Transport::Absent
            &&& frame.play_icon matches Some(icon) ==> play_glyph(frame.transport, facts.playing) == Some(icon@)
            &&& frame.info <==> detail.show_info && rests
        }),
{
}

/// A frame that begins brings everything of the item up to date: its players unless a slide is under way, its
/// timer, its request, what it is compared with, its info and its morph; the page, the picture's zoom and the
/// save button stay as they are.
pub proof fn a_frame_begins_up_to_date<B>(detail: DetailModel<B>, item: Generation, lib: Library, facts: ItemFacts)
    ensures
        ({
            let after = begun(detail, item, lib, facts);
            &&& facts.sliding ==> after.media == detail.media
            &&& !facts.sliding ==> after.media == video_synced(audio_synced(detail.media, item), item)
            &&& after.elapsed_ticking <==> item.status == Status::Generating
            &&& after.read.request_for == Some(item.id)
            &&& after.read.compare_for == Some(item.id)
            &&& detail.show_info ==> after.read.info_for == Some(item.id)
            &&& detail.read.request_for != Some(item.id) ==> after.read.request == facts.request && after.read.prompt == item.prompt
            &&& detail.read.request_for == Some(item.id) ==> after.read.request == detail.read.request && after.read.prompt == detail.read.prompt
            &&& after.transition == detail.after_morph_tick(facts.played, facts.measured, facts.reduce_motion).transition
            &&& after.ids == detail.ids && after.index == detail.index && after.stage == detail.stage
            &&& after.save_state == detail.save_state && after.show_info == detail.show_info && after.gesture_timeout == detail.gesture_timeout
        }),
{
}

/// Each control over the stage says what it does.
pub proof fn each_control_says_what_it_does()
    ensures
        button_tooltip(StageButton::Favorite) == "Favorite"@,
        button_tooltip(StageButton::Save) == "Save…"@,
        button_tooltip(StageButton::Info) == "Info"@,
        button_tooltip(StageButton::Recreate) == "Recreate"@,
        button_tooltip(StageButton::Close) == "Close"@,
        button_tooltip(StageButton::PlayPause) == "Play / Pause"@,
        button_tooltip(StageButton::CopyPrompt) == "Copy prompt"@,
{
}

/// The names of the roles are as stored.
pub proof fn roles_are_called_as_stored(roles: Seq<Option<String>>, i: int)
    requires
        0 <= i < roles.len(),
    ensures
        role_names(roles).len() == roles.len(),
        roles[i] matches Some(name) ==> role_names(roles)[i] == Some(name@),
        roles[i] is None ==> role_names(roles)[i] is None,
{
}

/// What a slot shows beside its media is there where there is something to show, and is that.
pub proof fn a_slots_text_is_what_it_should_say(shown: Option<&'static str>, text: Option<Seq<char>>)
    requires
        has_text(shown, text),
    ensures
        shown is Some <==> text is Some,
        shown matches Some(said) ==> text == Some(said@),
{
}

} // verus!

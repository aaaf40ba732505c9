//! Detail view: a carousel with fit, zoom and pan, controls floating over a black stage, and an info
//! panel. It fills the Library window; it grows out of the feed cell it was opened from and shrinks
//! back into it on close.

use vstd::prelude::*;

use crate::export::{Exportable, SaveOutcome};
use crate::feed::PendingCompose;
use crate::model::{copy_text, Asset, AssetId, EntryId, Generation, GenerationId, Library, MediaType, Status};
use crate::seqs::{
    first_from, first_where, keeping_leaves_out_only_what_does_not_fit, kept, lemma_picked_ends, lemma_picked_from, lemma_picked_has, lemma_picked_step,
    lemma_place_from, picked, picking_goes_entry_by_entry, picks, place_from, place_of, sifts,
};
use crate::text::{cat, cat3, lowercase, opt_text, to_lowercase};

verus! {

/// What the detail tells its owner.
#[derive(Clone, Copy, Debug, PartialEq, Eq, Structural)]
pub enum DetailEvent {
    /// The user is leaving `id`: the owner selects it in the feed and says where the picture shrinks
    /// back to; `Close` follows once that has played.
    WillClose { id: EntryId },
    /// Drop the view.
    Close,
    /// Hand the current item to the composer panel; the owner drops the detail and shows the panel.
    Compose(PendingCompose),
}

/// The save button's state: icon, spinner, then a check or a cross, and back to the icon.
#[derive(Clone, Copy, Debug, PartialEq, Eq, Structural)]
pub enum SaveState {
    Idle,
    Saving,
    Saved,
    Failed,
}

/// How long a check or a cross stays on the save button, in milliseconds.
pub const SAVE_STATE_RESET_MS: u64 = 2000;

/// How the pointer looks over the stage.
#[derive(Clone, Copy, Debug, PartialEq, Eq, Structural)]
pub enum CursorStyle {
    ClosedHand,
    OpenHand,
    ResizeLeftRight,
}

/// Grab cursor when the image can be panned, closed hand while it is being dragged.
pub fn stage_cursor(zoomed: bool, dragging: bool) -> (r: Option<CursorStyle>)
    ensures
        r == cursor_for(zoomed, dragging),
{
    if dragging {
        Some(CursorStyle::ClosedHand)
    } else if zoomed {
        Some(CursorStyle::OpenHand)
    } else {
        None
    }
}

pub open spec fn cursor_for(zoomed: bool, dragging: bool) -> Option<CursorStyle> {
    if dragging {
        Some(CursorStyle::ClosedHand)
    } else if zoomed {
        Some(CursorStyle::OpenHand)
    } else {
        None
    }
}

/// Which way the view is morphing: out of its feed cell, or back into it.
#[derive(Clone, Copy, Debug, PartialEq, Eq, Structural)]
pub enum Direction {
    Open,
    Close,
}

/// A page change.
#[derive(Clone, Copy, Debug, PartialEq, Eq, Structural)]
pub enum Step {
    Next,
    Prev,
}

// ----- what is shown --------------------------------------------------------------------------

/// What the detail shows at an index. An asset is presented as a generation-shaped item, with
/// `generation` and `asset` saying what is really there: an output opened from the Assets feed is
/// shown as the generation that made it; a plain input or import has no generation, so no favorite,
/// prompt, model, recreate or retry.
#[derive(Clone, Debug, PartialEq, Eq)]
pub struct Subject {
    pub item: Generation,
    pub generation: Option<GenerationId>,
    pub asset: Option<AssetId>,
}

/// Whether `r` puts `prompt` on the clipboard and says so; without a prompt nothing is copied.
pub open spec fn copies_prompt(prompt: Option<String>, r: Option<(String, &'static str)>) -> bool {
    match r {
        Some((text, toast)) => prompt == Some(text) && toast@ == "Prompt copied"@,
        None => prompt is None,
    }
}

fn prompt_to_copy(prompt: &Option<String>) -> (r: Option<(String, &'static str)>)
    ensures
        copies_prompt(*prompt, r),
{
    match prompt {
        Some(prompt) => Some((prompt.clone(), "Prompt copied")),
        None => None,
    }
}

/// A plain asset as the stage, chips and export actions expect it.
pub open spec fn asset_item(asset: Asset) -> Generation {
    Generation {
        id: GenerationId(asset.id.0),
        media_type: asset.kind,
        tool: None,
        status: if asset.missing {
            Status::Missing
        } else {
            Status::Completed
        },
        is_favorite: false,
        is_upscaled: false,
        can_recreate: false,
        can_retry: false,
        prompt: None,
        path: Some(asset.path),
        file: asset.file,
        file_name: asset.file_name,
        thumbnail: asset.thumbnail,
        output_asset_id: Some(asset.id),
        duration: asset.duration,
        queued_at_ms: asset.created_at_ms,
        model_name: None,
        width: asset.width,
        height: asset.height,
        file_size: asset.file_size,
        created: asset.created,
        error: None,
    }
}

/// A plain asset as the stage, chips and export actions expect it.
pub fn item_for_asset(asset: &Asset) -> (r: Generation)
    ensures
        r == asset_item(*asset),
{
    Generation {
        id: GenerationId(asset.id.0),
        media_type: asset.kind,
        tool: None,
        status: if asset.missing {
            Status::Missing
        } else {
            Status::Completed
        },
        is_favorite: false,
        is_upscaled: false,
        can_recreate: false,
        can_retry: false,
        prompt: None,
        path: Some(asset.path.clone()),
        file: copy_text(&asset.file),
        file_name: asset.file_name.clone(),
        thumbnail: copy_text(&asset.thumbnail),
        output_asset_id: Some(asset.id),
        duration: copy_text(&asset.duration),
        queued_at_ms: asset.created_at_ms,
        model_name: None,
        width: asset.width,
        height: asset.height,
        file_size: copy_text(&asset.file_size),
        created: asset.created.clone(),
        error: None,
    }
}

/// The generation an asset came out of, while the library has it.
pub open spec fn maker_of(lib: Library, asset: Asset) -> Option<Generation> {
    match asset.produced_by {
        Some(id) => lib.generation_at(id),
        None => None,
    }
}

/// What the detail shows of an entry.
pub open spec fn subject_of(lib: Library, id: EntryId) -> Option<Subject> {
    match id {
        EntryId::Generation(id) => match lib.generation_at(id) {
            Some(item) => Some(Subject { item, generation: Some(item.id), asset: item.output_asset_id }),
            None => None,
        },
        EntryId::Asset(id) => match lib.asset_at(id) {
            Some(asset) => Some(
                match maker_of(lib, asset) {
                    Some(item) => Subject { item, generation: Some(item.id), asset: Some(id) },
                    None => Subject { item: asset_item(asset), generation: None, asset: Some(id) },
                },
            ),
            None => None,
        },
    }
}

/// What the detail shows of an entry.
pub fn subject_for(lib: &Library, id: EntryId) -> (r: Option<Subject>)
    ensures
        r == subject_of(*lib, id),
{
    match id {
        EntryId::Generation(id) => match lib.get(id) {
            Some(item) => Some(
                Subject { item: item.copy(), generation: Some(item.id), asset: item.output_asset_id },
            ),
            None => None,
        },
        EntryId::Asset(id) => match lib.asset(id) {
            Some(asset) => {
                let maker = match asset.produced_by {
                    Some(made_by) => lib.get(made_by),
                    None => None,
                };
                match maker {
                    Some(item) => Some(
                        Subject { item: item.copy(), generation: Some(item.id), asset: Some(id) },
                    ),
                    None => Some(Subject { item: item_for_asset(asset), generation: None, asset: Some(id) }),
                }
            },
            None => None,
        },
    }
}

/// The item's size in pixels, once it is known.
pub open spec fn pixel_size(item: Generation) -> Option<(u32, u32)> {
    match (item.width, item.height) {
        (Some(w), Some(h)) if w > 0 && h > 0 => Some((w, h)),
        _ => None,
    }
}

/// The item's size in pixels, once it is known.
pub fn item_pixel_size(item: &Generation) -> (r: Option<(u32, u32)>)
    ensures
        r == pixel_size(*item),
{
    match (item.width, item.height) {
        (Some(w), Some(h)) => if w > 0 && h > 0 {
            Some((w, h))
        } else {
            None
        },
        _ => None,
    }
}

/// Only a cell showing the item's thumbnail can travel; the rest (audio, still generating, failed)
/// crossfade.
pub open spec fn travels(item: Generation) -> bool {
    item.thumbnail is Some && item.status == Status::Completed && (item.media_type == MediaType::Image || item.media_type
        == MediaType::Video)
}

/// Only a cell showing the item's thumbnail can travel.
pub fn morphable(item: &Generation) -> (r: bool)
    ensures
        r == travels(*item),
{
    item.thumbnail.is_some() && item.status == Status::Completed && (item.media_type == MediaType::Image || item.media_type
        == MediaType::Video)
}

/// The nearest index a list of this length has; 0 in an empty one.
pub open spec fn nearest_index(index: usize, len: nat) -> usize {
    if len == 0 {
        0
    } else if index < len {
        index
    } else {
        (len - 1) as usize
    }
}

/// The nearest index a list of this length has; 0 in an empty one.
pub fn safe_index(index: usize, len: usize) -> (r: usize)
    ensures
        r == nearest_index(index, len as nat),
{
    if len == 0 {
        0
    } else if index < len {
        index
    } else {
        len - 1
    }
}

// ----- the view -------------------------------------------------------------------------------

/// An input asset as the info panel shows it: its role and the picture that stands for it, the image
/// itself, a video's thumbnail, or none for audio and for a video whose thumbnail hasn't been
/// rendered yet, which get an icon card instead.
#[derive(Clone, Debug, PartialEq, Eq)]
pub struct InfoAsset {
    pub role: String,
    pub kind: MediaType,
    pub path: String,
    pub picture: Option<String>,
}

/// An asset linked to a generation as an input, under the name of its role.
#[derive(Clone, Debug, PartialEq, Eq)]
pub struct LinkedInput {
    pub role: String,
    pub asset: Asset,
}

/// The settings a request was made with, as they are written.
#[derive(Clone, Debug, PartialEq, Eq)]
pub enum RequestSettings {
    Image { aspect: String, resolution: String },
    Video { aspect: Option<String>, resolution: Option<String>, seconds: u64, audio: bool },
    Audio { voice1: String, voice2: Option<String> },
    /// Tools have no settings beyond the model.
    Tool,
}

/// A stored request as the info panel shows it.
#[derive(Clone, Debug, PartialEq, Eq)]
pub struct RequestFacts {
    pub provider: String,
    pub settings: RequestSettings,
}

/// What the pointer is doing on the stage.
#[derive(Clone, Copy, Debug, PartialEq, Eq, Structural)]
pub struct Stage {
    /// Zoomed by hand rather than fitted to the stage.
    pub zoomed: bool,
    /// The image is being dragged.
    pub panning: bool,
    /// The before/after divider is being dragged.
    pub divider_drag: bool,
    pub hover_left: bool,
    pub hover_right: bool,
}

/// What was read of the item shown, once per item.
pub struct ItemRead {
    /// The item the info panel's assets were loaded for.
    pub info_for: Option<GenerationId>,
    pub info_assets: Vec<InfoAsset>,
    /// For a plain asset: pictures of the generations it was an input of.
    pub info_uses: Vec<String>,
    /// The item whose stored request and prompt were read.
    pub request_for: Option<GenerationId>,
    pub request: Option<RequestFacts>,
    pub prompt: Option<String>,
    /// The item whose before/after image was resolved, and that image.
    pub compare_for: Option<GenerationId>,
    pub compare: Option<String>,
}

/// The players, at most one of which is open at a time.
#[derive(Clone, Debug, PartialEq, Eq)]
pub struct Media {
    /// The item the video player belongs to, and whether that is open.
    pub player_for: Option<GenerationId>,
    pub player: bool,
    /// The item the audio player belongs to, and whether that is open.
    pub audio_for: Option<GenerationId>,
    pub audio: bool,
    pub player_error: Option<String>,
    /// The video's source is being opened.
    pub player_opening: bool,
    /// The decode loop is running.
    pub pumping: bool,
    /// A decoded picture is on screen.
    pub frame: bool,
}

/// The view's way out of its feed cell and back.
#[derive(Clone, Copy, Debug, PartialEq, Eq)]
pub struct Transition<B> {
    /// The open or close morph in flight.
    pub morph: Option<Direction>,
    /// The open morph is pending: it starts on the first frame with a measured stage.
    pub opening: bool,
    /// The feed cell the view was opened from.
    pub origin: Option<B>,
}

/// The detail's state. `B` is a box in window coordinates.
pub struct DetailView<B> {
    pub ids: Vec<EntryId>,
    pub index: usize,
    pub save_state: SaveState,
    /// The elapsed time of a generating item is kept moving.
    pub elapsed_ticking: bool,
    pub show_info: bool,
    /// A trackpad gesture that goes quiet is released by a timer.
    pub gesture_timeout: bool,
    pub stage: Stage,
    pub read: ItemRead,
    pub media: Media,
    pub transition: Transition<B>,
}

/// What was read of the item, as contracts speak of it.
#[verifier::ext_equal]
pub struct ReadModel {
    pub info_for: Option<GenerationId>,
    pub info_assets: Seq<InfoAsset>,
    pub info_uses: Seq<String>,
    pub request_for: Option<GenerationId>,
    pub request: Option<RequestFacts>,
    pub prompt: Option<String>,
    pub compare_for: Option<GenerationId>,
    pub compare: Option<String>,
}

/// The detail's state as contracts speak of it.
#[verifier::ext_equal]
pub struct DetailModel<B> {
    pub ids: Seq<EntryId>,
    pub index: usize,
    pub save_state: SaveState,
    pub elapsed_ticking: bool,
    pub show_info: bool,
    pub gesture_timeout: bool,
    pub stage: Stage,
    pub read: ReadModel,
    pub media: Media,
    pub transition: Transition<B>,
}

impl View for ItemRead {
    type V = ReadModel;

    open spec fn view(&self) -> ReadModel {
        ReadModel {
            info_for: self.info_for,
            info_assets: self.info_assets@,
            info_uses: self.info_uses@,
            request_for: self.request_for,
            request: self.request,
            prompt: self.prompt,
            compare_for: self.compare_for,
            compare: self.compare,
        }
    }
}

impl<B> View for DetailView<B> {
    type V = DetailModel<B>;

    open spec fn view(&self) -> DetailModel<B> {
        DetailModel {
            ids: self.ids@,
            index: self.index,
            save_state: self.save_state,
            elapsed_ticking: self.elapsed_ticking,
            show_info: self.show_info,
            gesture_timeout: self.gesture_timeout,
            stage: self.stage,
            read: self.read@,
            media: self.media,
            transition: self.transition,
        }
    }
}

impl ReadModel {
    /// Nothing read yet.
    pub open spec fn nothing() -> ReadModel {
        ReadModel {
            info_for: None,
            info_assets: Seq::empty(),
            info_uses: Seq::empty(),
            request_for: None,
            request: None,
            prompt: None,
            compare_for: None,
            compare: None,
        }
    }

    /// With the item's assets and request dropped, to be read afresh.
    pub open spec fn stale(self) -> ReadModel {
        ReadModel { compare_for: self.compare_for, compare: self.compare, ..ReadModel::nothing() }
    }
}

impl Stage {
    pub open spec fn at_rest() -> Stage {
        Stage { zoomed: false, panning: false, divider_drag: false, hover_left: false, hover_right: false }
    }

    /// Fitted to the stage.
    pub open spec fn fitted(self) -> Stage {
        Stage { zoomed: false, ..self }
    }
}

impl Media {
    pub open spec fn silent() -> Media {
        Media {
            player_for: None,
            player: false,
            audio_for: None,
            audio: false,
            player_error: None,
            player_opening: false,
            pumping: false,
            frame: false,
        }
    }

    /// Without a video player.
    pub open spec fn without_player(self) -> Media {
        Media { player: false, player_for: None, pumping: false, player_opening: false, frame: false, ..self }
    }
}

impl<B> DetailModel<B> {
    /// The entry shown.
    pub open spec fn current(self) -> Option<EntryId> {
        if self.index < self.ids.len() {
            Some(self.ids[self.index as int])
        } else {
            None
        }
    }

    /// The index is that of a page, while there is one.
    pub open spec fn on_a_page(self) -> bool {
        self.ids.len() <= usize::MAX && (self.ids.len() > 0 ==> self.index < self.ids.len())
    }

    pub open spec fn subject(self, lib: Library) -> Option<Subject> {
        match self.current() {
            Some(id) => subject_of(lib, id),
            None => None,
        }
    }

    /// Growing out of, or shrinking back into, its feed cell.
    pub open spec fn transitioning(self) -> bool {
        self.transition.morph is Some || self.transition.opening
    }

    /// The detail once the library changed.
    pub open spec fn after_library(self, lib: Library) -> DetailModel<B> {
        let ids = kept(self.ids, |id: EntryId| lib.entry_at(id) is Some);
        let read = DetailModel { ids, read: self.read.stale(), ..self };
        if ids.len() == 0 {
            read
        } else {
            match self.followed(ids) {
                Some(index) => DetailModel { index: index as usize, ..read },
                None => DetailModel {
                    index: nearest_index(self.index, ids.len()),
                    gesture_timeout: false,
                    ..read
                },
            }
        }
    }

    /// Where the entry shown is among `ids`.
    pub open spec fn followed(self, ids: Seq<EntryId>) -> Option<int> {
        match self.current() {
            Some(id) => place_of(ids, id),
            None => None,
        }
    }

    /// Whether moving `delta` pages leads anywhere; nowhere while morphing.
    pub open spec fn goes(self, delta: int) -> bool {
        self.ids.len() > 0 && self.transition.morph is None && self.target(delta) != self.index
    }

    /// The detail `delta` pages on, fitted.
    pub open spec fn after_go(self, delta: int) -> DetailModel<B> {
        if self.goes(delta) {
            DetailModel {
                index: self.target(delta) as usize,
                stage: self.stage.fitted(),
                gesture_timeout: false,
                ..self
            }
        } else {
            self
        }
    }

    /// With the item's stored request and prompt read, unless they were.
    pub open spec fn with_request(self, item: Generation, request: Option<RequestFacts>) -> DetailModel<B> {
        if self.read.request_for == Some(item.id) {
            self
        } else {
            DetailModel { read: ReadModel { request_for: Some(item.id), request, prompt: item.prompt, ..self.read }, ..self }
        }
    }

    /// With the item's before/after image resolved, unless it was.
    pub open spec fn with_compare(self, item: Generation, inputs: Seq<LinkedInput>, reference_role: Seq<char>) -> DetailModel<B> {
        if self.read.compare_for == Some(item.id) {
            self
        } else {
            DetailModel {
                read: ReadModel {
                    compare_for: Some(item.id),
                    compare: compared_with(item, inputs, reference_role),
                    ..self.read
                },
                ..self
            }
        }
    }

    /// With the info panel's assets loaded, unless they were or the panel is closed.
    pub open spec fn with_info(self, item: Generation, inputs: Seq<LinkedInput>, users: Seq<GenerationId>, lib: Library) -> DetailModel<B> {
        if !self.show_info || self.read.info_for == Some(item.id) {
            self
        } else {
            DetailModel {
                read: ReadModel {
                    info_for: Some(item.id),
                    info_assets: info_assets_of(inputs),
                    info_uses: match self.subject(lib) {
                        Some(subject) if subject.generation is None && subject.asset is Some => uses_of(lib, users),
                        _ => Seq::empty(),
                    },
                    ..self.read
                },
                ..self
            }
        }
    }

    /// What a frame does about the morph.
    pub open spec fn morph_step(self, item: Generation, played: bool, measured: bool, reduce_motion: bool) -> MorphStep<B> {
        match self.transition.morph {
            Some(direction) => if played && direction == Direction::Open {
                MorphStep::Finished
            } else {
                MorphStep::Playing
            },
            None => if !self.transition.opening || (!measured && self.transition.origin is Some) || reduce_motion {
                MorphStep::Rest
            } else {
                MorphStep::Start {
                    cell: if travels(item) {
                        self.transition.origin
                    } else {
                        None
                    },
                }
            },
        }
    }

    /// The detail after a frame has seen to the morph.
    pub open spec fn after_morph_tick(self, played: bool, measured: bool, reduce_motion: bool) -> DetailModel<B> {
        let transition = match self.transition.morph {
            Some(direction) => if played && direction == Direction::Open {
                Transition { morph: None, ..self.transition }
            } else {
                self.transition
            },
            None => if !self.transition.opening || (!measured && self.transition.origin is Some) {
                self.transition
            } else if reduce_motion {
                Transition { opening: false, ..self.transition }
            } else {
                Transition { opening: false, origin: None, morph: Some(Direction::Open) }
            },
        };
        DetailModel { transition, ..self }
    }

    /// The travelling box right now: where the morph has it, or, while that is pending, the cell.
    pub open spec fn travel_box(self, item: Generation, morph_frame: Option<B>) -> Option<B> {
        if self.transition.morph is Some {
            morph_frame
        } else if self.transition.opening && travels(item) {
            self.transition.origin
        } else {
            None
        }
    }

    /// Whether there is a page that way.
    pub open spec fn can_step(self, step: Option<Step>) -> bool {
        match step {
            Some(Step::Next) => self.index + 1 < self.ids.len(),
            Some(Step::Prev) => self.index > 0,
            None => false,
        }
    }

    /// The detail a page on, fitted, where there is one.
    pub open spec fn after_step(self, step: Option<Step>) -> DetailModel<B> {
        if self.can_step(step) {
            DetailModel {
                index: if step == Some(Step::Next) {
                    (self.index + 1) as usize
                } else {
                    (self.index - 1) as usize
                },
                stage: self.stage.fitted(),
                ..self
            }
        } else {
            self
        }
    }

    /// The index `delta` pages on, as far as there are pages.
    pub open spec fn target(self, delta: int) -> int {
        if self.index + delta < 0 {
            0
        } else if self.index + delta >= self.ids.len() {
            self.ids.len() - 1
        } else {
            self.index + delta
        }
    }
}

/// What a change of the library means for the detail.
#[derive(Clone, Copy, Debug, PartialEq, Eq, Structural)]
pub enum LibraryNews {
    /// Nothing is left to show.
    Close,
    /// The entry shown is still there.
    Followed,
    /// It is gone, and with it a slide in progress.
    Moved,
}

/// What closing the detail does.
#[derive(Clone, Copy, Debug, PartialEq, Eq)]
pub enum CloseStep<B> {
    /// It is already morphing.
    Nothing,
    Close,
    /// Play the close morph, into the cell or, without one, as a fade; then close.
    Play { cell: Option<B> },
}

/// What a frame does about the morph.
#[derive(Clone, Copy, Debug, PartialEq, Eq)]
pub enum MorphStep<B> {
    /// Nothing moves.
    Rest,
    /// A morph is playing; draw another frame.
    Playing,
    /// The open morph has just finished.
    Finished,
    /// Start the open morph, out of the cell or, without one, as a fade.
    Start { cell: Option<B> },
}

/// What to do about the audio player.
#[derive(Clone, Debug, PartialEq, Eq)]
pub enum AudioStep {
    Keep,
    Stop,
    /// Open a player for this file, and report how that went.
    Open(String),
}

/// What to do about the video player.
#[derive(Clone, Debug, PartialEq, Eq)]
pub enum VideoStep {
    Keep,
    Drop,
    /// Drop the player there is and open this file off the UI thread, and report how that went.
    Open(String),
}

/// Whether an item of this kind, with its file, plays.
pub open spec fn plays_as(item: Generation, kind: MediaType) -> bool {
    item.media_type == kind && item.status == Status::Completed && item.path is Some
}

/// Where the transport bar's numbers come from.
#[derive(Clone, Copy, Debug, PartialEq, Eq, Structural)]
pub enum Transport {
    /// The item doesn't play; there is no bar.
    Absent,
    Video,
    Audio,
    /// A paused bar at zero over the stored duration.
    Waiting,
}

fn index_of(ids: &Vec<EntryId>, id: EntryId) -> (r: Option<usize>)
    ensures
        match (r, place_of(ids@, id)) {
            (Some(a), Some(b)) => a == b,
            (None, None) => true,
            _ => false,
        },
        r matches Some(i) ==> i < ids@.len() && ids@[i as int] == id,
{
    let mut i: usize = 0;
    while i < ids.len()
        invariant
            i <= ids.len(),
            place_from(ids@, id, 0) == place_from(ids@, id, i as int),
        decreases ids.len() - i,
    {
        if ids[i] == id {
            return Some(i);
        }
        i += 1;
    }
    None
}

impl<B: Copy> DetailView<B> {
    /// The detail on `ids[index]`; `origin` is the feed cell to grow out of, without one it
    /// crossfades in.
    pub fn new(ids: Vec<EntryId>, index: usize, origin: Option<B>) -> (r: DetailView<B>)
        ensures
            r@ == (DetailModel {
                ids: ids@,
                index: nearest_index(index, ids@.len()),
                save_state: SaveState::Idle,
                elapsed_ticking: false,
                show_info: false,
                gesture_timeout: false,
                stage: Stage::at_rest(),
                read: ReadModel::nothing(),
                media: Media::silent(),
                transition: Transition { morph: None, opening: true, origin },
            }),
    {
        let index: usize = safe_index(index, ids.len());
        DetailView {
            ids,
            index,
            save_state: SaveState::Idle,
            elapsed_ticking: false,
            show_info: false,
            gesture_timeout: false,
            stage: Stage { zoomed: false, panning: false, divider_drag: false, hover_left: false, hover_right: false },
            read: ItemRead {
                info_for: None,
                info_assets: Vec::new(),
                info_uses: Vec::new(),
                request_for: None,
                request: None,
                prompt: None,
                compare_for: None,
                compare: None,
            },
            media: Media {
                player_for: None,
                player: false,
                audio_for: None,
                audio: false,
                player_error: None,
                player_opening: false,
                pumping: false,
                frame: false,
            },
            transition: Transition { morph: None, opening: true, origin },
        }
    }

    /// The item currently shown (the feed reveals it when the detail closes).
    pub fn current_id(&self) -> (r: Option<EntryId>)
        ensures
            r == self@.current(),
    {
        if self.index < self.ids.len() {
            Some(self.ids[self.index])
        } else {
            None
        }
    }

    /// The library changed: entries that are gone leave the carousel. The current item is followed
    /// by identity, so removing an earlier item doesn't change pages; only if it vanished is the
    /// index clamped, and then a slide in progress belonged to it.
    pub fn library_changed(&mut self, lib: &Library) -> (r: LibraryNews)
        ensures
            final(self)@ == old(self)@.after_library(*lib),
            r == {
                let ids = kept(old(self)@.ids, |id: EntryId| lib.entry_at(id) is Some);
                if ids.len() == 0 {
                    LibraryNews::Close
                } else if old(self)@.followed(ids) is Some {
                    LibraryNews::Followed
                } else {
                    LibraryNews::Moved
                }
            },
    {
        let current = self.current_id();
        let ghost fits = |id: EntryId| lib.entry_at(id) is Some;
        let ghost pick = |id: EntryId|
            if fits(id) {
                Some(id)
            } else {
                None
            };
        let mut still: Vec<EntryId> = Vec::new();
        let mut i: usize = 0;
        proof {
            lemma_picked_ends(self.ids@, pick);
        }
        while i < self.ids.len()
            invariant
                i <= self.ids.len(),
                fits == (|id: EntryId| lib.entry_at(id) is Some),
                pick == (|id: EntryId|
                    if fits(id) {
                        Some(id)
                    } else {
                        None
                    }),
                still@ == picked(self.ids@.take(i as int), pick),
            decreases self.ids.len() - i,
        {
            proof {
                lemma_picked_step(self.ids@, pick, i as int);
            }
            if lib.entry(self.ids[i]).is_some() {
                still.push(self.ids[i]);
            }
            i += 1;
        }
        proof {
            lemma_picked_ends(self.ids@, pick);
        }
        self.ids = still;
        self.read.info_for = None;
        self.read.info_assets = Vec::new();
        self.read.info_uses = Vec::new();
        self.read.request_for = None;
        self.read.request = None;
        self.read.prompt = None;
        if self.ids.len() == 0 {
            return LibraryNews::Close;
        }
        let found = match current {
            Some(id) => index_of(&self.ids, id),
            None => None,
        };
        match found {
            Some(index) => {
                self.index = index;
                LibraryNews::Followed
            },
            None => {
                self.index = safe_index(self.index, self.ids.len());
                self.gesture_timeout = false;
                LibraryNews::Moved
            },
        }
    }

    // ----- open and close -----

    /// The view is growing out of, or shrinking back into, its feed cell; the owner keeps the feed
    /// drawn underneath meanwhile.
    pub fn is_transitioning(&self) -> (r: bool)
        ensures
            r == self@.transitioning(),
    {
        self.transition.morph.is_some() || self.transition.opening
    }

    /// Second half of leaving: the owner answers with the feed cell to shrink into (`None` when it
    /// is off screen, then the view fades out).
    pub fn close_towards(&mut self, cell: Option<B>, lib: &Library, reduce_motion: bool) -> (r: CloseStep<B>)
        ensures
            if old(self)@.transition.morph is Some {
                r is Nothing && final(self)@ == old(self)@
            } else if reduce_motion {
                r is Close && final(self)@ == (DetailModel {
                    transition: Transition { opening: false, ..old(self)@.transition },
                    ..old(self)@
                })
            } else {
                &&& r == (CloseStep::Play {
                    cell: match old(self)@.subject(*lib) {
                        Some(subject) if travels(subject.item) => cell,
                        _ => None,
                    },
                })
                &&& final(self)@ == (DetailModel {
                    stage: old(self)@.stage.fitted(),
                    gesture_timeout: false,
                    transition: Transition { opening: false, morph: Some(Direction::Close), ..old(self)@.transition },
                    ..old(self)@
                })
            },
    {
        if self.transition.morph.is_some() {
            return CloseStep::Nothing;
        }
        self.transition.opening = false;
        if reduce_motion {
            return CloseStep::Close;
        }
        self.stage.zoomed = false;
        self.gesture_timeout = false;
        let shown = match self.subject(lib) {
            Some(subject) => morphable(&subject.item),
            None => false,
        };
        self.transition.morph = Some(Direction::Close);
        CloseStep::Play {
            cell: if shown {
                cell
            } else {
                None
            },
        }
    }

    /// Start the open morph once the stage is measured (or right away when there is no cell to
    /// travel from) and retire it when it has played.
    pub fn tick_morph(&mut self, item: &Generation, played: bool, measured: bool, reduce_motion: bool) -> (r: MorphStep<B>)
        ensures
            r == old(self)@.morph_step(*item, played, measured, reduce_motion),
            final(self)@ == old(self)@.after_morph_tick(played, measured, reduce_motion),
    {
        if let Some(direction) = self.transition.morph {
            if played && direction == Direction::Open {
                self.transition.morph = None;
                return MorphStep::Finished;
            }
            return MorphStep::Playing;
        }
        if !self.transition.opening || (!measured && self.transition.origin.is_some()) {
            return MorphStep::Rest;
        }
        self.transition.opening = false;
        if reduce_motion {
            return MorphStep::Rest;
        }
        let origin = self.transition.origin;
        self.transition.origin = None;
        self.transition.morph = Some(Direction::Open);
        MorphStep::Start {
            cell: if morphable(item) {
                origin
            } else {
                None
            },
        }
    }

    /// The travelling box right now, given where a morph under way has it.
    pub fn travel_box(&self, item: &Generation, morph_frame: Option<B>) -> (r: Option<B>)
        ensures
            r == self@.travel_box(*item, morph_frame),
    {
        if self.transition.morph.is_some() {
            morph_frame
        } else if self.transition.opening && morphable(item) {
            self.transition.origin
        } else {
            None
        }
    }

    // ----- the item -----

    /// What the detail shows at an index.
    pub fn subject_at(&self, index: usize, lib: &Library) -> (r: Option<Subject>)
        ensures
            r == if index < self@.ids.len() {
                subject_of(*lib, self@.ids[index as int])
            } else {
                None
            },
    {
        if index < self.ids.len() {
            subject_for(lib, self.ids[index])
        } else {
            None
        }
    }

    pub fn subject(&self, lib: &Library) -> (r: Option<Subject>)
        ensures
            r == self@.subject(*lib),
    {
        self.subject_at(self.index, lib)
    }

    /// The item shown.
    pub fn item(&self, lib: &Library) -> (r: Option<Generation>)
        ensures
            r == match self@.subject(*lib) {
                Some(subject) => Some(subject.item),
                None => None,
            },
    {
        match self.subject(lib) {
            Some(subject) => Some(subject.item),
            None => None,
        }
    }

    /// The generation shown, if the subject is one.
    pub fn generation(&self, lib: &Library) -> (r: Option<Generation>)
        ensures
            r == generation_shown(self@, *lib),
    {
        match self.subject(lib) {
            Some(subject) => if subject.generation.is_some() {
                Some(subject.item)
            } else {
                None
            },
            None => None,
        }
    }

    // ----- paging -----

    /// Move `delta` pages, as far as there are pages; ignored while morphing. A page is shown
    /// fitted. Returns the slide to play: none where the stage is not `measured`, which has nothing
    /// to slide, or motion is reduced.
    pub fn go(&mut self, delta: i64, measured: bool, reduce_motion: bool) -> (slide: Option<Step>)
        ensures
            final(self)@ == old(self)@.after_go(delta as int),
            slide == if old(self)@.goes(delta as int) && measured && !reduce_motion {
                Some(
                    if old(self)@.target(delta as int) > old(self)@.index {
                        Step::Next
                    } else {
                        Step::Prev
                    },
                )
            } else {
                None
            },
    {
        let n: usize = self.ids.len();
        if n == 0 || self.transition.morph.is_some() {
            return None;
        }
        let wanted: i128 = self.index as i128 + delta as i128;
        let next: usize = if wanted < 0 {
            0
        } else if wanted >= n as i128 {
            n - 1
        } else {
            wanted as usize
        };
        if next == self.index {
            return None;
        }
        let step = if next > self.index {
            Step::Next
        } else {
            Step::Prev
        };
        self.index = next;
        self.stage.zoomed = false;
        self.gesture_timeout = false;
        if measured && !reduce_motion {
            Some(step)
        } else {
            None
        }
    }

    /// Whether the current page is the first, and whether it is the last.
    pub fn edges(&self) -> (r: (bool, bool))
        ensures
            r == (self@.index == 0, self@.index + 1 >= self@.ids.len()),
    {
        (self.index == 0, self.ids.len() == 0 || self.index >= self.ids.len() - 1)
    }

    /// Apply a page change decided by a gesture. The strip is already re-based, so unlike `go` this
    /// must not restart a slide.
    pub fn apply_step(&mut self, step: Option<Step>) -> (moved: bool)
        ensures
            moved == old(self)@.can_step(step),
            final(self)@ == old(self)@.after_step(step),
    {
        match step {
            Some(Step::Next) => {
                if self.ids.len() > 0 && self.index < self.ids.len() - 1 {
                    self.index = self.index + 1;
                } else {
                    return false;
                }
            },
            Some(Step::Prev) => {
                if self.index > 0 {
                    self.index = self.index - 1;
                } else {
                    return false;
                }
            },
            None => {
                return false;
            },
        }
        self.stage.zoomed = false;
        true
    }

    /// A gesture is followed by a timer that releases it should it go quiet; without one there is
    /// nothing to release.
    pub fn arm_gesture_timeout(&mut self, has_gesture: bool)
        ensures
            final(self)@ == (DetailModel { gesture_timeout: has_gesture, ..old(self)@ }),
    {
        self.gesture_timeout = has_gesture;
    }

    /// A gesture ended with a page change, or without one.
    pub fn finish_gesture(&mut self, step: Option<Step>) -> (moved: bool)
        ensures
            moved == old(self)@.can_step(step),
            final(self)@ == (DetailModel { gesture_timeout: false, ..old(self)@.after_step(step) }),
    {
        self.gesture_timeout = false;
        self.apply_step(step)
    }
}

/// The generation shown, if the subject is one.
pub open spec fn generation_shown<B>(detail: DetailModel<B>, lib: Library) -> Option<Generation> {
    match detail.subject(lib) {
        Some(subject) if subject.generation is Some => Some(subject.item),
        _ => None,
    }
}

// ----- the stage ------------------------------------------------------------------------------

/// What the wheel or a trackpad does on the stage.
#[derive(Clone, Copy, Debug, PartialEq, Eq, Structural)]
pub enum ScrollRoute {
    Ignore,
    /// Zoom around the pointer.
    Zoom,
    Pan,
    /// Turn pages.
    Page,
}

/// What resetting the zoom shows.
#[derive(Clone, Copy, Debug, PartialEq, Eq, Structural)]
pub enum ZoomReset {
    Fit,
    ActualSize,
}

/// What a press on the stage, or a move of the pointer over it, drags.
#[derive(Clone, Copy, Debug, PartialEq, Eq, Structural)]
pub enum StageDrag {
    Nothing,
    Image,
    Divider,
}

impl<B: Copy> DetailView<B> {
    /// What scrolling does: nothing while morphing; with the platform or control key it zooms;
    /// zoomed, it pans; a trackpad otherwise pages, on a measured stage. Wheel mice stay inert.
    pub fn on_scroll(&self, zoom_key: bool, precise: bool, measured: bool) -> (r: ScrollRoute)
        ensures
            r == if self@.transition.morph is Some {
                ScrollRoute::Ignore
            } else if zoom_key {
                ScrollRoute::Zoom
            } else if self@.stage.zoomed {
                ScrollRoute::Pan
            } else if precise && measured {
                ScrollRoute::Page
            } else {
                ScrollRoute::Ignore
            },
    {
        if self.transition.morph.is_some() {
            ScrollRoute::Ignore
        } else if zoom_key {
            ScrollRoute::Zoom
        } else if self.stage.zoomed {
            ScrollRoute::Pan
        } else if precise && measured {
            ScrollRoute::Page
        } else {
            ScrollRoute::Ignore
        }
    }

    /// The image is zoomed by hand, or fitted again.
    pub fn set_zoomed(&mut self, zoomed: bool)
        ensures
            final(self)@ == (DetailModel { stage: Stage { zoomed, ..old(self)@.stage }, ..old(self)@ }),
    {
        self.stage.zoomed = zoomed;
    }

    /// Toggle between actual size and fit.
    pub fn reset_zoom(&mut self) -> (r: ZoomReset)
        ensures
            final(self)@ == (DetailModel {
                stage: Stage { zoomed: !old(self)@.stage.zoomed, ..old(self)@.stage },
                ..old(self)@
            }),
            r == if old(self)@.stage.zoomed {
                ZoomReset::Fit
            } else {
                ZoomReset::ActualSize
            },
    {
        let was = self.stage.zoomed;
        self.stage.zoomed = !was;
        if was {
            ZoomReset::Fit
        } else {
            ZoomReset::ActualSize
        }
    }

    /// A press on the stage: at fit a body drag moves the before/after divider; zoomed in, it pans.
    pub fn mouse_down(&mut self) -> (r: StageDrag)
        ensures
            r == if old(self)@.stage.zoomed {
                StageDrag::Image
            } else if old(self)@.read.compare is Some {
                StageDrag::Divider
            } else {
                StageDrag::Nothing
            },
            final(self)@ == (DetailModel {
                stage: Stage {
                    panning: old(self)@.stage.panning || r == StageDrag::Image,
                    divider_drag: old(self)@.stage.divider_drag || r == StageDrag::Divider,
                    ..old(self)@.stage
                },
                ..old(self)@
            }),
    {
        if self.stage.zoomed {
            self.stage.panning = true;
            StageDrag::Image
        } else if self.read.compare.is_some() {
            self.stage.divider_drag = true;
            StageDrag::Divider
        } else {
            StageDrag::Nothing
        }
    }

    /// What a move of the pointer drags.
    pub fn mouse_move(&self) -> (r: StageDrag)
        ensures
            r == if self@.stage.divider_drag {
                StageDrag::Divider
            } else if self@.stage.panning {
                StageDrag::Image
            } else {
                StageDrag::Nothing
            },
    {
        if self.stage.divider_drag {
            StageDrag::Divider
        } else if self.stage.panning {
            StageDrag::Image
        } else {
            StageDrag::Nothing
        }
    }

    pub fn mouse_up(&mut self)
        ensures
            final(self)@ == (DetailModel {
                stage: Stage { panning: false, divider_drag: false, ..old(self)@.stage },
                ..old(self)@
            }),
    {
        self.stage.panning = false;
        self.stage.divider_drag = false;
    }

    /// The pointer entered or left the zone of an arrow.
    pub fn hover(&mut self, side: Step, hovered: bool)
        ensures
            final(self)@ == (DetailModel {
                stage: match side {
                    Step::Prev => Stage { hover_left: hovered, ..old(self)@.stage },
                    Step::Next => Stage { hover_right: hovered, ..old(self)@.stage },
                },
                ..old(self)@
            }),
    {
        match side {
            Step::Prev => {
                self.stage.hover_left = hovered;
            },
            Step::Next => {
                self.stage.hover_right = hovered;
            },
        }
    }

    /// How the pointer looks over the stage.
    pub fn cursor(&self) -> (r: Option<CursorStyle>)
        ensures
            r == stage_pointer(self@),
    {
        if !self.stage.zoomed && self.read.compare.is_some() {
            Some(CursorStyle::ResizeLeftRight)
        } else {
            stage_cursor(self.stage.zoomed, self.stage.panning)
        }
    }

    // ----- actions -----

    /// Leave the detail; ignored while morphing.
    pub fn back(&self) -> (r: Option<DetailEvent>)
        ensures
            r == if self@.transition.morph is Some {
                None
            } else {
                match self@.current() {
                    Some(id) => Some(DetailEvent::WillClose { id }),
                    None => Some(DetailEvent::Close),
                }
            },
    {
        if self.transition.morph.is_some() {
            return None;
        }
        match self.current_id() {
            Some(id) => Some(DetailEvent::WillClose { id }),
            None => Some(DetailEvent::Close),
        }
    }

    /// Show or hide the info panel; ignored while morphing.
    pub fn show_info(&mut self)
        ensures
            final(self)@ == (DetailModel {
                show_info: if old(self)@.transition.morph is Some {
                    old(self)@.show_info
                } else {
                    !old(self)@.show_info
                },
                ..old(self)@
            }),
    {
        if self.transition.morph.is_none() {
            self.show_info = !self.show_info;
        }
    }

    /// Read the current item's request and prompt once: `request` is what it stored.
    pub fn sync_request(&mut self, item: &Generation, request: Option<RequestFacts>)
        ensures
            final(self)@ == old(self)@.with_request(*item, request),
    {
        if self.read.request_for == Some(item.id) {
            return;
        }
        self.read.request_for = Some(item.id);
        self.read.request = request;
        self.read.prompt = copy_text(&item.prompt);
    }

    /// Resolve the before/after image of the current item once: a completed tool row's reference
    /// image, while its file is still there. `reference_role` is the name the reference images'
    /// role is stored under.
    pub fn sync_compare(&mut self, item: &Generation, inputs: &Vec<LinkedInput>, reference_role: &str)
        ensures
            final(self)@ == old(self)@.with_compare(*item, inputs@, reference_role@),
    {
        if self.read.compare_for == Some(item.id) {
            return;
        }
        let ghost fits = |input: LinkedInput| input.role@ == reference_role@;
        let mut before: Option<String> = None;
        if item.tool.is_some() && item.status == Status::Completed && item.media_type == MediaType::Image {
            let mut i: usize = 0;
            let mut found = false;
            while i < inputs.len() && !found
                invariant
                    i <= inputs.len(),
                    fits == (|input: LinkedInput| input.role@ == reference_role@),
                    found ==> first_from(inputs@, fits, 0) is Some && before == inputs@[first_from(
                        inputs@,
                        fits,
                        0,
                    )->0].asset.file,
                    !found ==> before is None && first_from(inputs@, fits, 0) == first_from(inputs@, fits, i as int),
                decreases inputs.len() - i + if found { 0int } else { 1 },
            {
                if crate::text::same_text(inputs[i].role.as_str(), reference_role) {
                    before = copy_text(&inputs[i].asset.file);
                    found = true;
                } else {
                    i += 1;
                }
            }
        }
        self.read.compare_for = Some(item.id);
        self.read.compare = before;
    }

    /// Keep the info panel's input assets matched to the current item; a no-op while the panel is
    /// closed. `inputs` are the item's inputs, and `users` the generations an asset was an input of.
    pub fn sync_info_assets(&mut self, item: &Generation, inputs: &Vec<LinkedInput>, users: &Vec<GenerationId>, lib: &Library)
        ensures
            final(self)@ == old(self)@.with_info(*item, inputs@, users@, *lib),
    {
        if !self.show_info || self.read.info_for == Some(item.id) {
            return;
        }
        let mut assets: Vec<InfoAsset> = Vec::new();
        let mut i: usize = 0;
        while i < inputs.len()
            invariant
                i <= inputs.len(),
                assets@ == info_assets_of(inputs@.take(i as int)),
            decreases inputs.len() - i,
        {
            assets.push(info_asset(&inputs[i]));
            i += 1;
            assert(assets@ =~= info_assets_of(inputs@.take(i as int)));
        }
        assert(inputs@.take(inputs@.len() as int) =~= inputs@);
        let plain = match self.subject(lib) {
            Some(subject) => subject.generation.is_none() && subject.asset.is_some(),
            None => false,
        };
        let uses = if plain {
            pictures_of(lib, users)
        } else {
            let none: Vec<String> = Vec::new();
            assert(none@ =~= Seq::empty());
            none
        };
        self.read.info_for = Some(item.id);
        self.read.info_assets = assets;
        self.read.info_uses = uses;
    }

    /// The generation whose favorite to set, and to what.
    pub fn toggle_favorite(&self, lib: &Library) -> (r: Option<(GenerationId, bool)>)
        ensures
            r == match generation_shown(self@, *lib) {
                Some(item) => Some((item.id, !item.is_favorite)),
                None => None,
            },
    {
        match self.generation(lib) {
            Some(item) => Some((item.id, !item.is_favorite)),
            None => None,
        }
    }

    /// Delete the generation (its files stay as assets), or trash the asset when that is what is
    /// shown. Trashing is refused while a live generation references the asset, as in the grid.
    /// `label` is the name of the item's kind of media.
    pub fn delete(&self, lib: &Library, label: &str) -> (r: DetailDelete)
        ensures
            delete_reply(self@, *lib, lowercase(label@), r),
    {
        let label = to_lowercase(label);
        self.delete_called(lib, label.as_str())
    }

    /// Delete what is shown, whose kind of media is called `label` in the middle of a sentence.
    pub fn delete_called(&self, lib: &Library, label: &str) -> (r: DetailDelete)
        ensures
            delete_reply(self@, *lib, label@, r),
    {
        let subject = match self.subject(lib) {
            Some(subject) => subject,
            None => {
                return DetailDelete::Nothing;
            },
        };
        if let Some(id) = subject.generation {
            return DetailDelete::Generation {
                message: cat3("Delete this ", label, "?"),
                detail: "The files stay in the library as assets.",
                id,
            };
        }
        if let Some(id) = subject.asset {
            let referenced = match lib.asset(id) {
                Some(asset) => asset.referenced,
                None => false,
            };
            if referenced {
                return DetailDelete::Refused(
                    cat(subject.item.file_name.as_str(), " is used by a generation and can't be deleted."),
                );
            }
            return DetailDelete::Asset {
                message: "Delete this asset?",
                detail: "The file is moved to the library's .majik/trash folder.",
                id,
            };
        }
        DetailDelete::Nothing
    }

    /// The file to copy, when there is one.
    pub fn copy(&self, lib: &Library) -> (r: Option<Exportable>)
        ensures
            r == match self@.subject(*lib) {
                Some(subject) => Exportable::item_export(subject.item),
                None => None,
            },
    {
        match self.subject(lib) {
            Some(subject) => Exportable::of_item(&subject.item),
            None => None,
        }
    }

    /// The button beside the prompt in the info panel: the prompt shown there, when there is one, and
    /// what to tell the user of it.
    pub fn copy_shown_prompt(&self) -> (r: Option<(String, &'static str)>)
        ensures
            copies_prompt(self@.read.prompt, r),
    {
        prompt_to_copy(&self.read.prompt)
    }

    /// Copy Prompt in the menu: the prompt of the item shown, as the library has it now, and what to
    /// tell the user of it.
    pub fn copy_prompt(&self, lib: &Library) -> (r: Option<(String, &'static str)>)
        ensures
            copies_prompt(
                match self@.subject(*lib) {
                    Some(subject) => subject.item.prompt,
                    None => None,
                },
                r,
            ),
    {
        match self.item(lib) {
            Some(item) => prompt_to_copy(&item.prompt),
            None => None,
        }
    }

    /// Save the file through the save panel; ignored while a save is under way or was just settled,
    /// and for an item without a finished file.
    pub fn save(&mut self, lib: &Library) -> (r: Option<Exportable>)
        ensures
            r == if old(self)@.save_state == SaveState::Idle {
                saveable(old(self)@, *lib)
            } else {
                None
            },
            final(self)@ == if r is Some {
                DetailModel { save_state: SaveState::Saving, ..old(self)@ }
            } else {
                old(self)@
            },
    {
        if self.save_state != SaveState::Idle {
            return None;
        }
        let file = match self.subject(lib) {
            Some(subject) => if subject.item.status == Status::Completed {
                Exportable::of_item(&subject.item)
            } else {
                None
            },
            None => None,
        };
        if file.is_some() {
            self.save_state = SaveState::Saving;
        }
        file
    }

    /// The save is over: a check or a cross stays for a while, and a dismissed panel leaves no trace.
    /// Returns for how many milliseconds it stays, and what to tell the user.
    pub fn saved(&mut self, outcome: &SaveOutcome) -> (r: (Option<u64>, Option<String>))
        ensures
            final(self)@ == (DetailModel { save_state: settled_state(*outcome), ..old(self)@ }),
            r.0 == if settled_state(*outcome) == SaveState::Idle {
                None
            } else {
                Some(SAVE_STATE_RESET_MS)
            },
            opt_text(r.1) == match *outcome {
                SaveOutcome::Failed(e) => Some("Save failed: "@ + e@),
                _ => None,
            },
    {
        match outcome {
            SaveOutcome::Saved => {
                self.save_state = SaveState::Saved;
                (Some(SAVE_STATE_RESET_MS), None)
            },
            SaveOutcome::Failed(e) => {
                self.save_state = SaveState::Failed;
                (Some(SAVE_STATE_RESET_MS), Some(cat("Save failed: ", e.as_str())))
            },
            SaveOutcome::Cancelled => {
                self.save_state = SaveState::Idle;
                (None, None)
            },
        }
    }

    /// The check or cross has been up long enough.
    pub fn save_settled(&mut self)
        ensures
            final(self)@ == (DetailModel { save_state: SaveState::Idle, ..old(self)@ }),
    {
        self.save_state = SaveState::Idle;
    }

    /// Hand the item to the composer, or say that it can't be.
    pub fn recreate(&self, lib: &Library) -> (r: Result<DetailEvent, &'static str>)
        ensures
            match r {
                Ok(event) => generation_shown(self@, *lib) matches Some(item) && item.can_recreate && event == DetailEvent::Compose(
                    PendingCompose { recreate: Some(item.id) },
                ),
                Err(text) => text@ == "This item can't be recreated."@ && !(generation_shown(self@, *lib) matches Some(item)
                    && item.can_recreate),
            },
    {
        match self.generation(lib) {
            Some(item) => if item.can_recreate {
                Ok(DetailEvent::Compose(PendingCompose { recreate: Some(item.id) }))
            } else {
                Err("This item can't be recreated.")
            },
            None => Err("This item can't be recreated."),
        }
    }

    /// The generation to run again.
    pub fn retry(&self, lib: &Library) -> (r: Option<GenerationId>)
        ensures
            r == match generation_shown(self@, *lib) {
                Some(item) => Some(item.id),
                None => None,
            },
    {
        match self.generation(lib) {
            Some(item) => Some(item.id),
            None => None,
        }
    }

    /// Keep the elapsed label of a generating item moving; returns whether to start the timer.
    pub fn sync_elapsed_ticker(&mut self, item: &Generation) -> (start: bool)
        ensures
            start == (item.status == Status::Generating && !old(self)@.elapsed_ticking),
            final(self)@ == (DetailModel { elapsed_ticking: item.status == Status::Generating, ..old(self)@ }),
    {
        let generating = item.status == Status::Generating;
        let start = generating && !self.elapsed_ticking;
        self.elapsed_ticking = generating;
        start
    }
}

/// How the pointer looks over the stage: at fit over a compared picture it drags the divider.
pub open spec fn stage_pointer<B>(detail: DetailModel<B>) -> Option<CursorStyle> {
    if !detail.stage.zoomed && detail.read.compare is Some {
        Some(CursorStyle::ResizeLeftRight)
    } else {
        cursor_for(detail.stage.zoomed, detail.stage.panning)
    }
}

/// What Delete does.
#[derive(Clone, Debug, PartialEq, Eq)]
pub enum DetailDelete {
    Nothing,
    /// Ask, then delete the generation.
    Generation { message: String, detail: &'static str, id: GenerationId },
    /// Ask, then trash the asset.
    Asset { message: &'static str, detail: &'static str, id: AssetId },
    Refused(String),
}

/// Whether `reply` is what Delete does.
pub open spec fn delete_reply<B>(detail: DetailModel<B>, lib: Library, label: Seq<char>, reply: DetailDelete) -> bool {
    match detail.subject(lib) {
        None => reply is Nothing,
        Some(subject) => match (subject.generation, subject.asset) {
            (Some(generation), _) => reply matches DetailDelete::Generation { message, detail: note, id } && id == generation && message@
                == "Delete this "@ + label + "?"@ && note@ == "The files stay in the library as assets."@,
            (None, Some(asset)) => if lib.asset_at(asset) matches Some(row) && row.referenced {
                reply matches DetailDelete::Refused(text) && text@ == subject.item.file_name@
                    + " is used by a generation and can't be deleted."@
            } else {
                reply matches DetailDelete::Asset { message, detail: note, id } && id == asset && message@ == "Delete this asset?"@ && note@
                    == "The file is moved to the library's .majik/trash folder."@
            },
            (None, None) => reply is Nothing,
        },
    }
}

/// The file Save works on: only a finished item's.
pub open spec fn saveable<B>(detail: DetailModel<B>, lib: Library) -> Option<Exportable> {
    match detail.subject(lib) {
        Some(subject) if subject.item.status == Status::Completed => Exportable::item_export(subject.item),
        _ => None,
    }
}

/// What the save button shows once a save is over.
pub open spec fn settled_state(outcome: SaveOutcome) -> SaveState {
    match outcome {
        SaveOutcome::Saved => SaveState::Saved,
        SaveOutcome::Failed(_) => SaveState::Failed,
        SaveOutcome::Cancelled => SaveState::Idle,
    }
}

/// The image an item is compared against: a finished tool's picture against its reference image.
pub open spec fn compared_with(item: Generation, inputs: Seq<LinkedInput>, reference_role: Seq<char>) -> Option<String> {
    if item.tool is Some && item.status == Status::Completed && item.media_type == MediaType::Image {
        match first_where(inputs, |input: LinkedInput| input.role@ == reference_role) {
            Some(input) => input.asset.file,
            None => None,
        }
    } else {
        None
    }
}

/// An input as the info panel shows it.
pub open spec fn info_asset_of(input: LinkedInput) -> InfoAsset {
    InfoAsset {
        role: input.role,
        kind: input.asset.kind,
        path: input.asset.path,
        picture: match input.asset.kind {
            MediaType::Image => Some(input.asset.path),
            MediaType::Video => input.asset.thumbnail,
            MediaType::Audio => None,
        },
    }
}

pub open spec fn info_assets_of(inputs: Seq<LinkedInput>) -> Seq<InfoAsset> {
    Seq::new(inputs.len(), |i: int| info_asset_of(inputs[i]))
}

fn info_asset(input: &LinkedInput) -> (r: InfoAsset)
    ensures
        r == info_asset_of(*input),
{
    let picture = match input.asset.kind {
        MediaType::Image => Some(input.asset.path.clone()),
        MediaType::Video => copy_text(&input.asset.thumbnail),
        MediaType::Audio => None,
    };
    InfoAsset { role: input.role.clone(), kind: input.asset.kind, path: input.asset.path.clone(), picture }
}

/// The picture that stands for a generation: its thumbnail, or its file.
pub open spec fn picture_of(lib: Library, id: GenerationId) -> Option<String> {
    match lib.generation_at(id) {
        Some(item) => match item.thumbnail {
            Some(thumbnail) => Some(thumbnail),
            None => item.file,
        },
        None => None,
    }
}

/// The pictures of the generations that used an asset.
pub open spec fn uses_of(lib: Library, users: Seq<GenerationId>) -> Seq<String> {
    picked(users, |id: GenerationId| picture_of(lib, id))
}

fn pictures_of(lib: &Library, users: &Vec<GenerationId>) -> (r: Vec<String>)
    ensures
        r@ == uses_of(*lib, users@),
{
    let ghost pick = |id: GenerationId| picture_of(*lib, id);
    let mut out: Vec<String> = Vec::new();
    let mut i: usize = 0;
    proof {
        lemma_picked_ends(users@, pick);
    }
    while i < users.len()
        invariant
            i <= users.len(),
            pick == (|id: GenerationId| picture_of(*lib, id)),
            out@ == picked(users@.take(i as int), pick),
        decreases users.len() - i,
    {
        proof {
            lemma_picked_step(users@, pick, i as int);
        }
        if let Some(item) = lib.get(users[i]) {
            match &item.thumbnail {
                Some(thumbnail) => out.push(thumbnail.clone()),
                None => match &item.file {
                    Some(file) => out.push(file.clone()),
                    None => {},
                },
            }
        }
        i += 1;
    }
    proof {
        lemma_picked_ends(users@, pick);
    }
    out
}

// ----- laws -----------------------------------------------------------------------------------

/// When the library changes, the detail stays on the entry it shows for as long as that exists,
/// whatever else is removed; and while anything is left, it shows a page there is.
pub proof fn the_current_entry_is_followed<B>(detail: DetailModel<B>, lib: Library)
    requires
        detail.ids.len() <= usize::MAX,
    ensures
        ({
            let after = detail.after_library(lib);
            &&& after.ids.len() <= detail.ids.len()
            &&& after.ids.len() > 0 ==> after.index < after.ids.len()
            &&& (detail.current() is Some && lib.entry_at(detail.current()->0) is Some) ==> after.current() == detail.current()
        }),
{
    let fits = |id: EntryId| lib.entry_at(id) is Some;
    let pick = |id: EntryId|
        if fits(id) {
            Some(id)
        } else {
            None
        };
    let ids = kept(detail.ids, fits);
    assert(ids == picked(detail.ids, pick));
    lemma_picked_from(detail.ids, pick);
    if let Some(id) = detail.current() {
        lemma_place_from(ids, id, 0);
        if lib.entry_at(id) is Some {
            lemma_picked_has(detail.ids, pick, detail.index as int);
        }
    }
}

/// Whatever happens to the carousel, the detail is on a page of it for as long as there is one: as it
/// is opened, after paging by keys or by a gesture, and after the library changed.
pub proof fn the_detail_is_always_on_a_page<B>(detail: DetailModel<B>, opened_at: usize, delta: int, step: Option<Step>, lib: Library)
    requires
        detail.on_a_page(),
    ensures
        detail.ids.len() > 0 ==> nearest_index(opened_at, detail.ids.len()) < detail.ids.len(),
        detail.after_go(delta).on_a_page(),
        detail.after_step(step).on_a_page(),
        detail.after_library(lib).on_a_page(),
{
    the_current_entry_is_followed(detail, lib);
}

/// Only entries the library has are left in the carousel, in the order they were in.
pub proof fn vanished_entries_leave_the_carousel<B>(detail: DetailModel<B>, lib: Library, k: int)
    requires
        0 <= k < detail.after_library(lib).ids.len(),
    ensures
        lib.entry_at(detail.after_library(lib).ids[k]) is Some,
        detail.ids.contains(detail.after_library(lib).ids[k]),
{
    let fits = |id: EntryId| lib.entry_at(id) is Some;
    let pick = |id: EntryId|
        if fits(id) {
            Some(id)
        } else {
            None
        };
    let ids = kept(detail.ids, fits);
    assert(ids == picked(detail.ids, pick));
    lemma_picked_from(detail.ids, pick);
    let i = choose|i: int| 0 <= i < detail.ids.len() && pick(#[trigger] detail.ids[i]) == Some(picked(detail.ids, pick)[k]);
    assert(pick(detail.ids[i]) == Some(ids[k]));
    assert(detail.ids[i] == ids[k]);
}

/// Paging never leaves the carousel, and a page turned can be turned back.
pub proof fn paging_stays_in_the_carousel<B>(detail: DetailModel<B>, delta: int)
    requires
        detail.index < detail.ids.len() <= usize::MAX,
    ensures
        detail.after_go(delta).index < detail.ids.len(),
        detail.goes(1) ==> detail.after_go(1).after_go(-1).index == detail.index,
        detail.goes(-1) ==> detail.after_go(-1).after_go(1).index == detail.index,
        detail.goes(delta) ==> !detail.after_go(delta).stage.zoomed,
{
}

/// While the view is growing out of its cell or shrinking into it, paging does nothing.
pub proof fn paging_waits_for_the_morph<B>(detail: DetailModel<B>, delta: int)
    requires
        detail.transition.morph is Some,
    ensures
        detail.after_go(delta) == detail,
{
}

/// An output opened from the Assets feed is shown as the generation that made it; a plain asset has
/// no generation, so it can be neither made a favorite, recreated nor retried.
pub proof fn an_output_is_shown_as_its_generation(lib: Library, asset: AssetId)
    requires
        lib.asset_at(asset) is Some,
    ensures
        ({
            let row = lib.asset_at(asset)->0;
            let shown = subject_of(lib, EntryId::Asset(asset));
            &&& shown is Some
            &&& maker_of(lib, row) is Some ==> (shown->0).item == maker_of(lib, row)->0 && (shown->0).generation == Some(
                (maker_of(lib, row)->0).id,
            )
            &&& maker_of(lib, row) is None ==> (shown->0).generation is None && !(shown->0).item.can_recreate && !(
            shown->0).item.can_retry && !(shown->0).item.is_favorite
            &&& (shown->0).asset == Some(asset)
        }),
{
}

/// The open morph starts at most once, and takes the cell it was opened from with it.
pub proof fn the_open_morph_starts_once<B>(
    detail: DetailModel<B>,
    item: Generation,
    played: bool,
    measured: bool,
    reduce_motion: bool,
)
    requires
        detail.morph_step(item, played, measured, reduce_motion) is Start,
    ensures
        ({
            let after = detail.after_morph_tick(played, measured, reduce_motion);
            &&& after.transition.morph == Some(Direction::Open)
            &&& !after.transition.opening
            &&& after.transition.origin is None
            &&& !(after.morph_step(item, played, measured, reduce_motion) is Start)
        }),
{
}

/// A save that is over leads back to a button that saves: at once when it was cancelled, and after
/// its check or cross otherwise.
pub proof fn the_save_button_comes_back(outcome: SaveOutcome)
    ensures
        settled_state(outcome) != SaveState::Saving,
        settled_state(outcome) == SaveState::Idle <==> outcome is Cancelled,
{
}

/// The model of the view is what its fields hold.
pub proof fn the_detail_is_its_fields<B>(view: DetailView<B>)
    ensures
        view@.ids == view.ids@,
        view@.index == view.index,
        view@.save_state == view.save_state,
        view@.elapsed_ticking == view.elapsed_ticking,
        view@.show_info == view.show_info,
        view@.gesture_timeout == view.gesture_timeout,
        view@.stage == view.stage,
        view@.media == view.media,
        view@.transition == view.transition,
        view@.read.info_for == view.read.info_for,
        view@.read.info_assets == view.read.info_assets@,
        view@.read.info_uses == view.read.info_uses@,
        view@.read.request_for == view.read.request_for,
        view@.read.request == view.read.request,
        view@.read.prompt == view.read.prompt,
        view@.read.compare_for == view.read.compare_for,
        view@.read.compare == view.read.compare,
{
}

/// The entry shown is the one at the index.
pub proof fn the_entry_at_the_index_is_shown<B>(detail: DetailModel<B>, lib: Library)
    ensures
        detail.index < detail.ids.len() ==> detail.current() == Some(detail.ids[detail.index as int]),
        detail.index >= detail.ids.len() ==> detail.current() is None,
        detail.current() matches Some(id) ==> detail.subject(lib) == subject_of(lib, id),
        detail.current() is None ==> detail.subject(lib) is None,
{
}

/// The carousel keeps every entry the library still has, in its order, and no other; whatever was read of the
/// item is read afresh but for the picture it is compared with, and nothing else of the detail changes but the
/// page and, with the item gone, a gesture on it.
pub proof fn a_change_of_the_library_keeps_the_carousel<B>(detail: DetailModel<B>, lib: Library)
    ensures
        ({
            let after = detail.after_library(lib);
            &&& sifts(detail.ids, |id: EntryId| lib.entry_at(id) is Some, after.ids)
            &&& forall|id: EntryId| #[trigger] after.ids.contains(id) <==> detail.ids.contains(id) && lib.entry_at(id) is Some
            &&& after.read.info_for is None && after.read.info_assets.len() == 0 && after.read.info_uses.len() == 0
            &&& after.read.request_for is None && after.read.request is None && after.read.prompt is None
            &&& after.read.compare_for == detail.read.compare_for && after.read.compare == detail.read.compare
            &&& after.save_state == detail.save_state
            &&& after.elapsed_ticking == detail.elapsed_ticking
            &&& after.show_info == detail.show_info
            &&& after.stage == detail.stage
            &&& after.media == detail.media
            &&& after.transition == detail.transition
        }),
{
    keeping_leaves_out_only_what_does_not_fit(detail.ids, |id: EntryId| lib.entry_at(id) is Some);
}

/// When the entry shown is gone and others are left, the page stays where it was, or is the last where there
/// are no longer so many. So where nothing ahead of the entry went with it, the one that followed it is shown.
pub proof fn a_vanished_entry_makes_way_for_the_next<B>(detail: DetailModel<B>, lib: Library)
    requires
        detail.index < detail.ids.len() <= usize::MAX,
        lib.entry_at(detail.ids[detail.index as int]) is None,
        detail.after_library(lib).ids.len() > 0,
    ensures
        ({
            let after = detail.after_library(lib);
            &&& detail.index < after.ids.len() ==> after.index == detail.index
            &&& detail.index >= after.ids.len() ==> after.index == after.ids.len() - 1
            &&& !after.gesture_timeout
            &&& (forall|j: int| 0 <= j < detail.index ==> lib.entry_at(#[trigger] detail.ids[j]) is Some) && detail.index + 1 < detail.ids.len()
                && lib.entry_at(detail.ids[detail.index + 1]) is Some ==> after.current() == Some(detail.ids[detail.index + 1])
        }),
{
    let fits = |id: EntryId| lib.entry_at(id) is Some;
    let n = detail.index as int;
    let gone = detail.ids[n];
    let ids = kept(detail.ids, fits);
    keeping_leaves_out_only_what_does_not_fit(detail.ids, fits);
    lemma_place_from(ids, gone, 0);
    assert(!ids.contains(gone));
    if (forall|j: int| 0 <= j < n ==> lib.entry_at(#[trigger] detail.ids[j]) is Some) && n + 1 < detail.ids.len() && lib.entry_at(
        detail.ids[n + 1],
    ) is Some {
        lemma_kept_behind_a_gap(detail.ids, fits, n);
    }
}

/// Where an entry alone is left out, the one behind it takes its place.
proof fn lemma_kept_behind_a_gap(s: Seq<EntryId>, fits: spec_fn(EntryId) -> bool, n: int)
    requires
        0 <= n,
        n + 1 < s.len(),
        forall|j: int| 0 <= j < n ==> fits(#[trigger] s[j]),
        !fits(s[n]),
        fits(s[n + 1]),
    ensures
        kept(s, fits).len() > n,
        kept(s, fits)[n] == s[n + 1],
    decreases s.len(),
{
    let head = s.drop_last();
    if s.len() == n + 2 {
        let front = head.drop_last();
        assert(front =~= s.take(n));
        assert forall|i: int| 0 <= i < front.len() implies fits(#[trigger] front[i]) by {
            assert(front[i] == s[i]);
        }
        keeping_leaves_out_only_what_does_not_fit(front, fits);
        assert(head.last() == s[n]);
        assert(kept(head, fits) == kept(front, fits));
        assert(s.last() == s[n + 1]);
        assert(kept(s, fits) == kept(head, fits).push(s.last()));
    } else {
        assert forall|j: int| 0 <= j < n implies fits(#[trigger] head[j]) by {
            assert(head[j] == s[j]);
        }
        assert(head[n] == s[n] && head[n + 1] == s[n + 1]);
        lemma_kept_behind_a_gap(head, fits, n);
        if fits(s.last()) {
            assert(kept(s, fits) == kept(head, fits).push(s.last()));
        } else {
            assert(kept(s, fits) == kept(head, fits));
        }
    }
}

/// The entry shown is followed to its place in what is left, while it is there; a page already shown keeps
/// every gesture on it.
pub proof fn the_page_follows_its_entry<B>(detail: DetailModel<B>, lib: Library)
    requires
        detail.index < detail.ids.len() <= usize::MAX,
        lib.entry_at(detail.ids[detail.index as int]) is Some,
    ensures
        detail.after_library(lib).index < detail.after_library(lib).ids.len(),
        detail.after_library(lib).ids[detail.after_library(lib).index as int] == detail.ids[detail.index as int],
        detail.after_library(lib).gesture_timeout == detail.gesture_timeout,
        (forall|i: int| 0 <= i < detail.ids.len() ==> lib.entry_at(#[trigger] detail.ids[i]) is Some) && (forall|j: int|
            0 <= j < detail.index ==> #[trigger] detail.ids[j] != detail.ids[detail.index as int]) ==> detail.after_library(lib).index
            == detail.index,
{
    let fits = |id: EntryId| lib.entry_at(id) is Some;
    let ids = kept(detail.ids, fits);
    let shown = detail.ids[detail.index as int];
    keeping_leaves_out_only_what_does_not_fit(detail.ids, fits);
    assert(detail.ids.contains(shown));
    assert(ids.contains(shown));
    lemma_place_from(ids, shown, 0);
}

/// The page the detail opens on is the one asked for, or the last where there are not so many.
pub proof fn the_detail_opens_on_the_page_asked_for(index: usize, len: nat)
    requires
        len <= usize::MAX,
    ensures
        index < len ==> nearest_index(index, len) == index,
        index >= len && len > 0 ==> nearest_index(index, len) == len - 1,
        len == 0 ==> nearest_index(index, len) == 0,
{
}

/// Paging goes as many pages as asked, as far as there are pages, and shows the page fitted; nothing else of the
/// detail changes, and at the ends, or while the view morphs, nothing at all.
pub proof fn paging_goes_as_far_as_there_are_pages<B>(detail: DetailModel<B>, delta: int)
    requires
        detail.index < detail.ids.len() <= usize::MAX,
    ensures
        ({
            let after = detail.after_go(delta);
            let still = detail.transition.morph is None;
            &&& still && 0 <= detail.index + delta < detail.ids.len() ==> after.index == detail.index + delta
            &&& still && detail.index + delta < 0 ==> after.index == 0
            &&& still && detail.index + delta >= detail.ids.len() ==> after.index == detail.ids.len() - 1
            &&& after.index == detail.index ==> after == detail
            &&& after.index != detail.index ==> !after.stage.zoomed && !after.gesture_timeout
            &&& detail.goes(delta) <==> after.index != detail.index
            &&& after.ids == detail.ids && after.read == detail.read && after.media == detail.media && after.transition == detail.transition
            &&& after.save_state == detail.save_state && after.show_info == detail.show_info && after.elapsed_ticking == detail.elapsed_ticking
            &&& after.stage.panning == detail.stage.panning && after.stage.divider_drag == detail.stage.divider_drag && after.stage.hover_left
                == detail.stage.hover_left && after.stage.hover_right == detail.stage.hover_right
        }),
{
}

/// A gesture turns one page, the way it went, where there is a page that way; the page is shown fitted.
pub proof fn a_gesture_turns_one_page<B>(detail: DetailModel<B>)
    requires
        detail.index < detail.ids.len() <= usize::MAX,
    ensures
        detail.can_step(Some(Step::Next)) <==> detail.index + 1 < detail.ids.len(),
        detail.can_step(Some(Step::Prev)) <==> detail.index > 0,
        !detail.can_step(None),
        detail.index + 1 < detail.ids.len() ==> detail.after_step(Some(Step::Next)).index == detail.index + 1,
        detail.index > 0 ==> detail.after_step(Some(Step::Prev)).index == detail.index - 1,
        detail.after_step(None) == detail,
        forall|step: Option<Step>|
            {
                let after = #[trigger] detail.after_step(step);
                &&& detail.can_step(step) ==> after == (DetailModel {
                    index: after.index,
                    stage: Stage { zoomed: false, ..detail.stage },
                    ..detail
                })
                &&& !detail.can_step(step) ==> after == detail
            },
{
}

/// A generation is shown as its own row, with the asset it produced; an asset of its own as itself, and an
/// output as the generation that made it while the library has that.
pub proof fn an_entry_is_shown_as_its_row(lib: Library, generation: GenerationId, asset: AssetId)
    ensures
        subject_of(lib, EntryId::Generation(generation)) is Some <==> lib.generation_at(generation) is Some,
        lib.generation_at(generation) matches Some(row) ==> subject_of(lib, EntryId::Generation(generation)) == Some(
            Subject { item: row, generation: Some(row.id), asset: row.output_asset_id },
        ),
        subject_of(lib, EntryId::Asset(asset)) is Some <==> lib.asset_at(asset) is Some,
        lib.asset_at(asset) matches Some(row) ==> {
            let shown = subject_of(lib, EntryId::Asset(asset))->0;
            let made = row.produced_by is Some && lib.generation_at(row.produced_by->0) is Some;
            &&& shown.asset == Some(asset)
            &&& made ==> shown.item == lib.generation_at(row.produced_by->0)->0 && shown.generation == Some(shown.item.id)
            &&& !made ==> shown.generation is None && shown.item.media_type == row.kind && shown.item.file == row.file && shown.item.file_name
                == row.file_name && shown.item.output_asset_id == Some(row.id)
        },
{
}

/// A plain asset is shown with what is known of its file, finished while the file is there and missing else,
/// and with nothing that only a generation has.
pub proof fn a_plain_asset_shows_its_file(asset: Asset)
    ensures
        ({
            let item = asset_item(asset);
            &&& item.id.0 == asset.id.0
            &&& item.media_type == asset.kind
            &&& asset.missing ==> item.status == Status::Missing
            &&& !asset.missing ==> item.status == Status::Completed
            &&& item.path == Some(asset.path)
            &&& item.file == asset.file
            &&& item.file_name == asset.file_name
            &&& item.thumbnail == asset.thumbnail
            &&& item.output_asset_id == Some(asset.id)
            &&& item.duration == asset.duration
            &&& item.width == asset.width && item.height == asset.height
            &&& item.file_size == asset.file_size
            &&& item.queued_at_ms == asset.created_at_ms
            &&& item.created == asset.created
            &&& item.tool is None && item.prompt is None && item.model_name is None && item.error is None
            &&& !item.is_favorite && !item.is_upscaled && !item.can_recreate && !item.can_retry
        }),
{
}

/// The generation shown is the item shown, while that is a generation.
pub proof fn only_a_generation_is_acted_on_as_one<B>(detail: DetailModel<B>, lib: Library)
    ensures
        generation_shown(detail, lib) is Some <==> detail.subject(lib) is Some && (detail.subject(lib)->0).generation is Some,
        generation_shown(detail, lib) matches Some(item) ==> item == (detail.subject(lib)->0).item,
{
}

/// An item's size is known once both of its sides are, and neither is nothing.
pub proof fn a_size_has_two_sides(item: Generation, w: u32, h: u32)
    ensures
        pixel_size(item) == Some((w, h)) <==> item.width == Some(w) && item.height == Some(h) && w > 0 && h > 0,
{
}

/// Only a finished picture or clip whose thumbnail the cell shows can travel out of the cell and back.
pub proof fn only_what_the_cell_shows_travels<B>(detail: DetailModel<B>, item: Generation, morph_frame: Option<B>)
    ensures
        travels(item) <==> item.thumbnail is Some && item.status == Status::Completed && item.media_type != MediaType::Audio,
        detail.transition.morph is Some ==> detail.travel_box(item, morph_frame) == morph_frame,
        detail.transition.morph is None && detail.transition.opening && travels(item) ==> detail.travel_box(item, morph_frame)
            == detail.transition.origin,
        detail.transition.morph is None && !(detail.transition.opening && travels(item)) ==> detail.travel_box(item, morph_frame) is None,
        detail.transitioning() <==> detail.transition.morph is Some || detail.transition.opening,
{
}

/// The open morph waits for the stage to be measured where there is a cell to travel from, starts out of that
/// cell where the item travels and as a fade where it does not, and is over once it has played. A close morph
/// plays on. With motion reduced nothing plays.
pub proof fn the_morph_starts_plays_and_ends<B>(detail: DetailModel<B>, item: Generation, played: bool, measured: bool, reduce_motion: bool)
    ensures
        ({
            let step = detail.morph_step(item, played, measured, reduce_motion);
            let after = detail.after_morph_tick(played, measured, reduce_motion);
            let ready = detail.transition.morph is None && detail.transition.opening && (measured || detail.transition.origin is None);
            &&& step is Start <==> ready && !reduce_motion
            &&& step matches MorphStep::Start { cell } ==> (travels(item) ==> cell == detail.transition.origin) && (!travels(item) ==> cell is None)
            &&& step is Finished <==> detail.transition.morph == Some(Direction::Open) && played
            &&& step is Playing <==> detail.transition.morph is Some && !(detail.transition.morph == Some(Direction::Open) && played)
            &&& step is Start ==> after.transition == (Transition::<B> { morph: Some(Direction::Open), opening: false, origin: None })
            &&& step is Finished ==> after.transition == (Transition { morph: None, ..detail.transition })
            &&& step is Playing ==> after.transition == detail.transition
            &&& ready && reduce_motion ==> after.transition == (Transition { opening: false, ..detail.transition })
            &&& step is Rest && !ready ==> after.transition == detail.transition
            &&& after == (DetailModel { transition: after.transition, ..detail })
        }),
{
}

/// What was read of an item belongs to that item: its request, its prompt, and what it is compared with, each
/// read once.
pub proof fn an_item_is_read_once<B>(
    detail: DetailModel<B>,
    item: Generation,
    request: Option<RequestFacts>,
    inputs: Seq<LinkedInput>,
    reference_role: Seq<char>,
)
    ensures
        detail.read.request_for == Some(item.id) ==> detail.with_request(item, request) == detail,
        detail.read.request_for != Some(item.id) ==> detail.with_request(item, request) == (DetailModel {
            read: ReadModel { request_for: Some(item.id), request, prompt: item.prompt, ..detail.read },
            ..detail
        }),
        detail.read.compare_for == Some(item.id) ==> detail.with_compare(item, inputs, reference_role) == detail,
        detail.read.compare_for != Some(item.id) ==> detail.with_compare(item, inputs, reference_role) == (DetailModel {
            read: ReadModel {
                compare_for: Some(item.id),
                compare: detail.with_compare(item, inputs, reference_role).read.compare,
                ..detail.read
            },
            ..detail
        }),
        detail.read.compare_for != Some(item.id) ==> detail.with_compare(item, inputs, reference_role).read.compare == compared_with(
            item,
            inputs,
            reference_role,
        ),
{
}

/// A finished picture a tool made is compared with the first of its inputs in the reference role, while that
/// one's file is there; nothing else is compared.
pub proof fn a_tools_picture_is_compared_with_its_input(item: Generation, inputs: Seq<LinkedInput>, reference_role: Seq<char>, i: int)
    ensures
        item.tool is None || item.status != Status::Completed || item.media_type != MediaType::Image ==> compared_with(item, inputs, reference_role) is None,
        item.tool is Some && item.status == Status::Completed && item.media_type == MediaType::Image ==> {
            &&& 0 <= i < inputs.len() && inputs[i].role@ == reference_role && (forall|j: int|
                0 <= j < i ==> (#[trigger] inputs[j]).role@ != reference_role) ==> compared_with(item, inputs, reference_role) == inputs[i].asset.file
            &&& (forall|j: int| 0 <= j < inputs.len() ==> (#[trigger] inputs[j]).role@ != reference_role) ==> compared_with(
                item,
                inputs,
                reference_role,
            ) is None
        },
{
    assert forall|fits: spec_fn(LinkedInput) -> bool| match #[trigger] crate::seqs::first_place(inputs, fits) {
        Some(i) => 0 <= i < inputs.len() && fits(inputs[i]) && (forall|j: int| 0 <= j < i ==> !fits(#[trigger] inputs[j])),
        None => forall|j: int| 0 <= j < inputs.len() ==> !fits(#[trigger] inputs[j]),
    } by {
        crate::seqs::lemma_first_from(inputs, fits, 0);
    }
}

/// The info panel's assets are loaded for the item shown, once, while the panel is open: its inputs in order,
/// and for a plain asset the pictures of what it was used in.
pub proof fn the_info_panel_belongs_to_its_item<B>(
    detail: DetailModel<B>,
    item: Generation,
    inputs: Seq<LinkedInput>,
    users: Seq<GenerationId>,
    lib: Library,
    i: int,
)
    ensures
        ({
            let after = detail.with_info(item, inputs, users, lib);
            let loads = detail.show_info && detail.read.info_for != Some(item.id);
            let plain = detail.subject(lib) matches Some(shown) && shown.generation is None && shown.asset is Some;
            &&& !loads ==> after == detail
            &&& loads ==> {
                &&& after.read.info_for == Some(item.id)
                &&& after.read.info_assets.len() == inputs.len()
                &&& 0 <= i < inputs.len() ==> after.read.info_assets[i].role == inputs[i].role && after.read.info_assets[i].kind
                    == inputs[i].asset.kind && after.read.info_assets[i].path == inputs[i].asset.path
                &&& 0 <= i < inputs.len() ==> after.read.info_assets[i].picture == (match inputs[i].asset.kind {
                    MediaType::Image => Some(inputs[i].asset.path),
                    MediaType::Video => inputs[i].asset.thumbnail,
                    MediaType::Audio => None,
                })
                &&& plain ==> picks(users, |id: GenerationId| picture_of(lib, id), after.read.info_uses)
                &&& !plain ==> after.read.info_uses.len() == 0
                &&& after == (DetailModel {
                    read: ReadModel {
                        info_for: after.read.info_for,
                        info_assets: after.read.info_assets,
                        info_uses: after.read.info_uses,
                        ..detail.read
                    },
                    ..detail
                })
            }
        }),
{
    picking_goes_entry_by_entry(users, |id: GenerationId| picture_of(lib, id));
}

/// The picture of a generation is its thumbnail, or without one its file.
pub proof fn a_generation_is_pictured_by_its_thumbnail(lib: Library, id: GenerationId)
    ensures
        lib.generation_at(id) is None ==> picture_of(lib, id) is None,
        lib.generation_at(id) matches Some(item) ==> (item.thumbnail is Some ==> picture_of(lib, id) == item.thumbnail) && (item.thumbnail is None
            ==> picture_of(lib, id) == item.file),
{
}

/// The pointer grabs a picture that can be panned, holds one that is dragged, and at fit moves the divider of a
/// compared one.
pub proof fn the_pointer_says_what_a_drag_does<B>(detail: DetailModel<B>)
    ensures
        !detail.stage.zoomed && detail.read.compare is Some ==> stage_pointer(detail) == Some(CursorStyle::ResizeLeftRight),
        !(!detail.stage.zoomed && detail.read.compare is Some) && detail.stage.panning ==> stage_pointer(detail) == Some(CursorStyle::ClosedHand),
        detail.stage.zoomed && !detail.stage.panning ==> stage_pointer(detail) == Some(CursorStyle::OpenHand),
        !detail.stage.zoomed && detail.read.compare is None && !detail.stage.panning ==> stage_pointer(detail) is None,
        cursor_for(true, false) == Some(CursorStyle::OpenHand) && cursor_for(false, false) is None,
        cursor_for(true, true) == Some(CursorStyle::ClosedHand) && cursor_for(false, true) == Some(CursorStyle::ClosedHand),
{
}

/// Delete is about what is shown: its generation where there is one, else its asset, which is refused while a
/// generation uses it.
pub proof fn delete_is_about_what_is_shown<B>(detail: DetailModel<B>, lib: Library, label: Seq<char>, reply: DetailDelete)
    requires
        delete_reply(detail, lib, label, reply),
    ensures
        detail.subject(lib) is None ==> reply is Nothing,
        detail.subject(lib) matches Some(shown) ==> {
            let used = shown.asset is Some && lib.asset_at(shown.asset->0) is Some && (lib.asset_at(shown.asset->0)->0).referenced;
            &&& reply is Generation <==> shown.generation is Some
            &&& reply is Refused <==> shown.generation is None && used
            &&& reply is Asset <==> shown.generation is None && shown.asset is Some && !used
            &&& reply is Nothing <==> shown.generation is None && shown.asset is None
            &&& reply matches DetailDelete::Generation { message, id, .. } ==> shown.generation == Some(id) && message@ == "Delete this "@ + label
                + "?"@
            &&& reply matches DetailDelete::Asset { id, .. } ==> shown.asset == Some(id)
            &&& reply matches DetailDelete::Refused(text) ==> text@ == shown.item.file_name@ + " is used by a generation and can't be deleted."@
        },
{
}

/// Save works on the file of the finished item shown, and on nothing else.
pub proof fn only_a_finished_file_is_saved<B>(detail: DetailModel<B>, lib: Library)
    ensures
        saveable(detail, lib) is Some <==> detail.subject(lib) is Some && (detail.subject(lib)->0).item.status == Status::Completed && (
        detail.subject(lib)->0).item.file is Some,
        saveable(detail, lib) matches Some(file) ==> Some(file.path) == (detail.subject(lib)->0).item.file && file.name == (detail.subject(
            lib,
        )->0).item.file_name && file.kind == (detail.subject(lib)->0).item.media_type,
        settled_state(SaveOutcome::Saved) == SaveState::Saved,
        forall|e: String| #[trigger] settled_state(SaveOutcome::Failed(e)) == SaveState::Failed,
{
}

/// The prompt that is copied is the one there is, and the user is told; without one nothing is copied.
pub proof fn a_prompt_is_copied_as_it_is(prompt: Option<String>, r: Option<(String, &'static str)>)
    requires
        copies_prompt(prompt, r),
    ensures
        r is Some <==> prompt is Some,
        r matches Some((text, toast)) ==> prompt == Some(text) && toast@ == "Prompt copied"@,
{
}

/// Without a video player there is none of what comes with one; what sounds goes on, and what went wrong is
/// still told.
pub proof fn dropping_the_player_drops_all_of_it(media: Media, stage: Stage)
    ensures
        media.without_player() == (Media {
            player_for: None,
            player: false,
            player_opening: false,
            pumping: false,
            frame: false,
            audio_for: media.audio_for,
            audio: media.audio,
            player_error: media.player_error,
        }),
        !Media::silent().player && !Media::silent().audio && Media::silent().player_for is None && Media::silent().audio_for is None,
        Media::silent().player_error is None && !Media::silent().player_opening && !Media::silent().pumping && !Media::silent().frame,
        stage.fitted() == (Stage { zoomed: false, ..stage }),
        !Stage::at_rest().zoomed && !Stage::at_rest().panning && !Stage::at_rest().divider_drag && !Stage::at_rest().hover_left
            && !Stage::at_rest().hover_right,
        ReadModel::nothing().info_for is None && ReadModel::nothing().request_for is None && ReadModel::nothing().compare_for is None,
        ReadModel::nothing().prompt is None && ReadModel::nothing().request is None && ReadModel::nothing().compare is None,
        ReadModel::nothing().info_assets.len() == 0 && ReadModel::nothing().info_uses.len() == 0,
{
}

/// A carousel with pages is on one of them.
pub proof fn a_carousel_is_on_one_of_its_pages<B>(detail: DetailModel<B>)
    requires
        detail.on_a_page(),
    ensures
        detail.ids.len() > 0 ==> 0 <= detail.index < detail.ids.len(),
{
}

/// Delete says what becomes of the file: that of a generation stays as an asset, that of an asset goes to the
/// trash.
pub proof fn delete_says_what_becomes_of_the_file<B>(detail: DetailModel<B>, lib: Library, label: Seq<char>, reply: DetailDelete)
    requires
        delete_reply(detail, lib, label, reply),
    ensures
        reply matches DetailDelete::Generation { detail: note, .. } ==> note@ == "The files stay in the library as assets."@,
        reply matches DetailDelete::Asset { detail: note, .. } ==> note@ == "The file is moved to the library's .majik/trash folder."@,
{
}

} // verus!

//! Composer panel (the right-hand side of the Library window): media type, model, options, input
//! assets, prompt, Generate.

use vstd::prelude::*;

use crate::feed::DraggedAsset;
use crate::model::{copy_text, AlbumId, AssetId, Library, MediaType, ToolId};
use crate::model_picker::{ComposeTab, ModelInfo};
use crate::paths::{may_be_named, may_have, path_extension, path_name};
use crate::seqs::{
    copied, count_of, first_from, first_place, first_where, is_among, keeping_leaves_out_only_what_does_not_fit, kept, lemma_first_from, lemma_picked_ends,
    lemma_picked_from, lemma_picked_step, lemma_push_to_set, lemma_without_to_set, picked, sifts, Same,
};
use crate::text::{
    ascii_lowercase, blank, cat, cat3, count_text, dec, is_blank, is_white_space, join, joined, lowercase, opt_text, same_text, texts,
    to_ascii_lowercase, to_lowercase, trim, trimmed, trimming_empties_only_blank_text, white_space,
};

verus! {

// ----- the draft ------------------------------------------------------------------------------

/// Most items one press of Generate may ask for.
pub const MAX_COUNT: usize = 8;

/// What an input asset is to the model.
#[derive(Clone, Copy, Debug, PartialEq, Eq, Hash, Structural)]
pub enum AssetRole {
    FirstFrame,
    LastFrame,
    ReferenceImage,
    ReferenceVideo,
    MaskImage,
    Audio,
}

/// An asset attached to a tab.
#[derive(Clone, Copy, Debug, PartialEq, Eq, Structural)]
pub struct DraftAsset {
    pub asset: AssetId,
    pub role: AssetRole,
}

/// The sides of the divide between frames and references. The two go to different endpoints, so
/// filling one side closes the other.
#[derive(Clone, Copy, Debug, PartialEq, Eq, Structural)]
pub enum Divide {
    Frames,
    References,
}

/// A role the selected model takes.
#[derive(Clone, Copy, Debug, PartialEq, Eq, Structural)]
pub struct RoleSlot {
    pub role: AssetRole,
    /// How many it takes.
    pub max: usize,
    /// The side it is on, where the model divides frames from references.
    pub side: Option<Divide>,
}

/// The provider the composer works with.
#[derive(Clone, Debug, PartialEq, Eq)]
pub struct Provider {
    pub id: String,
    pub display_name: String,
    pub requires_api_key: bool,
    /// It routes a text model that can rewrite prompts.
    pub supports_prompt_improvement: bool,
}

/// What the composer knows of one of the provider's tabs: its settings, and what its model takes.
/// None of it depends on what is attached.
pub struct TabDraft {
    pub tab: ComposeTab,
    /// The roles the selected model takes, in the roles' own order.
    pub slots: Vec<RoleSlot>,
    /// The roles a picture that comes without one is offered, in order.
    pub image_order: Vec<AssetRole>,
    /// How many items to make.
    pub count: usize,
    /// Attached assets can stand in for a prompt.
    pub prompt_optional: bool,
    /// The model's prompt cap; `None` when it declares none.
    pub prompt_limit: Option<usize>,
    /// The selected model.
    pub model: Option<ModelInfo>,
    /// The settings make a complete request.
    pub ready: bool,
}

/// A tab's draft as contracts speak of it.
#[verifier::ext_equal]
pub struct TabModel {
    pub tab: ComposeTab,
    pub slots: Seq<RoleSlot>,
    pub image_order: Seq<AssetRole>,
    pub count: usize,
    pub prompt_optional: bool,
    pub prompt_limit: Option<usize>,
    pub model: Option<ModelInfo>,
    pub ready: bool,
}

impl View for TabDraft {
    type V = TabModel;

    open spec fn view(&self) -> TabModel {
        TabModel {
            tab: self.tab,
            slots: self.slots@,
            image_order: self.image_order@,
            count: self.count,
            prompt_optional: self.prompt_optional,
            prompt_limit: self.prompt_limit,
            model: self.model,
            ready: self.ready,
        }
    }
}

pub open spec fn tabs_of(drafts: Seq<TabDraft>) -> Seq<TabModel> {
    Seq::new(drafts.len(), |i: int| drafts[i]@)
}

impl TabDraft {
    /// The same draft again.
    pub fn copy(&self) -> (r: TabDraft)
        ensures
            r@ == self@,
    {
        TabDraft {
            tab: self.tab,
            slots: copied(&self.slots),
            image_order: copied(&self.image_order),
            count: self.count,
            prompt_optional: self.prompt_optional,
            prompt_limit: self.prompt_limit,
            model: self.model,
            ready: self.ready,
        }
    }
}

/// What is kept of a provider's drafts for when it is selected again: the tab, and every tab's settings.
/// What is attached is not of the provider's drafts.
pub struct SavedDraft {
    /// The provider it is kept for.
    pub provider: String,
    /// The active tab's.
    pub draft: TabDraft,
    /// The other tabs'.
    pub others: Vec<TabDraft>,
    pub speaker1: Option<String>,
    pub speaker2: Option<String>,
}

/// What is kept of a provider's drafts, as contracts speak of it.
#[verifier::ext_equal]
pub struct SavedModel {
    pub provider: Seq<char>,
    pub draft: TabModel,
    pub others: Seq<TabModel>,
    pub speaker1: Option<Seq<char>>,
    pub speaker2: Option<Seq<char>>,
}

impl View for SavedDraft {
    type V = SavedModel;

    open spec fn view(&self) -> SavedModel {
        SavedModel {
            provider: self.provider@,
            draft: self.draft@,
            others: tabs_of(self.others@),
            speaker1: opt_text(self.speaker1),
            speaker2: opt_text(self.speaker2),
        }
    }
}

/// What is attached to each tab. It stays through a change of tab, of model and of provider: roles a
/// model does not take, and tabs a provider does not have, wait for when the user switches back.
pub struct TabAssets {
    pub image: Vec<DraftAsset>,
    pub video: Vec<DraftAsset>,
    pub audio: Vec<DraftAsset>,
    pub upscale: Vec<DraftAsset>,
    pub remove_background: Vec<DraftAsset>,
}

/// What is attached to each tab, as contracts speak of it.
#[verifier::ext_equal]
pub struct Attached {
    pub image: Seq<DraftAsset>,
    pub video: Seq<DraftAsset>,
    pub audio: Seq<DraftAsset>,
    pub upscale: Seq<DraftAsset>,
    pub remove_background: Seq<DraftAsset>,
}

impl View for TabAssets {
    type V = Attached;

    open spec fn view(&self) -> Attached {
        Attached {
            image: self.image@,
            video: self.video@,
            audio: self.audio@,
            upscale: self.upscale@,
            remove_background: self.remove_background@,
        }
    }
}

impl Attached {
    pub open spec fn nothing() -> Attached {
        Attached {
            image: Seq::empty(),
            video: Seq::empty(),
            audio: Seq::empty(),
            upscale: Seq::empty(),
            remove_background: Seq::empty(),
        }
    }

    /// What is attached to one tab.
    pub open spec fn on(self, tab: ComposeTab) -> Seq<DraftAsset> {
        match tab {
            ComposeTab::Media(MediaType::Image) => self.image,
            ComposeTab::Media(MediaType::Video) => self.video,
            ComposeTab::Media(MediaType::Audio) => self.audio,
            ComposeTab::Tool(ToolId::Upscale) => self.upscale,
            ComposeTab::Tool(ToolId::RemoveBackground) => self.remove_background,
        }
    }

    /// With `assets` attached to one tab, and the others as they are.
    pub open spec fn with(self, tab: ComposeTab, assets: Seq<DraftAsset>) -> Attached {
        match tab {
            ComposeTab::Media(MediaType::Image) => Attached { image: assets, ..self },
            ComposeTab::Media(MediaType::Video) => Attached { video: assets, ..self },
            ComposeTab::Media(MediaType::Audio) => Attached { audio: assets, ..self },
            ComposeTab::Tool(ToolId::Upscale) => Attached { upscale: assets, ..self },
            ComposeTab::Tool(ToolId::RemoveBackground) => Attached { remove_background: assets, ..self },
        }
    }
}

impl TabAssets {
    /// Nothing attached anywhere.
    pub fn nothing() -> (r: TabAssets)
        ensures
            r@ == Attached::nothing(),
    {
        TabAssets {
            image: Vec::new(),
            video: Vec::new(),
            audio: Vec::new(),
            upscale: Vec::new(),
            remove_background: Vec::new(),
        }
    }

    /// What is attached to one tab.
    pub fn on(&self, tab: ComposeTab) -> (r: &Vec<DraftAsset>)
        ensures
            r@ == self@.on(tab),
    {
        match tab {
            ComposeTab::Media(MediaType::Image) => &self.image,
            ComposeTab::Media(MediaType::Video) => &self.video,
            ComposeTab::Media(MediaType::Audio) => &self.audio,
            ComposeTab::Tool(ToolId::Upscale) => &self.upscale,
            ComposeTab::Tool(ToolId::RemoveBackground) => &self.remove_background,
        }
    }

    /// Exchange what is attached to one tab for `assets`.
    fn put(&mut self, tab: ComposeTab, assets: Vec<DraftAsset>) -> (r: Vec<DraftAsset>)
        ensures
            r@ == old(self)@.on(tab),
            final(self)@ == old(self)@.with(tab, assets@),
    {
        let mut there = assets;
        match tab {
            ComposeTab::Media(MediaType::Image) => std::mem::swap(&mut there, &mut self.image),
            ComposeTab::Media(MediaType::Video) => std::mem::swap(&mut there, &mut self.video),
            ComposeTab::Media(MediaType::Audio) => std::mem::swap(&mut there, &mut self.audio),
            ComposeTab::Tool(ToolId::Upscale) => std::mem::swap(&mut there, &mut self.upscale),
            ComposeTab::Tool(ToolId::RemoveBackground) => std::mem::swap(&mut there, &mut self.remove_background),
        }
        there
    }

    fn push(&mut self, tab: ComposeTab, asset: DraftAsset)
        ensures
            final(self)@ == old(self)@.with(tab, old(self)@.on(tab).push(asset)),
    {
        let mut there = self.put(tab, Vec::new());
        there.push(asset);
        self.put(tab, there);
    }

    fn remove(&mut self, tab: ComposeTab, index: usize) -> (r: DraftAsset)
        requires
            index < old(self)@.on(tab).len(),
        ensures
            r == old(self)@.on(tab)[index as int],
            final(self)@ == old(self)@.with(tab, old(self)@.on(tab).remove(index as int)),
    {
        let mut there = self.put(tab, Vec::new());
        let asset = there.remove(index);
        self.put(tab, there);
        asset
    }
}

/// The composer's drafts: that of the active tab, those of the provider's other tabs, and what is
/// attached.
pub struct Composer {
    pub provider: Provider,
    /// The active tab's.
    pub draft: TabDraft,
    /// The provider's other tabs'.
    pub others: Vec<TabDraft>,
    pub assets: TabAssets,
    pub speaker1: Option<String>,
    pub speaker2: Option<String>,
}

/// The drafts as contracts speak of them.
#[verifier::ext_equal]
pub struct DraftModel {
    pub provider_id: Seq<char>,
    pub provider_name: Seq<char>,
    pub requires_api_key: bool,
    pub improves: bool,
    pub draft: TabModel,
    pub others: Seq<TabModel>,
    pub attached: Attached,
    pub speaker1: Option<Seq<char>>,
    pub speaker2: Option<Seq<char>>,
}

impl View for Composer {
    type V = DraftModel;

    open spec fn view(&self) -> DraftModel {
        DraftModel {
            provider_id: self.provider.id@,
            provider_name: self.provider.display_name@,
            requires_api_key: self.provider.requires_api_key,
            improves: self.provider.supports_prompt_improvement,
            draft: self.draft@,
            others: tabs_of(self.others@),
            attached: self.assets@,
            speaker1: opt_text(self.speaker1),
            speaker2: opt_text(self.speaker2),
        }
    }
}

impl DraftModel {
    /// What is kept of the drafts for when the provider is selected again.
    pub open spec fn saved(self) -> SavedModel {
        SavedModel {
            provider: self.provider_id,
            draft: self.draft,
            others: self.others,
            speaker1: self.speaker1,
            speaker2: self.speaker2,
        }
    }

    /// What is attached to the active tab.
    pub open spec fn assets(self) -> Seq<DraftAsset> {
        self.attached.on(self.draft.tab)
    }

    /// With `assets` attached to the active tab.
    pub open spec fn with_assets(self, assets: Seq<DraftAsset>) -> DraftModel {
        DraftModel { attached: self.attached.with(self.draft.tab, assets), ..self }
    }

    /// The slot of a role, where the model takes it.
    pub open spec fn slot(self, role: AssetRole) -> Option<RoleSlot> {
        match first_place(self.draft.slots, |s: RoleSlot| s.role == role) {
            Some(i) => Some(self.draft.slots[i]),
            None => None,
        }
    }

    pub open spec fn takes(self, role: AssetRole) -> bool {
        self.slot(role) is Some
    }

    /// How many assets are attached in a role.
    pub open spec fn attached_as(self, role: AssetRole) -> nat {
        count_of(self.assets(), |a: DraftAsset| a.role == role)
    }

    /// How many assets a role takes; none where the model does not take it.
    pub open spec fn limit(self, role: AssetRole) -> nat {
        match self.slot(role) {
            Some(slot) => slot.max as nat,
            None => 0,
        }
    }

    pub open spec fn full(self, role: AssetRole) -> bool {
        self.attached_as(role) >= self.limit(role)
    }

    /// The side of the divide a role is on, where the model takes it and draws one.
    pub open spec fn side(self, role: AssetRole) -> Option<Divide> {
        match self.slot(role) {
            Some(slot) => slot.side,
            None => None,
        }
    }

    /// Something is attached on this side of the divide.
    pub open spec fn filled(self, side: Divide) -> bool {
        exists|i: int| 0 <= i < self.assets().len() && self.side((#[trigger] self.assets()[i]).role) == Some(side)
    }

    /// The divide has closed a role off: the other side is filled, and the two can't be sent together.
    pub open spec fn is_closed(self, role: AssetRole) -> bool {
        match self.side(role) {
            Some(Divide::Frames) => self.filled(Divide::References),
            Some(Divide::References) => self.filled(Divide::Frames),
            None => false,
        }
    }

    /// Another asset can be added in a role: there is room, and the divide has not closed it off.
    pub open spec fn is_open(self, role: AssetRole) -> bool {
        !self.full(role) && !self.is_closed(role)
    }

    /// The role a picture that comes without one gets: the first it is offered that is open.
    pub open spec fn image_role(self) -> Option<AssetRole> {
        first_where(self.draft.image_order, |role: AssetRole| self.is_open(role))
    }

    /// The role a clip that comes without one gets; there is only one that takes one.
    pub open spec fn video_role(self) -> Option<AssetRole> {
        if self.is_open(AssetRole::ReferenceVideo) {
            Some(AssetRole::ReferenceVideo)
        } else {
            None
        }
    }

    /// A start or end frame is attached.
    pub open spec fn has_frames(self) -> bool {
        self.attached_as(AssetRole::FirstFrame) > 0 || self.attached_as(AssetRole::LastFrame) > 0
    }

    /// What is attached that the model takes, in order.
    pub open spec fn accepted(self) -> Seq<DraftAsset> {
        kept(self.assets(), |a: DraftAsset| self.takes(a.role))
    }

    /// Two speakers on the audio tab.
    pub open spec fn dialogue(self) -> bool {
        self.draft.tab == ComposeTab::Media(MediaType::Audio) && self.speaker2 is Some
    }

    /// Where the draft of another tab is.
    pub open spec fn other_place(self, tab: ComposeTab) -> Option<int> {
        first_place(self.others, |t: TabModel| t.tab == tab)
    }

    /// On another of the provider's tabs.
    pub open spec fn turned_to(self, i: int) -> DraftModel {
        DraftModel { draft: self.others[i], others: self.others.update(i, self.draft), ..self }
    }

    /// With a stored request loaded: its tab is the active one, with this draft and these inputs, and
    /// for speech with these voices.
    pub open spec fn loaded(self, draft: TabModel, inputs: Seq<DraftAsset>, voices: Option<(Option<Seq<char>>, Option<Seq<char>>)>) -> DraftModel {
        let others = if self.draft.tab == draft.tab {
            self.others
        } else {
            match self.other_place(draft.tab) {
                Some(i) => self.others.update(i, self.draft),
                None => self.others.push(self.draft),
            }
        };
        DraftModel {
            draft,
            others,
            speaker1: match voices {
                Some((one, _)) => one,
                None => self.speaker1,
            },
            speaker2: match voices {
                Some((_, two)) => two,
                None => self.speaker2,
            },
            ..self
        }.with_assets(inputs)
    }

    /// Each tab has one draft.
    pub open spec fn one_draft_per_tab(self) -> bool {
        &&& forall|i: int| 0 <= i < self.others.len() ==> (#[trigger] self.others[i]).tab != self.draft.tab
        &&& forall|i: int, j: int|
            0 <= i < j < self.others.len() ==> (#[trigger] self.others[i]).tab != (#[trigger] self.others[j]).tab
    }
}

/// Tool tabs have no prompt: the images are the whole input.
pub open spec fn has_prompt(tab: ComposeTab) -> bool {
    tab is Media
}

/// What the empty prompt field shows.
pub open spec fn placeholder_text(tab: ComposeTab, dialogue: bool) -> Seq<char> {
    match tab {
        ComposeTab::Media(MediaType::Image) => "Describe an image…"@,
        ComposeTab::Media(MediaType::Video) => "Describe a video…"@,
        ComposeTab::Media(MediaType::Audio) => if dialogue {
            "Speaker 1: …\nSpeaker 2: …"@
        } else {
            "What should the speaker say?"@
        },
        ComposeTab::Tool(_) => ""@,
    }
}

/// What the empty prompt field shows.
pub fn placeholder(tab: ComposeTab, dialogue: bool) -> (r: &'static str)
    ensures
        r@ == placeholder_text(tab, dialogue),
{
    match tab {
        ComposeTab::Media(MediaType::Image) => "Describe an image…",
        ComposeTab::Media(MediaType::Video) => "Describe a video…",
        ComposeTab::Media(MediaType::Audio) => if dialogue {
            "Speaker 1: …\nSpeaker 2: …"
        } else {
            "What should the speaker say?"
        },
        ComposeTab::Tool(_) => "",
    }
}

/// What the tab produces.
pub open spec fn plural_text(tab: ComposeTab) -> Seq<char> {
    match tab {
        ComposeTab::Media(MediaType::Image) => "images"@,
        ComposeTab::Media(MediaType::Video) => "videos"@,
        ComposeTab::Media(MediaType::Audio) => "audio"@,
        ComposeTab::Tool(ToolId::Upscale) => "upscaled images"@,
        ComposeTab::Tool(ToolId::RemoveBackground) => "images without a background"@,
    }
}

/// What the tab produces, for the missing-key message ("… API key to generate {plural}").
pub fn plural(tab: ComposeTab) -> (r: &'static str)
    ensures
        r@ == plural_text(tab),
{
    match tab {
        ComposeTab::Media(MediaType::Image) => "images",
        ComposeTab::Media(MediaType::Video) => "videos",
        ComposeTab::Media(MediaType::Audio) => "audio",
        ComposeTab::Tool(ToolId::Upscale) => "upscaled images",
        ComposeTab::Tool(ToolId::RemoveBackground) => "images without a background",
    }
}

/// The icon of an aspect ratio: `None` for a square or none chosen.
pub fn ratio_icon(portrait: Option<bool>) -> (r: &'static str)
    ensures
        r@ == ratio_glyph(portrait),
{
    match portrait {
        None => "square",
        Some(true) => "rectangle-vertical",
        Some(false) => "rectangle-horizontal",
    }
}

pub open spec fn ratio_glyph(portrait: Option<bool>) -> Seq<char> {
    match portrait {
        None => "square"@,
        Some(true) => "rectangle-vertical"@,
        Some(false) => "rectangle-horizontal"@,
    }
}

/// Where a role sits in the References row.
pub open spec fn rank_of(role: AssetRole) -> u8 {
    match role {
        AssetRole::FirstFrame => 0,
        AssetRole::LastFrame => 1,
        _ => 2,
    }
}

/// Where a role sits in the References row: the frames first, then everything else in the roles' own
/// order.
pub fn role_rank(role: AssetRole) -> (r: u8)
    ensures
        r == rank_of(role),
{
    match role {
        AssetRole::FirstFrame => 0,
        AssetRole::LastFrame => 1,
        _ => 2,
    }
}

/// The tab that owns a role: frames, audio and reference clips belong to video, the rest to image.
pub open spec fn home_tab(role: AssetRole) -> MediaType {
    match role {
        AssetRole::FirstFrame => MediaType::Video,
        AssetRole::LastFrame => MediaType::Video,
        AssetRole::Audio => MediaType::Video,
        AssetRole::ReferenceVideo => MediaType::Video,
        _ => MediaType::Image,
    }
}

/// The tab that owns a role.
pub fn tab_of_role(role: AssetRole) -> (r: MediaType)
    ensures
        r == home_tab(role),
{
    match role {
        AssetRole::FirstFrame => MediaType::Video,
        AssetRole::LastFrame => MediaType::Video,
        AssetRole::Audio => MediaType::Video,
        AssetRole::ReferenceVideo => MediaType::Video,
        _ => MediaType::Image,
    }
}

/// Key of an attached asset's card, given the asset's id as text.
pub fn thumb_key(asset: &str) -> (r: String)
    ensures
        r@ == "asset-"@ + asset@,
{
    cat("asset-", asset)
}

/// Key of a role's picker card, given the role's own name.
pub fn picker_key(role: &str) -> (r: String)
    ensures
        r@ == "asset-add-"@ + role@,
{
    cat("asset-add-", role)
}

impl Composer {
    fn slot_place(&self, role: AssetRole) -> (r: Option<usize>)
        ensures
            match r {
                Some(i) => i < self.draft.slots@.len() && self@.slot(role) == Some(self.draft.slots@[i as int]),
                None => self@.slot(role) is None,
            },
    {
        let ghost fits = |s: RoleSlot| s.role == role;
        let mut i: usize = 0;
        while i < self.draft.slots.len()
            invariant
                i <= self.draft.slots.len(),
                fits == (|s: RoleSlot| s.role == role),
                first_from(self.draft.slots@, fits, 0) == first_from(self.draft.slots@, fits, i as int),
            decreases self.draft.slots.len() - i,
        {
            if self.draft.slots[i].role == role {
                return Some(i);
            }
            i += 1;
        }
        None
    }

    /// Whether the model takes a role.
    pub fn accepts(&self, role: AssetRole) -> (r: bool)
        ensures
            r == self@.takes(role),
    {
        self.slot_place(role).is_some()
    }

    /// How many assets a role takes.
    pub fn role_limit(&self, role: AssetRole) -> (r: usize)
        ensures
            r == self@.limit(role),
    {
        match self.slot_place(role) {
            Some(i) => self.draft.slots[i].max,
            None => 0,
        }
    }

    /// What is attached to the active tab.
    pub fn active_assets(&self) -> (r: &Vec<DraftAsset>)
        ensures
            r@ == self@.assets(),
    {
        self.assets.on(self.draft.tab)
    }

    /// How many assets are attached in a role.
    pub fn role_count(&self, role: AssetRole) -> (r: usize)
        ensures
            r == self@.attached_as(role),
            r <= self@.assets().len(),
    {
        let assets = self.active_assets();
        let ghost fits = |a: DraftAsset| a.role == role;
        let ghost pick = |a: DraftAsset|
            if fits(a) {
                Some(a)
            } else {
                None
            };
        let mut n: usize = 0;
        let mut i: usize = 0;
        proof {
            lemma_picked_ends(assets@, pick);
        }
        while i < assets.len()
            invariant
                i <= assets.len(),
                n <= i,
                fits == (|a: DraftAsset| a.role == role),
                pick == (|a: DraftAsset|
                    if fits(a) {
                        Some(a)
                    } else {
                        None
                    }),
                n == picked(assets@.take(i as int), pick).len(),
            decreases assets.len() - i,
        {
            proof {
                lemma_picked_step(assets@, pick, i as int);
            }
            if assets[i].role == role {
                n += 1;
            }
            i += 1;
        }
        proof {
            lemma_picked_ends(assets@, pick);
        }
        n
    }

    /// Whether a role has no room left.
    pub fn role_is_full(&self, role: AssetRole) -> (r: bool)
        ensures
            r == self@.full(role),
    {
        self.role_count(role) >= self.role_limit(role)
    }

    /// What is attached that the model takes, in order.
    pub fn accepted_assets(&self) -> (r: Vec<DraftAsset>)
        ensures
            r@ == self@.accepted(),
    {
        let assets = self.active_assets();
        let ghost fits = |a: DraftAsset| self@.takes(a.role);
        let ghost pick = |a: DraftAsset|
            if fits(a) {
                Some(a)
            } else {
                None
            };
        let mut out: Vec<DraftAsset> = Vec::new();
        let mut i: usize = 0;
        proof {
            lemma_picked_ends(assets@, pick);
        }
        while i < assets.len()
            invariant
                i <= assets.len(),
                fits == (|a: DraftAsset| self@.takes(a.role)),
                pick == (|a: DraftAsset|
                    if fits(a) {
                        Some(a)
                    } else {
                        None
                    }),
                out@ == picked(assets@.take(i as int), pick),
            decreases assets.len() - i,
        {
            proof {
                lemma_picked_step(assets@, pick, i as int);
            }
            if self.accepts(assets[i].role) {
                out.push(assets[i]);
            }
            i += 1;
        }
        proof {
            lemma_picked_ends(assets@, pick);
        }
        out
    }

    fn side_of(&self, role: AssetRole) -> (r: Option<Divide>)
        ensures
            r == self@.side(role),
    {
        match self.slot_place(role) {
            Some(i) => self.draft.slots[i].side,
            None => None,
        }
    }

    fn is_filled(&self, side: Divide) -> (r: bool)
        ensures
            r == self@.filled(side),
    {
        let assets = self.active_assets();
        let mut i: usize = 0;
        while i < assets.len()
            invariant
                i <= assets.len(),
                assets@ == self@.assets(),
                forall|k: int| 0 <= k < i ==> self@.side((#[trigger] self@.assets()[k]).role) != Some(side),
            decreases assets.len() - i,
        {
            if self.side_of(assets[i].role) == Some(side) {
                assert(self@.side(self@.assets()[i as int].role) == Some(side));
                return true;
            }
            i += 1;
        }
        false
    }

    /// Whether another asset can be added in a role.
    pub fn role_is_open(&self, role: AssetRole) -> (r: bool)
        ensures
            r == self@.is_open(role),
    {
        if self.role_is_full(role) {
            return false;
        }
        match self.side_of(role) {
            Some(Divide::Frames) => !self.is_filled(Divide::References),
            Some(Divide::References) => !self.is_filled(Divide::Frames),
            None => true,
        }
    }

    /// The role a picture that comes without one gets.
    pub fn first_available_image_role(&self) -> (r: Option<AssetRole>)
        ensures
            r == self@.image_role(),
    {
        let ghost fits = |role: AssetRole| self@.is_open(role);
        let ghost order = self.draft.image_order@;
        let mut i: usize = 0;
        while i < self.draft.image_order.len()
            invariant
                i <= self.draft.image_order.len(),
                order == self.draft.image_order@,
                fits == (|role: AssetRole| self@.is_open(role)),
                first_from(order, fits, 0) == first_from(order, fits, i as int),
            decreases self.draft.image_order.len() - i,
        {
            if self.role_is_open(self.draft.image_order[i]) {
                return Some(self.draft.image_order[i]);
            }
            i += 1;
        }
        None
    }

    /// The role a clip that comes without one gets.
    pub fn first_available_video_role(&self) -> (r: Option<AssetRole>)
        ensures
            r == self@.video_role(),
    {
        if self.role_is_open(AssetRole::ReferenceVideo) {
            Some(AssetRole::ReferenceVideo)
        } else {
            None
        }
    }

    /// Whether a start or end frame is attached.
    pub fn has_frames(&self) -> (r: bool)
        ensures
            r == self@.has_frames(),
    {
        self.role_count(AssetRole::FirstFrame) > 0 || self.role_count(AssetRole::LastFrame) > 0
    }

    fn attach(&mut self, asset: DraftAsset)
        ensures
            final(self)@ == old(self)@.with_assets(old(self)@.assets().push(asset)),
    {
        self.assets.push(self.draft.tab, asset);
    }

    fn detach(&mut self, index: usize) -> (r: DraftAsset)
        requires
            index < old(self)@.assets().len(),
        ensures
            r == old(self)@.assets()[index as int],
            final(self)@ == old(self)@.with_assets(old(self)@.assets().remove(index as int)),
    {
        self.assets.remove(self.draft.tab, index)
    }

    /// Detach everything from the active tab; what is attached to the others stays.
    pub fn clear_active_assets(&mut self)
        ensures
            final(self)@ == old(self)@.with_assets(Seq::empty()),
    {
        self.assets.put(self.draft.tab, Vec::new());
    }

    /// Turn to a tab, if the provider has it. Returns whether it does.
    fn set_tab(&mut self, tab: ComposeTab) -> (there: bool)
        ensures
            there == (old(self)@.draft.tab == tab || old(self)@.other_place(tab) is Some),
            final(self)@ == if old(self)@.draft.tab == tab {
                old(self)@
            } else {
                match old(self)@.other_place(tab) {
                    Some(i) => old(self)@.turned_to(i),
                    None => old(self)@,
                }
            },
    {
        if self.draft.tab == tab {
            return true;
        }
        match self.other_tab(tab) {
            Some(i) => {
                let ghost was = self@;
                let mut there = self.others.remove(i);
                std::mem::swap(&mut there, &mut self.draft);
                self.others.insert(i, there);
                assert(tabs_of(self.others@) =~= was.others.update(i as int, was.draft));
                true
            },
            None => false,
        }
    }

    /// What is kept of the drafts for when the provider is selected again.
    pub fn to_draft(&self) -> (r: SavedDraft)
        ensures
            r@ == self@.saved(),
    {
        let mut others: Vec<TabDraft> = Vec::new();
        let mut i: usize = 0;
        while i < self.others.len()
            invariant
                i <= self.others.len(),
                others.len() == i,
                forall|k: int| 0 <= k < i ==> (#[trigger] others@[k])@ == self.others@[k]@,
            decreases self.others.len() - i,
        {
            others.push(self.others[i].copy());
            i += 1;
        }
        assert(tabs_of(others@) =~= tabs_of(self.others@));
        SavedDraft {
            provider: self.provider.id.clone(),
            draft: self.draft.copy(),
            others,
            speaker1: copy_text(&self.speaker1),
            speaker2: copy_text(&self.speaker2),
        }
    }

    fn load(&mut self, draft: TabDraft, inputs: Vec<DraftAsset>, voices: Option<(Option<String>, Option<String>)>)
        ensures
            final(self)@ == old(self)@.loaded(draft@, inputs@, voice_texts(voices)),
    {
        let ghost was = self@;
        let tab = draft.tab;
        if self.set_tab(tab) {
            self.draft = draft;
        } else {
            let mut left = draft;
            std::mem::swap(&mut left, &mut self.draft);
            self.others.push(left);
            assert(tabs_of(self.others@) =~= was.others.push(was.draft));
        }
        self.assets.put(tab, inputs);
        if let Some((one, two)) = voices {
            self.speaker1 = one;
            self.speaker2 = two;
        }
    }

    fn other_tab(&self, tab: ComposeTab) -> (r: Option<usize>)
        ensures
            match r {
                Some(i) => i < self.others@.len() && self@.other_place(tab) == Some(i as int),
                None => self@.other_place(tab) is None,
            },
    {
        let ghost fits = |t: TabModel| t.tab == tab;
        let mut i: usize = 0;
        while i < self.others.len()
            invariant
                i <= self.others.len(),
                fits == (|t: TabModel| t.tab == tab),
                first_from(self@.others, fits, 0) == first_from(self@.others, fits, i as int),
            decreases self.others.len() - i,
        {
            assert(self@.others[i as int] == self.others@[i as int]@);
            if self.others[i].tab == tab {
                return Some(i);
            }
            i += 1;
        }
        None
    }

    fn has_dialogue(&self) -> (r: bool)
        ensures
            r == self@.dialogue(),
    {
        self.draft.tab == ComposeTab::Media(MediaType::Audio) && self.speaker2.is_some()
    }
}

// ----- the panel ------------------------------------------------------------------------------

/// A card of the References row: an attached asset's, or the dashed one that adds to a role.
#[derive(Clone, Copy, Debug, PartialEq, Eq, Structural)]
pub enum CardKey {
    Thumb(AssetId),
    Picker(AssetRole),
}

impl Same for CardKey {
    fn same(self, other: CardKey) -> (r: bool) {
        self == other
    }
}

/// What a card that shrinks away was.
#[derive(Clone, Copy, Debug, PartialEq, Eq, Structural)]
pub enum ExitKind {
    /// A removed asset, still drawn at its old position.
    Thumb { asset: DraftAsset, index: usize },
    /// The dashed picker card of a role that just became full.
    Picker(AssetRole),
}

/// A card still shrinking away.
#[derive(Clone, Copy, Debug, PartialEq, Eq, Structural)]
pub struct ExitingCard {
    pub kind: ExitKind,
    pub started_ms: u64,
}

/// How cards come and go right now.
#[derive(Clone, Copy, Debug, PartialEq, Eq, Structural)]
pub struct Motion {
    /// The user asked for reduced motion: cards go at once.
    pub reduced: bool,
    pub now_ms: u64,
}

/// The composer panel's state.
pub struct ComposeView {
    pub state: Composer,
    pub exiting: Vec<ExitingCard>,
    /// Cards added since the panel was created; only these play the enter transition.
    pub entering: Vec<CardKey>,
    /// The role whose picker card a drag is currently over.
    pub drop_target: Option<AssetRole>,
    /// The album new generations go into: the sidebar's selection.
    pub album: Option<AlbumId>,
    pub prompt: String,
    /// What the settings keep of the prompt, for the next launch.
    pub stored_prompt: String,
    /// What the empty prompt field shows.
    pub placeholder: &'static str,
    /// A rewrite of the prompt is in flight, which freezes the panel.
    pub improving: bool,
}

/// The panel as contracts speak of it.
#[verifier::ext_equal]
pub struct PanelModel {
    pub state: DraftModel,
    pub exiting: Seq<ExitingCard>,
    pub entering: Set<CardKey>,
    pub drop_target: Option<AssetRole>,
    pub album: Option<AlbumId>,
    pub prompt: Seq<char>,
    pub stored_prompt: Seq<char>,
    pub placeholder: Seq<char>,
    pub improving: bool,
}

impl View for ComposeView {
    type V = PanelModel;

    open spec fn view(&self) -> PanelModel {
        PanelModel {
            state: self.state@,
            exiting: self.exiting@,
            entering: self.entering@.to_set(),
            drop_target: self.drop_target,
            album: self.album,
            prompt: self.prompt@,
            stored_prompt: self.stored_prompt@,
            placeholder: self.placeholder@,
            improving: self.improving,
        }
    }
}

impl PanelModel {
    /// Without in-flight card animations and drag state: they index into a tab list that was just
    /// swapped out from under them.
    pub open spec fn settled(self) -> PanelModel {
        PanelModel { exiting: Seq::empty(), drop_target: None, ..self }
    }

    /// With the placeholder the draft calls for.
    pub open spec fn labelled(self) -> PanelModel {
        PanelModel { placeholder: placeholder_text(self.state.draft.tab, self.state.dialogue()), ..self }
    }

    /// After a switch to `tab`, where the provider has it; without it, only a rewrite for the tab left
    /// behind is stopped.
    pub open spec fn switched(self, tab: ComposeTab) -> PanelModel {
        let stopped = PanelModel { improving: self.improving && self.state.draft.tab == tab, ..self };
        if self.state.draft.tab == tab {
            stopped.labelled()
        } else {
            match self.state.other_place(tab) {
                Some(i) => PanelModel { state: self.state.turned_to(i), ..stopped }.settled().labelled(),
                None => stopped,
            }
        }
    }

    /// With another provider's drafts, and what is attached carried over.
    pub open spec fn moved_to(self, to: DraftModel) -> PanelModel {
        PanelModel { state: DraftModel { attached: self.state.attached, ..to }, improving: false, ..self }.settled().labelled()
    }

    /// After the selected provider was read again, as `to`: another one brings its drafts.
    pub open spec fn synced(self, to: DraftModel) -> PanelModel {
        if to.provider_id != self.state.provider_id {
            self.moved_to(to)
        } else {
            self
        }
    }

    /// After the prompt was edited, which the settings follow.
    pub open spec fn edited(self, text: Seq<char>) -> PanelModel {
        PanelModel { prompt: text, stored_prompt: text, ..self }
    }

    /// With a card added to those shrinking away, unless motion is reduced.
    pub open spec fn with_exit(self, kind: ExitKind, motion: Motion) -> PanelModel {
        if motion.reduced {
            self
        } else {
            PanelModel { exiting: self.exiting.push(ExitingCard { kind, started_ms: motion.now_ms }), ..self }
        }
    }

    /// After an asset was attached in a role.
    pub open spec fn with_asset(self, asset: AssetId, role: AssetRole, motion: Motion) -> PanelModel {
        let state = self.state.with_assets(self.state.assets().push(DraftAsset { asset, role }));
        let shown = PanelModel { state, entering: self.entering.insert(CardKey::Thumb(asset)), ..self };
        if state.full(role) {
            PanelModel { entering: shown.entering.remove(CardKey::Picker(role)), ..shown }.with_exit(
                ExitKind::Picker(role),
                motion,
            )
        } else {
            shown
        }
    }

    /// After an asset was offered to a role, which takes it while it is open.
    pub open spec fn offered(self, asset: AssetId, role: AssetRole, motion: Motion) -> PanelModel {
        if self.state.is_open(role) {
            self.with_asset(asset, role, motion)
        } else {
            self
        }
    }

    /// After the asset at `index` was detached.
    pub open spec fn without_asset(self, index: int, motion: Motion) -> PanelModel {
        let asset = self.state.assets()[index];
        let state = self.state.with_assets(self.state.assets().remove(index));
        let was_full = state.attached_as(asset.role) + 1 >= state.limit(asset.role);
        let entering = self.entering.remove(CardKey::Thumb(asset.asset));
        PanelModel {
            state,
            exiting: kept(self.exiting, |e: ExitingCard| e.kind != ExitKind::Picker(asset.role)),
            entering: if was_full && !self.picker_leaving(asset.role) && !motion.reduced {
                entering.insert(CardKey::Picker(asset.role))
            } else {
                entering
            },
            ..self
        }.with_exit(ExitKind::Thumb { asset, index: index as usize }, motion)
    }

    /// The picker card of a role is shrinking away.
    pub open spec fn picker_leaving(self, role: AssetRole) -> bool {
        exists|i: int| 0 <= i < self.exiting.len() && (#[trigger] self.exiting[i]).kind == ExitKind::Picker(role)
    }
}

/// Where the keyboard focus goes in the panel.
#[derive(Clone, Copy, Debug, PartialEq, Eq, Structural)]
pub enum Focus {
    Prompt,
    /// The panel itself: a tool tab has no prompt box.
    Panel,
}

impl PanelModel {
    /// Where the keyboard focus goes: to the prompt, where there is one.
    pub open spec fn focus(self) -> Focus {
        if has_prompt(self.state.draft.tab) {
            Focus::Prompt
        } else {
            Focus::Panel
        }
    }
}

/// Which speaker a voice is for.
#[derive(Clone, Copy, Debug, PartialEq, Eq, Structural)]
pub enum Speaker {
    One,
    Two,
}

/// What became of the request a row stored, once read against the provider.
pub enum RecreateOutcome {
    /// It makes this draft of its tab, with the inputs it was made from, its voices if it is speech,
    /// and its prompt if its kind takes one.
    Loaded {
        draft: TabDraft,
        inputs: Vec<DraftAsset>,
        voices: Option<(Option<String>, Option<String>)>,
        warning: Option<String>,
        prompt: Option<String>,
    },
    /// The provider can't make that kind of media; this says so.
    Unsupported(String),
    /// The row is gone, or its request can't be read.
    Unreadable,
}

/// The voices of a stored request, as they are called.
pub open spec fn voice_texts(voices: Option<(Option<String>, Option<String>)>) -> Option<(Option<Seq<char>>, Option<Seq<char>>)> {
    match voices {
        Some((one, two)) => Some((opt_text(one), opt_text(two))),
        None => None,
    }
}

fn insert_card(cards: &mut Vec<CardKey>, key: CardKey)
    ensures
        final(cards)@.to_set() == old(cards)@.to_set().insert(key),
{
    if is_among(cards, key) {
        assert(cards@.to_set().insert(key) =~= cards@.to_set());
        return;
    }
    proof {
        lemma_push_to_set(cards@, key);
    }
    cards.push(key);
}

fn remove_card(cards: &mut Vec<CardKey>, key: CardKey)
    ensures
        final(cards)@.to_set() == old(cards)@.to_set().remove(key),
{
    let ghost fits = |y: CardKey| y != key;
    let ghost pick = |y: CardKey|
        if fits(y) {
            Some(y)
        } else {
            None
        };
    let mut out: Vec<CardKey> = Vec::new();
    let mut i: usize = 0;
    proof {
        lemma_picked_ends(cards@, pick);
    }
    while i < cards.len()
        invariant
            i <= cards.len(),
            fits == (|y: CardKey| y != key),
            pick == (|y: CardKey|
                if fits(y) {
                    Some(y)
                } else {
                    None
                }),
            out@ == picked(cards@.take(i as int), pick),
        decreases cards.len() - i,
    {
        proof {
            lemma_picked_step(cards@, pick, i as int);
        }
        if cards[i] != key {
            out.push(cards[i]);
        }
        i += 1;
    }
    proof {
        lemma_picked_ends(cards@, pick);
        lemma_without_to_set(cards@, fits, key);
    }
    *cards = out;
}

impl ComposeView {
    /// The panel over a draft, with the prompt that was being written, as the settings have it.
    pub fn new(state: Composer, draft_prompt: String) -> (r: ComposeView)
        ensures
            r@ == (PanelModel {
                state: state@,
                exiting: Seq::<ExitingCard>::empty(),
                entering: Set::<CardKey>::empty(),
                drop_target: None,
                album: None,
                prompt: draft_prompt@,
                stored_prompt: draft_prompt@,
                placeholder: placeholder_text(state@.draft.tab, state@.dialogue()),
                improving: false,
            }),
    {
        let text = placeholder(state.draft.tab, state.has_dialogue());
        let view = ComposeView {
            state,
            exiting: Vec::new(),
            entering: Vec::new(),
            drop_target: None,
            album: None,
            prompt: draft_prompt.clone(),
            stored_prompt: draft_prompt,
            placeholder: text,
            improving: false,
        };
        assert(view.entering@.to_set() =~= Set::<CardKey>::empty());
        view
    }

    /// The prompt was edited; the settings keep what is typed.
    pub fn set_prompt(&mut self, text: String)
        ensures
            final(self)@ == old(self)@.edited(text@),
    {
        self.stored_prompt = text.clone();
        self.prompt = text;
    }

    /// The selected provider was read again: `to` has its drafts. Drafts are per provider; input
    /// assets are not, so they carry over. A rewrite in flight was for the old provider's model.
    /// Returns whether the provider changed.
    pub fn sync_provider(&mut self, to: Composer) -> (changed: bool)
        ensures
            changed == (to@.provider_id != old(self)@.state.provider_id),
            final(self)@ == old(self)@.synced(to@),
    {
        if same_text(to.provider.id.as_str(), self.state.provider.id.as_str()) {
            return false;
        }
        self.improving = false;
        let mut to = to;
        std::mem::swap(&mut to.assets, &mut self.state.assets);
        self.state = to;
        self.reset_transients();
        self.refresh_placeholder();
        true
    }

    /// The provider menu: pick one of the providers that can run right now. It is stored for the
    /// whole app, so tools elsewhere go to the same provider; `to` has its drafts. Returns whether
    /// the provider changed.
    pub fn select_provider(&mut self, id: String, configured: &mut String, to: Composer) -> (changed: bool)
        ensures
            final(configured)@ == id@,
            changed == (to@.provider_id != old(self)@.state.provider_id),
            final(self)@ == old(self)@.synced(to@),
    {
        *configured = id;
        self.sync_provider(to)
    }

    fn reset_transients(&mut self)
        ensures
            final(self)@ == old(self)@.settled(),
    {
        self.exiting = Vec::new();
        self.drop_target = None;
    }

    fn refresh_placeholder(&mut self)
        ensures
            final(self)@ == old(self)@.labelled(),
    {
        self.placeholder = placeholder(self.state.draft.tab, self.state.has_dialogue());
    }

    /// Where the keyboard focus goes.
    pub fn focus_prompt(&self) -> (r: Focus)
        ensures
            r == self@.focus(),
    {
        if self.takes_prompt() {
            Focus::Prompt
        } else {
            Focus::Panel
        }
    }

    /// Tool tabs have no prompt.
    pub fn takes_prompt(&self) -> (r: bool)
        ensures
            r == has_prompt(self@.state.draft.tab),
    {
        matches!(self.state.draft.tab, ComposeTab::Media(_))
    }

    /// The album the sidebar has selected. Returns whether it is another one.
    pub fn set_album(&mut self, album: Option<AlbumId>) -> (changed: bool)
        ensures
            changed == (old(self)@.album != album),
            final(self)@ == (PanelModel { album, ..old(self)@ }),
    {
        let changed = self.album != album;
        self.album = album;
        changed
    }

    /// Take over a request from the feed or the detail, on the selected provider, read again as `to`:
    /// adopt its tab, its stored inputs and its prompt, or change nothing more when this provider can't
    /// make that kind of media. A tool request has no prompt, so what is typed stays. Returns what to
    /// tell the user, and where the keyboard focus goes. The settings follow the new prompt once the
    /// field reports it as an edit.
    pub fn apply(&mut self, to: Composer, recreate: Option<RecreateOutcome>) -> (r: (Option<String>, Focus))
        ensures
            ({
                let panel = old(self)@.synced(to@);
                match recreate {
                    Some(RecreateOutcome::Loaded { draft, inputs, voices, warning, prompt }) => {
                        &&& final(self)@ == (PanelModel {
                            prompt: match prompt {
                                Some(text) => text@,
                                None => panel.prompt,
                            },
                            ..PanelModel { state: panel.state.loaded(draft@, inputs@, voice_texts(voices)), ..panel }.settled().labelled()
                        })
                        &&& opt_text(r.0) == opt_text(warning)
                    },
                    Some(RecreateOutcome::Unsupported(message)) => final(self)@ == panel && opt_text(r.0) == Some(message@),
                    Some(RecreateOutcome::Unreadable) => final(self)@ == panel && opt_text(r.0) == Some(
                        "This was made with a model or setting not available in this version."@,
                    ),
                    None => final(self)@ == panel && r.0 is None,
                }
            }),
            r.1 == final(self)@.focus(),
    {
        self.sync_provider(to);
        let toast = match recreate {
            Some(RecreateOutcome::Loaded { draft, inputs, voices, warning, prompt }) => {
                self.state.load(draft, inputs, voices);
                self.reset_transients();
                self.refresh_placeholder();
                if let Some(text) = prompt {
                    self.prompt = text;
                }
                warning
            },
            Some(RecreateOutcome::Unsupported(message)) => Some(message),
            Some(RecreateOutcome::Unreadable) => Some(
                "This was made with a model or setting not available in this version.".to_owned(),
            ),
            None => None,
        };
        (toast, self.focus_prompt())
    }

    // ----- tabs and settings -----

    /// Switch to a tab, where the provider has it: its draft is as it was left. A rewrite in flight
    /// was for the tab left behind.
    pub fn set_tab(&mut self, tab: ComposeTab)
        ensures
            final(self)@ == old(self)@.switched(tab),
    {
        let changed = self.state.draft.tab != tab;
        if changed {
            self.improving = false;
        }
        if !self.state.set_tab(tab) {
            return;
        }
        if changed {
            self.reset_transients();
        }
        self.refresh_placeholder();
    }

    /// Pick a model: `to` is the active tab's draft with it. A rewrite is written for one model; a
    /// different one gets a fresh ask. What is attached stays.
    pub fn select_model(&mut self, to: TabDraft)
        ensures
            final(self)@ == (PanelModel {
                state: DraftModel { draft: TabModel { tab: old(self)@.state.draft.tab, ..to@ }, ..old(self)@.state },
                improving: false,
                ..old(self)@
            }),
    {
        self.improving = false;
        self.set_options(to);
    }

    /// An option of the active tab was chosen: `to` is its draft with it.
    pub fn set_options(&mut self, to: TabDraft)
        ensures
            final(self)@ == (PanelModel {
                state: DraftModel { draft: TabModel { tab: old(self)@.state.draft.tab, ..to@ }, ..old(self)@.state },
                ..old(self)@
            }),
    {
        let tab = self.state.draft.tab;
        self.state.draft = to;
        self.state.draft.tab = tab;
    }

    /// Pick a voice. The first speaker always has one; the second can go without. `ready` is whether
    /// the settings make a complete request with it.
    pub fn set_voice(&mut self, speaker: Speaker, voice: Option<String>, ready: bool)
        ensures
            final(self)@ == (PanelModel {
                state: DraftModel {
                    draft: TabModel { ready, ..old(self)@.state.draft },
                    speaker1: if speaker == Speaker::One && voice is Some {
                        opt_text(voice)
                    } else {
                        old(self)@.state.speaker1
                    },
                    speaker2: if speaker == Speaker::Two {
                        opt_text(voice)
                    } else {
                        old(self)@.state.speaker2
                    },
                    ..old(self)@.state
                },
                ..old(self)@
            }.labelled()),
    {
        match speaker {
            Speaker::One => {
                if voice.is_some() {
                    self.state.speaker1 = voice;
                }
            },
            Speaker::Two => {
                self.state.speaker2 = voice;
            },
        }
        self.state.draft.ready = ready;
        self.refresh_placeholder();
    }

    /// The count stepper's buttons: clamped to 1 to `MAX_COUNT`, on the image and video tabs, which
    /// have a count.
    pub fn step_count(&mut self, delta: i64)
        ensures
            final(self)@ == (PanelModel {
                state: DraftModel {
                    draft: TabModel {
                        count: stepped(old(self)@.state.draft.tab, old(self)@.state.draft.count, delta),
                        ..old(self)@.state.draft
                    },
                    ..old(self)@.state
                },
                ..old(self)@
            }),
    {
        if matches!(self.state.draft.tab, ComposeTab::Media(MediaType::Image)) || matches!(self.state.draft.tab, ComposeTab::Media(MediaType::Video)) {
            let moved: i128 = self.state.draft.count as i128 + delta as i128;
            self.state.draft.count = if moved < 1 {
                1
            } else if moved > MAX_COUNT as i128 {
                MAX_COUNT
            } else {
                moved as usize
            };
        }
    }

    /// The prompt is emptied. The settings follow once the field reports it as an edit.
    pub fn clear_prompt(&mut self)
        ensures
            final(self)@ == (PanelModel { prompt: Seq::<char>::empty(), ..old(self)@ }),
    {
        self.prompt = String::new();
    }

    // ----- assets -----

    /// Attach an asset to the active tab in a role, while that is open. A role it fills loses its
    /// picker card. Returns whether it was attached.
    pub fn add_asset(&mut self, asset: AssetId, role: AssetRole, motion: Motion) -> (added: bool)
        ensures
            added == old(self)@.state.is_open(role),
            final(self)@ == old(self)@.offered(asset, role, motion),
    {
        if !self.state.role_is_open(role) {
            return false;
        }
        self.state.attach(DraftAsset { asset, role });
        insert_card(&mut self.entering, CardKey::Thumb(asset));
        if self.state.role_is_full(role) {
            remove_card(&mut self.entering, CardKey::Picker(role));
            self.start_exit(ExitKind::Picker(role), motion);
        }
        true
    }

    /// Detach the asset at `index`. Its role's picker card comes back: a pending exit is cancelled,
    /// and one that had finished enters again.
    pub fn remove_asset(&mut self, index: usize, motion: Motion)
        ensures
            final(self)@ == if index < old(self)@.state.assets().len() {
                old(self)@.without_asset(index as int, motion)
            } else {
                old(self)@
            },
    {
        if index >= self.state.active_assets().len() {
            return;
        }
        let asset = self.state.detach(index);
        remove_card(&mut self.entering, CardKey::Thumb(asset.asset));
        let count: usize = self.state.role_count(asset.role);
        let limit: usize = self.state.role_limit(asset.role);
        let was_full = limit == 0 || count >= limit - 1;
        let ghost was = self.exiting@;
        let ghost fits = |e: ExitingCard| e.kind != ExitKind::Picker(asset.role);
        let ghost pick = |e: ExitingCard|
            if fits(e) {
                Some(e)
            } else {
                None
            };
        let mut leaving = false;
        let mut rest: Vec<ExitingCard> = Vec::new();
        let mut i: usize = 0;
        proof {
            lemma_picked_ends(was, pick);
        }
        while i < self.exiting.len()
            invariant
                i <= self.exiting.len(),
                was == self.exiting@,
                fits == (|e: ExitingCard| e.kind != ExitKind::Picker(asset.role)),
                pick == (|e: ExitingCard|
                    if fits(e) {
                        Some(e)
                    } else {
                        None
                    }),
                rest@ == picked(was.take(i as int), pick),
                leaving == exists|k: int| 0 <= k < i && (#[trigger] was[k]).kind == ExitKind::Picker(asset.role),
            decreases self.exiting.len() - i,
        {
            proof {
                lemma_picked_step(was, pick, i as int);
            }
            if self.exiting[i].kind != ExitKind::Picker(asset.role) {
                rest.push(self.exiting[i]);
            } else {
                assert(was[i as int].kind == ExitKind::Picker(asset.role));
                leaving = true;
            }
            i += 1;
        }
        proof {
            lemma_picked_ends(was, pick);
        }
        self.exiting = rest;
        if was_full && !leaving && !motion.reduced {
            insert_card(&mut self.entering, CardKey::Picker(asset.role));
        }
        self.start_exit(ExitKind::Thumb { asset, index }, motion);
    }

    fn start_exit(&mut self, kind: ExitKind, motion: Motion)
        ensures
            final(self)@ == old(self)@.with_exit(kind, motion),
    {
        if motion.reduced {
            return;
        }
        self.exiting.push(ExitingCard { kind, started_ms: motion.now_ms });
    }

    /// Drop the cards that have shrunk away: those whose exit, which `lasts_ms`, is over.
    pub fn prune_exits(&mut self, now_ms: u64, lasts_ms: u64)
        ensures
            final(self)@ == (PanelModel {
                exiting: kept(old(self)@.exiting, |e: ExitingCard| still_leaving(e, now_ms, lasts_ms)),
                ..old(self)@
            }),
    {
        let ghost fits = |e: ExitingCard| still_leaving(e, now_ms, lasts_ms);
        let ghost pick = |e: ExitingCard|
            if fits(e) {
                Some(e)
            } else {
                None
            };
        let mut rest: Vec<ExitingCard> = Vec::new();
        let mut i: usize = 0;
        proof {
            lemma_picked_ends(self.exiting@, pick);
        }
        while i < self.exiting.len()
            invariant
                i <= self.exiting.len(),
                fits == (|e: ExitingCard| still_leaving(e, now_ms, lasts_ms)),
                pick == (|e: ExitingCard|
                    if fits(e) {
                        Some(e)
                    } else {
                        None
                    }),
                rest@ == picked(self.exiting@.take(i as int), pick),
            decreases self.exiting.len() - i,
        {
            proof {
                lemma_picked_step(self.exiting@, pick, i as int);
            }
            let card = self.exiting[i];
            let gone_for: u64 = if now_ms >= card.started_ms {
                now_ms - card.started_ms
            } else {
                0
            };
            if gone_for < lasts_ms {
                rest.push(card);
            }
            i += 1;
        }
        proof {
            lemma_picked_ends(self.exiting@, pick);
        }
        self.exiting = rest;
    }

    /// A drag reports, for the card of `role`, whether it is over it. Returns whether the card that
    /// lights up changed.
    pub fn set_drop_target(&mut self, role: AssetRole, inside: bool) -> (changed: bool)
        ensures
            final(self)@ == (PanelModel { drop_target: target_after(old(self)@.drop_target, role, inside), ..old(self)@ }),
            changed == (target_after(old(self)@.drop_target, role, inside) != old(self)@.drop_target),
    {
        let next = if inside {
            Some(role)
        } else if self.drop_target == Some(role) {
            None
        } else {
            self.drop_target
        };
        let changed = next != self.drop_target;
        self.drop_target = next;
        changed
    }
}

/// The count after a step of the stepper.
pub open spec fn stepped(tab: ComposeTab, count: usize, delta: i64) -> usize {
    if tab == ComposeTab::Media(MediaType::Image) || tab == ComposeTab::Media(MediaType::Video) {
        if count + delta < 1 {
            1
        } else if count + delta > MAX_COUNT {
            MAX_COUNT
        } else {
            (count + delta) as usize
        }
    } else {
        count
    }
}

/// A card's exit is not over yet; a clock that ran backwards counts as no time.
pub open spec fn still_leaving(card: ExitingCard, now_ms: u64, lasts_ms: u64) -> bool {
    if now_ms >= card.started_ms {
        now_ms - card.started_ms < lasts_ms
    } else {
        lasts_ms > 0
    }
}

/// The card that lights up, after a drag reported whether it is over that of `role`.
pub open spec fn target_after(target: Option<AssetRole>, role: AssetRole, inside: bool) -> Option<AssetRole> {
    if inside {
        Some(role)
    } else if target == Some(role) {
        None
    } else {
        target
    }
}

// ----- prompt and Generate --------------------------------------------------------------------

impl PanelModel {
    /// How many items Generate will make.
    pub open spec fn total(self) -> nat {
        if !has_prompt(self.state.draft.tab) {
            self.state.accepted().len()
        } else if blank(self.prompt) && !(self.state.draft.prompt_optional && self.state.accepted().len() > 0) {
            0
        } else {
            self.state.draft.count as nat
        }
    }

    /// How many characters the prompt has, without white space around it.
    pub open spec fn characters(self) -> nat {
        trimmed(self.prompt).len()
    }

    /// Whether Generate can be pressed.
    pub open spec fn generates(self) -> bool {
        self.total() > 0 && (has_prompt(self.state.draft.tab) ==> self.state.draft.ready && match self.state.draft.prompt_limit {
            Some(limit) => self.characters() <= limit,
            None => true,
        })
    }

    /// Whether Improve is offered: a prompt to write, on a provider that can rewrite one.
    pub open spec fn offers_improve(self) -> bool {
        (self.state.draft.tab == ComposeTab::Media(MediaType::Image) || self.state.draft.tab == ComposeTab::Media(MediaType::Video))
            && self.state.improves
    }

    /// An attached asset the model takes has no file behind it any more.
    pub open spec fn input_gone(self, lib: Library) -> bool {
        exists|i: int|
            0 <= i < self.state.accepted().len() && asset_gone(lib, (#[trigger] self.state.accepted()[i]).asset)
    }

    /// After the draft was submitted.
    pub open spec fn submitted(self) -> PanelModel {
        PanelModel {
            prompt: Seq::empty(),
            stored_prompt: Seq::empty(),
            state: self.state.with_assets(Seq::empty()),
            ..self
        }
    }
}

/// An asset whose file, or row, is gone.
pub open spec fn asset_gone(lib: Library, asset: AssetId) -> bool {
    match lib.asset_at(asset) {
        Some(a) => a.missing,
        None => true,
    }
}

/// What an amount of money reads as, and whether it is nothing.
#[derive(Clone, Debug, PartialEq, Eq)]
pub struct Amount {
    pub text: String,
    pub is_zero: bool,
}

/// What asking the selected provider's tables and the library about a submission says. Each is only
/// consulted when the ones before it let the submission through.
pub struct GenerateChecks {
    /// The provider's key is stored.
    pub has_key: bool,
    /// The attached roles are within what the model takes, or why they are not.
    pub constraints: Result<(), String>,
    /// How many requests came of what `request_query` says they are built from.
    pub requests: usize,
    /// The requests are valid, or why they are not.
    pub validation: Result<(), String>,
}

/// What the requests of a submission are built from.
#[derive(Clone, Debug, PartialEq, Eq)]
pub struct RequestQuery {
    pub provider: String,
    pub model: Option<ModelInfo>,
    pub prompt: String,
    pub inputs: Vec<DraftAsset>,
    pub count: usize,
}

/// What pressing Generate does.
#[derive(Clone, Debug, PartialEq, Eq)]
pub enum GenerateOutcome {
    /// Open the settings on the provider whose key is missing.
    OpenSettings { provider: String, message: String },
    /// Run the tool.
    Tool(ToolId),
    /// Tell the user what is missing; nothing else changes.
    Refused(String),
    /// Queue the requests, with these inputs, into this album.
    Submit { total: usize, inputs: Vec<DraftAsset>, album: Option<AlbumId>, toast: String },
}

/// What pressing Generate does, over plain sequences.
pub enum GenerateAnswer {
    OpenSettings(Seq<char>),
    Tool(ToolId),
    Refused(Seq<char>),
    Submit,
}

/// What pressing Generate does.
pub open spec fn generate_answer(panel: PanelModel, lib: Library, checks: GenerateChecks) -> GenerateAnswer {
    if panel.state.requires_api_key && !checks.has_key {
        GenerateAnswer::OpenSettings(
            "Please configure your "@ + panel.state.provider_name + " API key to generate "@ + plural_text(panel.state.draft.tab) + "."@,
        )
    } else if panel.state.draft.tab is Tool {
        GenerateAnswer::Tool(panel.state.draft.tab->Tool_0)
    } else if !panel.state.draft.ready {
        GenerateAnswer::Refused("Pick a model first."@)
    } else if checks.constraints is Err {
        GenerateAnswer::Refused(checks.constraints->Err_0@)
    } else if panel.input_gone(lib) {
        GenerateAnswer::Refused("An input's file is no longer available. Remove it or add it again."@)
    } else if checks.requests == 0 {
        GenerateAnswer::Refused("Write a prompt first."@)
    } else if checks.validation is Err {
        GenerateAnswer::Refused(checks.validation->Err_0@)
    } else {
        GenerateAnswer::Submit
    }
}

/// What pressing Improve does.
#[derive(Clone, Debug, PartialEq, Eq)]
pub enum ImproveOutcome {
    Nothing,
    /// The rewrite that was running is cancelled; the prompt was never modified.
    Cancelled,
    /// Open the settings on the provider whose key is missing.
    OpenSettings { provider: String, message: String },
    Toast(&'static str),
    /// Ask the provider's text model for a rewrite of the prompt, written for this model and for
    /// inputs in these roles.
    Ask { provider: String, model: Option<ModelInfo>, prompt: String, roles: Vec<AssetRole> },
}

/// What a rewrite that came back does.
#[derive(Clone, Debug, PartialEq, Eq)]
pub enum Rewritten {
    Nothing,
    Toast(String),
    /// Replace what the prompt field holds by this in one edit, so that one undo gives the user's own
    /// words back, and put the keyboard focus there.
    Replace { text: String, focus: Focus },
}

/// The roles of `assets`, in order.
pub open spec fn roles_of(assets: Seq<DraftAsset>) -> Seq<AssetRole> {
    Seq::new(assets.len(), |i: int| assets[i].role)
}

/// The ids of `assets`, in order.
pub open spec fn draft_ids(assets: Seq<DraftAsset>) -> Seq<AssetId> {
    Seq::new(assets.len(), |i: int| assets[i].asset)
}

/// Whether `outcome` is what asking for a rewrite gives.
pub open spec fn improve_answer(panel: PanelModel, has_key: bool, outcome: ImproveOutcome) -> bool {
    if !panel.offers_improve() || blank(panel.prompt) {
        outcome is Nothing
    } else if panel.state.requires_api_key && !has_key {
        outcome matches ImproveOutcome::OpenSettings { provider, message } && provider@ == panel.state.provider_id && message@
            == "Please configure your "@ + panel.state.provider_name + " API key to improve prompts."@
    } else if !panel.state.draft.ready {
        outcome matches ImproveOutcome::Toast(text) && text@ == "Pick a model first."@
    } else {
        outcome matches ImproveOutcome::Ask { provider, model, prompt, roles } && provider@ == panel.state.provider_id && model
            == panel.state.draft.model && prompt@ == trimmed(panel.prompt) && roles@ == roles_of(panel.state.accepted())
    }
}

fn roles(assets: &Vec<DraftAsset>) -> (r: Vec<AssetRole>)
    ensures
        r@ == roles_of(assets@),
{
    let mut out: Vec<AssetRole> = Vec::new();
    let mut i: usize = 0;
    while i < assets.len()
        invariant
            i <= assets.len(),
            out@ == roles_of(assets@.take(i as int)),
        decreases assets.len() - i,
    {
        out.push(assets[i].role);
        i += 1;
        assert(out@ =~= roles_of(assets@.take(i as int)));
    }
    assert(assets@.take(assets@.len() as int) =~= assets@);
    out
}

/// What running a tool starts with.
#[derive(Clone, Debug, PartialEq, Eq)]
pub enum ToolStart {
    Refused(String),
    /// Queue one row per image, with this model of this provider, into this album.
    Run { provider: String, model: ModelInfo, assets: Vec<AssetId>, album: Option<AlbumId> },
}

impl ComposeView {
    /// What the user typed, trimmed. The only prompt this panel holds.
    pub fn prompt_value(&self) -> (r: String)
        ensures
            r@ == trimmed(self@.prompt),
    {
        trim(self.prompt.as_str())
    }

    /// How many items Generate will make. Only assets the model accepts can stand in for a prompt;
    /// on a tool tab every image becomes an item.
    pub fn total(&self) -> (r: usize)
        ensures
            r == self@.total(),
    {
        let accepted = self.state.accepted_assets();
        if !self.takes_prompt() {
            return accepted.len();
        }
        if is_blank(self.prompt.as_str()) && !(self.state.draft.prompt_optional && accepted.len() > 0) {
            return 0;
        }
        self.state.draft.count
    }

    /// What to price for the estimate under the Generate button: the number of characters and of
    /// items. `None` draws no line at all, which happens only on an audio tab with nothing typed,
    /// where the cost depends entirely on the text's length. Before there is anything to generate,
    /// the price of one item is still worth showing.
    pub fn cost_query(&self) -> (r: Option<(usize, usize)>)
        ensures
            match r {
                Some((characters, items)) => {
                    &&& !(self@.state.draft.tab == ComposeTab::Media(MediaType::Audio) && self@.characters() == 0)
                    &&& characters == self@.characters()
                    &&& items == if self@.total() == 0 {
                        1
                    } else {
                        self@.total()
                    }
                },
                None => self@.state.draft.tab == ComposeTab::Media(MediaType::Audio) && self@.characters() == 0,
            },
    {
        let typed = self.prompt_value();
        let characters: usize = typed.as_str().unicode_len();
        if self.state.draft.tab == ComposeTab::Media(MediaType::Audio) && characters == 0 {
            return None;
        }
        let total: usize = self.total();
        Some(
            (
                characters,
                if total == 0 {
                    1
                } else {
                    total
                },
            ),
        )
    }

    /// The estimate under the Generate button: what pressing it right now would cost, given the
    /// amount the query came to, if it can be priced.
    pub fn cost_caption(&self, amount: &Option<Amount>) -> (r: Option<String>)
        ensures
            opt_text(r) == caption_text(self@, *amount),
    {
        if self.cost_query().is_none() {
            return None;
        }
        match amount {
            None => Some("No estimate available".to_owned()),
            Some(amount) => if amount.is_zero {
                Some("Free".to_owned())
            } else if self.total() == 0 {
                Some(cat3("≈ ", amount.text.as_str(), " each"))
            } else {
                Some(cat3("≈ ", amount.text.as_str(), " estimated"))
            },
        }
    }

    /// Whether Generate can be pressed: there is something to make, the settings make a complete
    /// request, and the prompt is within the model's cap.
    pub fn can_generate(&self) -> (r: bool)
        ensures
            r == self@.generates(),
    {
        if !self.takes_prompt() {
            return self.total() > 0;
        }
        let within_limit = match self.state.draft.prompt_limit {
            Some(limit) => self.prompt_value().as_str().unicode_len() <= limit,
            None => true,
        };
        self.total() > 0 && within_limit && self.state.draft.ready
    }

    /// Whether an accepted card has no file behind it any more.
    pub fn missing_input(&self, lib: &Library) -> (r: bool)
        ensures
            r == self@.input_gone(*lib),
    {
        let accepted = self.state.accepted_assets();
        let mut i: usize = 0;
        while i < accepted.len()
            invariant
                i <= accepted.len(),
                accepted@ == self@.state.accepted(),
                forall|k: int| 0 <= k < i ==> !asset_gone(*lib, (#[trigger] self@.state.accepted()[k]).asset),
            decreases accepted.len() - i,
        {
            let gone = match lib.asset(accepted[i].asset) {
                Some(asset) => asset.missing,
                None => true,
            };
            if gone {
                assert(asset_gone(*lib, self@.state.accepted()[i as int].asset));
                return true;
            }
            i += 1;
        }
        false
    }

    /// The accepted assets to read for the provider. An asset whose file is gone is left out (the
    /// row still references it, so Retry picks it up once the file is back).
    pub fn load_asset_inputs(&self, lib: &Library) -> (r: Vec<DraftAsset>)
        ensures
            r@ == kept(self@.state.accepted(), |a: DraftAsset| !asset_gone(*lib, a.asset)),
    {
        let accepted = self.state.accepted_assets();
        let ghost fits = |a: DraftAsset| !asset_gone(*lib, a.asset);
        let ghost pick = |a: DraftAsset|
            if fits(a) {
                Some(a)
            } else {
                None
            };
        let mut out: Vec<DraftAsset> = Vec::new();
        let mut i: usize = 0;
        proof {
            lemma_picked_ends(accepted@, pick);
        }
        while i < accepted.len()
            invariant
                i <= accepted.len(),
                fits == (|a: DraftAsset| !asset_gone(*lib, a.asset)),
                pick == (|a: DraftAsset|
                    if fits(a) {
                        Some(a)
                    } else {
                        None
                    }),
                out@ == picked(accepted@.take(i as int), pick),
            decreases accepted.len() - i,
        {
            proof {
                lemma_picked_step(accepted@, pick, i as int);
            }
            let there = match lib.asset(accepted[i].asset) {
                Some(asset) => !asset.missing,
                None => false,
            };
            if there {
                out.push(accepted[i]);
            }
            i += 1;
        }
        proof {
            lemma_picked_ends(accepted@, pick);
        }
        out
    }

    /// Whether the Improve button is drawn at all: a media tab with a prompt, on a provider that
    /// routes a text model. (It is then disabled until something is typed.)
    pub fn can_improve(&self) -> (r: bool)
        ensures
            r == self@.offers_improve(),
    {
        (matches!(self.state.draft.tab, ComposeTab::Media(MediaType::Image)) || matches!(self.state.draft.tab, ComposeTab::Media(MediaType::Video)))
            && self.state.provider.supports_prompt_improvement
    }

    /// The button and its shortcut: start a rewrite, or cancel the one running.
    pub fn toggle_improve(&mut self, to: Composer, has_key: bool) -> (r: ImproveOutcome)
        ensures
            old(self)@.improving ==> r is Cancelled && final(self)@ == (PanelModel { improving: false, ..old(self)@ }),
            !old(self)@.improving ==> improve_answer(old(self)@.synced(to@), has_key, r) && final(self)@ == (PanelModel {
                improving: r is Ask,
                ..old(self)@.synced(to@)
            }),
    {
        if self.improving {
            self.improving = false;
            ImproveOutcome::Cancelled
        } else {
            self.improve(to, has_key)
        }
    }

    /// Drop the in-flight rewrite. The prompt is untouched, since it was never modified. Returns
    /// whether there was one; with none, Escape goes on to mean what it does elsewhere.
    pub fn cancel_improve(&mut self) -> (r: bool)
        ensures
            r == old(self)@.improving,
            final(self)@ == (PanelModel { improving: false, ..old(self)@ }),
    {
        let was = self.improving;
        self.improving = false;
        was
    }

    /// Rewrite the prompt with the text model of the selected provider, read again as `to`: what to ask,
    /// or why nothing is asked. `has_key` is whether that provider's key is stored.
    pub fn improve(&mut self, to: Composer, has_key: bool) -> (r: ImproveOutcome)
        ensures
            improve_answer(old(self)@.synced(to@), has_key, r),
            final(self)@ == (PanelModel { improving: old(self)@.synced(to@).improving || r is Ask, ..old(self)@.synced(to@) }),
    {
        self.sync_provider(to);
        if !self.can_improve() || is_blank(self.prompt.as_str()) {
            return ImproveOutcome::Nothing;
        }
        if self.state.provider.requires_api_key && !has_key {
            let message = cat3("Please configure your ", self.state.provider.display_name.as_str(), " API key to improve prompts.");
            return ImproveOutcome::OpenSettings { provider: self.state.provider.id.clone(), message };
        }
        if !self.state.draft.ready {
            return ImproveOutcome::Toast("Pick a model first.");
        }
        self.improving = true;
        ImproveOutcome::Ask {
            provider: self.state.provider.id.clone(),
            model: self.state.draft.model,
            prompt: self.prompt_value(),
            roles: roles(&self.state.accepted_assets()),
        }
    }

    /// The rewrite came back: with a text, with an error, or, where nothing could run it, with
    /// neither. An answer to a rewrite that was cancelled is dropped.
    pub fn improved(&mut self, outcome: Option<Result<String, String>>) -> (r: Rewritten)
        ensures
            !old(self)@.improving ==> r is Nothing && final(self)@ == old(self)@,
            old(self)@.improving ==> match outcome {
                Some(Ok(text)) => rewritten(PanelModel { improving: false, ..old(self)@ }, text@, final(self)@, r),
                Some(Err(e)) => {
                    &&& final(self)@ == (PanelModel { improving: false, ..old(self)@ })
                    &&& r matches Rewritten::Toast(told) && told@ == "Couldn't improve the prompt: "@ + e@
                },
                None => r is Nothing && final(self)@ == (PanelModel { improving: false, ..old(self)@ }),
            },
    {
        if !self.improving {
            return Rewritten::Nothing;
        }
        self.improving = false;
        match outcome {
            Some(Ok(text)) => self.apply_improved(text),
            Some(Err(e)) => Rewritten::Toast(cat("Couldn't improve the prompt: ", e.as_str())),
            None => Rewritten::Nothing,
        }
    }

    /// Put the rewrite in the prompt, trimmed, as one edit; an empty one is not written, and the user
    /// is told.
    pub fn apply_improved(&mut self, text: String) -> (r: Rewritten)
        ensures
            rewritten(old(self)@, text@, final(self)@, r),
    {
        proof {
            trimming_empties_only_blank_text(text@);
        }
        let text = trim(text.as_str());
        if text.as_str().is_empty() {
            return Rewritten::Toast("The model returned an empty prompt.".to_owned());
        }
        self.set_prompt(text.clone());
        Rewritten::Replace { text, focus: self.focus_prompt() }
    }

    /// What the requests of a submission are built from: the prompt as typed, the files of the inputs
    /// that are there, and how many are asked for.
    pub fn request_query(&self, lib: &Library) -> (r: RequestQuery)
        ensures
            r.provider@ == self@.state.provider_id,
            r.model == self@.state.draft.model,
            r.prompt@ == self@.prompt,
            r.inputs@ == kept(self@.state.accepted(), |a: DraftAsset| !asset_gone(*lib, a.asset)),
            r.count == self@.state.draft.count,
    {
        RequestQuery {
            provider: self.state.provider.id.clone(),
            model: self.state.draft.model,
            prompt: self.prompt.clone(),
            inputs: self.load_asset_inputs(lib),
            count: self.state.draft.count,
        }
    }

    /// Submit the draft to the selected provider, read again as `to`, if nothing is missing. Submitting
    /// supersedes a rewrite of the prompt being submitted. Hidden roles aren't sent, but too many of an accepted role is refused here rather
    /// than as a failed row from the provider; a card whose file is gone is refused rather than
    /// left out of the request.
    pub fn generate(&mut self, to: Composer, lib: &Library, checks: GenerateChecks) -> (r: GenerateOutcome)
        ensures
            ({
                let panel = PanelModel { improving: false, ..old(self)@.synced(to@) };
                match generate_answer(panel, *lib, checks) {
                    GenerateAnswer::OpenSettings(text) => {
                        &&& r matches GenerateOutcome::OpenSettings { provider, message } && provider@ == panel.state.provider_id && message@
                            == text
                        &&& final(self)@ == panel
                    },
                    GenerateAnswer::Tool(tool) => r == GenerateOutcome::Tool(tool) && final(self)@ == panel,
                    GenerateAnswer::Refused(text) => {
                        &&& r matches GenerateOutcome::Refused(message) && message@ == text
                        &&& final(self)@ == panel
                    },
                    GenerateAnswer::Submit => {
                        &&& r matches GenerateOutcome::Submit { total, inputs, album, toast } && total == checks.requests && inputs@
                            == panel.state.accepted() && album == panel.album && toast@ == "Generating "@ + dec(
                            checks.requests as nat,
                        ) + " item(s) with "@ + panel.state.provider_name + "…"@
                        &&& final(self)@ == panel.submitted()
                    },
                }
            }),
    {
        self.improving = false;
        self.sync_provider(to);
        if self.state.provider.requires_api_key && !checks.has_key {
            let mut message = cat3("Please configure your ", self.state.provider.display_name.as_str(), " API key to generate ");
            message.append(plural(self.state.draft.tab));
            message.append(".");
            return GenerateOutcome::OpenSettings { provider: self.state.provider.id.clone(), message };
        }
        if let ComposeTab::Tool(tool) = self.state.draft.tab {
            return GenerateOutcome::Tool(tool);
        }
        if !self.state.draft.ready {
            return GenerateOutcome::Refused("Pick a model first.".to_owned());
        }
        if let Err(e) = checks.constraints {
            return GenerateOutcome::Refused(e);
        }
        if self.missing_input(lib) {
            return GenerateOutcome::Refused(
                "An input's file is no longer available. Remove it or add it again.".to_owned(),
            );
        }
        if checks.requests == 0 {
            return GenerateOutcome::Refused("Write a prompt first.".to_owned());
        }
        if let Err(e) = checks.validation {
            return GenerateOutcome::Refused(e);
        }
        let inputs = self.state.accepted_assets();
        let mut toast = cat3("Generating ", count_text(checks.requests).as_str(), " item(s) with ");
        toast.append(self.state.provider.display_name.as_str());
        toast.append("…");
        self.prompt = String::new();
        self.stored_prompt = String::new();
        self.state.clear_active_assets();
        GenerateOutcome::Submit { total: checks.requests, inputs, album: self.album, toast }
    }

    /// Submit on a tool tab: one row per attached image with the tab's selected model.
    pub fn run_tool(&self, constraints: Result<(), String>) -> (r: ToolStart)
        ensures
            ({
                let accepted = self@.state.accepted();
                if accepted.len() == 0 {
                    r matches ToolStart::Refused(text) && text@ == "Add an image first."@
                } else if constraints is Err {
                    r matches ToolStart::Refused(text) && text@ == constraints->Err_0@
                } else if self@.state.draft.model is None {
                    r matches ToolStart::Refused(text) && text@ == "Pick a model first."@
                } else {
                    r matches ToolStart::Run { provider, model, assets, album } && provider@ == self@.state.provider_id && Some(model)
                        == self@.state.draft.model && assets@ == draft_ids(accepted) && album == self@.album
                }
            }),
    {
        let accepted = self.state.accepted_assets();
        if accepted.len() == 0 {
            return ToolStart::Refused("Add an image first.".to_owned());
        }
        if let Err(e) = constraints {
            return ToolStart::Refused(e);
        }
        let model = match self.state.draft.model {
            Some(model) => model,
            None => {
                return ToolStart::Refused("Pick a model first.".to_owned());
            },
        };
        let mut assets: Vec<AssetId> = Vec::new();
        let mut i: usize = 0;
        while i < accepted.len()
            invariant
                i <= accepted.len(),
                assets@ == draft_ids(accepted@.take(i as int)),
            decreases accepted.len() - i,
        {
            assets.push(accepted[i].asset);
            i += 1;
            assert(assets@ =~= draft_ids(accepted@.take(i as int)));
        }
        assert(accepted@.take(accepted@.len() as int) =~= accepted@);
        ToolStart::Run { provider: self.state.provider.id.clone(), model, assets, album: self.album }
    }

    /// The tool was run over the images, and `queued` rows were made. The images stay attached when
    /// nothing was queued, so the user can fix the input and try again.
    pub fn tool_ran(&mut self, tool: &str, queued: usize) -> (toast: String)
        ensures
            queued == 0 ==> final(self)@ == old(self)@ && toast@ == "No supported images (PNG, JPEG, WebP or GIF)."@,
            queued > 0 ==> {
                &&& final(self)@ == (PanelModel {
                    state: old(self)@.state.with_assets(Seq::empty()),
                    ..old(self)@
                }.settled())
                &&& toast@ == tool@ + ": processing "@ + dec(queued as nat) + " image(s)…"@
            },
    {
        if queued == 0 {
            return "No supported images (PNG, JPEG, WebP or GIF).".to_owned();
        }
        self.state.clear_active_assets();
        self.reset_transients();
        let mut toast = cat3(tool, ": processing ", count_text(queued).as_str());
        toast.append(" image(s)…");
        toast
    }
}

/// The line under the Generate button.
pub open spec fn caption_text(panel: PanelModel, amount: Option<Amount>) -> Option<Seq<char>> {
    if panel.state.draft.tab == ComposeTab::Media(MediaType::Audio) && panel.characters() == 0 {
        None
    } else {
        Some(
            match amount {
                None => "No estimate available"@,
                Some(amount) => if amount.is_zero {
                    "Free"@
                } else if panel.total() == 0 {
                    "≈ "@ + amount.text@ + " each"@
                } else {
                    "≈ "@ + amount.text@ + " estimated"@
                },
            },
        )
    }
}

/// Whether `after` and `r` are what a rewrite into `text` makes of `before`.
pub open spec fn rewritten(before: PanelModel, text: Seq<char>, after: PanelModel, r: Rewritten) -> bool {
    if blank(text) {
        after == before && (r matches Rewritten::Toast(told) && told@ == "The model returned an empty prompt."@)
    } else {
        after == before.edited(trimmed(text)) && (r matches Rewritten::Replace { text: written, focus } && written@ == trimmed(text) && focus
            == before.focus())
    }
}

// ----- inputs ---------------------------------------------------------------------------------

/// The kind of media a role takes.
pub open spec fn role_media(role: AssetRole) -> MediaType {
    match role {
        AssetRole::Audio => MediaType::Audio,
        AssetRole::ReferenceVideo => MediaType::Video,
        _ => MediaType::Image,
    }
}

/// Whether a role takes media of this kind: audio the audio role, clips the reference video role,
/// and pictures every other.
pub fn accepts_kind(role: AssetRole, kind: MediaType) -> (r: bool)
    ensures
        r == (role_media(role) == kind),
{
    match role {
        AssetRole::Audio => kind == MediaType::Audio,
        AssetRole::ReferenceVideo => kind == MediaType::Video,
        _ => kind == MediaType::Image,
    }
}

/// What became of a file that was picked or dropped in.
#[derive(Clone, Debug, PartialEq, Eq)]
pub enum PathOutcome {
    /// The file at this path couldn't be read.
    Unreadable(String),
    /// It became this asset.
    Imported(AssetId),
    /// It is no input for the role; this says why.
    Rejected(String),
}

/// Whether the files that couldn't be read may be called so, each in its place.
pub open spec fn may_be_called(outcomes: Seq<PathOutcome>, names: Seq<Option<Seq<char>>>) -> bool {
    &&& names.len() == outcomes.len()
    &&& forall|i: int|
        0 <= i < outcomes.len() ==> (#[trigger] outcomes[i] matches PathOutcome::Unreadable(path) ==> may_be_named(path@, names[i]))
}

/// The names in `names`, as contracts speak of them.
pub open spec fn opt_texts(names: Seq<Option<String>>) -> Seq<Option<Seq<char>>> {
    Seq::new(names.len(), |i: int| opt_text(names[i]))
}

/// What the `i`th file is called; nothing where it has no name.
pub open spec fn called(names: Seq<Option<Seq<char>>>, i: int) -> Seq<char> {
    if 0 <= i < names.len() {
        match names[i] {
            Some(name) => name,
            None => Seq::empty(),
        }
    } else {
        Seq::empty()
    }
}

/// What the user is told of files that could not be added, the files being called `names`: each that
/// couldn't be read, and each other reason once.
pub open spec fn failure_texts(outcomes: Seq<PathOutcome>, names: Seq<Option<Seq<char>>>) -> Seq<Seq<char>>
    decreases outcomes.len(),
{
    if outcomes.len() == 0 {
        Seq::empty()
    } else {
        let before = failure_texts(outcomes.drop_last(), names);
        match outcomes.last() {
            PathOutcome::Unreadable(_) => before.push(called(names, outcomes.len() - 1) + " couldn't be read."@),
            PathOutcome::Imported(_) => before,
            PathOutcome::Rejected(why) => if before.contains(why@) {
                before
            } else {
                before.push(why@)
            },
        }
    }
}

/// The toast about files that could not be added; none where all could.
pub open spec fn failure_toast(outcomes: Seq<PathOutcome>, names: Seq<Option<Seq<char>>>) -> Option<Seq<char>> {
    if failure_texts(outcomes, names).len() > 0 {
        Some(joined(failure_texts(outcomes, names), "\n"@))
    } else {
        None
    }
}

impl PanelModel {
    /// After files were picked or dropped in for a role.
    pub open spec fn with_files(self, role: AssetRole, outcomes: Seq<PathOutcome>, motion: Motion) -> PanelModel
        decreases outcomes.len(),
    {
        if outcomes.len() == 0 {
            self
        } else {
            let before = self.with_files(role, outcomes.drop_last(), motion);
            match outcomes.last() {
                PathOutcome::Imported(asset) => before.offered(asset, role, motion),
                _ => before,
            }
        }
    }

    /// After a drag was dropped on a role's card: each asset of a kind the role takes is offered to it.
    pub open spec fn with_dragged(self, role: AssetRole, dragged: Seq<DraggedAsset>, motion: Motion) -> PanelModel
        decreases dragged.len(),
    {
        if dragged.len() == 0 {
            self
        } else {
            let before = self.with_dragged(role, dragged.drop_last(), motion);
            if role_media(role) == dragged.last().kind {
                before.offered(dragged.last().id, role, motion)
            } else {
                before
            }
        }
    }

    /// What offering an asset to a role makes.
    pub open spec fn placed(self, asset: AssetId, role: AssetRole, motion: Motion) -> Placed {
        Placed { panel: self.offered(asset, role, motion), added: self.state.is_open(role), toast: None }
    }

    /// What attaching an asset in a role, called `name`, makes: on the tab that owns the role where
    /// the current one has no such slot, and with a word to the user where the model there does not
    /// take it or has no room.
    pub open spec fn placed_as(self, asset: AssetId, role: AssetRole, name: Seq<char>, motion: Motion) -> Placed {
        let panel = if self.state.takes(role) {
            self
        } else {
            self.switched(ComposeTab::Media(home_tab(role)))
        };
        if !panel.state.takes(role) {
            Placed { panel, added: false, toast: Some("The selected model doesn't take a "@ + name + " input."@) }
        } else if panel.state.full(role) {
            Placed { panel, added: false, toast: Some("No room for another "@ + name + " input."@) }
        } else {
            panel.placed(asset, role, motion)
        }
    }

    /// What a picture that comes without a role makes: it goes to the first that is open here, or else
    /// on the Image tab.
    pub open spec fn placed_image(self, asset: AssetId, motion: Motion) -> Placed {
        let panel = if self.state.image_role() is Some {
            self
        } else {
            self.switched(ComposeTab::Media(MediaType::Image))
        };
        match panel.state.image_role() {
            Some(role) => panel.placed(asset, role, motion),
            None => Placed { panel, added: false, toast: Some("No room for another input image."@) },
        }
    }

    /// What a clip that comes without a role makes: it goes to the reference video role here, or else
    /// on the Video tab.
    pub open spec fn placed_video(self, asset: AssetId, motion: Motion) -> Placed {
        let panel = if self.state.video_role() is Some {
            self
        } else {
            self.switched(ComposeTab::Media(MediaType::Video))
        };
        match panel.state.video_role() {
            Some(role) => panel.placed(asset, role, motion),
            None => Placed {
                panel,
                added: false,
                toast: Some(
                    if panel.state.has_frames() {
                        "Remove the start or end frame to use references instead."@
                    } else {
                        "This model doesn't take a video reference."@
                    },
                ),
            },
        }
    }

    /// What one dragged asset dropped on the panel makes, the audio role being called `name`.
    pub open spec fn placed_by_kind(self, dragged: DraggedAsset, name: Seq<char>, motion: Motion) -> Placed {
        match dragged.kind {
            MediaType::Audio => self.placed_as(dragged.id, AssetRole::Audio, name, motion),
            MediaType::Image => self.placed_image(dragged.id, motion),
            MediaType::Video => self.placed_video(dragged.id, motion),
        }
    }

    /// After a drag was dropped on the panel.
    pub open spec fn after_drop(self, dragged: Seq<DraggedAsset>, name: Seq<char>, motion: Motion) -> PanelModel
        decreases dragged.len(),
    {
        if dragged.len() == 0 {
            PanelModel { drop_target: None, ..self }
        } else {
            self.after_drop(dragged.drop_last(), name, motion).placed_by_kind(dragged.last(), name, motion).panel
        }
    }

    /// What the user is told of a drag dropped on the panel.
    pub open spec fn drop_toasts(self, dragged: Seq<DraggedAsset>, name: Seq<char>, motion: Motion) -> Seq<Seq<char>>
        decreases dragged.len(),
    {
        if dragged.len() == 0 {
            Seq::empty()
        } else {
            let before = self.drop_toasts(dragged.drop_last(), name, motion);
            match self.after_drop(dragged.drop_last(), name, motion).placed_by_kind(dragged.last(), name, motion).toast {
                Some(toast) => before.push(toast),
                None => before,
            }
        }
    }
}

/// What became of an asset that was to be attached: the panel after it, whether it was attached, and
/// what the user is told.
#[verifier::ext_equal]
pub struct Placed {
    pub panel: PanelModel,
    pub added: bool,
    pub toast: Option<Seq<char>>,
}

/// One piece of the clipboard.
#[derive(Clone, Copy, Debug, PartialEq, Eq, Structural)]
pub enum ClipboardPiece {
    /// A picture: a PNG already, or one that can be made a PNG.
    Image { png: bool, transcodes: bool },
    Other,
}

/// What pasting a picture does.
#[derive(Clone, Copy, Debug)]
pub enum PasteStep {
    /// There is no clipboard to paste from.
    Nothing,
    /// Import the picture of this piece.
    Import(usize),
    Toast(&'static str),
}

/// A piece the composer can paste.
pub open spec fn pasteable(piece: ClipboardPiece) -> bool {
    match piece {
        ClipboardPiece::Image { png, transcodes } => png || transcodes,
        ClipboardPiece::Other => false,
    }
}

/// The content type a file is imported with.
pub open spec fn input_type(role: AssetRole, extension: Option<Seq<char>>) -> Seq<char> {
    match role {
        AssetRole::Audio => {
            let lower = match extension {
                Some(e) => ascii_lowercase(e),
                None => Seq::empty(),
            };
            if lower == "wav"@ {
                "audio/wav"@
            } else if lower == "mp3"@ {
                "audio/mpeg"@
            } else {
                lower
            }
        },
        AssetRole::ReferenceVideo => "video/mp4"@,
        _ => "image"@,
    }
}

/// The content type a file with this extension is imported with for a role.
pub fn input_content_type(role: AssetRole, extension: &Option<String>) -> (r: String)
    ensures
        r@ == input_type(role, opt_text(*extension)),
{
    match role {
        AssetRole::Audio => {
            let lower = match extension {
                Some(e) => to_ascii_lowercase(e.as_str()),
                None => String::new(),
            };
            if same_text(lower.as_str(), "wav") {
                "audio/wav".to_owned()
            } else if same_text(lower.as_str(), "mp3") {
                "audio/mpeg".to_owned()
            } else {
                lower
            }
        },
        AssetRole::ReferenceVideo => "video/mp4".to_owned(),
        _ => "image".to_owned(),
    }
}

/// The content type the file at `path` is imported with for a role.
pub fn path_content_type(role: AssetRole, path: &str) -> (r: String)
    ensures
        exists|extension: Option<Seq<char>>| #[trigger] may_have(path@, extension) && r@ == input_type(role, extension),
{
    let extension = path_extension(path);
    let r = input_content_type(role, &extension);
    assert(may_have(path@, opt_text(extension)));
    r
}

/// The content type an input is stored with: what it came with for audio and clips, and for a
/// picture what its bytes say it is, or a PNG.
pub fn stored_content_type(role: AssetRole, given: &str, sniffed: &Option<String>) -> (r: String)
    ensures
        r@ == if role == AssetRole::Audio || role == AssetRole::ReferenceVideo {
            given@
        } else {
            match *sniffed {
                Some(mime) => mime@,
                None => "image/png"@,
            }
        },
{
    match role {
        AssetRole::Audio => given.to_owned(),
        AssetRole::ReferenceVideo => given.to_owned(),
        _ => match sniffed {
            Some(mime) => mime.clone(),
            None => "image/png".to_owned(),
        },
    }
}

fn says(failures: &Vec<String>, text: &str) -> (r: bool)
    ensures
        r == texts(failures@).contains(text@),
{
    let mut i: usize = 0;
    while i < failures.len()
        invariant
            i <= failures.len(),
            forall|k: int| 0 <= k < i ==> #[trigger] texts(failures@)[k] != text@,
        decreases failures.len() - i,
    {
        if same_text(failures[i].as_str(), text) {
            assert(texts(failures@)[i as int] == text@);
            return true;
        }
        assert(texts(failures@)[i as int] != text@);
        i += 1;
    }
    false
}

/// Whether a role takes something of what is dragged.
pub open spec fn takes_some(role: AssetRole, dragged: Seq<DraggedAsset>) -> bool {
    exists|i: int| 0 <= i < dragged.len() && role_media(role) == (#[trigger] dragged[i]).kind
}

impl ComposeView {
    /// A drag from a grid dropped on `role`'s card: every dragged asset of a kind the role takes.
    pub fn add_dragged(&mut self, role: AssetRole, dragged: &Vec<DraggedAsset>, motion: Motion)
        ensures
            final(self)@ == (PanelModel { drop_target: None, ..old(self)@ }).with_dragged(role, dragged@, motion),
    {
        self.drop_target = None;
        let ghost before = self@;
        let mut i: usize = 0;
        assert(dragged@.take(0) =~= Seq::empty());
        while i < dragged.len()
            invariant
                i <= dragged.len(),
                self@ == before.with_dragged(role, dragged@.take(i as int), motion),
            decreases dragged.len() - i,
        {
            assert(dragged@.take(i + 1).drop_last() =~= dragged@.take(i as int));
            assert(dragged@.take(i + 1).last() == dragged@[i as int]);
            if accepts_kind(role, dragged[i].kind) {
                self.add_asset(dragged[i].id, role, motion);
            }
            i += 1;
        }
        assert(dragged@.take(dragged@.len() as int) =~= dragged@);
    }

    /// Whether a drag can be dropped on `role`'s card: the role takes something it carries.
    pub fn can_drop(&self, role: AssetRole, dragged: &Vec<DraggedAsset>) -> (r: bool)
        ensures
            r == takes_some(role, dragged@),
    {
        let mut i: usize = 0;
        while i < dragged.len()
            invariant
                i <= dragged.len(),
                forall|k: int| 0 <= k < i ==> role_media(role) != (#[trigger] dragged@[k]).kind,
            decreases dragged.len() - i,
        {
            if accepts_kind(role, dragged[i].kind) {
                assert(role_media(role) == dragged@[i as int].kind);
                return true;
            }
            i += 1;
        }
        false
    }

    /// A drag from a grid reports, for the card of `role`, whether it is over it: only cards whose role
    /// takes something of it light up. Returns whether the card that lights up changed.
    pub fn drag_over(&mut self, role: AssetRole, dragged: &Vec<DraggedAsset>, inside: bool) -> (changed: bool)
        ensures
            ({
                let next = target_after(old(self)@.drop_target, role, inside && takes_some(role, dragged@));
                final(self)@ == (PanelModel { drop_target: next, ..old(self)@ }) && changed == (next != old(self)@.drop_target)
            }),
    {
        let takes = self.can_drop(role, dragged);
        self.set_drop_target(role, inside && takes)
    }

    /// A drag from a grid dropped on the panel itself rather than a card: pictures go to the first
    /// free image role, audio to the audio role, which is called `audio`, and clips to the reference
    /// video role. Returns what to tell the user.
    pub fn drop_on_panel(&mut self, dragged: &Vec<DraggedAsset>, audio: &str, motion: Motion) -> (toasts: Vec<String>)
        ensures
            final(self)@ == old(self)@.after_drop(dragged@, lowercase(audio@), motion),
            texts(toasts@) == old(self)@.drop_toasts(dragged@, lowercase(audio@), motion),
    {
        let name = to_lowercase(audio);
        self.drop_called(dragged, name.as_str(), motion)
    }

    /// A drag dropped on the panel, the audio role being called `name` in the middle of a sentence.
    pub fn drop_called(&mut self, dragged: &Vec<DraggedAsset>, name: &str, motion: Motion) -> (toasts: Vec<String>)
        ensures
            final(self)@ == old(self)@.after_drop(dragged@, name@, motion),
            texts(toasts@) == old(self)@.drop_toasts(dragged@, name@, motion),
    {
        let ghost before = self@;
        self.drop_target = None;
        let mut toasts: Vec<String> = Vec::new();
        let mut i: usize = 0;
        assert(dragged@.take(0) =~= Seq::empty());
        assert(texts(toasts@) =~= Seq::empty());
        while i < dragged.len()
            invariant
                i <= dragged.len(),
                self@ == before.after_drop(dragged@.take(i as int), name@, motion),
                texts(toasts@) == before.drop_toasts(dragged@.take(i as int), name@, motion),
            decreases dragged.len() - i,
        {
            assert(dragged@.take(i + 1).drop_last() =~= dragged@.take(i as int));
            assert(dragged@.take(i + 1).last() == dragged@[i as int]);
            let (_, toast) = self.drop_one(&dragged[i], name, motion);
            let ghost told = texts(toasts@);
            if let Some(text) = toast {
                toasts.push(text);
                assert(texts(toasts@) =~= told.push(text@));
            }
            i += 1;
        }
        assert(dragged@.take(dragged@.len() as int) =~= dragged@);
        toasts
    }

    fn drop_one(&mut self, dragged: &DraggedAsset, name: &str, motion: Motion) -> (r: (bool, Option<String>))
        ensures
            became(old(self)@.placed_by_kind(*dragged, name@, motion), final(self)@, r),
    {
        match dragged.kind {
            MediaType::Audio => self.add_called(dragged.id, AssetRole::Audio, name, motion),
            MediaType::Image => self.add_image(dragged.id, motion),
            MediaType::Video => self.add_video(dragged.id, motion),
        }
    }

    /// Attach `asset` in `role`, moving to the tab that owns the role when the current one has no
    /// such slot. The user is told when the model there doesn't take the role, which is called `name`,
    /// or has no room left. Returns whether the asset was attached, and what to tell the user.
    pub fn add_as(&mut self, asset: AssetId, role: AssetRole, name: &str, motion: Motion) -> (r: (bool, Option<String>))
        ensures
            became(old(self)@.placed_as(asset, role, lowercase(name@), motion), final(self)@, r),
    {
        let name = to_lowercase(name);
        self.add_called(asset, role, name.as_str(), motion)
    }

    /// Attach `asset` in `role`, which is called `name` in the middle of a sentence.
    pub fn add_called(&mut self, asset: AssetId, role: AssetRole, name: &str, motion: Motion) -> (r: (bool, Option<String>))
        ensures
            became(old(self)@.placed_as(asset, role, name@, motion), final(self)@, r),
    {
        if !self.state.accepts(role) {
            self.set_tab(ComposeTab::Media(tab_of_role(role)));
        }
        if !self.state.accepts(role) {
            return (false, Some(cat3("The selected model doesn't take a ", name, " input.")));
        }
        if self.state.role_is_full(role) {
            return (false, Some(cat3("No room for another ", name, " input.")));
        }
        (self.add_asset(asset, role, motion), None)
    }

    /// Paste and a drop on the panel: the current tab's first free image slot, falling back to the
    /// Image tab; a word to the user when nothing has room.
    pub fn add_image(&mut self, asset: AssetId, motion: Motion) -> (r: (bool, Option<String>))
        ensures
            became(old(self)@.placed_image(asset, motion), final(self)@, r),
    {
        if self.state.first_available_image_role().is_none() {
            self.set_tab(ComposeTab::Media(MediaType::Image));
        }
        match self.state.first_available_image_role() {
            Some(role) => (self.add_asset(asset, role, motion), None),
            None => (false, Some("No room for another input image.".to_owned())),
        }
    }

    /// A dropped clip: the reference video slot of the Video tab, the only role that takes one.
    pub fn add_video(&mut self, asset: AssetId, motion: Motion) -> (r: (bool, Option<String>))
        ensures
            became(old(self)@.placed_video(asset, motion), final(self)@, r),
    {
        if self.state.first_available_video_role().is_none() {
            self.set_tab(ComposeTab::Media(MediaType::Video));
        }
        match self.state.first_available_video_role() {
            Some(role) => (self.add_asset(asset, role, motion), None),
            None => if self.state.has_frames() {
                (false, Some("Remove the start or end frame to use references instead.".to_owned()))
            } else {
                (false, Some("This model doesn't take a video reference.".to_owned()))
            },
        }
    }

    /// Files dropped on the card of a role: no card is lit any more, and the files are added.
    pub fn drop_paths(&mut self, role: AssetRole, outcomes: &Vec<PathOutcome>, motion: Motion) -> (toast: Option<String>)
        ensures
            final(self)@ == (PanelModel { drop_target: None, ..old(self)@ }).with_files(role, outcomes@, motion),
            exists|names: Seq<Option<Seq<char>>>|
                #[trigger] may_be_called(outcomes@, names) && opt_text(toast) == failure_toast(outcomes@, names),
    {
        self.drop_target = None;
        self.add_paths(role, outcomes, motion)
    }

    /// Files picked or dropped in for a role: each that became an asset is offered to it. Failures are
    /// told together.
    pub fn add_paths(&mut self, role: AssetRole, outcomes: &Vec<PathOutcome>, motion: Motion) -> (toast: Option<String>)
        ensures
            final(self)@ == old(self)@.with_files(role, outcomes@, motion),
            exists|names: Seq<Option<Seq<char>>>|
                #[trigger] may_be_called(outcomes@, names) && opt_text(toast) == failure_toast(outcomes@, names),
    {
        let mut names: Vec<Option<String>> = Vec::new();
        let mut i: usize = 0;
        while i < outcomes.len()
            invariant
                i <= outcomes.len(),
                names.len() == i,
                forall|k: int|
                    0 <= k < i ==> (#[trigger] outcomes@[k] matches PathOutcome::Unreadable(path) ==> may_be_named(
                        path@,
                        opt_text(names@[k]),
                    )),
            decreases outcomes.len() - i,
        {
            let name = match &outcomes[i] {
                PathOutcome::Unreadable(path) => path_name(path.as_str()),
                _ => None,
            };
            names.push(name);
            i += 1;
        }
        assert(may_be_called(outcomes@, opt_texts(names@)));
        self.add_named(role, outcomes, &names, motion)
    }

    /// Files picked or dropped in for a role, called `names`.
    pub fn add_named(&mut self, role: AssetRole, outcomes: &Vec<PathOutcome>, names: &Vec<Option<String>>, motion: Motion) -> (toast: Option<
        String,
    >)
        ensures
            final(self)@ == old(self)@.with_files(role, outcomes@, motion),
            opt_text(toast) == failure_toast(outcomes@, opt_texts(names@)),
    {
        let mut failures: Vec<String> = Vec::new();
        let mut i: usize = 0;
        let ghost before = self@;
        assert(outcomes@.take(0) =~= Seq::empty());
        assert(texts(failures@) =~= Seq::empty());
        while i < outcomes.len()
            invariant
                i <= outcomes.len(),
                self@ == before.with_files(role, outcomes@.take(i as int), motion),
                texts(failures@) == failure_texts(outcomes@.take(i as int), opt_texts(names@)),
            decreases outcomes.len() - i,
        {
            let ghost told = texts(failures@);
            assert(outcomes@.take(i + 1).drop_last() =~= outcomes@.take(i as int));
            assert(outcomes@.take(i + 1).last() == outcomes@[i as int]);
            match &outcomes[i] {
                PathOutcome::Unreadable(_) => {
                    let name = if i < names.len() {
                        match &names[i] {
                            Some(name) => name.clone(),
                            None => String::new(),
                        }
                    } else {
                        String::new()
                    };
                    assert(name@ =~= called(opt_texts(names@), i as int));
                    failures.push(cat(name.as_str(), " couldn't be read."));
                    assert(texts(failures@) =~= told.push(name@ + " couldn't be read."@));
                },
                PathOutcome::Imported(asset) => {
                    self.add_asset(*asset, role, motion);
                },
                PathOutcome::Rejected(why) => {
                    if !says(&failures, why.as_str()) {
                        failures.push(why.clone());
                        assert(texts(failures@) =~= told.push(why@));
                    }
                },
            }
            i += 1;
        }
        assert(outcomes@.take(outcomes@.len() as int) =~= outcomes@);
        if failures.len() > 0 {
            Some(join(&failures, "\n"))
        } else {
            None
        }
    }

    /// Whether the file dialog for a role lets several files be picked.
    pub fn pick_assets(&self, role: AssetRole) -> (multiple: bool)
        ensures
            multiple == (self@.state.limit(role) > 1),
    {
        self.state.role_limit(role) > 1
    }

    /// Paste a picture from the clipboard: the first that is a PNG or can be made one.
    pub fn paste_image(&self, clipboard: &Option<Vec<ClipboardPiece>>) -> (r: PasteStep)
        ensures
            match *clipboard {
                None => r is Nothing,
                Some(pieces) => match first_place(pieces@, |p: ClipboardPiece| pasteable(p)) {
                    Some(i) => r matches PasteStep::Import(at) && at == i,
                    None => r matches PasteStep::Toast(text) && text@ == "No image on the clipboard."@,
                },
            },
    {
        match clipboard {
            None => PasteStep::Nothing,
            Some(pieces) => {
                let ghost fits = |p: ClipboardPiece| pasteable(p);
                let mut i: usize = 0;
                while i < pieces.len()
                    invariant
                        i <= pieces.len(),
                        fits == (|p: ClipboardPiece| pasteable(p)),
                        *clipboard == Some(*pieces),
                        first_from(pieces@, fits, 0) == first_from(pieces@, fits, i as int),
                    decreases pieces.len() - i,
                {
                    let can = match pieces[i] {
                        ClipboardPiece::Image { png, transcodes } => png || transcodes,
                        ClipboardPiece::Other => false,
                    };
                    if can {
                        return PasteStep::Import(i);
                    }
                    i += 1;
                }
                PasteStep::Toast("No image on the clipboard.")
            },
        }
    }

    /// What the user is told once the picture was imported, and attached or not.
    pub fn pasted(&self, imported: Result<bool, String>) -> (toast: Option<String>)
        ensures
            opt_text(toast) == match imported {
                Ok(true) => Some("Pasted image"@),
                Ok(false) => None,
                Err(e) => Some(e@),
            },
    {
        match imported {
            Ok(true) => Some("Pasted image".to_owned()),
            Ok(false) => None,
            Err(e) => Some(e),
        }
    }

    /// Splice a reference handle in at the caret, so a chip click reads as typing. A space is added
    /// ahead of it only when the caret isn't already after one. A caret past the end is at the end.
    /// Returns where the keyboard focus goes.
    pub fn insert_handle(&mut self, caret: usize, handle: &str) -> (r: Focus)
        ensures
            final(self)@ == old(self)@.edited(with_handle(old(self)@.prompt, caret as int, handle@)),
            r == old(self)@.focus(),
    {
        let n: usize = self.prompt.as_str().unicode_len();
        let at: usize = if caret < n {
            caret
        } else {
            n
        };
        let spaced = at > 0 && !is_white_space(self.prompt.as_str().get_char(at - 1));
        let mut text = self.prompt.as_str().substring_char(0, at).to_owned();
        if spaced {
            text.append(" ");
        }
        text.append(handle);
        text.append(" ");
        text.append(self.prompt.as_str().substring_char(at, n));
        self.set_prompt(text);
        self.focus_prompt()
    }
}

/// Whether the panel is what became of an asset, and `r` what is said of it.
pub open spec fn became(placed: Placed, panel: PanelModel, r: (bool, Option<String>)) -> bool {
    panel == placed.panel && r.0 == placed.added && opt_text(r.1) == placed.toast
}

/// The prompt with a handle spliced in at the caret.
pub open spec fn with_handle(prompt: Seq<char>, caret: int, handle: Seq<char>) -> Seq<char> {
    let at = if caret < prompt.len() {
        caret
    } else {
        prompt.len() as int
    };
    let before = prompt.subrange(0, at);
    let after = prompt.subrange(at, prompt.len() as int);
    if at > 0 && !white_space(prompt[at - 1]) {
        before + " "@ + handle + " "@ + after
    } else {
        before + handle + " "@ + after
    }
}

// ----- menus ----------------------------------------------------------------------------------

/// An entry of a menu of options, checked when it is the one in force.
#[derive(Clone, Debug, PartialEq, Eq)]
pub struct Choice {
    pub label: String,
    pub checked: bool,
}

/// An entry of the provider menu.
#[derive(Clone, Debug, PartialEq, Eq)]
pub enum ProviderEntry {
    Provider { id: String, name: String, checked: bool },
    Separator,
    /// The way into the provider settings.
    Settings(&'static str),
}

/// Whether `choices` are `options`, with `current` checked.
pub open spec fn choices_of(options: Seq<Seq<char>>, current: Option<Seq<char>>, choices: Seq<Choice>) -> bool {
    &&& choices.len() == options.len()
    &&& forall|i: int|
        0 <= i < choices.len() ==> (#[trigger] choices[i]).label@ == options[i] && choices[i].checked == (current == Some(
            options[i],
        ))
}

/// A menu of options, the one in force checked.
pub fn options_menu(options: &Vec<String>, current: &Option<String>) -> (r: Vec<Choice>)
    ensures
        choices_of(texts(options@), opt_text(*current), r@),
{
    let mut out: Vec<Choice> = Vec::new();
    let mut i: usize = 0;
    while i < options.len()
        invariant
            i <= options.len(),
            out.len() == i,
            forall|k: int|
                0 <= k < i ==> (#[trigger] out@[k]).label@ == options@[k]@ && out@[k].checked == (opt_text(*current) == Some(
                    options@[k]@,
                )),
        decreases options.len() - i,
    {
        let checked = match current {
            Some(c) => same_text(c.as_str(), options[i].as_str()),
            None => false,
        };
        out.push(Choice { label: options[i].clone(), checked });
        i += 1;
    }
    out
}

/// Whether `entry` is what the provider menu shows for `provider`, with `current` in force.
pub open spec fn provider_entry(provider: Provider, current: Seq<char>, entry: ProviderEntry) -> bool {
    entry matches ProviderEntry::Provider { id, name, checked } && id@ == provider.id@ && name@ == provider.display_name@ && checked == (
    provider.id@ == current)
}

/// The providers with a key (or needing none), the current one checked, then a way into the provider
/// settings, which is the only entry when no provider is ready yet.
pub fn provider_menu(providers: &Vec<Provider>, current: &str) -> (r: Vec<ProviderEntry>)
    ensures
        providers@.len() == 0 ==> r@.len() == 1 && (r@[0] matches ProviderEntry::Settings(label) && label@ == "Add an API key…"@),
        providers@.len() > 0 ==> {
            &&& r@.len() == providers@.len() + 2
            &&& forall|i: int| 0 <= i < providers@.len() ==> provider_entry(providers@[i], current@, #[trigger] r@[i])
            &&& r@[providers@.len() as int] is Separator
            &&& r@[providers@.len() as int + 1] matches ProviderEntry::Settings(label) && label@ == "Provider settings…"@
        },
{
    let mut out: Vec<ProviderEntry> = Vec::new();
    let mut i: usize = 0;
    while i < providers.len()
        invariant
            i <= providers.len(),
            out.len() == i,
            forall|k: int| 0 <= k < i ==> provider_entry(providers@[k], current@, #[trigger] out@[k]),
        decreases providers.len() - i,
    {
        let p = &providers[i];
        out.push(
            ProviderEntry::Provider {
                id: p.id.clone(),
                name: p.display_name.clone(),
                checked: same_text(p.id.as_str(), current),
            },
        );
        i += 1;
    }
    if providers.len() > 0 {
        out.push(ProviderEntry::Separator);
        out.push(ProviderEntry::Settings("Provider settings…"));
    } else {
        out.push(ProviderEntry::Settings("Add an API key…"));
    }
    out
}

// ----- laws -----------------------------------------------------------------------------------

/// However it is stepped, the count of a tab that has one stays between 1 and the most a press of
/// Generate may ask for; a step that is not clamped is undone by the step back.
pub proof fn the_count_stays_in_range(tab: ComposeTab, count: usize, delta: i64)
    requires
        tab == ComposeTab::Media(MediaType::Image) || tab == ComposeTab::Media(MediaType::Video),
    ensures
        1 <= stepped(tab, count, delta) <= MAX_COUNT,
        1 <= count && count < MAX_COUNT ==> stepped(tab, stepped(tab, count, 1), (-1) as i64) == count,
        1 < count && count <= MAX_COUNT ==> stepped(tab, stepped(tab, count, (-1) as i64), 1) == count,
{
}

/// A draft is only submitted complete: with its key, a model, inputs within the model's limits whose
/// files are there, and valid requests.
pub proof fn only_a_complete_draft_is_submitted(panel: PanelModel, lib: Library, checks: GenerateChecks)
    requires
        generate_answer(panel, lib, checks) is Submit,
    ensures
        panel.state.requires_api_key ==> checks.has_key,
        has_prompt(panel.state.draft.tab),
        panel.state.draft.ready,
        checks.constraints is Ok,
        forall|i: int|
            0 <= i < panel.state.accepted().len() ==> !asset_gone(lib, (#[trigger] panel.state.accepted()[i]).asset),
        checks.requests > 0,
        checks.validation is Ok,
{
}

/// While the selected provider can run, Generate and Improve act on it and never ask for a key, whatever
/// became of the key of the provider the panel had.
pub proof fn a_provider_that_can_run_is_not_asked_for_a_key(
    panel: PanelModel,
    to: DraftModel,
    lib: Library,
    checks: GenerateChecks,
    outcome: ImproveOutcome,
)
    requires
        to.provider_id == panel.state.provider_id ==> to.requires_api_key == panel.state.requires_api_key,
        to.requires_api_key ==> checks.has_key,
        improve_answer(panel.synced(to), checks.has_key, outcome),
    ensures
        !(generate_answer(panel.synced(to), lib, checks) is OpenSettings),
        !(outcome is OpenSettings),
        outcome matches ImproveOutcome::Ask { provider, .. } ==> provider@ == to.provider_id,
{
}

/// Submitting clears the prompt, also where the settings keep it, and what is attached to the active
/// tab, and leaves the rest of the panel alone.
pub proof fn submitting_clears_the_active_draft(panel: PanelModel)
    ensures
        panel.submitted().prompt.len() == 0,
        panel.submitted().stored_prompt.len() == 0,
        panel.submitted().state.assets().len() == 0,
        forall|tab: ComposeTab| tab != panel.state.draft.tab ==> #[trigger] panel.submitted().state.attached.on(tab) == panel.state.attached.on(tab),
        panel.submitted().state.draft.tab == panel.state.draft.tab,
        panel.submitted().state.draft.count == panel.state.draft.count,
        panel.submitted().album == panel.album,
{
}

/// Removing the asset just attached brings the draft back: the same assets are attached, its card no
/// longer enters, and the role's picker card is not leaving.
pub proof fn removing_undoes_attaching(panel: PanelModel, asset: AssetId, role: AssetRole, motion: Motion)
    ensures
        ({
            let added = panel.with_asset(asset, role, motion);
            let back = added.without_asset(panel.state.assets().len() as int, motion);
            &&& back.state == panel.state
            &&& !back.entering.contains(CardKey::Thumb(asset))
            &&& !back.picker_leaving(role)
            &&& back.prompt == panel.prompt
        }),
{
    let added = panel.with_asset(asset, role, motion);
    let n = panel.state.assets().len() as int;
    let draft = DraftAsset { asset, role };
    assert(added.state.assets()[n] == draft);
    assert(added.state.assets().remove(n) =~= panel.state.assets());
    let back = added.without_asset(n, motion);
    assert(back.state =~= panel.state);
    let fits = |e: ExitingCard| e.kind != ExitKind::Picker(role);
    let pick = |e: ExitingCard|
        if fits(e) {
            Some(e)
        } else {
            None
        };
    let rest = kept(added.exiting, fits);
    assert(rest == picked(added.exiting, pick));
    lemma_picked_from(added.exiting, pick);
    assert forall|i: int| 0 <= i < back.exiting.len() implies (#[trigger] back.exiting[i]).kind != ExitKind::Picker(role) by {
        if i < rest.len() {
            assert(back.exiting[i] == rest[i]);
            let j = choose|j: int|
                0 <= j < added.exiting.len() && pick(#[trigger] added.exiting[j]) == Some(picked(added.exiting, pick)[i]);
            assert(pick(added.exiting[j]) == Some(rest[i]));
        }
    }
}

/// With motion reduced no card is left shrinking away.
pub proof fn reduced_motion_leaves_no_ghosts(panel: PanelModel, asset: AssetId, role: AssetRole, index: int, now_ms: u64)
    requires
        panel.exiting.len() == 0,
        0 <= index < panel.state.assets().len(),
    ensures
        panel.with_asset(asset, role, Motion { reduced: true, now_ms }).exiting.len() == 0,
        panel.without_asset(index, Motion { reduced: true, now_ms }).exiting.len() == 0,
{
    let gone = panel.state.assets()[index];
    let fits = |e: ExitingCard| e.kind != ExitKind::Picker(gone.role);
    lemma_picked_from(
        panel.exiting,
        |e: ExitingCard|
            if fits(e) {
                Some(e)
            } else {
                None
            },
    );
}

/// At most one card lights up: the one a drag is over, until it leaves that card; what other cards
/// report on the drag's way changes nothing.
pub proof fn the_drop_target_follows_the_drag(target: Option<AssetRole>, role: AssetRole, other: AssetRole)
    requires
        role != other,
    ensures
        target_after(target, role, true) == Some(role),
        target_after(Some(role), other, false) == Some(role),
        target_after(Some(role), role, false) is None,
        target_after(None, role, false) is None,
{
}

/// A handle is spliced in at the caret without a change to what is around it, set off by white space
/// on both sides.
pub proof fn a_handle_reads_as_typed(prompt: Seq<char>, caret: int, handle: Seq<char>)
    requires
        0 <= caret <= prompt.len(),
        handle.len() > 0,
    ensures
        ({
            let after = with_handle(prompt, caret, handle);
            let from = after.len() - (prompt.len() - caret) - 1 - handle.len();
            &&& after.take(caret) == prompt.take(caret)
            &&& after.skip(after.len() - (prompt.len() - caret)) == prompt.skip(caret)
            &&& after.subrange(from, from + handle.len()) == handle
            &&& white_space(after[from + handle.len()])
            &&& from == 0 || white_space(after[from - 1])
        }),
{
    reveal_strlit(" ");
    let after = with_handle(prompt, caret, handle);
    let from = after.len() - (prompt.len() - caret) - 1 - handle.len();
    assert(after.take(caret) =~= prompt.take(caret));
    assert(after.skip(after.len() - (prompt.len() - caret)) =~= prompt.skip(caret));
    assert(after.subrange(from, from + handle.len()) =~= handle);
}

/// Once a card's exit has lasted its time it is gone, and until then it stays.
pub proof fn cards_leave_when_their_time_is_up(exiting: Seq<ExitingCard>, now_ms: u64, lasts_ms: u64)
    requires
        forall|i: int| 0 <= i < exiting.len() ==> (#[trigger] exiting[i]).started_ms + lasts_ms <= now_ms,
    ensures
        kept(exiting, |e: ExitingCard| still_leaving(e, now_ms, lasts_ms)).len() == 0,
{
    let fits = |e: ExitingCard| still_leaving(e, now_ms, lasts_ms);
    let pick = |e: ExitingCard|
        if fits(e) {
            Some(e)
        } else {
            None
        };
    let rest = kept(exiting, fits);
    assert(rest == picked(exiting, pick));
    lemma_picked_from(exiting, pick);
    if rest.len() > 0 {
        let i = choose|i: int| 0 <= i < exiting.len() && pick(#[trigger] exiting[i]) == Some(picked(exiting, pick)[0]);
        assert(pick(exiting[i]) == Some(rest[0]));
        assert(exiting[i].started_ms + lasts_ms <= now_ms);
    }
}

/// Switching tabs, or to a tab the provider lacks, keeps the prompt, the album and what is attached
/// anywhere; only a switch to another tab stops a rewrite.
pub proof fn switching_tabs_keeps_the_prompt(panel: PanelModel, tab: ComposeTab)
    ensures
        panel.switched(tab).prompt == panel.prompt,
        panel.switched(tab).album == panel.album,
        panel.switched(tab).state.attached == panel.state.attached,
        panel.switched(tab).improving == (panel.improving && tab == panel.state.draft.tab),
        panel.state.draft.tab != tab && panel.state.other_place(tab) is None ==> panel.switched(tab).state == panel.state,
{
}

/// A draft survives the round trip to another tab and back: the tabs' settings and what is attached to
/// each are as they were.
pub proof fn drafts_survive_a_round_trip(panel: PanelModel, tab: ComposeTab)
    requires
        panel.state.one_draft_per_tab(),
    ensures
        panel.switched(tab).state.one_draft_per_tab(),
        panel.switched(tab).switched(panel.state.draft.tab).state == panel.state,
{
    let home = panel.state.draft.tab;
    let there = panel.switched(tab);
    if home != tab {
        lemma_first_from(panel.state.others, |t: TabModel| t.tab == tab, 0);
        if let Some(i) = panel.state.other_place(tab) {
            let fits = |t: TabModel| t.tab == home;
            lemma_first_from(there.state.others, fits, 0);
            assert(there.state.others[i].tab == home);
            assert(there.state.other_place(home) == Some(i));
            assert(there.state.others.update(i, there.state.draft) =~= panel.state.others);
            assert forall|k: int| 0 <= k < there.state.others.len() implies (#[trigger] there.state.others[k]).tab != tab by {
                if k != i {
                    assert(there.state.others[k] == panel.state.others[k]);
                }
            }
        }
    }
}

/// Attaching to the active tab leaves the other tabs alone, and every tab's settings; so does
/// submitting, which empties the active tab only.
pub proof fn attaching_leaves_the_other_tabs_alone(panel: PanelModel, asset: AssetId, role: AssetRole, tab: ComposeTab, motion: Motion)
    ensures
        panel.offered(asset, role, motion).state.draft == panel.state.draft,
        panel.offered(asset, role, motion).state.others == panel.state.others,
        tab != panel.state.draft.tab ==> panel.offered(asset, role, motion).state.attached.on(tab) == panel.state.attached.on(tab),
        panel.submitted().state.draft == panel.state.draft,
        panel.submitted().state.others == panel.state.others,
{
}

/// A stored request replaces what is attached to its own tab, and nothing on another.
pub proof fn recreating_replaces_one_tab_only(
    state: DraftModel,
    draft: TabModel,
    inputs: Seq<DraftAsset>,
    voices: Option<(Option<Seq<char>>, Option<Seq<char>>)>,
    tab: ComposeTab,
)
    ensures
        state.loaded(draft, inputs, voices).draft == draft,
        state.loaded(draft, inputs, voices).assets() == inputs,
        tab != draft.tab ==> state.loaded(draft, inputs, voices).attached.on(tab) == state.attached.on(tab),
{
}

/// What is attached carries over to another provider, on every tab, and so does the prompt.
pub proof fn a_provider_switch_keeps_what_is_attached(panel: PanelModel, to: DraftModel)
    ensures
        panel.moved_to(to).state.attached == panel.state.attached,
        panel.moved_to(to).prompt == panel.prompt,
        panel.moved_to(to).state.provider_id == to.provider_id,
{
}

/// A provider's drafts come back with it: leaving for another provider and returning to what was kept
/// leaves every tab's settings, what is attached and the prompt as they were.
pub proof fn a_saved_draft_comes_back(panel: PanelModel, elsewhere: DraftModel, back: DraftModel)
    requires
        back.saved() == panel.state.saved(),
        elsewhere.provider_id != panel.state.provider_id,
    ensures
        ({
            let returned = panel.synced(elsewhere).synced(back);
            &&& returned.state.saved() == panel.state.saved()
            &&& returned.state.attached == panel.state.attached
            &&& returned.prompt == panel.prompt
            &&& returned.stored_prompt == panel.stored_prompt
        }),
{
}

/// Reading the selected provider again changes nothing while it is the one the panel has, and once the
/// panel has moved to it.
pub proof fn reading_the_provider_again_changes_nothing(panel: PanelModel, to: DraftModel, again: DraftModel)
    requires
        again.provider_id == to.provider_id,
    ensures
        panel.synced(to).state.provider_id == to.provider_id,
        panel.synced(to).synced(again) == panel.synced(to),
{
}

/// A role never holds more than the model takes through what is attached here: an asset is attached
/// only while its role has room, and no other role's count changes.
pub proof fn a_role_never_overflows(panel: PanelModel, asset: AssetId, role: AssetRole, other: AssetRole, motion: Motion)
    ensures
        ({
            let after = panel.offered(asset, role, motion).state;
            &&& after.attached_as(other) <= after.limit(other) || after.attached_as(other) == panel.state.attached_as(other)
            &&& other != role ==> after.attached_as(other) == panel.state.attached_as(other)
            &&& after.attached_as(role) == panel.state.attached_as(role) + (if panel.state.is_open(role) {
                1int
            } else {
                0int
            })
        }),
{
    let assets = panel.state.assets();
    let added = assets.push(DraftAsset { asset, role });
    assert(added.drop_last() =~= assets);
    let after = panel.offered(asset, role, motion).state;
    if panel.state.is_open(role) {
        assert(after.assets() == added);
        assert(after.slot(other) == panel.state.slot(other));
        assert(after.slot(role) == panel.state.slot(role));
    }
}

/// Filling one side of the divide closes the other: while a reference is attached no frame can be
/// added, and while a frame is no reference.
pub proof fn filling_one_side_closes_the_other(panel: PanelModel, asset: AssetId, role: AssetRole, other: AssetRole, motion: Motion)
    requires
        panel.state.is_open(role),
        panel.state.side(role) is Some,
        panel.state.side(other) is Some,
        panel.state.side(other) != panel.state.side(role),
    ensures
        !panel.offered(asset, role, motion).state.is_open(other),
{
    let after = panel.offered(asset, role, motion).state;
    let n = panel.state.assets().len() as int;
    assert(after.assets()[n] == DraftAsset { asset, role });
    assert(after.slot(role) == panel.state.slot(role));
    assert(after.slot(other) == panel.state.slot(other));
    assert(after.side(after.assets()[n].role) == panel.state.side(role));
}

/// A picture that comes without a role never goes where there is no room: it is attached in an open
/// role, or the user is told that there is none.
pub proof fn a_picture_is_attached_or_told_of(panel: PanelModel, asset: AssetId, motion: Motion)
    ensures
        panel.placed_image(asset, motion).added <==> panel.placed_image(asset, motion).toast is None,
        panel.placed_video(asset, motion).added <==> panel.placed_video(asset, motion).toast is None,
{
    lemma_image_role_is_open(panel.state);
    lemma_image_role_is_open(panel.switched(ComposeTab::Media(MediaType::Image)).state);
}

proof fn lemma_image_role_is_open(state: DraftModel)
    ensures
        state.image_role() matches Some(role) ==> state.is_open(role),
{
    lemma_first_from(state.draft.image_order, |role: AssetRole| state.is_open(role), 0);
}

/// A rewrite is put in the prompt as a single edit that holds it, trimmed; a blank one leaves what the
/// user wrote and is told of.
pub proof fn a_rewrite_is_one_edit_or_none(before: PanelModel, text: Seq<char>, after: PanelModel, r: Rewritten)
    requires
        rewritten(before, text, after, r),
    ensures
        blank(text) <==> r is Toast,
        !blank(text) <==> r is Replace,
        blank(text) ==> after.prompt == before.prompt,
        r matches Rewritten::Replace { text: written, .. } ==> written@ == after.prompt && after.prompt == trimmed(text) && after.stored_prompt
            == after.prompt,
{
}

/// The model of the drafts and of the panel is what their fields hold.
pub proof fn the_panel_is_its_fields(view: ComposeView, draft: TabDraft, saved: SavedDraft)
    ensures
        view@.state.provider_id == view.state.provider.id@,
        view@.state.provider_name == view.state.provider.display_name@,
        view@.state.requires_api_key == view.state.provider.requires_api_key,
        view@.state.improves == view.state.provider.supports_prompt_improvement,
        view@.state.draft == view.state.draft@,
        view@.state.others.len() == view.state.others@.len(),
        forall|i: int| 0 <= i < view.state.others@.len() ==> #[trigger] view@.state.others[i] == view.state.others@[i]@,
        view@.state.attached.image == view.state.assets.image@,
        view@.state.attached.video == view.state.assets.video@,
        view@.state.attached.audio == view.state.assets.audio@,
        view@.state.attached.upscale == view.state.assets.upscale@,
        view@.state.attached.remove_background == view.state.assets.remove_background@,
        view@.state.speaker1 == opt_text(view.state.speaker1),
        view@.state.speaker2 == opt_text(view.state.speaker2),
        view@.exiting == view.exiting@,
        forall|key: CardKey| #[trigger] view@.entering.contains(key) <==> view.entering@.contains(key),
        view@.drop_target == view.drop_target,
        view@.album == view.album,
        view@.prompt == view.prompt@,
        view@.stored_prompt == view.stored_prompt@,
        view@.placeholder == view.placeholder@,
        view@.improving == view.improving,
        draft@.tab == draft.tab && draft@.slots == draft.slots@ && draft@.image_order == draft.image_order@,
        draft@.count == draft.count && draft@.prompt_optional == draft.prompt_optional && draft@.prompt_limit == draft.prompt_limit,
        draft@.model == draft.model && draft@.ready == draft.ready,
        saved@.provider == saved.provider@ && saved@.draft == saved.draft@,
        saved@.others.len() == saved.others@.len(),
        forall|i: int| 0 <= i < saved.others@.len() ==> #[trigger] saved@.others[i] == saved.others@[i]@,
        saved@.speaker1 == opt_text(saved.speaker1) && saved@.speaker2 == opt_text(saved.speaker2),
{
}

/// Each tab has its own assets: what is put on one is what is on it then, and what is on another stays.
pub proof fn each_tab_has_its_own_assets(attached: Attached, tab: ComposeTab, other: ComposeTab, assets: Seq<DraftAsset>)
    ensures
        attached.with(tab, assets).on(tab) == assets,
        tab != other ==> attached.with(tab, assets).on(other) == attached.on(other),
        attached.on(ComposeTab::Media(MediaType::Image)) == attached.image,
        attached.on(ComposeTab::Media(MediaType::Video)) == attached.video,
        attached.on(ComposeTab::Media(MediaType::Audio)) == attached.audio,
        attached.on(ComposeTab::Tool(ToolId::Upscale)) == attached.upscale,
        attached.on(ComposeTab::Tool(ToolId::RemoveBackground)) == attached.remove_background,
        Attached::nothing().on(tab).len() == 0,
{
}

/// The active tab's assets are those of the tab the draft is on; attaching others changes them and nothing else
/// of the drafts.
pub proof fn the_active_tabs_assets_are_the_drafts(state: DraftModel, assets: Seq<DraftAsset>)
    ensures
        state.assets() == state.attached.on(state.draft.tab),
        state.with_assets(assets).assets() == assets,
        state.with_assets(assets) == (DraftModel { attached: state.attached.with(state.draft.tab, assets), ..state }),
        state.saved().provider == state.provider_id,
        state.saved().draft == state.draft,
        state.saved().others == state.others,
        state.saved().speaker1 == state.speaker1 && state.saved().speaker2 == state.speaker2,
{
}

/// Whether the model has a slot for a role.
pub open spec fn has_slot(slots: Seq<RoleSlot>, role: AssetRole) -> bool {
    exists|i: int| 0 <= i < slots.len() && (#[trigger] slots[i]).role == role
}

/// A role is taken where the model has a slot for it, up to that slot's number and on its side of the divide; a
/// role without a slot takes nothing.
pub proof fn a_role_takes_what_its_slot_says(state: DraftModel, role: AssetRole, i: int)
    ensures
        state.takes(role) <==> has_slot(state.draft.slots, role),
        0 <= i < state.draft.slots.len() && state.draft.slots[i].role == role && (forall|j: int|
            0 <= j < i ==> (#[trigger] state.draft.slots[j]).role != role) ==> state.limit(role) == state.draft.slots[i].max && state.side(role)
            == state.draft.slots[i].side,
        !has_slot(state.draft.slots, role) ==> state.limit(role) == 0 && state.side(role) is None,
{
    lemma_first_from(state.draft.slots, |s: RoleSlot| s.role == role, 0);
}

/// What is sent is what is attached and the model takes, each asset of it, in the order it was attached, and
/// nothing else: only roles without a slot are held back.
pub proof fn everything_the_model_takes_is_sent(state: DraftModel, a: DraftAsset)
    ensures
        sifts(state.assets(), |x: DraftAsset| has_slot(state.draft.slots, x.role), state.accepted()),
        state.accepted().contains(a) <==> state.assets().contains(a) && has_slot(state.draft.slots, a.role),
        (forall|i: int| 0 <= i < state.assets().len() ==> has_slot(state.draft.slots, (#[trigger] state.assets()[i]).role)) ==> state.accepted()
            == state.assets(),
{
    let taken = |x: DraftAsset| state.takes(x.role);
    let slotted = |x: DraftAsset| has_slot(state.draft.slots, x.role);
    assert forall|x: DraftAsset| #[trigger] taken(x) == slotted(x) by {
        a_role_takes_what_its_slot_says(state, x.role, 0);
    }
    assert(taken =~= slotted);
    keeping_leaves_out_only_what_does_not_fit(state.assets(), taken);
    if forall|i: int| 0 <= i < state.assets().len() ==> has_slot(state.draft.slots, (#[trigger] state.assets()[i]).role) {
        assert forall|i: int| 0 <= i < state.assets().len() implies taken(#[trigger] state.assets()[i]) by {
            assert(slotted(state.assets()[i]));
        }
    }
}

/// A role is open exactly while fewer are attached in it than its slot takes and nothing is attached on the
/// other side of the divide.
pub proof fn a_role_is_open_while_it_has_room(state: DraftModel, role: AssetRole)
    ensures
        state.is_open(role) <==> state.attached_as(role) < state.limit(role) && !state.is_closed(role),
        state.full(role) <==> state.attached_as(role) >= state.limit(role),
        state.side(role) is None ==> !state.is_closed(role),
        state.side(role) == Some(Divide::Frames) ==> (state.is_closed(role) <==> exists|i: int|
            0 <= i < state.assets().len() && state.side((#[trigger] state.assets()[i]).role) == Some(Divide::References)),
        state.side(role) == Some(Divide::References) ==> (state.is_closed(role) <==> exists|i: int|
            0 <= i < state.assets().len() && state.side((#[trigger] state.assets()[i]).role) == Some(Divide::Frames)),
        state.has_frames() <==> state.attached_as(AssetRole::FirstFrame) > 0 || state.attached_as(AssetRole::LastFrame) > 0,
{
}

/// The assets attached in a role are counted one by one.
pub proof fn each_attached_asset_counts_once(state: DraftModel, asset: AssetId, role: AssetRole, other: AssetRole)
    ensures
        state.with_assets(Seq::empty()).attached_as(role) == 0,
        state.with_assets(state.assets().push(DraftAsset { asset, role })).attached_as(role) == state.attached_as(role) + 1,
        other != role ==> state.with_assets(state.assets().push(DraftAsset { asset, role })).attached_as(other) == state.attached_as(other),
{
    assert(state.assets().push(DraftAsset { asset, role }).drop_last() =~= state.assets());
}

/// A picture without a role goes to the first role it is offered that is open, and a clip to the reference video
/// role; where none is open they go nowhere.
pub proof fn a_file_without_a_role_goes_to_the_first_open(state: DraftModel, i: int)
    ensures
        0 <= i < state.draft.image_order.len() && state.is_open(state.draft.image_order[i]) && (forall|j: int|
            0 <= j < i ==> !state.is_open(#[trigger] state.draft.image_order[j])) ==> state.image_role() == Some(state.draft.image_order[i]),
        (forall|j: int| 0 <= j < state.draft.image_order.len() ==> !state.is_open(#[trigger] state.draft.image_order[j])) ==> state.image_role() is None,
        state.is_open(AssetRole::ReferenceVideo) ==> state.video_role() == Some(AssetRole::ReferenceVideo),
        !state.is_open(AssetRole::ReferenceVideo) ==> state.video_role() is None,
{
    lemma_first_from(state.draft.image_order, |role: AssetRole| state.is_open(role), 0);
}

/// Each role takes its own kind of media and belongs to its own tab: audio and clips have one role each, every
/// other takes pictures; the reference and mask pictures are the Image tab's, all else the Video tab's.
pub proof fn each_role_has_its_kind_and_tab(role: AssetRole)
    ensures
        role_media(role) == MediaType::Audio <==> role == AssetRole::Audio,
        role_media(role) == MediaType::Video <==> role == AssetRole::ReferenceVideo,
        home_tab(role) == MediaType::Image <==> role == AssetRole::ReferenceImage || role == AssetRole::MaskImage,
        home_tab(role) != MediaType::Audio,
        rank_of(AssetRole::FirstFrame) == 0 && rank_of(AssetRole::LastFrame) == 1,
        role != AssetRole::FirstFrame && role != AssetRole::LastFrame ==> rank_of(role) == 2,
{
}

/// Only media tabs have a prompt, and the keyboard goes there; what its empty field asks for follows the tab, and
/// for speech whether two speak. Two speak only on the audio tab, with a second voice.
pub proof fn the_prompt_follows_the_tab(panel: PanelModel, tab: ComposeTab)
    ensures
        has_prompt(tab) <==> tab is Media,
        panel.focus() == Focus::Prompt <==> panel.state.draft.tab is Media,
        panel.state.dialogue() <==> panel.state.draft.tab == ComposeTab::Media(MediaType::Audio) && panel.state.speaker2 is Some,
        placeholder_text(ComposeTab::Media(MediaType::Image), false) == "Describe an image…"@,
        placeholder_text(ComposeTab::Media(MediaType::Video), false) == "Describe a video…"@,
        placeholder_text(ComposeTab::Media(MediaType::Audio), false) == "What should the speaker say?"@,
        placeholder_text(ComposeTab::Media(MediaType::Audio), true) == "Speaker 1: …\nSpeaker 2: …"@,
        tab is Tool ==> placeholder_text(tab, false) == ""@,
        panel.labelled() == (PanelModel {
            placeholder: placeholder_text(panel.state.draft.tab, panel.state.draft.tab == ComposeTab::Media(MediaType::Audio) && panel.state.speaker2 is Some),
            ..panel
        }),
        plural_text(ComposeTab::Media(MediaType::Image)) == "images"@,
        plural_text(ComposeTab::Media(MediaType::Video)) == "videos"@,
        plural_text(ComposeTab::Media(MediaType::Audio)) == "audio"@,
        plural_text(ComposeTab::Tool(ToolId::Upscale)) == "upscaled images"@,
        plural_text(ComposeTab::Tool(ToolId::RemoveBackground)) == "images without a background"@,
        ratio_glyph(None) == "square"@ && ratio_glyph(Some(true)) == "rectangle-vertical"@ && ratio_glyph(Some(false)) == "rectangle-horizontal"@,
{
}

/// Turning to another of the provider's tabs takes up that tab's draft and leaves the one left behind in its
/// place; the panel drops what was leaving or lit up, and labels its prompt anew. To a tab the provider lacks it
/// does not turn.
pub proof fn turning_to_a_tab_takes_up_its_draft(panel: PanelModel, tab: ComposeTab, i: int)
    requires
        panel.state.one_draft_per_tab(),
        0 <= i < panel.state.others.len(),
        panel.state.others[i].tab == tab,
    ensures
        ({
            let after = panel.switched(tab);
            &&& after.state.draft == panel.state.others[i]
            &&& after.state.others == panel.state.others.update(i, panel.state.draft)
            &&& after.exiting.len() == 0
            &&& after.drop_target is None
            &&& !after.improving
            &&& after.entering == panel.entering
            &&& after.stored_prompt == panel.stored_prompt
            &&& after.placeholder == placeholder_text(tab, tab == ComposeTab::Media(MediaType::Audio) && panel.state.speaker2 is Some)
            &&& after.state.provider_id == panel.state.provider_id
            &&& after.state.speaker1 == panel.state.speaker1 && after.state.speaker2 == panel.state.speaker2
        }),
{
    assert(panel.state.draft.tab != tab);
    lemma_first_from(panel.state.others, |t: TabModel| t.tab == tab, 0);
    let k = panel.state.other_place(tab)->0;
    if k < i {
        assert(panel.state.others[k].tab != panel.state.others[i].tab);
    }
}

/// Switching to the tab the panel is on changes no draft, and a tab the provider lacks changes nothing but a
/// rewrite.
pub proof fn switching_nowhere_changes_no_draft(panel: PanelModel, tab: ComposeTab)
    requires
        tab == panel.state.draft.tab || (forall|i: int| 0 <= i < panel.state.others.len() ==> (#[trigger] panel.state.others[i]).tab != tab),
    ensures
        panel.switched(tab).state == panel.state,
        panel.switched(tab).exiting == panel.exiting,
        panel.switched(tab).drop_target == panel.drop_target,
        panel.switched(tab).entering == panel.entering,
{
    lemma_first_from(panel.state.others, |t: TabModel| t.tab == tab, 0);
}

/// Another provider brings its own drafts and voices, and takes over what is attached; a rewrite was for the one
/// left behind.
pub proof fn a_provider_brings_its_drafts(panel: PanelModel, to: DraftModel)
    requires
        to.provider_id != panel.state.provider_id,
    ensures
        ({
            let after = panel.synced(to);
            &&& after.state == (DraftModel { attached: panel.state.attached, ..to })
            &&& !after.improving
            &&& after.exiting.len() == 0 && after.drop_target is None
            &&& after.prompt == panel.prompt && after.stored_prompt == panel.stored_prompt
            &&& after.album == panel.album && after.entering == panel.entering
            &&& after.placeholder == placeholder_text(
                to.draft.tab,
                to.draft.tab == ComposeTab::Media(MediaType::Audio) && to.speaker2 is Some,
            )
        }),
{
}

/// An edit of the prompt is kept in the settings and changes nothing else; and settling drops only cards and
/// lights.
pub proof fn an_edit_is_kept(panel: PanelModel, text: Seq<char>)
    ensures
        panel.edited(text).prompt == text,
        panel.edited(text).stored_prompt == text,
        panel.edited(text) == (PanelModel { prompt: text, stored_prompt: text, ..panel }),
        panel.settled() == (PanelModel { exiting: Seq::<ExitingCard>::empty(), drop_target: None, ..panel }),
{
}

/// An asset offered to an open role is attached behind the others in that role, and its card enters; a role that
/// fills up loses its picker card, which shrinks away unless motion is reduced. A role that is not open takes
/// nothing.
pub proof fn an_offered_asset_is_attached_behind_the_others(panel: PanelModel, asset: AssetId, role: AssetRole, motion: Motion)
    ensures
        ({
            let after = panel.offered(asset, role, motion);
            let fills = panel.state.attached_as(role) + 1 >= panel.state.limit(role);
            &&& !panel.state.is_open(role) ==> after == panel
            &&& panel.state.is_open(role) ==> {
                &&& after.state.assets() == panel.state.assets().push(DraftAsset { asset, role })
                &&& after.state == panel.state.with_assets(after.state.assets())
                &&& after.entering.contains(CardKey::Thumb(asset))
                &&& fills ==> !after.entering.contains(CardKey::Picker(role))
                &&& forall|key: CardKey|
                    key != CardKey::Thumb(asset) && !(fills && key == CardKey::Picker(role)) ==> (#[trigger] after.entering.contains(key)
                        <==> panel.entering.contains(key))
                &&& fills && !motion.reduced ==> after.exiting == panel.exiting.push(
                    ExitingCard { kind: ExitKind::Picker(role), started_ms: motion.now_ms },
                )
                &&& !fills || motion.reduced ==> after.exiting == panel.exiting
                &&& after.prompt == panel.prompt && after.stored_prompt == panel.stored_prompt && after.album == panel.album
                &&& after.drop_target == panel.drop_target && after.improving == panel.improving && after.placeholder == panel.placeholder
            }
        }),
{
    let state = panel.state.with_assets(panel.state.assets().push(DraftAsset { asset, role }));
    each_attached_asset_counts_once(panel.state, asset, role, role);
    assert(state.slot(role) == panel.state.slot(role));
}

/// Detaching takes out the asset at its place and no other. Its card shrinks away where it was, unless motion is
/// reduced; the picker card of its role no longer leaves, and enters again where it had gone.
pub proof fn a_detached_asset_alone_is_gone(panel: PanelModel, index: int, motion: Motion)
    requires
        0 <= index < panel.state.assets().len() <= usize::MAX,
    ensures
        ({
            let gone = panel.state.assets()[index];
            let after = panel.without_asset(index, motion);
            let staying = kept(panel.exiting, |e: ExitingCard| e.kind != ExitKind::Picker(gone.role));
            let comes_back = after.state.attached_as(gone.role) + 1 >= after.state.limit(gone.role) && !panel.picker_leaving(gone.role)
                && !motion.reduced;
            &&& after.state.assets() == panel.state.assets().remove(index)
            &&& after.state == panel.state.with_assets(after.state.assets())
            &&& motion.reduced ==> after.exiting == staying
            &&& !motion.reduced ==> after.exiting == staying.push(
                ExitingCard { kind: ExitKind::Thumb { asset: gone, index: index as usize }, started_ms: motion.now_ms },
            )
            &&& sifts(panel.exiting, |e: ExitingCard| e.kind != ExitKind::Picker(gone.role), staying)
            &&& !after.entering.contains(CardKey::Thumb(gone.asset))
            &&& comes_back ==> after.entering.contains(CardKey::Picker(gone.role))
            &&& forall|key: CardKey|
                key != CardKey::Thumb(gone.asset) && !(comes_back && key == CardKey::Picker(gone.role)) ==> (#[trigger] after.entering.contains(key)
                    <==> panel.entering.contains(key))
            &&& panel.picker_leaving(gone.role) <==> exists|i: int|
                0 <= i < panel.exiting.len() && (#[trigger] panel.exiting[i]).kind == ExitKind::Picker(gone.role)
            &&& after.prompt == panel.prompt && after.stored_prompt == panel.stored_prompt && after.album == panel.album
            &&& after.drop_target == panel.drop_target && after.improving == panel.improving && after.placeholder == panel.placeholder
        }),
{
    let gone = panel.state.assets()[index];
    keeping_leaves_out_only_what_does_not_fit(panel.exiting, |e: ExitingCard| e.kind != ExitKind::Picker(gone.role));
}

/// A card is still leaving until its exit has lasted its time since it began.
pub proof fn an_exit_lasts_its_time(card: ExitingCard, now_ms: u64, lasts_ms: u64)
    ensures
        now_ms >= card.started_ms ==> (still_leaving(card, now_ms, lasts_ms) <==> now_ms < card.started_ms + lasts_ms),
        now_ms < card.started_ms ==> (still_leaving(card, now_ms, lasts_ms) <==> lasts_ms > 0),
{
}

/// A step of the count adds what is stepped, between one and eight, on the image and video tabs; on the others
/// it changes nothing.
pub proof fn a_step_adds_to_the_count(tab: ComposeTab, count: usize, delta: i64)
    ensures
        tab is Tool || tab == ComposeTab::Media(MediaType::Audio) ==> stepped(tab, count, delta) == count,
        tab == ComposeTab::Media(MediaType::Image) || tab == ComposeTab::Media(MediaType::Video) ==> {
            &&& 1 <= count + delta <= 8 ==> stepped(tab, count, delta) == count + delta
            &&& count + delta < 1 ==> stepped(tab, count, delta) == 1
            &&& count + delta > 8 ==> stepped(tab, count, delta) == 8
        },
{
}

/// A card stays lit while the drag is over another role's card only where that one does not light up itself.
pub proof fn a_lit_card_goes_out_on_its_own_report(target: Option<AssetRole>, role: AssetRole)
    ensures
        target_after(target, role, true) == Some(role),
        target == Some(role) ==> target_after(target, role, false) is None,
        target != Some(role) ==> target_after(target, role, false) == target,
{
}

/// Generate makes one item for each image a tool is given, and else as many as are asked for, once there is
/// something typed, or something attached that can stand in for it.
pub proof fn generate_makes_what_was_asked_for(panel: PanelModel)
    ensures
        panel.state.draft.tab is Tool ==> panel.total() == panel.state.accepted().len(),
        panel.state.draft.tab is Media && !blank(panel.prompt) ==> panel.total() == panel.state.draft.count,
        panel.state.draft.tab is Media && blank(panel.prompt) && panel.state.draft.prompt_optional && panel.state.accepted().len() > 0
            ==> panel.total() == panel.state.draft.count,
        panel.state.draft.tab is Media && blank(panel.prompt) && !(panel.state.draft.prompt_optional && panel.state.accepted().len() > 0)
            ==> panel.total() == 0,
        panel.characters() == trimmed(panel.prompt).len(),
{
}

/// Generate can be pressed exactly when there is something to make and, with a prompt to send, the settings make
/// a complete request and the prompt is within the model's cap.
pub proof fn generate_can_be_pressed_when_complete(panel: PanelModel)
    ensures
        panel.state.draft.tab is Tool ==> (panel.generates() <==> panel.state.accepted().len() > 0),
        panel.state.draft.tab is Media ==> (panel.generates() <==> panel.total() > 0 && panel.state.draft.ready && (panel.state.draft.prompt_limit is None
            || trimmed(panel.prompt).len() <= panel.state.draft.prompt_limit->0)),
        panel.offers_improve() <==> panel.state.improves && (panel.state.draft.tab == ComposeTab::Media(MediaType::Image) || panel.state.draft.tab
            == ComposeTab::Media(MediaType::Video)),
{
}

/// An input is gone where the library has no such asset, or its file is missing.
pub proof fn an_input_is_gone_with_its_file(panel: PanelModel, lib: Library, asset: AssetId)
    ensures
        lib.asset_at(asset) is None ==> asset_gone(lib, asset),
        lib.asset_at(asset) matches Some(row) ==> asset_gone(lib, asset) == row.missing,
        panel.input_gone(lib) <==> exists|a: DraftAsset|
            panel.state.assets().contains(a) && has_slot(panel.state.draft.slots, a.role) && #[trigger] asset_gone(lib, a.asset),
{
    if panel.input_gone(lib) {
        let i = choose|i: int| 0 <= i < panel.state.accepted().len() && asset_gone(lib, (#[trigger] panel.state.accepted()[i]).asset);
        let a = panel.state.accepted()[i];
        everything_the_model_takes_is_sent(panel.state, a);
        assert(panel.state.accepted().contains(a));
        assert(asset_gone(lib, a.asset));
    }
    if exists|a: DraftAsset|
        panel.state.assets().contains(a) && has_slot(panel.state.draft.slots, a.role) && #[trigger] asset_gone(lib, a.asset) {
        let a = choose|a: DraftAsset|
            panel.state.assets().contains(a) && has_slot(panel.state.draft.slots, a.role) && #[trigger] asset_gone(lib, a.asset);
        everything_the_model_takes_is_sent(panel.state, a);
        let i = choose|i: int| 0 <= i < panel.state.accepted().len() && panel.state.accepted()[i] == a;
        assert(asset_gone(lib, panel.state.accepted()[i].asset));
    }
}

/// Submitting empties the prompt, as the settings keep it too, and the active tab, and changes nothing else.
pub proof fn submitting_empties_the_draft_alone(panel: PanelModel)
    ensures
        panel.submitted() == (PanelModel {
            prompt: Seq::<char>::empty(),
            stored_prompt: Seq::<char>::empty(),
            state: DraftModel { attached: panel.state.attached.with(panel.state.draft.tab, Seq::empty()), ..panel.state },
            ..panel
        }),
{
}

/// What stands in the way of a submission is told, the first of it: the key, then, but for a tool, which runs,
/// the model, the inputs' limits, their files, the prompt, and what the provider finds wrong. A draft nothing
/// stands in the way of is submitted.
pub proof fn what_stands_in_the_way_is_told(panel: PanelModel, lib: Library, checks: GenerateChecks)
    ensures
        ({
            let answer = generate_answer(panel, lib, checks);
            let keyless = panel.state.requires_api_key && !checks.has_key;
            let tool = panel.state.draft.tab is Tool;
            let media = !keyless && !tool;
            let limits = media && panel.state.draft.ready;
            let files = limits && checks.constraints is Ok;
            let prompt = files && !panel.input_gone(lib);
            let found = prompt && checks.requests > 0;
            &&& answer is OpenSettings <==> keyless
            &&& answer matches GenerateAnswer::OpenSettings(text) ==> text == "Please configure your "@ + panel.state.provider_name
                + " API key to generate "@ + plural_text(panel.state.draft.tab) + "."@
            &&& answer is Tool <==> !keyless && tool
            &&& answer matches GenerateAnswer::Tool(id) ==> panel.state.draft.tab == ComposeTab::Tool(id)
            &&& media && !panel.state.draft.ready ==> answer == GenerateAnswer::Refused("Pick a model first."@)
            &&& limits && checks.constraints is Err ==> answer == GenerateAnswer::Refused((checks.constraints->Err_0)@)
            &&& files && panel.input_gone(lib) ==> answer == GenerateAnswer::Refused(
                "An input's file is no longer available. Remove it or add it again."@,
            )
            &&& prompt && checks.requests == 0 ==> answer == GenerateAnswer::Refused("Write a prompt first."@)
            &&& found && checks.validation is Err ==> answer == GenerateAnswer::Refused((checks.validation->Err_0)@)
            &&& answer is Submit <==> found && checks.validation is Ok
        }),
{
}

/// The roles and the ids of assets are theirs one by one, in order.
pub proof fn assets_are_listed_one_by_one(assets: Seq<DraftAsset>)
    ensures
        roles_of(assets).len() == assets.len(),
        draft_ids(assets).len() == assets.len(),
        forall|i: int| 0 <= i < assets.len() ==> #[trigger] roles_of(assets)[i] == assets[i].role,
        forall|i: int| 0 <= i < assets.len() ==> #[trigger] draft_ids(assets)[i] == assets[i].asset,
{
}

/// A rewrite is asked for exactly when Improve is offered, something is typed, the key is there and a model is
/// picked: of the provider, for its model, of the prompt as it would be sent, and for the roles of every input
/// that would be. Else the user is told what is missing, or nothing happens.
pub proof fn a_rewrite_is_asked_of_what_would_be_sent(panel: PanelModel, has_key: bool, outcome: ImproveOutcome)
    requires
        improve_answer(panel, has_key, outcome),
    ensures
        ({
            let offered = panel.offers_improve() && !blank(panel.prompt);
            let keyless = panel.state.requires_api_key && !has_key;
            &&& outcome is Nothing <==> !offered
            &&& outcome is OpenSettings <==> offered && keyless
            &&& outcome is Toast <==> offered && !keyless && !panel.state.draft.ready
            &&& outcome is Ask <==> offered && !keyless && panel.state.draft.ready
            &&& !(outcome is Cancelled)
            &&& outcome matches ImproveOutcome::OpenSettings { provider, message } ==> provider@ == panel.state.provider_id && message@
                == "Please configure your "@ + panel.state.provider_name + " API key to improve prompts."@
            &&& outcome matches ImproveOutcome::Toast(text) ==> text@ == "Pick a model first."@
            &&& outcome matches ImproveOutcome::Ask { provider, model, prompt, roles } ==> {
                &&& provider@ == panel.state.provider_id
                &&& model == panel.state.draft.model
                &&& prompt@ == trimmed(panel.prompt)
                &&& roles@.len() == panel.state.accepted().len()
                &&& forall|i: int| 0 <= i < roles@.len() ==> #[trigger] roles@[i] == panel.state.accepted()[i].role
            }
        }),
{
}

/// A rewrite changes the prompt and nothing else, and puts the keyboard where the prompt is; a blank one changes
/// nothing at all.
pub proof fn a_rewrite_changes_the_prompt_alone(before: PanelModel, text: Seq<char>, after: PanelModel, r: Rewritten)
    requires
        rewritten(before, text, after, r),
    ensures
        blank(text) ==> after == before && (r matches Rewritten::Toast(told) && told@ == "The model returned an empty prompt."@),
        !blank(text) ==> after == (PanelModel { prompt: trimmed(text), stored_prompt: trimmed(text), ..before }) && (r matches Rewritten::Replace {
            text: written,
            focus,
        } && written@ == trimmed(text) && (focus == Focus::Prompt <==> before.state.draft.tab is Media)),
{
}

/// The line under Generate says what pressing it would cost: that it is free, the estimate, for each while there
/// is nothing to make yet, or that there is none. Speech has no line before something is typed.
pub proof fn the_caption_says_what_it_costs(panel: PanelModel, amount: Amount)
    ensures
        ({
            let silent = panel.state.draft.tab == ComposeTab::Media(MediaType::Audio) && trimmed(panel.prompt).len() == 0;
            &&& silent ==> caption_text(panel, None) is None && caption_text(panel, Some(amount)) is None
            &&& !silent ==> caption_text(panel, None) == Some("No estimate available"@)
            &&& !silent && amount.is_zero ==> caption_text(panel, Some(amount)) == Some("Free"@)
            &&& !silent && !amount.is_zero && panel.total() == 0 ==> caption_text(panel, Some(amount)) == Some("≈ "@ + amount.text@ + " each"@)
            &&& !silent && !amount.is_zero && panel.total() > 0 ==> caption_text(panel, Some(amount)) == Some(
                "≈ "@ + amount.text@ + " estimated"@,
            )
        }),
{
}

/// Every file that could not be added is told of: each that could not be read by its name, and each other reason
/// once; a file that was added is not.
pub proof fn every_failed_file_is_told_of(outcomes: Seq<PathOutcome>, names: Seq<Option<Seq<char>>>, why: String, path: String, asset: AssetId)
    ensures
        failure_texts(Seq::<PathOutcome>::empty(), names).len() == 0,
        failure_texts(outcomes.push(PathOutcome::Imported(asset)), names) == failure_texts(outcomes, names),
        failure_texts(outcomes.push(PathOutcome::Unreadable(path)), names) == failure_texts(outcomes, names).push(
            called(names, outcomes.len() as int) + " couldn't be read."@,
        ),
        failure_texts(outcomes, names).contains(why@) ==> failure_texts(outcomes.push(PathOutcome::Rejected(why)), names) == failure_texts(
            outcomes,
            names,
        ),
        !failure_texts(outcomes, names).contains(why@) ==> failure_texts(outcomes.push(PathOutcome::Rejected(why)), names) == failure_texts(
            outcomes,
            names,
        ).push(why@),
        failure_toast(outcomes, names) is Some <==> failure_texts(outcomes, names).len() > 0,
        failure_toast(outcomes, names) matches Some(text) ==> text == joined(failure_texts(outcomes, names), "\n"@),
{
    assert(outcomes.push(PathOutcome::Imported(asset)).drop_last() =~= outcomes);
    assert(outcomes.push(PathOutcome::Unreadable(path)).drop_last() =~= outcomes);
    assert(outcomes.push(PathOutcome::Rejected(why)).drop_last() =~= outcomes);
}

/// A file that could not be read is called by its own name.
pub proof fn a_file_is_called_by_its_own_name(outcomes: Seq<PathOutcome>, names: Seq<Option<Seq<char>>>, i: int)
    requires
        may_be_called(outcomes, names),
        0 <= i < outcomes.len(),
    ensures
        names.len() == outcomes.len(),
        outcomes[i] matches PathOutcome::Unreadable(path) ==> may_be_named(path@, names[i]),
        names[i] matches Some(name) ==> called(names, i) == name,
        names[i] is None ==> called(names, i).len() == 0,
{
    assert(outcomes[i] == outcomes[i]);
}

/// Files are added one by one in their order, each that became an asset offered to the role; the others leave
/// the panel as it is.
pub proof fn each_file_is_offered_in_turn(panel: PanelModel, role: AssetRole, outcomes: Seq<PathOutcome>, last: PathOutcome, motion: Motion)
    ensures
        panel.with_files(role, Seq::empty(), motion) == panel,
        last matches PathOutcome::Imported(asset) ==> panel.with_files(role, outcomes.push(last), motion) == panel.with_files(
            role,
            outcomes,
            motion,
        ).offered(asset, role, motion),
        !(last is Imported) ==> panel.with_files(role, outcomes.push(last), motion) == panel.with_files(role, outcomes, motion),
{
    assert(outcomes.push(last).drop_last() =~= outcomes);
}

/// What is dragged onto a role's card is offered to it one by one, each asset of the kind the role takes; the
/// card lights up exactly for a drag that carries such a one.
pub proof fn a_drag_onto_a_card_offers_what_fits(panel: PanelModel, role: AssetRole, dragged: Seq<DraggedAsset>, last: DraggedAsset, motion: Motion)
    ensures
        ({
            let fits = match role {
                AssetRole::Audio => last.kind == MediaType::Audio,
                AssetRole::ReferenceVideo => last.kind == MediaType::Video,
                _ => last.kind == MediaType::Image,
            };
            &&& panel.with_dragged(role, Seq::empty(), motion) == panel
            &&& fits ==> panel.with_dragged(role, dragged.push(last), motion) == panel.with_dragged(role, dragged, motion).offered(
                last.id,
                role,
                motion,
            )
            &&& !fits ==> panel.with_dragged(role, dragged.push(last), motion) == panel.with_dragged(role, dragged, motion)
            &&& !takes_some(role, Seq::empty())
            &&& takes_some(role, dragged.push(last)) <==> fits || takes_some(role, dragged)
        }),
{
    let all = dragged.push(last);
    assert(all.drop_last() =~= dragged);
    assert(all[dragged.len() as int] == last);
    if takes_some(role, dragged) {
        let i = choose|i: int| 0 <= i < dragged.len() && role_media(role) == (#[trigger] dragged[i]).kind;
        assert(all[i] == dragged[i]);
    }
    if takes_some(role, all) {
        let i = choose|i: int| 0 <= i < all.len() && role_media(role) == (#[trigger] all[i]).kind;
        if i < dragged.len() {
            assert(all[i] == dragged[i]);
        }
    }
}

/// An asset for a role is attached there where the model takes the role and has room, on the tab that owns the
/// role where the current one has no such slot; where it is not attached for want of a slot or of room, the
/// user is told.
pub proof fn an_asset_for_a_role_is_attached_or_told_of(panel: PanelModel, asset: AssetId, role: AssetRole, name: Seq<char>, motion: Motion)
    ensures
        ({
            let placed = panel.placed_as(asset, role, name, motion);
            let there = if has_slot(panel.state.draft.slots, role) {
                panel
            } else {
                panel.switched(ComposeTab::Media(home_tab(role)))
            };
            let slot = has_slot(there.state.draft.slots, role);
            let room = there.state.attached_as(role) < there.state.limit(role);
            &&& !slot ==> placed.panel == there && !placed.added && placed.toast == Some("The selected model doesn't take a "@ + name + " input."@)
            &&& slot && !room ==> placed.panel == there && !placed.added && placed.toast == Some("No room for another "@ + name + " input."@)
            &&& slot && room ==> placed.panel == there.offered(asset, role, motion) && (placed.added <==> there.state.is_open(role))
                && placed.toast is None
        }),
{
    a_role_takes_what_its_slot_says(panel.state, role, 0);
    a_role_takes_what_its_slot_says(panel.switched(ComposeTab::Media(home_tab(role))).state, role, 0);
}

/// A picture without a role is attached where the current tab has an open role for it, else on the Image tab; a
/// clip likewise, else on the Video tab. Where there is none the user is told, of frames that stand in a clip's
/// way in particular.
pub proof fn a_dropped_file_finds_its_tab(panel: PanelModel, asset: AssetId, motion: Motion)
    ensures
        ({
            let placed = panel.placed_image(asset, motion);
            let there = if panel.state.image_role() is Some {
                panel
            } else {
                panel.switched(ComposeTab::Media(MediaType::Image))
            };
            &&& there.state.image_role() matches Some(role) ==> placed.panel == there.offered(asset, role, motion) && placed.toast is None
            &&& there.state.image_role() is None ==> placed.panel == there && !placed.added && placed.toast == Some(
                "No room for another input image."@,
            )
        }),
        ({
            let placed = panel.placed_video(asset, motion);
            let there = if panel.state.is_open(AssetRole::ReferenceVideo) {
                panel
            } else {
                panel.switched(ComposeTab::Media(MediaType::Video))
            };
            &&& there.state.is_open(AssetRole::ReferenceVideo) ==> placed.panel == there.offered(asset, AssetRole::ReferenceVideo, motion)
                && placed.added && placed.toast is None
            &&& !there.state.is_open(AssetRole::ReferenceVideo) ==> placed.panel == there && !placed.added && placed.toast == Some(
                if there.state.has_frames() {
                    "Remove the start or end frame to use references instead."@
                } else {
                    "This model doesn't take a video reference."@
                },
            )
        }),
{
}

/// What is dropped on the panel is placed one by one by its kind, and whatever cannot be is told of in turn; no
/// card stays lit.
pub proof fn a_drop_on_the_panel_places_each_by_its_kind(
    panel: PanelModel,
    dragged: Seq<DraggedAsset>,
    last: DraggedAsset,
    name: Seq<char>,
    motion: Motion,
)
    ensures
        panel.after_drop(Seq::empty(), name, motion) == (PanelModel { drop_target: None, ..panel }),
        panel.drop_toasts(Seq::empty(), name, motion).len() == 0,
        ({
            let before = panel.after_drop(dragged, name, motion);
            let placed = match last.kind {
                MediaType::Audio => before.placed_as(last.id, AssetRole::Audio, name, motion),
                MediaType::Image => before.placed_image(last.id, motion),
                MediaType::Video => before.placed_video(last.id, motion),
            };
            &&& panel.after_drop(dragged.push(last), name, motion) == placed.panel
            &&& placed.toast is None ==> panel.drop_toasts(dragged.push(last), name, motion) == panel.drop_toasts(dragged, name, motion)
            &&& placed.toast matches Some(text) ==> panel.drop_toasts(dragged.push(last), name, motion) == panel.drop_toasts(dragged, name, motion).push(
                text,
            )
        }),
{
    assert(dragged.push(last).drop_last() =~= dragged);
}

/// What became of an asset is what its caller is told.
pub proof fn what_became_of_an_asset_is_told(placed: Placed, panel: PanelModel, r: (bool, Option<String>))
    requires
        became(placed, panel, r),
    ensures
        panel == placed.panel,
        r.0 == placed.added,
        opt_text(r.1) == placed.toast,
{
}

/// A picture on the clipboard can be pasted where it is a PNG or can be made one; nothing else can.
pub proof fn only_pictures_are_pasted(png: bool, transcodes: bool)
    ensures
        pasteable(ClipboardPiece::Image { png, transcodes }) <==> png || transcodes,
        !pasteable(ClipboardPiece::Other),
{
}

/// A file is imported with the content type of its role: audio by its extension, whatever its case, a clip as MP4
/// and a picture as a picture.
pub proof fn a_file_is_imported_by_its_role(role: AssetRole, e: Seq<char>)
    ensures
        ascii_lowercase(e) == "wav"@ ==> input_type(AssetRole::Audio, Some(e)) == "audio/wav"@,
        ascii_lowercase(e) == "mp3"@ ==> input_type(AssetRole::Audio, Some(e)) == "audio/mpeg"@,
        ascii_lowercase(e) != "wav"@ && ascii_lowercase(e) != "mp3"@ ==> input_type(AssetRole::Audio, Some(e)) == ascii_lowercase(e),
        input_type(AssetRole::ReferenceVideo, Some(e)) == "video/mp4"@,
        input_type(AssetRole::ReferenceVideo, None) == "video/mp4"@,
        role != AssetRole::Audio && role != AssetRole::ReferenceVideo ==> input_type(role, Some(e)) == "image"@ && input_type(role, None)
            == "image"@,
{
    reveal_strlit("wav");
    reveal_strlit("mp3");
    assert("wav"@[0] == 'w' && "mp3"@[0] == 'm');
}

/// A caret past the end of the prompt is at its end.
pub proof fn a_caret_past_the_end_is_at_the_end(prompt: Seq<char>, caret: int, handle: Seq<char>)
    requires
        caret >= prompt.len(),
    ensures
        with_handle(prompt, caret, handle) == with_handle(prompt, prompt.len() as int, handle),
        prompt.len() == 0 ==> with_handle(prompt, caret, handle) == handle + " "@,
{
    if prompt.len() == 0 {
        assert(with_handle(prompt, caret, handle) =~= handle + " "@);
    }
}

/// A handle is set off by one space behind it, and by one ahead of it only where the caret is not behind white
/// space already.
pub proof fn a_handle_is_set_off_by_spaces(prompt: Seq<char>, caret: int, handle: Seq<char>)
    requires
        0 <= caret <= prompt.len(),
    ensures
        caret > 0 && !white_space(prompt[caret - 1]) ==> with_handle(prompt, caret, handle) == prompt.take(caret) + " "@ + handle + " "@
            + prompt.skip(caret),
        caret == 0 || white_space(prompt[caret - 1]) ==> with_handle(prompt, caret, handle) == prompt.take(caret) + handle + " "@ + prompt.skip(
            caret,
        ),
{
    assert(prompt.subrange(0, caret) =~= prompt.take(caret));
    assert(prompt.subrange(caret, prompt.len() as int) =~= prompt.skip(caret));
}

/// A menu of options lists each of them, the one in force checked and no other; the provider menu likewise.
pub proof fn the_option_in_force_is_checked(options: Seq<Seq<char>>, current: Option<Seq<char>>, choices: Seq<Choice>, i: int)
    requires
        choices_of(options, current, choices),
        0 <= i < options.len(),
    ensures
        choices.len() == options.len(),
        choices[i].label@ == options[i],
        choices[i].checked <==> current == Some(options[i]),
{
    assert(choices[i] == choices[i]);
}

/// An entry of the provider menu is its provider's, checked exactly where that is the one in force.
pub proof fn the_provider_in_force_is_checked(provider: Provider, current: Seq<char>, entry: ProviderEntry)
    requires
        provider_entry(provider, current, entry),
    ensures
        entry matches ProviderEntry::Provider { id, name, checked } && id@ == provider.id@ && name@ == provider.display_name@ && (checked
            <==> provider.id@ == current),
{
}

/// A stored request that is loaded leaves the tab it came to in its own place: the draft left behind waits where
/// the loaded one waited, and its voices are those of the request, or stay.
pub proof fn a_loaded_request_leaves_the_other_drafts(
    state: DraftModel,
    draft: TabModel,
    inputs: Seq<DraftAsset>,
    voices: Option<(Option<Seq<char>>, Option<Seq<char>>)>,
)
    ensures
        ({
            let after = state.loaded(draft, inputs, voices);
            &&& state.draft.tab == draft.tab ==> after.others == state.others
            &&& state.draft.tab != draft.tab && (forall|i: int| 0 <= i < state.others.len() ==> (#[trigger] state.others[i]).tab != draft.tab)
                ==> after.others == state.others.push(state.draft)
            &&& voices is None ==> after.speaker1 == state.speaker1 && after.speaker2 == state.speaker2
            &&& voices matches Some((one, two)) ==> after.speaker1 == one && after.speaker2 == two
            &&& after.provider_id == state.provider_id && after.provider_name == state.provider_name
            &&& after.requires_api_key == state.requires_api_key && after.improves == state.improves
        }),
        forall|i: int|
            state.draft.tab != draft.tab && 0 <= i < state.others.len() && (#[trigger] state.others[i]).tab == draft.tab && (forall|j: int|
                0 <= j < i ==> (#[trigger] state.others[j]).tab != draft.tab) ==> state.loaded(draft, inputs, voices).others
                == state.others.update(i, state.draft),
{
    lemma_first_from(state.others, |t: TabModel| t.tab == draft.tab, 0);
}

/// The voices of a stored request are called as they are written.
pub proof fn voices_are_called_as_written(one: Option<String>, two: Option<String>)
    ensures
        voice_texts(Some((one, two))) == Some((opt_text(one), opt_text(two))),
        voice_texts(None) is None,
{
}

/// Names are as they stand, one by one.
pub proof fn names_are_as_they_stand(all: Seq<Option<String>>, i: int)
    requires
        0 <= i < all.len(),
    ensures
        opt_texts(all).len() == all.len(),
        all[i] matches Some(name) ==> opt_texts(all)[i] == Some(name@),
        all[i] is None ==> opt_texts(all)[i] is None,
{
}

} // verus!

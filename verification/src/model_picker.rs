//! Model picker, a searchable palette: one row per model (logo tile, name, maker and capability
//! chips), with the current model checked. Typing filters the rows. The models generated with most
//! recently sit in a `Recent` section above `All models`; the section goes away while a search is
//! typed, since the matches are the shortcut then.

use vstd::prelude::*;

use crate::model::{MediaType, ToolId};
use crate::seqs::{
    first_from, first_place, keeping_leaves_out_only_what_does_not_fit, kept, lemma_first_from, lemma_picked_ends, lemma_picked_from, lemma_picked_step,
    picked, picking_goes_entry_by_entry, picks, sifts,
};
use crate::text::{
    ascii_lowercase, blank, cat, cat3, contains_text, copy_texts, decimal, dec, is_ascii, is_blank, join, joined, lemma_ascii_words, lemma_words_apart,
    lemma_words_lowered, lowercase, occurs, same_text, split_words, texts, to_lowercase, white_space, words,
};

verus! {

/// The composer's tabs: one per kind of media, and one per tool.
#[derive(Clone, Copy, Debug, PartialEq, Eq, Hash, Structural)]
pub enum ComposeTab {
    Media(MediaType),
    Tool(ToolId),
}

// ----- the catalog ----------------------------------------------------------------------------

/// What every model of a provider's catalog has.
#[derive(Clone, Copy, Debug, PartialEq, Eq)]
pub struct ModelInfo {
    pub id: &'static str,
    pub name: &'static str,
    pub manufacturer: &'static str,
    pub logo: &'static str,
    pub short_description: &'static str,
}

/// A resolution a model offers: its place among all resolutions, and how it is written.
#[derive(Clone, Copy, Debug)]
pub struct Resolution {
    pub rank: u32,
    pub label: &'static str,
}

pub struct ImageModel {
    pub info: ModelInfo,
    /// What the provider's tables declare of it, if anything.
    pub capabilities: Option<ImageCapabilities>,
}

pub struct ImageCapabilities {
    pub max_input_images: u64,
    pub resolutions: Vec<Resolution>,
}

pub struct VideoModel {
    pub info: ModelInfo,
    /// What the provider's tables declare of it, if anything.
    pub capabilities: Option<VideoCapabilities>,
}

/// How many reference pictures and pieces of reference audio a video model takes.
#[derive(Clone, Copy, Debug, PartialEq, Eq, Structural)]
pub struct ReferenceLimits {
    pub images: u64,
    pub audio: u64,
}

pub struct VideoCapabilities {
    pub min_seconds: u64,
    pub max_seconds: u64,
    pub resolutions: Vec<Resolution>,
    pub takes_first_frame: bool,
    pub takes_last_frame: bool,
    pub references: Option<ReferenceLimits>,
    pub takes_audio: bool,
    pub supports_audio: bool,
}

pub struct ToolModel {
    pub info: ModelInfo,
    /// The kind of media it works on.
    pub media: &'static str,
    /// The factors it upscales by, as they are written; none without declared capabilities.
    pub upscale_factors: Vec<String>,
}

/// The models a provider offers.
pub struct Catalog {
    pub image: Vec<ImageModel>,
    pub video: Vec<VideoModel>,
    pub audio: Vec<ModelInfo>,
    pub upscale: Vec<ToolModel>,
    pub remove_background: Vec<ToolModel>,
}

// ----- rows -----------------------------------------------------------------------------------

/// One row of the picker.
#[derive(Clone, Debug)]
pub struct ModelRow {
    pub index: usize,
    /// The catalog id, what recently used models are remembered by.
    pub id: &'static str,
    pub name: &'static str,
    pub manufacturer: &'static str,
    pub logo: &'static str,
    pub description: &'static str,
    pub chips: Vec<String>,
}

/// A row as contracts speak of it.
#[verifier::ext_equal]
pub struct RowModel {
    pub index: usize,
    pub id: Seq<char>,
    pub name: Seq<char>,
    pub manufacturer: Seq<char>,
    pub logo: Seq<char>,
    pub description: Seq<char>,
    pub chips: Seq<Seq<char>>,
}

impl View for ModelRow {
    type V = RowModel;

    open spec fn view(&self) -> RowModel {
        RowModel {
            index: self.index,
            id: self.id@,
            name: self.name@,
            manufacturer: self.manufacturer@,
            logo: self.logo@,
            description: self.description@,
            chips: texts(self.chips@),
        }
    }
}

/// The rows of a list.
pub open spec fn row_models(rows: Seq<ModelRow>) -> Seq<RowModel> {
    Seq::new(rows.len(), |i: int| rows[i]@)
}

/// What a search looks through in a row.
pub open spec fn haystack(row: RowModel) -> Seq<char> {
    row.name + " "@ + row.manufacturer + " "@ + row.description
}

/// Whether every term occurs in `hay`.
pub open spec fn all_occur(hay: Seq<char>, terms: Seq<Seq<char>>) -> bool {
    forall|i: int| 0 <= i < terms.len() ==> occurs(hay, #[trigger] terms[i])
}

pub open spec fn lowercase_all(terms: Seq<Seq<char>>) -> Seq<Seq<char>> {
    Seq::new(terms.len(), |i: int| lowercase(terms[i]))
}

/// Whether a search for `query` finds the row.
pub open spec fn row_matches(row: RowModel, query: Seq<char>) -> bool {
    all_occur(lowercase(haystack(row)), lowercase_all(words(query)))
}

/// Whether a search for `query`, ASCII text, finds the row: the case of its letters does not count.
pub open spec fn row_matches_ascii(row: RowModel, query: Seq<char>) -> bool {
    all_occur(lowercase(haystack(row)), words(ascii_lowercase(query)))
}

/// Whether every term occurs in `hay`.
pub fn terms_occur(hay: &str, terms: &Vec<String>) -> (r: bool)
    ensures
        r == all_occur(hay@, texts(terms@)),
{
    let mut i: usize = 0;
    while i < terms.len()
        invariant
            i <= terms.len(),
            forall|k: int| 0 <= k < i ==> occurs(hay@, #[trigger] texts(terms@)[k]),
        decreases terms.len() - i,
    {
        if !contains_text(hay, terms[i].as_str()) {
            assert(!occurs(hay@, texts(terms@)[i as int]));
            return false;
        }
        i += 1;
    }
    true
}

impl ModelRow {
    /// Case-insensitive match: every whitespace-separated term of `query` must occur in the name,
    /// the manufacturer or the description. An empty query matches everything.
    pub fn matches(&self, query: &str) -> (r: bool)
        ensures
            r == row_matches(self@, query@),
            is_ascii(query@) ==> r == row_matches_ascii(self@, query@),
    {
        let mut all = cat3(self.name, " ", self.manufacturer);
        all.append(" ");
        all.append(self.description);
        let hay = to_lowercase(all.as_str());
        let terms = split_words(query);
        let mut lower: Vec<String> = Vec::new();
        let mut i: usize = 0;
        while i < terms.len()
            invariant
                i <= terms.len(),
                lower.len() == i,
                forall|k: int|
                    0 <= k < i ==> (#[trigger] lower@[k])@ == lowercase(terms@[k]@) && (is_ascii(terms@[k]@) ==> lower@[k]@
                        == ascii_lowercase(terms@[k]@)),
            decreases terms.len() - i,
        {
            lower.push(to_lowercase(terms[i].as_str()));
            i += 1;
        }
        assert(texts(lower@) =~= lowercase_all(texts(terms@)));
        proof {
            lemma_words_lowered(query@);
            if is_ascii(query@) {
                lemma_ascii_words(query@);
                assert forall|k: int| 0 <= k < lower@.len() implies (#[trigger] lower@[k])@ == ascii_lowercase(words(query@)[k]) by {
                    assert(terms@[k]@ == words(query@)[k]);
                }
                assert(texts(lower@) =~= words(ascii_lowercase(query@)));
            }
        }
        terms_occur(hay.as_str(), &lower)
    }

    /// The same row again.
    pub fn copy(&self) -> (r: ModelRow)
        ensures
            r@ == self@,
            r.index == self.index,
    {
        let chips = copy_texts(&self.chips);
        ModelRow {
            index: self.index,
            id: self.id,
            name: self.name,
            manufacturer: self.manufacturer,
            logo: self.logo,
            description: self.description,
            chips,
        }
    }
}

// ----- chips ----------------------------------------------------------------------------------

/// The lowest resolution.
pub open spec fn lowest(res: Seq<Resolution>) -> Resolution
    decreases res.len(),
{
    if res.len() <= 1 {
        res[0]
    } else {
        let before = lowest(res.drop_last());
        if res.last().rank < before.rank {
            res.last()
        } else {
            before
        }
    }
}

/// The highest resolution.
pub open spec fn highest(res: Seq<Resolution>) -> Resolution
    decreases res.len(),
{
    if res.len() <= 1 {
        res[0]
    } else {
        let before = highest(res.drop_last());
        if res.last().rank >= before.rank {
            res.last()
        } else {
            before
        }
    }
}

/// The chip that states which resolutions a model offers; none when it declares none.
pub open spec fn range_chip(res: Seq<Resolution>) -> Seq<Seq<char>> {
    if res.len() == 0 {
        Seq::empty()
    } else if lowest(res).rank == highest(res).rank {
        seq![lowest(res).label@]
    } else {
        seq![lowest(res).label@ + " - "@ + highest(res).label@]
    }
}

/// `n reference(s)`.
pub open spec fn references_chip(n: nat) -> Seq<char> {
    dec(n) + (if n == 1 {
        " reference"@
    } else {
        " references"@
    })
}

pub open spec fn image_chips(caps: Option<ImageCapabilities>) -> Seq<Seq<char>> {
    match caps {
        Some(c) => (if c.max_input_images > 0 {
            seq![references_chip(c.max_input_images as nat)]
        } else {
            Seq::empty()
        }) + range_chip(c.resolutions@),
        None => Seq::empty(),
    }
}

/// The chip that states which frames a video model takes.
pub open spec fn frames_chip(first: bool, last: bool) -> Seq<Seq<char>> {
    if first && last {
        seq!["Start / End"@]
    } else if first {
        seq!["Start"@]
    } else if last {
        seq!["End"@]
    } else {
        Seq::empty()
    }
}

/// How long a video model's clips run.
pub open spec fn duration_chip(min: nat, max: nat) -> Seq<char> {
    if min == max {
        dec(min) + "s"@
    } else {
        dec(min) + " - "@ + dec(max) + "s"@
    }
}

pub open spec fn video_chips(caps: Option<VideoCapabilities>) -> Seq<Seq<char>> {
    match caps {
        Some(c) => seq![duration_chip(c.min_seconds as nat, c.max_seconds as nat)] + range_chip(c.resolutions@) + frames_chip(
            c.takes_first_frame,
            c.takes_last_frame,
        ) + (match c.references {
            Some(r) => seq![references_chip(r.images as nat)],
            None => Seq::empty(),
        }) + (if c.takes_audio && !(c.references matches Some(r) && r.audio > 0) {
            seq!["Audio input"@]
        } else {
            Seq::empty()
        }) + (if c.supports_audio {
            seq!["Audio"@]
        } else {
            Seq::empty()
        }),
        None => Seq::empty(),
    }
}

/// The factors of an upscaler, each with a multiplication sign.
pub open spec fn factor_texts(factors: Seq<Seq<char>>) -> Seq<Seq<char>> {
    Seq::new(factors.len(), |i: int| factors[i] + "×"@)
}

pub open spec fn tool_chips(model: ToolModel) -> Seq<Seq<char>> {
    seq![model.media@] + (if model.upscale_factors@.len() > 0 {
        seq![joined(factor_texts(texts(model.upscale_factors@)), " / "@)]
    } else {
        Seq::empty()
    })
}

pub open spec fn row_of(index: int, info: ModelInfo, description: Seq<char>, chips: Seq<Seq<char>>) -> RowModel {
    RowModel {
        index: index as usize,
        id: info.id@,
        name: info.name@,
        manufacturer: info.manufacturer@,
        logo: info.logo@,
        description,
        chips,
    }
}

/// The rows of a tool's tab. An upscaler's description only restates the chips beside it, so its
/// rows are the name, the maker and the chips.
pub open spec fn tool_rows(models: Seq<ToolModel>, tool: ToolId) -> Seq<RowModel> {
    Seq::new(
        models.len(),
        |i: int|
            row_of(
                i,
                models[i].info,
                if tool == ToolId::Upscale {
                    ""@
                } else {
                    models[i].info.short_description@
                },
                tool_chips(models[i]),
            ),
    )
}

/// The rows of a tab.
pub open spec fn tab_rows(catalog: Catalog, tab: ComposeTab) -> Seq<RowModel> {
    match tab {
        ComposeTab::Tool(ToolId::Upscale) => tool_rows(catalog.upscale@, ToolId::Upscale),
        ComposeTab::Tool(ToolId::RemoveBackground) => tool_rows(catalog.remove_background@, ToolId::RemoveBackground),
        ComposeTab::Media(MediaType::Image) => Seq::new(
            catalog.image@.len(),
            |i: int|
                row_of(
                    i,
                    catalog.image@[i].info,
                    catalog.image@[i].info.short_description@,
                    image_chips(catalog.image@[i].capabilities),
                ),
        ),
        ComposeTab::Media(MediaType::Video) => Seq::new(
            catalog.video@.len(),
            |i: int|
                row_of(
                    i,
                    catalog.video@[i].info,
                    catalog.video@[i].info.short_description@,
                    video_chips(catalog.video@[i].capabilities),
                ),
        ),
        ComposeTab::Media(MediaType::Audio) => Seq::new(
            catalog.audio@.len(),
            |i: int| row_of(i, catalog.audio@[i], catalog.audio@[i].short_description@, Seq::empty()),
        ),
    }
}

/// The chip that states which resolutions a model offers.
pub fn resolution_range(res: &Vec<Resolution>) -> (r: Option<String>)
    ensures
        match r {
            Some(text) => range_chip(res@) == seq![text@],
            None => range_chip(res@).len() == 0,
        },
{
    if res.len() == 0 {
        return None;
    }
    let mut min: usize = 0;
    let mut max: usize = 0;
    let mut i: usize = 1;
    while i < res.len()
        invariant
            1 <= i <= res.len(),
            min < res.len(),
            max < res.len(),
            res@[min as int] == lowest(res@.take(i as int)),
            res@[max as int] == highest(res@.take(i as int)),
        decreases res.len() - i,
    {
        assert(res@.take(i + 1).drop_last() =~= res@.take(i as int));
        assert(res@.take(i + 1).last() == res@[i as int]);
        if res[i].rank < res[min].rank {
            min = i;
        }
        if res[i].rank >= res[max].rank {
            max = i;
        }
        i += 1;
    }
    assert(res@.take(res@.len() as int) =~= res@);
    if res[min].rank == res[max].rank {
        Some(res[min].label.to_owned())
    } else {
        Some(cat3(res[min].label, " - ", res[max].label))
    }
}

fn reference_count(n: u64) -> (r: String)
    ensures
        r@ == references_chip(n as nat),
{
    cat(
        decimal(n).as_str(),
        if n == 1 {
            " reference"
        } else {
            " references"
        },
    )
}

/// The chips of an image model.
pub fn chips_of_image(caps: &Option<ImageCapabilities>) -> (r: Vec<String>)
    ensures
        texts(r@) == image_chips(*caps),
{
    let mut chips: Vec<String> = Vec::new();
    if let Some(c) = caps {
        if c.max_input_images > 0 {
            chips.push(reference_count(c.max_input_images));
        }
        if let Some(range) = resolution_range(&c.resolutions) {
            chips.push(range);
        }
    }
    assert(texts(chips@) =~= image_chips(*caps));
    chips
}

/// The chips of a video model. The audio slot of a model with reference audio is a reference list,
/// not the single conditioning track that `Audio input` means.
pub fn chips_of_video(caps: &Option<VideoCapabilities>) -> (r: Vec<String>)
    ensures
        texts(r@) == video_chips(*caps),
{
    let mut chips: Vec<String> = Vec::new();
    if let Some(c) = caps {
        chips.push(
            if c.min_seconds == c.max_seconds {
                cat(decimal(c.min_seconds).as_str(), "s")
            } else {
                cat(cat3(decimal(c.min_seconds).as_str(), " - ", decimal(c.max_seconds).as_str()).as_str(), "s")
            },
        );
        if let Some(range) = resolution_range(&c.resolutions) {
            chips.push(range);
        }
        if c.takes_first_frame && c.takes_last_frame {
            chips.push("Start / End".to_owned());
        } else if c.takes_first_frame {
            chips.push("Start".to_owned());
        } else if c.takes_last_frame {
            chips.push("End".to_owned());
        }
        if let Some(references) = c.references {
            chips.push(reference_count(references.images));
        }
        let reference_audio: u64 = match c.references {
            Some(references) => references.audio,
            None => 0,
        };
        if c.takes_audio && reference_audio == 0 {
            chips.push("Audio input".to_owned());
        }
        if c.supports_audio {
            chips.push("Audio".to_owned());
        }
    }
    assert(texts(chips@) =~= video_chips(*caps));
    chips
}

/// The chips of a tool's model. The media chip is what tells the two upscalers apart: picking one is
/// how the Upscale tab switches between taking an image and taking a clip.
pub fn chips_of_tool(model: &ToolModel) -> (r: Vec<String>)
    ensures
        texts(r@) == tool_chips(*model),
{
    let mut chips: Vec<String> = Vec::new();
    chips.push(model.media.to_owned());
    if model.upscale_factors.len() > 0 {
        let mut factors: Vec<String> = Vec::new();
        let mut i: usize = 0;
        while i < model.upscale_factors.len()
            invariant
                i <= model.upscale_factors.len(),
                factors.len() == i,
                forall|k: int| 0 <= k < i ==> (#[trigger] factors@[k])@ == model.upscale_factors@[k]@ + "×"@,
            decreases model.upscale_factors.len() - i,
        {
            factors.push(cat(model.upscale_factors[i].as_str(), "×"));
            i += 1;
        }
        assert(texts(factors@) =~= factor_texts(texts(model.upscale_factors@)));
        chips.push(join(&factors, " / "));
    }
    assert(texts(chips@) =~= tool_chips(*model));
    chips
}

fn row(index: usize, info: &ModelInfo, description: &'static str, chips: Vec<String>) -> (r: ModelRow)
    ensures
        r@ == row_of(index as int, *info, description@, texts(chips@)),
{
    ModelRow {
        index,
        id: info.id,
        name: info.name,
        manufacturer: info.manufacturer,
        logo: info.logo,
        description,
        chips,
    }
}

fn rows_of_tool(models: &Vec<ToolModel>, tool: ToolId) -> (r: Vec<ModelRow>)
    ensures
        row_models(r@) == tool_rows(models@, tool),
{
    let mut out: Vec<ModelRow> = Vec::new();
    let mut i: usize = 0;
    while i < models.len()
        invariant
            i <= models.len(),
            out.len() == i,
            forall|k: int| 0 <= k < i ==> (#[trigger] out@[k])@ == tool_rows(models@, tool)[k],
        decreases models.len() - i,
    {
        let m = &models[i];
        let description = if tool == ToolId::Upscale {
            ""
        } else {
            m.info.short_description
        };
        out.push(row(i, &m.info, description, chips_of_tool(m)));
        i += 1;
    }
    assert(row_models(out@) =~= tool_rows(models@, tool));
    out
}

/// Rows for the given catalog and tab, with their capability chips.
pub fn rows(catalog: &Catalog, tab: ComposeTab) -> (r: Vec<ModelRow>)
    ensures
        row_models(r@) == tab_rows(*catalog, tab),
{
    let mut out: Vec<ModelRow> = Vec::new();
    let mut i: usize = 0;
    match tab {
        ComposeTab::Tool(ToolId::Upscale) => {
            return rows_of_tool(&catalog.upscale, ToolId::Upscale);
        },
        ComposeTab::Tool(ToolId::RemoveBackground) => {
            return rows_of_tool(&catalog.remove_background, ToolId::RemoveBackground);
        },
        ComposeTab::Media(MediaType::Image) => {
            while i < catalog.image.len()
                invariant
                    i <= catalog.image.len(),
                    out.len() == i,
                    tab == ComposeTab::Media(MediaType::Image),
                    forall|k: int| 0 <= k < i ==> (#[trigger] out@[k])@ == tab_rows(*catalog, tab)[k],
                decreases catalog.image.len() - i,
            {
                let m = &catalog.image[i];
                out.push(row(i, &m.info, m.info.short_description, chips_of_image(&m.capabilities)));
                i += 1;
            }
        },
        ComposeTab::Media(MediaType::Video) => {
            while i < catalog.video.len()
                invariant
                    i <= catalog.video.len(),
                    out.len() == i,
                    tab == ComposeTab::Media(MediaType::Video),
                    forall|k: int| 0 <= k < i ==> (#[trigger] out@[k])@ == tab_rows(*catalog, tab)[k],
                decreases catalog.video.len() - i,
            {
                let m = &catalog.video[i];
                out.push(row(i, &m.info, m.info.short_description, chips_of_video(&m.capabilities)));
                i += 1;
            }
        },
        ComposeTab::Media(MediaType::Audio) => {
            while i < catalog.audio.len()
                invariant
                    i <= catalog.audio.len(),
                    out.len() == i,
                    tab == ComposeTab::Media(MediaType::Audio),
                    forall|k: int| 0 <= k < i ==> (#[trigger] out@[k])@ == tab_rows(*catalog, tab)[k],
                decreases catalog.audio.len() - i,
            {
                let m = &catalog.audio[i];
                let chips: Vec<String> = Vec::new();
                assert(texts(chips@) =~= Seq::empty());
                out.push(row(i, m, m.short_description, chips));
                i += 1;
            }
        },
    }
    assert(row_models(out@) =~= tab_rows(*catalog, tab));
    out
}

/// The row with this id.
pub open spec fn row_named(all: Seq<RowModel>, id: Seq<char>) -> Option<RowModel> {
    match first_place(all, |row: RowModel| row.id == id) {
        Some(i) => Some(all[i]),
        None => None,
    }
}

/// The rows of `all` that `recent` names, in `recent`'s order.
pub open spec fn recent_models(all: Seq<RowModel>, recent: Seq<Seq<char>>) -> Seq<RowModel> {
    picked(recent, |id: Seq<char>| row_named(all, id))
}

/// The rows of `all` that `recent` names, in `recent`'s (newest-first) order. A remembered model the
/// provider doesn't offer is simply not shown.
pub fn recent_rows(all: &Vec<ModelRow>, recent: &Vec<String>) -> (r: Vec<ModelRow>)
    ensures
        row_models(r@) == recent_models(row_models(all@), texts(recent@)),
{
    let ghost models = row_models(all@);
    let ghost ids = texts(recent@);
    let ghost pick = |id: Seq<char>| row_named(models, id);
    let mut out: Vec<ModelRow> = Vec::new();
    let mut i: usize = 0;
    proof {
        lemma_picked_ends(ids, pick);
        assert(row_models(out@) =~= Seq::empty());
    }
    while i < recent.len()
        invariant
            i <= recent.len(),
            models == row_models(all@),
            ids == texts(recent@),
            pick == (|id: Seq<char>| row_named(models, id)),
            row_models(out@) == picked(ids.take(i as int), pick),
        decreases recent.len() - i,
    {
        let ghost id = recent@[i as int]@;
        let ghost fits = |row: RowModel| row.id == id;
        let ghost before = row_models(out@);
        proof {
            lemma_picked_step(ids, pick, i as int);
        }
        let mut j: usize = 0;
        let mut found: Option<usize> = None;
        while j < all.len() && found.is_none()
            invariant
                j <= all.len(),
                i < recent.len(),
                models == row_models(all@),
                id == recent@[i as int]@,
                fits == (|row: RowModel| row.id == id),
                match found {
                    Some(k) => k < all.len() && first_from(models, fits, 0) == Some(k as int),
                    None => first_from(models, fits, 0) == first_from(models, fits, j as int),
                },
            decreases all.len() - j + if found is None { 1int } else { 0 },
        {
            if same_text(all[j].id, recent[i].as_str()) {
                found = Some(j);
            } else {
                j += 1;
            }
        }
        if let Some(k) = found {
            out.push(all[k].copy());
            assert(row_models(out@) =~= before.push(models[k as int]));
        }
        i += 1;
    }
    proof {
        lemma_picked_ends(ids, pick);
    }
    out
}

// ----- the list -------------------------------------------------------------------------------

/// A place in the list.
#[derive(Clone, Copy, Debug, PartialEq, Eq, Structural)]
pub struct IndexPath {
    pub section: usize,
    pub row: usize,
}

/// The list behind the picker.
pub struct ModelPickerDelegate {
    pub all: Vec<ModelRow>,
    pub matched: Vec<ModelRow>,
    /// The tab's recently used models, newest first; listed in their own section while nothing is
    /// being searched for.
    pub recent: Vec<ModelRow>,
    pub searching: bool,
    /// Index into `all` of the model the composer currently uses.
    pub current: usize,
    pub selected: Option<IndexPath>,
}

/// The list as contracts speak of it.
#[verifier::ext_equal]
pub struct PickerModel {
    pub all: Seq<RowModel>,
    pub matched: Seq<RowModel>,
    pub recent: Seq<RowModel>,
    pub searching: bool,
    pub current: usize,
    pub selected: Option<IndexPath>,
}

impl View for ModelPickerDelegate {
    type V = PickerModel;

    open spec fn view(&self) -> PickerModel {
        PickerModel {
            all: row_models(self.all@),
            matched: row_models(self.matched@),
            recent: row_models(self.recent@),
            searching: self.searching,
            current: self.current,
            selected: self.selected,
        }
    }
}

impl PickerModel {
    pub open spec fn with_recent(self) -> bool {
        !self.searching && self.recent.len() > 0
    }

    /// How many rows a section has.
    pub open spec fn count(self, section: usize) -> nat {
        if self.with_recent() && section == 0 {
            self.recent.len()
        } else {
            self.matched.len()
        }
    }

    pub open spec fn at(self, ix: IndexPath) -> Option<RowModel> {
        let rows = if self.with_recent() && ix.section == 0 {
            self.recent
        } else {
            self.matched
        };
        if ix.row < rows.len() {
            Some(rows[ix.row as int])
        } else {
            None
        }
    }

    pub open spec fn current_path(self) -> IndexPath {
        if !self.with_recent() {
            IndexPath { section: 0, row: self.current }
        } else {
            match first_place(self.recent, |row: RowModel| row.index == self.current) {
                Some(row) => IndexPath { section: 0, row: row as usize },
                None => IndexPath { section: 1, row: self.current },
            }
        }
    }

    /// The list as it is opened over `all`: everything listed, nothing searched for.
    pub open spec fn opened(all: Seq<RowModel>, recent: Seq<RowModel>, current: usize) -> PickerModel {
        PickerModel { all, matched: all, recent, searching: false, current, selected: None }
    }

    /// The list once `query` is searched for.
    pub open spec fn searched(self, query: Seq<char>) -> PickerModel {
        PickerModel {
            searching: !blank(query),
            matched: kept(self.all, |row: RowModel| row_matches(row, query)),
            ..self
        }
    }
}

/// One model row as it is drawn: the list highlights it (`selected`) as the keyboard moves; the
/// composer's current model carries a check mark.
pub struct ModelListItem {
    pub at: IndexPath,
    pub row: ModelRow,
    pub current: bool,
    pub selected: bool,
}

impl ModelListItem {
    /// The row highlighted, or not.
    pub fn with_selected(self, selected: bool) -> (r: ModelListItem)
        ensures
            r == (ModelListItem { selected, ..self }),
    {
        ModelListItem { at: self.at, row: self.row, current: self.current, selected }
    }

    pub fn is_selected(&self) -> (r: bool)
        ensures
            r == self.selected,
    {
        self.selected
    }

    /// Whether the row carries chips, and whether it carries the check mark.
    pub fn adornments(&self) -> (r: (bool, bool))
        ensures
            r == (self.row@.chips.len() > 0, self.current),
    {
        (self.row.chips.len() > 0, self.current)
    }
}

fn names(rows: &Vec<ModelRow>) -> (r: Vec<&'static str>)
    ensures
        r@.len() == rows@.len(),
        forall|i: int| 0 <= i < r@.len() ==> (#[trigger] r@[i])@ == rows@[i].name@,
{
    let mut out: Vec<&'static str> = Vec::new();
    let mut i: usize = 0;
    while i < rows.len()
        invariant
            i <= rows.len(),
            out.len() == i,
            forall|k: int| 0 <= k < i ==> (#[trigger] out@[k])@ == rows@[k].name@,
        decreases rows.len() - i,
    {
        out.push(rows[i].name);
        i += 1;
    }
    out
}

fn copy_rows(rows: &Vec<ModelRow>) -> (r: Vec<ModelRow>)
    ensures
        row_models(r@) == row_models(rows@),
{
    let mut out: Vec<ModelRow> = Vec::new();
    let mut i: usize = 0;
    while i < rows.len()
        invariant
            i <= rows.len(),
            out.len() == i,
            forall|k: int| 0 <= k < i ==> (#[trigger] out@[k])@ == rows@[k]@,
        decreases rows.len() - i,
    {
        out.push(rows[i].copy());
        i += 1;
    }
    assert(row_models(out@) =~= row_models(rows@));
    out
}

impl ModelPickerDelegate {
    pub fn new(all: Vec<ModelRow>, recent: Vec<ModelRow>, current: usize) -> (r: ModelPickerDelegate)
        ensures
            r@ == PickerModel::opened(row_models(all@), row_models(recent@), current),
    {
        ModelPickerDelegate { matched: copy_rows(&all), all, recent, searching: false, current, selected: None }
    }

    /// Whether the list opens with the `Recent` section: only while nothing is typed, since the
    /// matches are the shortcut then. With it, the sections are `Recent` then `All models`;
    /// without, the one section is the (filtered) catalog.
    pub fn shows_recent(&self) -> (r: bool)
        ensures
            r == self@.with_recent(),
    {
        !self.searching && self.recent.len() > 0
    }

    /// The row at a place in the list.
    pub fn row_at(&self, ix: IndexPath) -> (r: Option<&ModelRow>)
        ensures
            match (r, self@.at(ix)) {
                (Some(a), Some(b)) => a@ == b,
                (None, None) => true,
                _ => false,
            },
    {
        if self.shows_recent() && ix.section == 0 {
            if ix.row < self.recent.len() {
                Some(&self.recent[ix.row])
            } else {
                None
            }
        } else if ix.row < self.matched.len() {
            Some(&self.matched[ix.row])
        } else {
            None
        }
    }

    /// Where the composer's current model is listed: in `Recent` when it is there (the list opens
    /// at the top, both sections in view), otherwise at its place in the catalog.
    pub fn path_of_current(&self) -> (r: IndexPath)
        ensures
            r == self@.current_path(),
    {
        if !self.shows_recent() {
            return IndexPath { section: 0, row: self.current };
        }
        let ghost models = row_models(self.recent@);
        let ghost fits = |row: RowModel| row.index == self@.current;
        let mut i: usize = 0;
        while i < self.recent.len()
            invariant
                i <= self.recent.len(),
                models == row_models(self.recent@),
                fits == (|row: RowModel| row.index == self@.current),
                self@.with_recent(),
                first_from(models, fits, 0) == first_from(models, fits, i as int),
            decreases self.recent.len() - i,
        {
            if self.recent[i].index == self.current {
                return IndexPath { section: 0, row: i };
            }
            i += 1;
        }
        IndexPath { section: 1, row: self.current }
    }

    /// Names of the catalog rows currently shown, in order.
    pub fn matched_names(&self) -> (r: Vec<&'static str>)
        ensures
            r@.len() == self@.matched.len(),
            forall|i: int| 0 <= i < r@.len() ==> (#[trigger] r@[i])@ == self@.matched[i].name,
    {
        names(&self.matched)
    }

    /// Names in the `Recent` section, newest first; empty when the section is not shown.
    pub fn recent_names(&self) -> (r: Vec<&'static str>)
        ensures
            self@.with_recent() ==> r@.len() == self@.recent.len(),
            !self@.with_recent() ==> r@.len() == 0,
            forall|i: int| 0 <= i < r@.len() ==> (#[trigger] r@[i])@ == self@.recent[i].name,
    {
        if self.shows_recent() {
            names(&self.recent)
        } else {
            Vec::new()
        }
    }

    pub fn sections_count(&self) -> (r: usize)
        ensures
            r == if self@.with_recent() {
                2int
            } else {
                1
            },
    {
        if self.shows_recent() {
            2
        } else {
            1
        }
    }

    pub fn items_count(&self, section: usize) -> (r: usize)
        ensures
            r == self@.count(section),
    {
        if self.shows_recent() && section == 0 {
            self.recent.len()
        } else {
            self.matched.len()
        }
    }

    /// Filter the catalog rows by `query`.
    pub fn perform_search(&mut self, query: &str)
        ensures
            final(self)@ == old(self)@.searched(query@),
    {
        self.searching = !is_blank(query);
        let ghost models = row_models(self.all@);
        let ghost fits = |row: RowModel| row_matches(row, query@);
        let ghost pick = |row: RowModel|
            if fits(row) {
                Some(row)
            } else {
                None
            };
        let mut out: Vec<ModelRow> = Vec::new();
        let mut i: usize = 0;
        proof {
            lemma_picked_ends(models, pick);
            assert(row_models(out@) =~= Seq::empty());
        }
        while i < self.all.len()
            invariant
                i <= self.all.len(),
                models == row_models(self.all@),
                fits == (|row: RowModel| row_matches(row, query@)),
                pick == (|row: RowModel|
                    if fits(row) {
                        Some(row)
                    } else {
                        None
                    }),
                row_models(out@) == picked(models.take(i as int), pick),
            decreases self.all.len() - i,
        {
            proof {
                lemma_picked_step(models, pick, i as int);
            }
            let ghost before = row_models(out@);
            if self.all[i].matches(query) {
                out.push(self.all[i].copy());
                assert(row_models(out@) =~= before.push(models[i as int]));
            }
            i += 1;
        }
        proof {
            lemma_picked_ends(models, pick);
        }
        self.matched = out;
    }

    /// What the list draws at a place: the row, checked when it is the current model's.
    pub fn render_item(&self, ix: IndexPath) -> (r: Option<ModelListItem>)
        ensures
            match (r, self@.at(ix)) {
                (Some(item), Some(row)) => {
                    &&& item.at == ix
                    &&& item.row@ == row
                    &&& item.current == (row.index == self.current)
                    &&& !item.selected
                },
                (None, None) => true,
                _ => false,
            },
    {
        match self.row_at(ix) {
            Some(row) => Some(
                ModelListItem { at: ix, row: row.copy(), current: row.index == self.current, selected: false },
            ),
            None => None,
        }
    }

    /// Headings only once there are two sections to tell apart.
    pub fn render_section_header(&self, section: usize) -> (r: Option<&'static str>)
        ensures
            match r {
                Some(text) => self@.with_recent() && text@ == (if section == 0 {
                    "RECENT"@
                } else {
                    "ALL MODELS"@
                }),
                None => !self@.with_recent(),
            },
    {
        if !self.shows_recent() {
            return None;
        }
        Some(
            if section == 0 {
                "RECENT"
            } else {
                "ALL MODELS"
            },
        )
    }

    /// What an empty list says.
    pub fn render_empty(&self) -> (r: &'static str)
        ensures
            r@ == "No models match"@,
    {
        "No models match"
    }

    pub fn set_selected_index(&mut self, ix: Option<IndexPath>)
        ensures
            final(self)@ == (PickerModel { selected: ix, ..old(self)@ }),
    {
        self.selected = ix;
    }

    /// Pick the highlighted row: the catalog index of its model, which closes the picker. With
    /// nothing to pick there is nothing to close.
    pub fn confirm(&self) -> (r: Option<usize>)
        ensures
            match self.selected {
                Some(ix) => match self@.at(ix) {
                    Some(row) => r == Some(row.index),
                    None => r is None,
                },
                None => r is None,
            },
    {
        match self.selected {
            Some(ix) => match self.row_at(ix) {
                Some(row) => Some(row.index),
                None => None,
            },
            None => None,
        }
    }
}

// ----- the palette ----------------------------------------------------------------------------

/// What a palette draws besides its search box and list: a line above the list (the voice picker's
/// preview error), and whether something is to be done when the dialog is dismissed with Escape, a
/// click outside or the close gesture (a pick closes the dialog itself and is not a dismissal).
#[derive(Clone, Debug, PartialEq, Eq)]
pub struct PaletteExtras {
    pub banner: Option<String>,
    pub on_dismiss: bool,
}

/// What the user does in a palette.
#[derive(Clone, Debug, PartialEq, Eq)]
pub enum PaletteEvent {
    /// The search field now holds this text.
    Typed(String),
    Up,
    Down,
    Enter,
    Dismissed,
}

/// What a palette does about it.
#[derive(Clone, Debug, PartialEq, Eq)]
pub enum PaletteAction {
    /// Search the list.
    Search(String),
    /// Hand the key to the list.
    SelectUp,
    SelectDown,
    Confirm,
    /// Run what the opener asked for on dismissal.
    Dismiss,
    Nothing,
}

/// A palette over the window: a search box on top that filters the list, the arrow keys and Enter
/// handed to the list, Escape closing.
pub struct Palette {
    pub placeholder: String,
    pub extras: PaletteExtras,
}

/// Opens a palette; its search field has the focus.
pub fn open_palette(placeholder: &str, extras: PaletteExtras) -> (r: Palette)
    ensures
        r.placeholder@ == placeholder@,
        r.extras == extras,
{
    Palette { placeholder: placeholder.to_owned(), extras }
}

impl Palette {
    /// What a palette does about what the user did.
    pub fn handle(&self, event: PaletteEvent) -> (r: PaletteAction)
        ensures
            r == match event {
                PaletteEvent::Typed(text) => PaletteAction::Search(text),
                PaletteEvent::Up => PaletteAction::SelectUp,
                PaletteEvent::Down => PaletteAction::SelectDown,
                PaletteEvent::Enter => PaletteAction::Confirm,
                PaletteEvent::Dismissed => if self.extras.on_dismiss {
                    PaletteAction::Dismiss
                } else {
                    PaletteAction::Nothing
                },
            },
    {
        match event {
            PaletteEvent::Typed(text) => PaletteAction::Search(text),
            PaletteEvent::Up => PaletteAction::SelectUp,
            PaletteEvent::Down => PaletteAction::SelectDown,
            PaletteEvent::Enter => PaletteAction::Confirm,
            PaletteEvent::Dismissed => if self.extras.on_dismiss {
                PaletteAction::Dismiss
            } else {
                PaletteAction::Nothing
            },
        }
    }
}

/// Opens the picker with the current model highlighted: `recent` are the ids of the tab's recently
/// used models, newest first.
pub fn open_model_picker(catalog: &Catalog, tab: ComposeTab, current: usize, recent: &Vec<String>) -> (r: (ModelPickerDelegate, Palette))
    ensures
        ({
            let all = tab_rows(*catalog, tab);
            let opened = PickerModel::opened(all, recent_models(all, texts(recent@)), current);
            r.0@ == (PickerModel { selected: Some(opened.current_path()), ..opened })
        }),
        r.1.placeholder@ == "Search models"@,
        r.1.extras == (PaletteExtras { banner: None, on_dismiss: false }),
{
    let all = rows(catalog, tab);
    let recent = recent_rows(&all, recent);
    let mut delegate = ModelPickerDelegate::new(all, recent, current);
    let path = delegate.path_of_current();
    delegate.set_selected_index(Some(path));
    (delegate, open_palette("Search models", PaletteExtras { banner: None, on_dismiss: false }))
}

// ----- laws -----------------------------------------------------------------------------------

/// A section has a row at each place below its count, and none beyond.
pub proof fn the_counts_are_the_places_with_a_row(list: PickerModel, ix: IndexPath)
    ensures
        list.at(ix) is Some <==> ix.row < list.count(ix.section),
{
}

/// Opened over a catalog that has the current model, the picker highlights that model, whichever
/// section lists it.
pub proof fn the_current_model_is_highlighted(catalog: Catalog, tab: ComposeTab, current: usize, recent: Seq<Seq<char>>)
    requires
        current < tab_rows(catalog, tab).len(),
        recent.len() <= usize::MAX,
    ensures
        ({
            let all = tab_rows(catalog, tab);
            let opened = PickerModel::opened(all, recent_models(all, recent), current);
            &&& opened.at(opened.current_path()) is Some
            &&& (opened.at(opened.current_path())->0).index == current
        }),
{
    let all = tab_rows(catalog, tab);
    let rows = recent_models(all, recent);
    let opened = PickerModel::opened(all, rows, current);
    assert(all[current as int].index == current);
    if opened.with_recent() {
        lemma_first_from(rows, |row: RowModel| row.index == opened.current, 0);
        lemma_picked_from(recent, |id: Seq<char>| row_named(all, id));
    }
}

/// The rows of a tab are numbered by their place in the catalog.
pub proof fn rows_are_numbered_in_order(catalog: Catalog, tab: ComposeTab, i: int)
    requires
        0 <= i < tab_rows(catalog, tab).len(),
        i <= usize::MAX,
    ensures
        tab_rows(catalog, tab)[i].index == i,
{
}

/// Every row listed, by a search or as recently used, is a row of the catalog, so a pick maps back
/// to the catalog index of the model it shows.
pub proof fn listed_rows_are_catalog_rows(all: Seq<RowModel>, recent: Seq<Seq<char>>, query: Seq<char>, k: int)
    ensures
        0 <= k < recent_models(all, recent).len() ==> all.contains(recent_models(all, recent)[k]) && recent.contains(
            recent_models(all, recent)[k].id,
        ),
        0 <= k < kept(all, |row: RowModel| row_matches(row, query)).len() ==> {
            let row = kept(all, |row: RowModel| row_matches(row, query))[k];
            all.contains(row) && row_matches(row, query)
        },
{
    let name = |id: Seq<char>| row_named(all, id);
    lemma_picked_from(recent, name);
    let listed = recent_models(all, recent);
    if 0 <= k < listed.len() {
        let i = choose|i: int| 0 <= i < recent.len() && name(#[trigger] recent[i]) == Some(picked(recent, name)[k]);
        assert(row_named(all, recent[i]) == Some(listed[k]));
        let id = recent[i];
        lemma_first_from(all, |row: RowModel| row.id == id, 0);
    }
    let fits = |row: RowModel| row_matches(row, query);
    let pick = |row: RowModel|
        if fits(row) {
            Some(row)
        } else {
            None
        };
    let found = kept(all, fits);
    assert(found == picked(all, pick));
    lemma_picked_from(all, pick);
    if 0 <= k < found.len() {
        let i = choose|i: int| 0 <= i < all.len() && pick(#[trigger] all[i]) == Some(picked(all, pick)[k]);
        assert(pick(all[i]) == Some(found[k]));
        assert(all[i] == found[k]);
    }
}

proof fn lemma_blank_has_no_words(s: Seq<char>)
    requires
        blank(s),
    ensures
        words(s).len() == 0,
    decreases s.len(),
{
    if s.len() > 0 {
        assert(white_space(s[s.len() - 1]));
        assert forall|i: int| 0 <= i < s.drop_last().len() implies white_space(#[trigger] s.drop_last()[i]) by {
            assert(s.drop_last()[i] == s[i]);
        }
        lemma_blank_has_no_words(s.drop_last());
    }
}

proof fn lemma_kept_all(s: Seq<RowModel>, fits: spec_fn(RowModel) -> bool)
    requires
        forall|i: int| 0 <= i < s.len() ==> fits(#[trigger] s[i]),
    ensures
        kept(s, fits) == s,
    decreases s.len(),
{
    if s.len() > 0 {
        let head = s.drop_last();
        assert forall|i: int| 0 <= i < head.len() implies fits(#[trigger] head[i]) by {
            assert(head[i] == s[i]);
        }
        lemma_kept_all(head, fits);
        assert(kept(s, fits) =~= head.push(s.last()));
        assert(head.push(s.last()) =~= s);
    } else {
        assert(kept(s, fits) =~= s);
    }
}

/// An empty query matches everything: clearing the search brings every row back, and the `Recent`
/// section with them.
pub proof fn a_blank_query_lists_everything(list: PickerModel, query: Seq<char>)
    requires
        blank(query),
    ensures
        forall|row: RowModel| #[trigger] row_matches(row, query),
        list.searched(query).matched == list.all,
        list.searched(query).with_recent() == (list.recent.len() > 0),
{
    lemma_blank_has_no_words(query);
    assert forall|row: RowModel| #[trigger] row_matches(row, query) by {
    }
    lemma_kept_all(list.all, |row: RowModel| row_matches(row, query));
}

/// Every term has to match, in any order: two queries with the same terms find the same rows.
pub proof fn the_order_of_terms_does_not_matter(row: RowModel, a: Seq<char>, b: Seq<char>)
    requires
        words(a).to_set() == words(b).to_set(),
    ensures
        row_matches(row, a) == row_matches(row, b),
{
    if row_matches(row, a) {
        lemma_terms_imply(row, a, b);
    }
    if row_matches(row, b) {
        lemma_terms_imply(row, b, a);
    }
}

proof fn lemma_terms_imply(row: RowModel, a: Seq<char>, b: Seq<char>)
    requires
        words(a).to_set() == words(b).to_set(),
        row_matches(row, a),
    ensures
        row_matches(row, b),
{
    let hay = lowercase(haystack(row));
    let in_a = lowercase_all(words(a));
    let in_b = lowercase_all(words(b));
    assert forall|i: int| 0 <= i < in_b.len() implies occurs(hay, #[trigger] in_b[i]) by {
        let word = words(b)[i];
        assert(words(b).to_set().contains(word));
        assert(words(a).to_set().contains(word));
        let j = choose|j: int| 0 <= j < words(a).len() && words(a)[j] == word;
        assert(in_a[j] == in_b[i]);
    }
}

/// A query of two parts finds a row exactly when each part does, whichever comes first.
pub proof fn each_part_of_a_query_has_to_match(row: RowModel, a: Seq<char>, b: Seq<char>)
    ensures
        row_matches(row, a + " "@ + b) == (row_matches(row, a) && row_matches(row, b)),
        row_matches(row, a + " "@ + b) == row_matches(row, b + " "@ + a),
{
    lemma_both_parts(row, a, b);
    lemma_both_parts(row, b, a);
}

proof fn lemma_both_parts(row: RowModel, a: Seq<char>, b: Seq<char>)
    ensures
        row_matches(row, a + " "@ + b) == (row_matches(row, a) && row_matches(row, b)),
{
    reveal_strlit(" ");
    let spaced = a + " "@;
    assert(spaced.drop_last() =~= a);
    assert(words(spaced) == words(a));
    lemma_words_apart(spaced, b);
    let hay = lowercase(haystack(row));
    let in_a = lowercase_all(words(a));
    let in_b = lowercase_all(words(b));
    assert(lowercase_all(words(spaced + b)) =~= in_a + in_b);
    if all_occur(hay, in_a + in_b) {
        assert forall|i: int| 0 <= i < in_a.len() implies occurs(hay, #[trigger] in_a[i]) by {
            assert((in_a + in_b)[i] == in_a[i]);
        }
        assert forall|i: int| 0 <= i < in_b.len() implies occurs(hay, #[trigger] in_b[i]) by {
            assert((in_a + in_b)[in_a.len() + i] == in_b[i]);
        }
    }
    if all_occur(hay, in_a) && all_occur(hay, in_b) {
        assert forall|i: int| 0 <= i < (in_a + in_b).len() implies occurs(hay, #[trigger] (in_a + in_b)[i]) by {
            if i < in_a.len() {
                assert((in_a + in_b)[i] == in_a[i]);
            } else {
                assert((in_a + in_b)[i] == in_b[i - in_a.len()]);
            }
        }
    }
}

/// The case of ASCII letters does not count: two ASCII queries that differ in it alone find the same
/// rows.
pub proof fn case_does_not_count(row: RowModel, a: Seq<char>, b: Seq<char>)
    requires
        is_ascii(a),
        is_ascii(b),
        ascii_lowercase(a) == ascii_lowercase(b),
    ensures
        row_matches_ascii(row, a) == row_matches_ascii(row, b),
{
}

/// A search looks through the name, the maker and the description alone: the chips, the id, the logo
/// and the place in the catalog never decide.
pub proof fn only_what_is_read_is_searched(row: RowModel, other: RowModel, query: Seq<char>)
    requires
        row.name == other.name,
        row.manufacturer == other.manufacturer,
        row.description == other.description,
    ensures
        row_matches(row, query) == row_matches(other, query),
{
}

/// The chip of a model's resolutions names the lowest and the highest of them, or the one where they
/// are the same; there is none where the model declares no resolution.
pub proof fn the_range_names_the_ends(res: Seq<Resolution>)
    ensures
        range_chip(res).len() == 0 <==> res.len() == 0,
        res.len() > 0 ==> {
            &&& res.contains(lowest(res)) && res.contains(highest(res))
            &&& forall|i: int| 0 <= i < res.len() ==> lowest(res).rank <= (#[trigger] res[i]).rank <= highest(res).rank
        },
    decreases res.len(),
{
    if res.len() == 1 {
        assert(res.contains(res[0]));
    } else if res.len() > 1 {
        let head = res.drop_last();
        the_range_names_the_ends(head);
        assert(res[res.len() - 1] == res.last());
        let low = choose|i: int| 0 <= i < head.len() && head[i] == lowest(head);
        let high = choose|i: int| 0 <= i < head.len() && head[i] == highest(head);
        assert(res[low] == lowest(head) && res[high] == highest(head));
        assert forall|i: int| 0 <= i < res.len() implies lowest(res).rank <= (#[trigger] res[i]).rank <= highest(res).rank by {
            if i < head.len() {
                assert(head[i] == res[i]);
            }
        }
    }
}

/// The chip does not depend on the order the resolutions are declared in: two lists of the same
/// resolutions, in each of which a rank is written one way, have the same chip.
pub proof fn the_range_ignores_the_order(res: Seq<Resolution>, other: Seq<Resolution>)
    requires
        res.to_multiset() == other.to_multiset(),
        forall|i: int, j: int|
            0 <= i < res.len() && 0 <= j < res.len() && (#[trigger] res[i]).rank == (#[trigger] res[j]).rank ==> res[i].label == res[j].label,
    ensures
        range_chip(res) == range_chip(other),
{
    broadcast use vstd::seq_lib::group_to_multiset_ensures;

    assert(res.to_multiset().len() == res.len() && other.to_multiset().len() == other.len());
    the_range_names_the_ends(res);
    the_range_names_the_ends(other);
    if res.len() > 0 {
        lemma_in_both(res, other, lowest(other));
        lemma_in_both(res, other, highest(other));
        lemma_in_both(other, res, lowest(res));
        lemma_in_both(other, res, highest(res));
        let a = choose|i: int| 0 <= i < res.len() && res[i] == lowest(res);
        let b = choose|i: int| 0 <= i < res.len() && res[i] == lowest(other);
        let c = choose|i: int| 0 <= i < res.len() && res[i] == highest(res);
        let d = choose|i: int| 0 <= i < res.len() && res[i] == highest(other);
        let e = choose|i: int| 0 <= i < other.len() && other[i] == lowest(res);
        let f = choose|i: int| 0 <= i < other.len() && other[i] == highest(res);
        assert(lowest(res).rank <= res[b].rank && lowest(other).rank <= other[e].rank);
        assert(highest(res).rank >= res[d].rank && highest(other).rank >= other[f].rank);
        assert(res[a].label == res[b].label && res[c].label == res[d].label);
    }
}

proof fn lemma_in_both(res: Seq<Resolution>, other: Seq<Resolution>, x: Resolution)
    requires
        res.to_multiset() == other.to_multiset(),
        other.contains(x),
    ensures
        res.contains(x),
{
    broadcast use vstd::seq_lib::group_to_multiset_ensures;

    assert(other.to_multiset().count(x) > 0);
    assert(res.to_multiset().count(x) > 0);
}

/// Searching hides the `Recent` section: the matches are the shortcut then.
pub proof fn searching_hides_the_recent_section(list: PickerModel, query: Seq<char>)
    requires
        !blank(query),
    ensures
        !list.searched(query).with_recent(),
        list.searched(query).recent == list.recent,
        list.searched(query).all == list.all,
{
}

/// The model of a row and of the list is what their fields hold.
pub proof fn the_list_is_its_rows(row: ModelRow, list: ModelPickerDelegate)
    ensures
        row@.index == row.index,
        row@.id == row.id@,
        row@.name == row.name@,
        row@.manufacturer == row.manufacturer@,
        row@.logo == row.logo@,
        row@.description == row.description@,
        row@.chips == texts(row.chips@),
        list@.all.len() == list.all@.len(),
        forall|i: int| 0 <= i < list.all@.len() ==> #[trigger] list@.all[i] == list.all@[i]@,
        list@.matched.len() == list.matched@.len(),
        forall|i: int| 0 <= i < list.matched@.len() ==> #[trigger] list@.matched[i] == list.matched@[i]@,
        list@.recent.len() == list.recent@.len(),
        forall|i: int| 0 <= i < list.recent@.len() ==> #[trigger] list@.recent[i] == list.recent@[i]@,
        list@.searching == list.searching,
        list@.current == list.current,
        list@.selected == list.selected,
{
}

/// A search finds a row exactly when each of its words, in lower case, stands somewhere in the row's name, its
/// maker and its description, in lower case.
pub proof fn every_word_of_a_search_has_to_stand_in_the_row(row: RowModel, query: Seq<char>)
    ensures
        row_matches(row, query) <==> forall|word: Seq<char>|
            words(query).contains(word) ==> #[trigger] occurs(
                lowercase(row.name + " "@ + row.manufacturer + " "@ + row.description),
                lowercase(word),
            ),
{
    let hay = lowercase(haystack(row));
    if row_matches(row, query) {
        assert forall|word: Seq<char>| words(query).contains(word) implies #[trigger] occurs(hay, lowercase(word)) by {
            let i = choose|i: int| 0 <= i < words(query).len() && words(query)[i] == word;
            assert(lowercase_all(words(query))[i] == lowercase(word));
        }
    }
    if forall|word: Seq<char>| words(query).contains(word) ==> #[trigger] occurs(hay, lowercase(word)) {
        assert forall|i: int| 0 <= i < lowercase_all(words(query)).len() implies occurs(hay, #[trigger] lowercase_all(words(query))[i]) by {
            assert(words(query).contains(words(query)[i]));
        }
    }
}

/// A search lists every row of the catalog that it finds, in the catalog's order, and no other; it changes
/// nothing else of the list.
pub proof fn a_search_lists_every_match(list: PickerModel, query: Seq<char>)
    ensures
        sifts(list.all, |row: RowModel| row_matches(row, query), list.searched(query).matched),
        forall|row: RowModel| #[trigger] list.searched(query).matched.contains(row) <==> list.all.contains(row) && row_matches(row, query),
        list.searched(query).searching <==> !blank(query),
        list.searched(query).all == list.all,
        list.searched(query).recent == list.recent,
        list.searched(query).current == list.current,
        list.searched(query).selected == list.selected,
{
    keeping_leaves_out_only_what_does_not_fit(list.all, |row: RowModel| row_matches(row, query));
}

/// The list opens on the whole catalog, with nothing searched for.
pub proof fn the_list_opens_on_everything(all: Seq<RowModel>, recent: Seq<RowModel>, current: usize)
    ensures
        PickerModel::opened(all, recent, current).all == all,
        PickerModel::opened(all, recent, current).matched == all,
        PickerModel::opened(all, recent, current).recent == recent,
        PickerModel::opened(all, recent, current).current == current,
        !PickerModel::opened(all, recent, current).searching,
        PickerModel::opened(all, recent, current).selected is None,
{
}

/// While nothing is searched for and there are recent models, the first section has those and the second the
/// catalog; otherwise there is the catalog alone.
pub proof fn the_sections_are_recent_and_all(list: PickerModel, ix: IndexPath)
    ensures
        list.with_recent() <==> !list.searching && list.recent.len() > 0,
        list.with_recent() && ix.section == 0 ==> list.count(ix.section) == list.recent.len() && (ix.row < list.recent.len() ==> list.at(ix)
            == Some(list.recent[ix.row as int])),
        !list.with_recent() || ix.section != 0 ==> list.count(ix.section) == list.matched.len() && (ix.row < list.matched.len() ==> list.at(ix)
            == Some(list.matched[ix.row as int])),
{
}

/// The current model is found among the recent ones where it is there, at the first such row, and else at its
/// place in the catalog.
pub proof fn the_current_model_is_found_in_recent_first(list: PickerModel)
    requires
        list.recent.len() <= usize::MAX,
    ensures
        !list.with_recent() ==> list.current_path() == (IndexPath { section: 0, row: list.current }),
        list.with_recent() && (forall|i: int| 0 <= i < list.recent.len() ==> (#[trigger] list.recent[i]).index != list.current)
            ==> list.current_path() == (IndexPath { section: 1, row: list.current }),
        list.with_recent() && (exists|i: int| 0 <= i < list.recent.len() && (#[trigger] list.recent[i]).index == list.current) ==> {
            let at = list.current_path();
            &&& at.section == 0
            &&& at.row < list.recent.len()
            &&& list.recent[at.row as int].index == list.current
            &&& forall|j: int| 0 <= j < at.row ==> (#[trigger] list.recent[j]).index != list.current
        },
{
    lemma_first_from(list.recent, |row: RowModel| row.index == list.current, 0);
}

/// The recent models are those remembered that the provider offers, newest first, each as its row of the
/// catalog, and none of them is left out.
pub proof fn recent_models_are_those_remembered(all: Seq<RowModel>, recent: Seq<Seq<char>>, id: Seq<char>)
    ensures
        picks(recent, |id: Seq<char>| row_named(all, id), recent_models(all, recent)),
        match row_named(all, id) {
            Some(row) => exists|i: int|
                0 <= i < all.len() && #[trigger] all[i] == row && row.id == id && (forall|j: int| 0 <= j < i ==> (#[trigger] all[j]).id != id),
            None => forall|j: int| 0 <= j < all.len() ==> (#[trigger] all[j]).id != id,
        },
{
    picking_goes_entry_by_entry(recent, |id: Seq<char>| row_named(all, id));
    lemma_first_from(all, |row: RowModel| row.id == id, 0);
    let place = first_place(all, |row: RowModel| row.id == id);
    if place is Some {
        assert(row_named(all, id) == Some(all[place->0]));
    }
}

/// A tab lists each of its models once, in the catalog's order, under the model's own id, name, maker and logo,
/// and with its description; an upscaler has none.
pub proof fn a_tab_lists_its_own_models(catalog: Catalog, i: int)
    requires
        0 <= i,
    ensures
        tab_rows(catalog, ComposeTab::Media(MediaType::Image)).len() == catalog.image@.len(),
        i < catalog.image@.len() ==> row_is_of(
            tab_rows(catalog, ComposeTab::Media(MediaType::Image))[i],
            catalog.image@[i].info,
            catalog.image@[i].info.short_description@,
            image_chips(catalog.image@[i].capabilities),
        ),
        tab_rows(catalog, ComposeTab::Media(MediaType::Video)).len() == catalog.video@.len(),
        i < catalog.video@.len() ==> row_is_of(
            tab_rows(catalog, ComposeTab::Media(MediaType::Video))[i],
            catalog.video@[i].info,
            catalog.video@[i].info.short_description@,
            video_chips(catalog.video@[i].capabilities),
        ),
        tab_rows(catalog, ComposeTab::Media(MediaType::Audio)).len() == catalog.audio@.len(),
        i < catalog.audio@.len() ==> row_is_of(
            tab_rows(catalog, ComposeTab::Media(MediaType::Audio))[i],
            catalog.audio@[i],
            catalog.audio@[i].short_description@,
            Seq::empty(),
        ),
        tab_rows(catalog, ComposeTab::Tool(ToolId::Upscale)).len() == catalog.upscale@.len(),
        i < catalog.upscale@.len() ==> row_is_of(
            tab_rows(catalog, ComposeTab::Tool(ToolId::Upscale))[i],
            catalog.upscale@[i].info,
            ""@,
            tool_chips(catalog.upscale@[i]),
        ),
        tab_rows(catalog, ComposeTab::Tool(ToolId::RemoveBackground)).len() == catalog.remove_background@.len(),
        i < catalog.remove_background@.len() ==> row_is_of(
            tab_rows(catalog, ComposeTab::Tool(ToolId::RemoveBackground))[i],
            catalog.remove_background@[i].info,
            catalog.remove_background@[i].info.short_description@,
            tool_chips(catalog.remove_background@[i]),
        ),
{
}

/// Whether a row is the one of this model, with this description and these chips.
pub open spec fn row_is_of(row: RowModel, info: ModelInfo, description: Seq<char>, chips: Seq<Seq<char>>) -> bool {
    &&& row.id == info.id@
    &&& row.name == info.name@
    &&& row.manufacturer == info.manufacturer@
    &&& row.logo == info.logo@
    &&& row.description == description
    &&& row.chips == chips
}

/// An image model's chips say how many references it takes, where it takes any, and which resolutions it
/// makes; a model the tables say nothing of has none.
pub proof fn an_image_models_chips(caps: ImageCapabilities)
    ensures
        image_chips(None).len() == 0,
        image_chips(Some(caps)).len() == (if caps.max_input_images > 0 {
            1nat
        } else {
            0nat
        }) + (if caps.resolutions@.len() > 0 {
            1nat
        } else {
            0nat
        }),
        caps.max_input_images == 1 ==> image_chips(Some(caps))[0] == dec(1) + " reference"@,
        caps.max_input_images > 1 ==> image_chips(Some(caps))[0] == dec(caps.max_input_images as nat) + " references"@,
        caps.resolutions@.len() > 0 ==> image_chips(Some(caps)).last() == range_chip(caps.resolutions@)[0],
{
}

/// The chip of the resolutions writes the lowest and the highest, or the one they both are.
pub proof fn the_range_is_written_from_low_to_high(res: Seq<Resolution>)
    requires
        res.len() > 0,
    ensures
        range_chip(res).len() == 1,
        lowest(res).rank == highest(res).rank ==> range_chip(res)[0] == lowest(res).label@,
        lowest(res).rank != highest(res).rank ==> range_chip(res)[0] == lowest(res).label@ + " - "@ + highest(res).label@,
{
}

/// A video model's chips say how long its clips run, which resolutions it makes, which frames and how many
/// references it takes, whether it takes a sound track, and whether its clips have sound; each of them is there
/// exactly where it applies.
pub proof fn a_video_models_chips(caps: VideoCapabilities)
    ensures
        video_chips(None).len() == 0,
        caps.min_seconds == caps.max_seconds ==> video_chips(Some(caps))[0] == dec(caps.min_seconds as nat) + "s"@,
        caps.min_seconds != caps.max_seconds ==> video_chips(Some(caps))[0] == dec(caps.min_seconds as nat) + " - "@ + dec(
            caps.max_seconds as nat,
        ) + "s"@,
        caps.takes_first_frame && caps.takes_last_frame ==> frames_chip(caps.takes_first_frame, caps.takes_last_frame) == seq!["Start / End"@],
        caps.takes_first_frame && !caps.takes_last_frame ==> frames_chip(caps.takes_first_frame, caps.takes_last_frame) == seq!["Start"@],
        !caps.takes_first_frame && caps.takes_last_frame ==> frames_chip(caps.takes_first_frame, caps.takes_last_frame) == seq!["End"@],
        !caps.takes_first_frame && !caps.takes_last_frame ==> frames_chip(caps.takes_first_frame, caps.takes_last_frame).len() == 0,
        ({
            let range = range_chip(caps.resolutions@);
            let frames = frames_chip(caps.takes_first_frame, caps.takes_last_frame);
            let references = match caps.references {
                Some(r) => seq![dec(r.images as nat) + (if r.images == 1 {
                    " reference"@
                } else {
                    " references"@
                })],
                None => Seq::empty(),
            };
            let track = if caps.takes_audio && (caps.references is None || (caps.references->0).audio == 0) {
                seq!["Audio input"@]
            } else {
                Seq::empty()
            };
            let sound = if caps.supports_audio {
                seq!["Audio"@]
            } else {
                Seq::empty()
            };
            video_chips(Some(caps)).skip(1) == range + frames + references + track + sound
        }),
{
    let all = video_chips(Some(caps));
    let range = range_chip(caps.resolutions@);
    let frames = frames_chip(caps.takes_first_frame, caps.takes_last_frame);
    let references = match caps.references {
        Some(r) => seq![dec(r.images as nat) + (if r.images == 1 {
            " reference"@
        } else {
            " references"@
        })],
        None => Seq::empty(),
    };
    let track = if caps.takes_audio && (caps.references is None || (caps.references->0).audio == 0) {
        seq!["Audio input"@]
    } else {
        Seq::empty()
    };
    let sound = if caps.supports_audio {
        seq!["Audio"@]
    } else {
        Seq::empty()
    };
    assert(all.skip(1) =~= range + frames + references + track + sound);
}

/// A tool's chips say what kind of media it works on and, for an upscaler, the factors it offers.
pub proof fn a_tools_chips(model: ToolModel)
    ensures
        tool_chips(model)[0] == model.media@,
        model.upscale_factors@.len() == 0 ==> tool_chips(model).len() == 1,
        model.upscale_factors@.len() > 0 ==> tool_chips(model).len() == 2 && tool_chips(model)[1] == joined(
            factor_texts(texts(model.upscale_factors@)),
            " / "@,
        ),
        factor_texts(texts(model.upscale_factors@)).len() == model.upscale_factors@.len(),
        forall|i: int|
            0 <= i < model.upscale_factors@.len() ==> #[trigger] factor_texts(texts(model.upscale_factors@))[i] == model.upscale_factors@[i]@
                + "×"@,
{
}

} // verus!

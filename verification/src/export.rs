//! Files leaving the library: what Copy puts on the clipboard and where Save writes.

use vstd::prelude::*;

use crate::model::{Asset, Entry, Generation, MediaType};
use crate::paths::{join_path, may_be_parent, may_equal, may_have, may_join, path_extension, path_parent, same_path};
use crate::text::{ascii_lowercase, cat, cat3, count_text, dec, join, joined, lowers_to, opt_text, texts};

verus! {

/// A file the export actions (Copy / Save) work on, a generation's output or any asset, so those
/// actions don't care which kind of entry is selected.
#[derive(Clone, Debug, PartialEq, Eq)]
pub struct Exportable {
    pub path: String,
    pub kind: MediaType,
    /// The name the file is saved under.
    pub name: String,
}

impl Exportable {
    pub open spec fn item_export(item: Generation) -> Option<Exportable> {
        match item.file {
            Some(path) => Some(Exportable { path, kind: item.media_type, name: item.file_name }),
            None => None,
        }
    }

    pub open spec fn asset_export(asset: Asset) -> Option<Exportable> {
        match asset.file {
            Some(path) => Some(Exportable { path, kind: asset.kind, name: asset.file_name }),
            None => None,
        }
    }

    pub open spec fn entry_export(entry: Entry) -> Option<Exportable> {
        match entry {
            Entry::Generation(item) => Exportable::item_export(item),
            Entry::Asset(asset) => Exportable::asset_export(asset),
        }
    }

    /// `None` while the generation has no file to read.
    pub fn of_item(item: &Generation) -> (r: Option<Exportable>)
        ensures
            r == Exportable::item_export(*item),
    {
        match &item.file {
            Some(path) => Some(Exportable { path: path.clone(), kind: item.media_type, name: item.file_name.clone() }),
            None => None,
        }
    }

    /// `None` while the asset has no file to read.
    pub fn of_asset(asset: &Asset) -> (r: Option<Exportable>)
        ensures
            r == Exportable::asset_export(*asset),
    {
        match &asset.file {
            Some(path) => Some(Exportable { path: path.clone(), kind: asset.kind, name: asset.file_name.clone() }),
            None => None,
        }
    }

    /// `None` while the entry has no file to read.
    pub fn of_entry(entry: &Entry) -> (r: Option<Exportable>)
        ensures
            r == Exportable::entry_export(*entry),
    {
        match entry {
            Entry::Generation(item) => Exportable::of_item(item),
            Entry::Asset(asset) => Exportable::of_asset(asset),
        }
    }
}

/// The picture formats the clipboard tells apart.
#[derive(Clone, Copy, Debug, PartialEq, Eq, Structural)]
pub enum ImageFormat {
    Jpeg,
    Webp,
    Gif,
    Png,
}

/// The content type of a file of this kind with this extension.
pub open spec fn content_type_of(kind: MediaType, extension: Option<Seq<char>>) -> Seq<char> {
    match kind {
        MediaType::Image => if is_jpeg(extension) {
            "image/jpeg"@
        } else {
            "image/png"@
        },
        MediaType::Video => "video/mp4"@,
        MediaType::Audio => "audio/mpeg"@,
    }
}

/// Whether an extension reads `lower` in lower case.
pub open spec fn extension_is(extension: Option<Seq<char>>, lower: Seq<char>) -> bool {
    match extension {
        Some(e) => ascii_lowercase(e) == lower,
        None => false,
    }
}

pub open spec fn is_jpeg(extension: Option<Seq<char>>) -> bool {
    extension_is(extension, "jpg"@) || extension_is(extension, "jpeg"@)
}

/// The picture format of a file with this extension.
pub open spec fn format_of(extension: Option<Seq<char>>) -> ImageFormat {
    if is_jpeg(extension) {
        ImageFormat::Jpeg
    } else if extension_is(extension, "webp"@) {
        ImageFormat::Webp
    } else if extension_is(extension, "gif"@) {
        ImageFormat::Gif
    } else {
        ImageFormat::Png
    }
}

fn reads(extension: &Option<String>, lower: &str) -> (r: bool)
    ensures
        r == extension_is(opt_text(*extension), lower@),
{
    match extension {
        Some(e) => lowers_to(e.as_str(), lower),
        None => false,
    }
}

/// The content type the clipboard is told for a file of this kind with this extension. A picture is
/// a PNG unless its extension says JPEG.
pub fn content_type(kind: MediaType, extension: &Option<String>) -> (r: &'static str)
    ensures
        r@ == content_type_of(kind, opt_text(*extension)),
{
    match kind {
        MediaType::Image => if reads(extension, "jpg") || reads(extension, "jpeg") {
            "image/jpeg"
        } else {
            "image/png"
        },
        MediaType::Video => "video/mp4",
        MediaType::Audio => "audio/mpeg",
    }
}

/// The picture format of a file with this extension; PNG where it says nothing else.
pub fn image_format(extension: &Option<String>) -> (r: ImageFormat)
    ensures
        r == format_of(opt_text(*extension)),
{
    if reads(extension, "jpg") || reads(extension, "jpeg") {
        ImageFormat::Jpeg
    } else if reads(extension, "webp") {
        ImageFormat::Webp
    } else if reads(extension, "gif") {
        ImageFormat::Gif
    } else {
        ImageFormat::Png
    }
}

// ----- copy -----------------------------------------------------------------------------------

/// A file for the platform's clipboard, which carries it by reference and by content.
#[derive(Clone, Debug, PartialEq, Eq)]
pub struct ClipboardMedia {
    pub path: String,
    pub content_type: &'static str,
}

/// What the platform's clipboard can do.
#[derive(Clone, Copy, Debug, PartialEq, Eq, Structural)]
pub struct ClipboardSupport {
    /// It takes files and their bytes together.
    pub media: bool,
    /// It takes references to files beside whatever else it holds.
    pub file_references: bool,
}

/// How far a copy has got.
#[derive(Clone, Copy, Debug, PartialEq, Eq, Structural)]
pub enum CopyStage {
    /// Nothing has been asked of the clipboard yet.
    Start,
    /// The platform's clipboard was handed the files.
    Native,
    /// The first picture is being read.
    Reading,
    /// Something was written to the portable clipboard: the picture, or else the paths.
    Written { image: bool },
    /// The platform was asked to add references to the files.
    Referencing { image: bool },
    Finished,
}

/// What happened since the last step of a copy.
#[derive(Clone, Copy, Debug, PartialEq, Eq, Structural)]
pub enum CopyEvent {
    /// The step was carried out; there is nothing to report of it.
    Done,
    /// It succeeded, or did not.
    Outcome(bool),
}

/// What to do next for a copy.
#[derive(Clone, Debug, PartialEq, Eq)]
pub enum CopyStep {
    /// Hand the files to the platform's clipboard, and report whether it took them.
    Native(Vec<ClipboardMedia>),
    /// Read the file, and report whether that succeeded.
    ReadImage { path: String },
    /// Write the picture just read to the portable clipboard.
    WriteImage { format: ImageFormat },
    /// Write text to the portable clipboard.
    WriteText(String),
    /// Add references to the files, and report whether that succeeded.
    AddFiles(Vec<String>),
    /// Tell the user; the copy is over.
    Toast(String),
    /// The copy is over, with nothing to tell.
    Nothing,
}

/// A copy under way.
pub struct Copying {
    pub items: Vec<Exportable>,
    pub support: ClipboardSupport,
    pub stage: CopyStage,
}

/// What the toast says about a copy that used the portable path.
pub open spec fn copy_toast_text(count: nat, image: bool, files: bool) -> Seq<char> {
    if files {
        if count == 1 {
            "Copied"@
        } else {
            "Copied "@ + dec(count) + " items"@
        }
    } else if image {
        "Copied image"@
    } else if count == 1 {
        "Copied file path"@
    } else {
        "Copied "@ + dec(count) + " file paths"@
    }
}

/// What the toast says about files the platform's clipboard took.
pub open spec fn native_toast_text(count: nat) -> Seq<char> {
    if count > 1 {
        "Copied "@ + dec(count) + " items"@
    } else {
        "Copied"@
    }
}

pub open spec fn paths_of(items: Seq<Exportable>) -> Seq<Seq<char>> {
    Seq::new(items.len(), |i: int| items[i].path@)
}

/// The first file is a picture, so its bitmap is what the portable clipboard should hold.
pub open spec fn starts_with_image(items: Seq<Exportable>) -> bool {
    items.len() > 0 && items[0].kind == MediaType::Image
}

/// The stage after `event` at `stage`.
pub open spec fn copy_stage_after(items: Seq<Exportable>, support: ClipboardSupport, stage: CopyStage, event: CopyEvent) -> CopyStage {
    match stage {
        CopyStage::Start => if items.len() == 0 {
            CopyStage::Finished
        } else if support.media {
            CopyStage::Native
        } else {
            portable_stage(items)
        },
        CopyStage::Native => if event == CopyEvent::Outcome(true) {
            CopyStage::Finished
        } else {
            portable_stage(items)
        },
        CopyStage::Reading => CopyStage::Written { image: event == CopyEvent::Outcome(true) },
        CopyStage::Written { image } => if support.file_references {
            CopyStage::Referencing { image }
        } else {
            CopyStage::Finished
        },
        CopyStage::Referencing { image } => CopyStage::Finished,
        CopyStage::Finished => CopyStage::Finished,
    }
}

/// Where the portable path begins: reading the first picture, or writing the paths.
pub open spec fn portable_stage(items: Seq<Exportable>) -> CopyStage {
    if starts_with_image(items) {
        CopyStage::Reading
    } else {
        CopyStage::Written { image: false }
    }
}

/// Whether `step` begins the portable path: the first picture is read, or the paths are written one
/// to a line.
pub open spec fn portable_step(items: Seq<Exportable>, step: CopyStep) -> bool {
    if starts_with_image(items) {
        step matches CopyStep::ReadImage { path } && path@ == items[0].path@
    } else {
        step matches CopyStep::WriteText(text) && text@ == joined(paths_of(items), "\n"@)
    }
}

/// Whether `media` is what the platform's clipboard is handed for `items`: each file's path, with a
/// content type that follows its kind and, for a picture, its extension.
pub open spec fn media_for(items: Seq<Exportable>, media: Seq<ClipboardMedia>) -> bool {
    &&& media.len() == items.len()
    &&& forall|i: int| #![trigger media[i]] #![trigger items[i]] 0 <= i < items.len() ==> medium_for(items[i], media[i])
}

/// Whether `medium` is what the clipboard is handed for `item`.
pub open spec fn medium_for(item: Exportable, medium: ClipboardMedia) -> bool {
    &&& medium.path@ == item.path@
    &&& exists|extension: Option<Seq<char>>|
        #[trigger] may_have(item.path@, extension) && medium.content_type@ == content_type_of(item.kind, extension)
}

/// Whether `step` is what to do once `event` has happened at `stage`.
pub open spec fn copy_step_after(
    items: Seq<Exportable>,
    support: ClipboardSupport,
    stage: CopyStage,
    event: CopyEvent,
    step: CopyStep,
) -> bool {
    match stage {
        CopyStage::Start => if items.len() == 0 {
            step is Nothing
        } else if support.media {
            step matches CopyStep::Native(media) && media_for(items, media@)
        } else {
            portable_step(items, step)
        },
        CopyStage::Native => if event == CopyEvent::Outcome(true) {
            step matches CopyStep::Toast(text) && text@ == native_toast_text(items.len())
        } else {
            portable_step(items, step)
        },
        CopyStage::Reading => if event == CopyEvent::Outcome(true) {
            step matches CopyStep::WriteImage { format } && (items.len() > 0 ==> exists|extension: Option<Seq<char>>|
                #[trigger] may_have(items[0].path@, extension) && format == format_of(extension))
        } else {
            step matches CopyStep::WriteText(text) && text@ == joined(paths_of(items), "\n"@)
        },
        CopyStage::Written { image } => if support.file_references {
            step matches CopyStep::AddFiles(paths) && texts(paths@) == paths_of(items)
        } else {
            step matches CopyStep::Toast(text) && text@ == copy_toast_text(items.len(), image, false)
        },
        CopyStage::Referencing { image } => step matches CopyStep::Toast(text) && text@ == copy_toast_text(
            items.len(),
            image,
            event == CopyEvent::Outcome(true),
        ),
        CopyStage::Finished => step is Nothing,
    }
}

fn paths(items: &Vec<Exportable>) -> (r: Vec<String>)
    ensures
        texts(r@) == paths_of(items@),
{
    let mut out: Vec<String> = Vec::new();
    let mut i: usize = 0;
    while i < items.len()
        invariant
            i <= items.len(),
            out.len() == i,
            forall|k: int| 0 <= k < i ==> (#[trigger] out@[k])@ == items@[k].path@,
        decreases items.len() - i,
    {
        out.push(items[i].path.clone());
        i += 1;
    }
    assert(texts(out@) =~= paths_of(items@));
    out
}

/// What the platform's clipboard is handed for these files.
pub fn clipboard_media(items: &Vec<Exportable>) -> (r: Vec<ClipboardMedia>)
    ensures
        media_for(items@, r@),
{
    let mut out: Vec<ClipboardMedia> = Vec::new();
    let mut i: usize = 0;
    while i < items.len()
        invariant
            i <= items.len(),
            out.len() == i,
            forall|k: int| #![trigger out@[k]] #![trigger items@[k]] 0 <= k < i ==> medium_for(items@[k], out@[k]),
        decreases items.len() - i,
    {
        let item = &items[i];
        let extension = path_extension(item.path.as_str());
        let kind = content_type(item.kind, &extension);
        out.push(ClipboardMedia { path: item.path.clone(), content_type: kind });
        assert(may_have(item.path@, opt_text(extension)));
        assert(medium_for(items@[i as int], out@[i as int]));
        i += 1;
    }
    out
}

/// What the toast says about a copy that used the portable path: the files themselves when the
/// platform carried them, otherwise whichever single flavour was written.
pub fn copy_toast(count: usize, image: bool, files: bool) -> (r: String)
    ensures
        r@ == copy_toast_text(count as nat, image, files),
{
    if files {
        if count == 1 {
            "Copied".to_owned()
        } else {
            cat3("Copied ", count_text(count).as_str(), " items")
        }
    } else if image {
        "Copied image".to_owned()
    } else if count == 1 {
        "Copied file path".to_owned()
    } else {
        cat3("Copied ", count_text(count).as_str(), " file paths")
    }
}

/// Begin copying `items`. Off macOS the portable clipboard holds one useful flavour, so the bitmap
/// is written for a first picture and the paths as text for anything else; the files themselves go
/// alongside it where the platform can carry them.
pub fn copy_items(items: Vec<Exportable>, support: ClipboardSupport) -> (r: (Copying, CopyStep))
    ensures
        r.0.items == items,
        r.0.support == support,
        r.0.stage == copy_stage_after(items@, support, CopyStage::Start, CopyEvent::Done),
        copy_step_after(items@, support, CopyStage::Start, CopyEvent::Done, r.1),
{
    let mut copying = Copying { items, support, stage: CopyStage::Start };
    let step = copying.advance(CopyEvent::Done);
    (copying, step)
}

impl Copying {
    fn portable(&self) -> (r: (CopyStage, CopyStep))
        ensures
            r.0 == portable_stage(self.items@),
            portable_step(self.items@, r.1),
    {
        if self.items.len() > 0 && self.items[0].kind == MediaType::Image {
            (CopyStage::Reading, CopyStep::ReadImage { path: self.items[0].path.clone() })
        } else {
            (CopyStage::Written { image: false }, CopyStep::WriteText(join(&paths(&self.items), "\n")))
        }
    }

    /// What to do next, once `event` has happened.
    pub fn advance(&mut self, event: CopyEvent) -> (step: CopyStep)
        ensures
            final(self).items == old(self).items,
            final(self).support == old(self).support,
            final(self).stage == copy_stage_after(old(self).items@, old(self).support, old(self).stage, event),
            copy_step_after(old(self).items@, old(self).support, old(self).stage, event, step),
    {
        let succeeded = matches!(event, CopyEvent::Outcome(true));
        let count: usize = self.items.len();
        let (stage, step) = match self.stage {
            CopyStage::Start => if count == 0 {
                (CopyStage::Finished, CopyStep::Nothing)
            } else if self.support.media {
                (CopyStage::Native, CopyStep::Native(clipboard_media(&self.items)))
            } else {
                self.portable()
            },
            CopyStage::Native => if succeeded {
                let text = if count > 1 {
                    cat3("Copied ", count_text(count).as_str(), " items")
                } else {
                    "Copied".to_owned()
                };
                (CopyStage::Finished, CopyStep::Toast(text))
            } else {
                self.portable()
            },
            CopyStage::Reading => if succeeded {
                let extension = if count > 0 {
                    path_extension(self.items[0].path.as_str())
                } else {
                    None
                };
                assert(count > 0 ==> may_have(self.items@[0].path@, opt_text(extension)));
                (CopyStage::Written { image: true }, CopyStep::WriteImage { format: image_format(&extension) })
            } else {
                (CopyStage::Written { image: false }, CopyStep::WriteText(join(&paths(&self.items), "\n")))
            },
            CopyStage::Written { image } => if self.support.file_references {
                (CopyStage::Referencing { image }, CopyStep::AddFiles(paths(&self.items)))
            } else {
                (CopyStage::Finished, CopyStep::Toast(copy_toast(count, image, false)))
            },
            CopyStage::Referencing { image } => (CopyStage::Finished, CopyStep::Toast(copy_toast(count, image, succeeded))),
            CopyStage::Finished => (CopyStage::Finished, CopyStep::Nothing),
        };
        self.stage = stage;
        step
    }
}

/// How many more steps a copy at `stage` can take.
pub open spec fn steps_left(stage: CopyStage) -> nat {
    match stage {
        CopyStage::Start => 5,
        CopyStage::Native => 4,
        CopyStage::Reading => 3,
        CopyStage::Written { .. } => 2,
        CopyStage::Referencing { .. } => 1,
        CopyStage::Finished => 0,
    }
}

/// Every copy comes to an end: whatever is reported back, each step brings it closer to finished,
/// and it finishes with a toast unless there was nothing to copy.
pub proof fn a_copy_ends_with_a_toast(
    items: Seq<Exportable>,
    support: ClipboardSupport,
    stage: CopyStage,
    event: CopyEvent,
    step: CopyStep,
)
    requires
        stage != CopyStage::Finished,
        copy_step_after(items, support, stage, event, step),
    ensures
        steps_left(copy_stage_after(items, support, stage, event)) < steps_left(stage),
        copy_stage_after(items, support, stage, event) == CopyStage::Finished ==> step is Toast || items.len() == 0,
        step is Toast || step is Nothing ==> copy_stage_after(items, support, stage, event) == CopyStage::Finished,
{
}

// ----- save -----------------------------------------------------------------------------------

/// Outcome of saving one item through the OS save panel.
#[derive(Clone, Debug, PartialEq, Eq)]
pub enum SaveOutcome {
    Saved,
    Cancelled,
    Failed(String),
}

/// What saving a selection asks the user for.
#[derive(Clone, Debug, PartialEq, Eq)]
pub enum SavePlan {
    /// Nothing to save.
    Nothing,
    /// A save panel for the one file.
    Panel(Exportable),
    /// A folder for all of the files.
    Folder(Vec<Exportable>),
}

/// What follows the save panel.
#[derive(Clone, Debug, PartialEq, Eq)]
pub enum SaveStep {
    /// Copy the file, and report how that went.
    Copy { from: String, to: String },
    /// The save is over.
    Finished(SaveOutcome),
}

/// Save: one item asks for a place in a save panel, several for a folder. Files are copied.
pub fn save_items(items: Vec<Exportable>) -> (r: SavePlan)
    ensures
        match r {
            SavePlan::Nothing => items@.len() == 0,
            SavePlan::Panel(item) => items@.len() == 1 && item == items@[0],
            SavePlan::Folder(all) => items@.len() > 1 && all == items,
        },
{
    if items.len() == 0 {
        SavePlan::Nothing
    } else if items.len() == 1 {
        let item = &items[0];
        SavePlan::Panel(Exportable { path: item.path.clone(), kind: item.kind, name: item.name.clone() })
    } else {
        SavePlan::Folder(items)
    }
}

/// The panel was answered: copy the file to where the user chose, or give up when it was dismissed.
pub fn save_item(item: &Exportable, chosen: Option<String>) -> (r: SaveStep)
    ensures
        match chosen {
            Some(dest) => r == (SaveStep::Copy { from: item.path, to: dest }),
            None => r == SaveStep::Finished(SaveOutcome::Cancelled),
        },
{
    match chosen {
        Some(dest) => SaveStep::Copy { from: item.path.clone(), to: dest },
        None => SaveStep::Finished(SaveOutcome::Cancelled),
    }
}

/// A file to be copied into the chosen folder.
#[derive(Clone, Debug, PartialEq, Eq)]
pub struct FolderCopy {
    pub from: String,
    pub to: String,
}

/// Whether `copies` are those of `items` into the folder `dir`: each file once, in order, under its
/// own name.
pub open spec fn copies_of(items: Seq<Exportable>, dir: Seq<char>, copies: Seq<FolderCopy>) -> bool {
    &&& copies.len() == items.len()
    &&& forall|i: int| 0 <= i < copies.len() ==> copy_of(items[i], dir, #[trigger] copies[i])
}

/// Whether `copy` is that of `item` into the folder `dir`.
pub open spec fn copy_of(item: Exportable, dir: Seq<char>, copy: FolderCopy) -> bool {
    copy.from@ == item.path@ && may_join(dir, item.name@, copy.to@)
}

/// A save of several files into one folder: the copies it takes, and how those that were tried went.
pub struct FolderSave {
    pub copies: Vec<FolderCopy>,
    pub results: Vec<bool>,
}

/// What to do next for a save into a folder.
#[derive(Clone, Debug, PartialEq, Eq)]
pub enum FolderStep {
    /// Copy this file, and report whether that succeeded.
    Copy(FolderCopy),
    /// Every file was tried: tell the user.
    Toast(String),
}

impl FolderSave {
    /// What to do next: the first copy that was not tried yet, whatever became of the ones before it.
    pub fn step(&self) -> (r: FolderStep)
        ensures
            if self.results@.len() < self.copies@.len() {
                r matches FolderStep::Copy(copy) && copy.from@ == self.copies@[self.results@.len() as int].from@ && copy.to@
                    == self.copies@[self.results@.len() as int].to@
            } else {
                r matches FolderStep::Toast(text) && text@ == save_all_text(self.results@)
            },
    {
        let at: usize = self.results.len();
        if at < self.copies.len() {
            FolderStep::Copy(FolderCopy { from: self.copies[at].from.clone(), to: self.copies[at].to.clone() })
        } else {
            FolderStep::Toast(save_all_toast(&self.results))
        }
    }

    /// The copy was tried, and succeeded or did not.
    pub fn tried(&mut self, succeeded: bool)
        ensures
            final(self).copies == old(self).copies,
            final(self).results@ == old(self).results@.push(succeeded),
    {
        self.results.push(succeeded);
    }
}

/// The folder dialog was answered. The chosen folder is remembered, and every file is to be copied
/// into it; a dismissed dialog changes nothing. Returns the save, and whether the settings have to be
/// written.
pub fn folder_copies(items: &Vec<Exportable>, chosen: &Option<String>, remembered: &mut Option<String>) -> (r: (Option<FolderSave>, bool))
    ensures
        match *chosen {
            Some(dir) => {
                &&& r.0 matches Some(save) && copies_of(items@, dir@, save.copies@) && save.results@.len() == 0
                &&& remembers(opt_text(*old(remembered)), dir@, opt_text(*final(remembered)), r.1)
            },
            None => r.0 is None && !r.1 && *final(remembered) == *old(remembered),
        },
{
    match chosen {
        Some(dir) => {
            let mut copies: Vec<FolderCopy> = Vec::new();
            let mut i: usize = 0;
            while i < items.len()
                invariant
                    i <= items.len(),
                    copies.len() == i,
                    forall|k: int| 0 <= k < i ==> copy_of(items@[k], dir@, #[trigger] copies@[k]),
                decreases items.len() - i,
            {
                let to = join_path(dir.as_str(), items[i].name.as_str());
                copies.push(FolderCopy { from: items[i].path.clone(), to });
                i += 1;
            }
            let news = remember_save_directory(dir.as_str(), remembered);
            (Some(FolderSave { copies, results: Vec::new() }), news)
        },
        None => (None, false),
    }
}

/// The remembered folder after a save into `dir`, and whether that is news: it is unless it is the same
/// path as the one remembered, which then stays as it is written.
pub open spec fn remembers(before: Option<Seq<char>>, dir: Seq<char>, after: Option<Seq<char>>, news: bool) -> bool {
    &&& match before {
        Some(known) => may_equal(known, dir, !news),
        None => news,
    }
    &&& after == if news {
        Some(dir)
    } else {
        before
    }
}

/// The remembered folder after a save into `parent`, where a file is in a folder at all.
pub open spec fn remembers_parent(before: Option<Seq<char>>, parent: Option<Seq<char>>, after: Option<Seq<char>>, news: bool) -> bool {
    match parent {
        Some(dir) => remembers(before, dir, after, news),
        None => after == before && !news,
    }
}

/// The file was copied to `dest`, or could not be. A successful save remembers the folder it went to;
/// a failed one leaves the remembered folder alone. Returns how the save went, and whether the settings
/// have to be written.
pub fn copied(result: Result<(), String>, dest: &str, remembered: &mut Option<String>) -> (r: (SaveOutcome, bool))
    ensures
        match result {
            Ok(()) => r.0 == SaveOutcome::Saved && exists|parent: Option<Seq<char>>|
                #[trigger] may_be_parent(dest@, parent) && remembers_parent(
                    opt_text(*old(remembered)),
                    parent,
                    opt_text(*final(remembered)),
                    r.1,
                ),
            Err(e) => r.0 == SaveOutcome::Failed(e) && *final(remembered) == *old(remembered) && !r.1,
        },
{
    let parent = path_parent(dest);
    assert(may_be_parent(dest@, opt_text(parent)));
    copied_into(result, &parent, remembered)
}

/// The file was copied into the folder `parent`, or could not be.
pub fn copied_into(result: Result<(), String>, parent: &Option<String>, remembered: &mut Option<String>) -> (r: (SaveOutcome, bool))
    ensures
        match result {
            Ok(()) => r.0 == SaveOutcome::Saved && remembers_parent(
                opt_text(*old(remembered)),
                opt_text(*parent),
                opt_text(*final(remembered)),
                r.1,
            ),
            Err(e) => r.0 == SaveOutcome::Failed(e) && *final(remembered) == *old(remembered) && !r.1,
        },
{
    match result {
        Ok(()) => {
            let written = match parent {
                Some(dir) => remember_save_directory(dir.as_str(), remembered),
                None => false,
            };
            (SaveOutcome::Saved, written)
        },
        Err(e) => (SaveOutcome::Failed(e), false),
    }
}

/// Remember `dir` as where saves go, so the next save panel opens there. Returns whether that is
/// news, and the settings have to be written.
pub fn remember_save_directory(dir: &str, remembered: &mut Option<String>) -> (news: bool)
    ensures
        remembers(opt_text(*old(remembered)), dir@, opt_text(*final(remembered)), news),
{
    let same = match remembered {
        Some(known) => same_path(known.as_str(), dir),
        None => false,
    };
    remember_unless(same, dir, remembered);
    !same
}

/// Remember `dir` as where saves go, unless it is the `same` folder as the one remembered.
pub fn remember_unless(same: bool, dir: &str, remembered: &mut Option<String>)
    ensures
        opt_text(*final(remembered)) == if same {
            opt_text(*old(remembered))
        } else {
            Some(dir@)
        },
{
    if !same {
        *remembered = Some(dir.to_owned());
    }
}

/// `directories::BaseDirs::new` and `home_dir`: the user's home folder as the system reports it,
/// read as text with what is not Unicode replaced. What it is depends on the machine, and there
/// may be none; nothing is said of it.
#[verifier::external_body]
fn home_directory() -> (r: Option<String>) {
    directories::BaseDirs::new().map(|dirs| dirs.home_dir().to_string_lossy().into_owned())
}

/// Where the save panel opens, given the folder the last save went to, whether it still exists, and
/// the home folder.
pub open spec fn panel_directory(remembered: Option<Seq<char>>, still_there: bool, home: Option<Seq<char>>) -> Seq<char> {
    match remembered {
        Some(dir) if still_there => dir,
        _ => match home {
            Some(home) => home,
            None => Seq::empty(),
        },
    }
}

/// Where the save panel opens, with the user's home folder at hand.
pub fn save_panel_directory_or(remembered: &Option<String>, still_there: bool, home: Option<String>) -> (r: String)
    ensures
        r@ == panel_directory(opt_text(*remembered), still_there, opt_text(home)),
{
    match remembered {
        Some(dir) if still_there => dir.clone(),
        _ => match home {
            Some(home) => home,
            None => String::new(),
        },
    }
}

/// Where the save panel opens: the folder the last save went to, while it still exists, else the
/// user's home folder, resolved per platform.
pub fn save_panel_directory(remembered: &Option<String>, still_there: bool) -> (r: String)
    ensures
        *remembered is Some && still_there ==> r@ == remembered->0@,
        exists|home: Option<Seq<char>>| r@ == #[trigger] panel_directory(opt_text(*remembered), still_there, home),
{
    let home = home_directory();
    let ghost found = opt_text(home);
    let r = save_panel_directory_or(remembered, still_there, home);
    assert(r@ == panel_directory(opt_text(*remembered), still_there, found));
    r
}

/// What the toast says about a single save; a dismissed panel needs no word.
pub fn save_toast(outcome: &SaveOutcome) -> (r: Option<String>)
    ensures
        opt_text(r) == match *outcome {
            SaveOutcome::Saved => Some("Saved"@),
            SaveOutcome::Failed(e) => Some("Save failed: "@ + e@),
            SaveOutcome::Cancelled => None,
        },
{
    match outcome {
        SaveOutcome::Saved => Some("Saved".to_owned()),
        SaveOutcome::Failed(e) => Some(cat("Save failed: ", e.as_str())),
        SaveOutcome::Cancelled => None,
    }
}

/// How many of the copies failed.
pub open spec fn failures(copied: Seq<bool>) -> nat
    decreases copied.len(),
{
    if copied.len() == 0 {
        0
    } else {
        failures(copied.drop_last()) + if copied.last() {
            0nat
        } else {
            1nat
        }
    }
}

/// What the toast says once every file was copied into the chosen folder, or could not be.
pub open spec fn save_all_text(copied: Seq<bool>) -> Seq<char> {
    if failures(copied) == 0 {
        "Saved "@ + dec(copied.len()) + " files"@
    } else {
        "Saved with "@ + dec(failures(copied)) + " failure(s)"@
    }
}

/// What the toast says once every file was copied into the chosen folder, or could not be.
pub fn save_all_toast(copied: &Vec<bool>) -> (r: String)
    ensures
        r@ == save_all_text(copied@),
{
    let mut failed: usize = 0;
    let mut i: usize = 0;
    assert(copied@.take(0) =~= Seq::empty());
    while i < copied.len()
        invariant
            i <= copied.len(),
            failed <= i,
            failed == failures(copied@.take(i as int)),
        decreases copied.len() - i,
    {
        assert(copied@.take(i + 1).drop_last() =~= copied@.take(i as int));
        if !copied[i] {
            failed += 1;
        }
        i += 1;
    }
    assert(copied@.take(copied@.len() as int) =~= copied@);
    if failed == 0 {
        cat3("Saved ", count_text(copied.len()).as_str(), " files")
    } else {
        cat3("Saved with ", count_text(failed).as_str(), " failure(s)")
    }
}

/// A failed copy is counted, and no success is: the toast says as many failures as there were, and
/// that all were saved exactly when none failed.
pub proof fn every_failed_copy_is_counted(copied: Seq<bool>)
    ensures
        failures(copied) <= copied.len(),
        failures(copied) == 0 <==> (forall|i: int| 0 <= i < copied.len() ==> #[trigger] copied[i]),
        forall|ok: bool| #[trigger] failures(copied.push(ok)) == failures(copied) + (if ok {
            0int
        } else {
            1int
        }),
    decreases copied.len(),
{
    assert forall|ok: bool| #[trigger] failures(copied.push(ok)) == failures(copied) + (if ok {
        0int
    } else {
        1int
    }) by {
        assert(copied.push(ok).drop_last() =~= copied);
    }
    if copied.len() > 0 {
        let head = copied.drop_last();
        every_failed_copy_is_counted(head);
        if failures(copied) == 0 {
            assert forall|i: int| 0 <= i < copied.len() implies #[trigger] copied[i] by {
                if i < head.len() {
                    assert(head[i] == copied[i]);
                }
            }
        }
        if forall|i: int| 0 <= i < copied.len() ==> #[trigger] copied[i] {
            assert(copied.last() == copied[copied.len() - 1]);
            assert forall|i: int| 0 <= i < head.len() implies #[trigger] head[i] by {
                assert(head[i] == copied[i]);
            }
        }
    }
}

/// What is saved into a folder next to the file saved last is no news, and a first save always is.
pub proof fn a_second_save_into_a_folder_is_no_news(before: Option<Seq<char>>, dir: Seq<char>, after: Option<Seq<char>>, news: bool, again: bool)
    requires
        remembers(before, dir, Some(dir), news),
        remembers(Some(dir), dir, after, again),
    ensures
        !again,
        after == Some(dir),
        before is None ==> news,
{
}

/// The panel opens in the remembered folder while it exists; one that has gone is as good as none.
pub proof fn the_panel_opens_where_the_last_save_went(before: Option<Seq<char>>, still_there: bool, home: Option<Seq<char>>)
    ensures
        still_there && before is Some ==> panel_directory(before, still_there, home) == before->0,
        !still_there || before is None ==> panel_directory(before, still_there, home) == panel_directory(None, false, home),
{
}

/// What is exported of an entry is the file it can be read from, its kind and the name it is saved under;
/// without a file there is nothing to export.
pub proof fn an_export_is_the_entrys_file(entry: Entry, item: Generation, asset: Asset)
    ensures
        Exportable::entry_export(entry) is Some <==> entry.readable() is Some,
        Exportable::entry_export(entry) matches Some(file) ==> Some(file.path) == entry.readable() && file.kind == entry.media_kind(),
        Exportable::entry_export(Entry::Generation(item)) matches Some(file) ==> file.name == item.file_name,
        Exportable::entry_export(Entry::Asset(asset)) matches Some(file) ==> file.name == asset.file_name,
        Exportable::item_export(item) == Exportable::entry_export(Entry::Generation(item)),
        Exportable::asset_export(asset) == Exportable::entry_export(Entry::Asset(asset)),
{
}

/// The content type follows the kind of media, and for a picture its extension, whatever its case.
pub proof fn the_content_type_follows_the_kind(extension: Option<Seq<char>>, e: Seq<char>)
    ensures
        content_type_of(MediaType::Video, extension) == "video/mp4"@,
        content_type_of(MediaType::Audio, extension) == "audio/mpeg"@,
        content_type_of(MediaType::Image, None) == "image/png"@,
        ascii_lowercase(e) == "jpg"@ || ascii_lowercase(e) == "jpeg"@ ==> content_type_of(MediaType::Image, Some(e)) == "image/jpeg"@,
        ascii_lowercase(e) != "jpg"@ && ascii_lowercase(e) != "jpeg"@ ==> content_type_of(MediaType::Image, Some(e)) == "image/png"@,
{
}

/// The picture format is the one the extension names, whatever its case; a PNG where it names none.
pub proof fn the_format_follows_the_extension(e: Seq<char>)
    ensures
        format_of(None) == ImageFormat::Png,
        format_of(Some(e)) == ImageFormat::Jpeg <==> ascii_lowercase(e) == "jpg"@ || ascii_lowercase(e) == "jpeg"@,
        format_of(Some(e)) == ImageFormat::Webp <==> ascii_lowercase(e) == "webp"@,
        format_of(Some(e)) == ImageFormat::Gif <==> ascii_lowercase(e) == "gif"@,
{
    reveal_strlit("jpg");
    reveal_strlit("jpeg");
    reveal_strlit("webp");
    reveal_strlit("gif");
    assert("jpg"@[0] == 'j' && "jpeg"@[0] == 'j' && "webp"@[0] == 'w' && "gif"@[0] == 'g');
}

/// What the toast says of a copy counts every file that was carried; where the platform carried none, it names
/// the one thing that was written.
pub proof fn the_copy_toast_counts_the_files(count: nat, image: bool)
    ensures
        copy_toast_text(1, image, true) == "Copied"@,
        count != 1 ==> copy_toast_text(count, image, true) == "Copied "@ + dec(count) + " items"@,
        copy_toast_text(count, true, false) == "Copied image"@,
        copy_toast_text(1, false, false) == "Copied file path"@,
        count != 1 ==> copy_toast_text(count, false, false) == "Copied "@ + dec(count) + " file paths"@,
        count > 1 ==> native_toast_text(count) == "Copied "@ + dec(count) + " items"@,
        count <= 1 ==> native_toast_text(count) == "Copied"@,
{
}

/// Every file of the selection is copied, in order: the platform's clipboard is handed the path of each, and
/// so is whatever takes references or text.
pub proof fn every_file_is_copied(items: Seq<Exportable>, media: Seq<ClipboardMedia>, i: int)
    requires
        0 <= i < items.len(),
        media_for(items, media),
    ensures
        media.len() == items.len(),
        media[i].path@ == items[i].path@,
        items[i].kind == MediaType::Video ==> media[i].content_type@ == "video/mp4"@,
        items[i].kind == MediaType::Audio ==> media[i].content_type@ == "audio/mpeg"@,
        items[i].kind == MediaType::Image ==> media[i].content_type@ == "image/jpeg"@ || media[i].content_type@ == "image/png"@,
        paths_of(items).len() == items.len(),
        paths_of(items)[i] == items[i].path@,
{
    assert(medium_for(items[i], media[i]));
}

/// A copy begins with the platform's clipboard where that takes media; where it does not, or refused, the
/// first file's picture is read, or without one the paths are written, one to a line. Nothing is copied of an
/// empty selection.
pub proof fn a_copy_tries_the_platform_first(items: Seq<Exportable>, support: ClipboardSupport, stage: CopyStage, event: CopyEvent, step: CopyStep)
    requires
        copy_step_after(items, support, stage, event, step),
    ensures
        stage == CopyStage::Start && items.len() == 0 ==> step is Nothing,
        stage == CopyStage::Start && items.len() > 0 ==> (step is Native <==> support.media),
        step matches CopyStep::Native(media) ==> stage == CopyStage::Start && media@.len() == items.len(),
        (stage == CopyStage::Start && items.len() > 0 && !support.media) || (stage == CopyStage::Native && event != CopyEvent::Outcome(true))
            ==> {
            &&& items.len() > 0 && items[0].kind == MediaType::Image ==> (step matches CopyStep::ReadImage { path } && path@ == items[0].path@)
            &&& !(items.len() > 0 && items[0].kind == MediaType::Image) ==> (step matches CopyStep::WriteText(text) && text@ == joined(
                paths_of(items),
                "\n"@,
            ))
        },
        stage == CopyStage::Native && event == CopyEvent::Outcome(true) ==> (step matches CopyStep::Toast(text) && text@ == native_toast_text(
            items.len(),
        )),
        copy_stage_after(items, support, stage, event) == CopyStage::Native <==> step is Native,
        copy_stage_after(items, support, stage, event) == CopyStage::Reading <==> step is ReadImage,
{
}

/// A picture that was read is written as a picture, one that was not as the paths; then the files are added
/// where the platform takes references, and the toast says what came of it all.
pub proof fn a_copy_writes_what_was_read(
    items: Seq<Exportable>,
    support: ClipboardSupport,
    image: bool,
    ok: bool,
    step: CopyStep,
    next: CopyStep,
    last: CopyStep,
)
    requires
        copy_step_after(items, support, CopyStage::Reading, CopyEvent::Outcome(ok), step),
        copy_step_after(items, support, CopyStage::Written { image }, CopyEvent::Done, next),
        copy_step_after(items, support, CopyStage::Referencing { image }, CopyEvent::Outcome(ok), last),
    ensures
        step is WriteImage <==> ok,
        !ok ==> (step matches CopyStep::WriteText(text) && text@ == joined(paths_of(items), "\n"@)),
        copy_stage_after(items, support, CopyStage::Reading, CopyEvent::Outcome(ok)) == (CopyStage::Written { image: ok }),
        support.file_references ==> (next matches CopyStep::AddFiles(paths) && texts(paths@) == paths_of(items)),
        !support.file_references ==> (next matches CopyStep::Toast(text) && text@ == copy_toast_text(items.len(), image, false)),
        copy_stage_after(items, support, CopyStage::Written { image }, CopyEvent::Done) == (if support.file_references {
            CopyStage::Referencing { image }
        } else {
            CopyStage::Finished
        }),
        last matches CopyStep::Toast(text) && text@ == copy_toast_text(items.len(), image, ok),
        copy_stage_after(items, support, CopyStage::Referencing { image }, CopyEvent::Outcome(ok)) == CopyStage::Finished,
{
}

/// Every file of the selection is saved once, in order, from its own path.
pub proof fn every_file_is_saved(items: Seq<Exportable>, dir: Seq<char>, copies: Seq<FolderCopy>, i: int)
    requires
        0 <= i < items.len(),
        copies_of(items, dir, copies),
    ensures
        copies.len() == items.len(),
        copies[i].from@ == items[i].path@,
        may_join(dir, items[i].name@, copies[i].to@),
{
    assert(copy_of(items[i], dir, copies[i]));
}

/// The folder of the last save is the one remembered: a folder that is news replaces what was remembered, one
/// that is not leaves it, and a file in no folder changes nothing.
pub proof fn the_last_folder_is_remembered(before: Option<Seq<char>>, dir: Seq<char>, after: Option<Seq<char>>, news: bool)
    ensures
        remembers(before, dir, after, news) ==> after == (if news {
            Some(dir)
        } else {
            before
        }),
        remembers(before, dir, after, news) && before is None ==> news,
        remembers(Some(dir), dir, after, news) ==> !news,
        remembers_parent(before, Some(dir), after, news) <==> remembers(before, dir, after, news),
        remembers_parent(before, None, after, news) <==> after == before && !news,
{
}

/// The panel opens where the last save went while that folder is there, and else at home, or nowhere in
/// particular.
pub proof fn the_panel_falls_back_to_home(remembered: Option<Seq<char>>, still_there: bool, home: Option<Seq<char>>)
    ensures
        remembered matches Some(dir) ==> (still_there ==> panel_directory(remembered, still_there, home) == dir),
        remembered is None || !still_there ==> (home matches Some(folder) ==> panel_directory(remembered, still_there, home) == folder),
        (remembered is None || !still_there) && home is None ==> panel_directory(remembered, still_there, home).len() == 0,
{
}

/// A save of several files says how many were saved where none failed, and else how many failed.
pub proof fn a_save_tells_of_its_failures(copied: Seq<bool>)
    ensures
        (forall|i: int| 0 <= i < copied.len() ==> #[trigger] copied[i]) ==> save_all_text(copied) == "Saved "@ + dec(copied.len()) + " files"@,
        (exists|i: int| 0 <= i < copied.len() && !#[trigger] copied[i]) ==> save_all_text(copied) == "Saved with "@ + dec(failures(copied))
            + " failure(s)"@,
{
    every_failed_copy_is_counted(copied);
}

/// A copy remembers what it wrote to the clipboard, and one with nothing left to do is finished.
pub proof fn a_copy_remembers_what_it_wrote(items: Seq<Exportable>, support: ClipboardSupport, stage: CopyStage, event: CopyEvent, step: CopyStep)
    requires
        copy_step_after(items, support, stage, event, step),
    ensures
        copy_stage_after(items, support, stage, event) == (CopyStage::Written { image: true }) <==> step is WriteImage,
        copy_stage_after(items, support, stage, event) == (CopyStage::Written { image: false }) <==> step is WriteText,
        step is Toast ==> copy_stage_after(items, support, stage, event) == CopyStage::Finished,
        step is Nothing ==> copy_stage_after(items, support, stage, event) == CopyStage::Finished,
        stage == CopyStage::Finished ==> copy_stage_after(items, support, stage, event) == CopyStage::Finished,
{
}

} // verus!

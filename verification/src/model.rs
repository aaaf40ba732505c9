//! What the views know of the library: generations, assets, albums and the ids they go by.

use vstd::prelude::*;

use crate::seqs::{first_from, first_place, first_where, lemma_first_from, Same};

verus! {

/// A generation's key in the library.
#[derive(Clone, Copy, Debug, PartialEq, Eq, Hash, Structural)]
pub struct GenerationId(pub u64);

/// An asset's key in the library.
#[derive(Clone, Copy, Debug, PartialEq, Eq, Hash, Structural)]
pub struct AssetId(pub u64);

/// An album's key in the library.
#[derive(Clone, Copy, Debug, PartialEq, Eq, Hash, Structural)]
pub struct AlbumId(pub u64);

impl Same for GenerationId {
    fn same(self, other: GenerationId) -> (r: bool) {
        self == other
    }
}

impl Same for EntryId {
    fn same(self, other: EntryId) -> (r: bool) {
        self == other
    }
}

/// What a cell of the feed or a page of the detail stands for.
#[derive(Clone, Copy, Debug, PartialEq, Eq, Hash, Structural)]
pub enum EntryId {
    Generation(GenerationId),
    Asset(AssetId),
}

#[derive(Clone, Copy, Debug, PartialEq, Eq, Hash, Structural)]
pub enum MediaType {
    Image,
    Video,
    Audio,
}

/// The tools that work on a picture or a clip instead of generating one.
#[derive(Clone, Copy, Debug, PartialEq, Eq, Hash, Structural)]
pub enum ToolId {
    Upscale,
    RemoveBackground,
}

/// Where a generation has got to. `Missing`: it completed, and its file has gone since.
#[derive(Clone, Copy, Debug, PartialEq, Eq, Hash, Structural)]
pub enum Status {
    Generating,
    Completed,
    Failed,
    Missing,
}

/// What a feed lists.
#[derive(Clone, Copy, Debug, PartialEq, Eq, Hash, Structural)]
pub enum FeedFilter {
    Library,
    Favorites,
    Album(AlbumId),
    Assets,
}

/// The toolbar's type filter.
#[derive(Clone, Copy, Debug, PartialEq, Eq, Hash, Structural)]
pub enum MediaFilter {
    All,
    Image,
    Video,
    Audio,
}

/// Square-cropped thumbnails, or whole ones.
#[derive(Clone, Copy, Debug, PartialEq, Eq, Hash, Structural)]
pub enum ThumbnailShape {
    Square,
    AspectRatio,
}

impl ThumbnailShape {
    pub open spec fn other(self) -> ThumbnailShape {
        match self {
            ThumbnailShape::Square => ThumbnailShape::AspectRatio,
            ThumbnailShape::AspectRatio => ThumbnailShape::Square,
        }
    }

    /// The other shape.
    pub fn toggled(self) -> (r: ThumbnailShape)
        ensures
            r == self.other(),
    {
        match self {
            ThumbnailShape::Square => ThumbnailShape::AspectRatio,
            ThumbnailShape::AspectRatio => ThumbnailShape::Square,
        }
    }
}

/// A generation as its row in the library shows it.
#[derive(Clone, Debug, PartialEq, Eq)]
pub struct Generation {
    pub id: GenerationId,
    pub media_type: MediaType,
    /// The tool that made it, where one did.
    pub tool: Option<ToolId>,
    pub status: Status,
    pub is_favorite: bool,
    pub is_upscaled: bool,
    /// Its request is stored and can be loaded into the composer.
    pub can_recreate: bool,
    /// It can be run again in place.
    pub can_retry: bool,
    /// The prompt its stored request has.
    pub prompt: Option<String>,
    /// Where its file is, or should be, once there was one.
    pub path: Option<String>,
    /// The file to read, while there is one.
    pub file: Option<String>,
    /// The name the file is saved under.
    pub file_name: String,
    pub thumbnail: Option<String>,
    /// The asset it produced.
    pub output_asset_id: Option<AssetId>,
    /// How long the media runs, as the badge writes it.
    pub duration: Option<String>,
    /// When its current attempt was asked for.
    pub queued_at_ms: u64,
    pub model_name: Option<String>,
    pub width: Option<u32>,
    pub height: Option<u32>,
    /// The size of its file, as it is written.
    pub file_size: Option<String>,
    /// When it was made, as it is written.
    pub created: String,
    /// Why it failed.
    pub error: Option<String>,
}

/// A file in the library: an import, or the output of a generation.
#[derive(Clone, Debug, PartialEq, Eq)]
pub struct Asset {
    pub id: AssetId,
    pub kind: MediaType,
    /// Where its file is, or should be.
    pub path: String,
    /// The file went missing from the library's folder.
    pub missing: bool,
    /// The file to read, while there is one.
    pub file: Option<String>,
    /// The name the file is saved under.
    pub file_name: String,
    pub thumbnail: Option<String>,
    /// How long the media runs, as the badge writes it.
    pub duration: Option<String>,
    pub width: Option<u32>,
    pub height: Option<u32>,
    /// The size of its file, as it is written.
    pub file_size: Option<String>,
    pub created_at_ms: u64,
    /// When it was made, as it is written.
    pub created: String,
    /// A live generation takes it as an input or produced it.
    pub referenced: bool,
    /// The generation whose output it is.
    pub produced_by: Option<GenerationId>,
}

#[derive(Clone, Debug, PartialEq, Eq)]
pub struct Album {
    pub id: AlbumId,
    pub name: String,
    pub items: Vec<GenerationId>,
}

/// One entry of a feed.
#[derive(Clone, Debug, PartialEq, Eq)]
pub enum Entry {
    Generation(Generation),
    Asset(Asset),
}

/// The rows of the library the views read.
pub struct Library {
    pub generations: Vec<Generation>,
    pub assets: Vec<Asset>,
    pub albums: Vec<Album>,
}

/// A copy of a text that may be absent.
pub fn copy_text(o: &Option<String>) -> (r: Option<String>)
    ensures
        r == *o,
{
    match o {
        Some(s) => Some(s.clone()),
        None => None,
    }
}

impl EntryId {
    /// The generation it stands for.
    pub open spec fn generation(self) -> Option<GenerationId> {
        match self {
            EntryId::Generation(id) => Some(id),
            EntryId::Asset(_) => None,
        }
    }

    /// The asset it stands for.
    pub open spec fn plain_asset(self) -> Option<AssetId> {
        match self {
            EntryId::Generation(_) => None,
            EntryId::Asset(id) => Some(id),
        }
    }

    /// The generation it stands for.
    pub fn media(&self) -> (r: Option<GenerationId>)
        ensures
            r == self.generation(),
    {
        match self {
            EntryId::Generation(id) => Some(*id),
            EntryId::Asset(_) => None,
        }
    }

    /// The asset it stands for.
    pub fn asset(&self) -> (r: Option<AssetId>)
        ensures
            r == self.plain_asset(),
    {
        match self {
            EntryId::Generation(_) => None,
            EntryId::Asset(id) => Some(*id),
        }
    }
}

impl Generation {
    /// The same row again.
    pub fn copy(&self) -> (r: Generation)
        ensures
            r == *self,
    {
        Generation {
            id: self.id,
            media_type: self.media_type,
            tool: self.tool,
            status: self.status,
            is_favorite: self.is_favorite,
            is_upscaled: self.is_upscaled,
            can_recreate: self.can_recreate,
            can_retry: self.can_retry,
            prompt: copy_text(&self.prompt),
            path: copy_text(&self.path),
            file: copy_text(&self.file),
            file_name: self.file_name.clone(),
            thumbnail: copy_text(&self.thumbnail),
            output_asset_id: self.output_asset_id,
            duration: copy_text(&self.duration),
            queued_at_ms: self.queued_at_ms,
            model_name: copy_text(&self.model_name),
            width: self.width,
            height: self.height,
            file_size: copy_text(&self.file_size),
            created: self.created.clone(),
            error: copy_text(&self.error),
        }
    }
}

impl Asset {
    /// The same row again.
    pub fn copy(&self) -> (r: Asset)
        ensures
            r == *self,
    {
        Asset {
            id: self.id,
            kind: self.kind,
            path: self.path.clone(),
            missing: self.missing,
            file: copy_text(&self.file),
            file_name: self.file_name.clone(),
            thumbnail: copy_text(&self.thumbnail),
            duration: copy_text(&self.duration),
            width: self.width,
            height: self.height,
            file_size: copy_text(&self.file_size),
            created_at_ms: self.created_at_ms,
            created: self.created.clone(),
            referenced: self.referenced,
            produced_by: self.produced_by,
        }
    }
}

impl Entry {
    pub open spec fn key(self) -> EntryId {
        match self {
            Entry::Generation(item) => EntryId::Generation(item.id),
            Entry::Asset(asset) => EntryId::Asset(asset.id),
        }
    }

    pub open spec fn media_kind(self) -> MediaType {
        match self {
            Entry::Generation(item) => item.media_type,
            Entry::Asset(asset) => asset.kind,
        }
    }

    pub open spec fn readable(self) -> Option<String> {
        match self {
            Entry::Generation(item) => item.file,
            Entry::Asset(asset) => asset.file,
        }
    }

    pub open spec fn picture(self) -> Option<String> {
        match self {
            Entry::Generation(item) => item.thumbnail,
            Entry::Asset(asset) => asset.thumbnail,
        }
    }

    pub fn id(&self) -> (r: EntryId)
        ensures
            r == self.key(),
    {
        match self {
            Entry::Generation(item) => EntryId::Generation(item.id),
            Entry::Asset(asset) => EntryId::Asset(asset.id),
        }
    }

    pub fn kind(&self) -> (r: MediaType)
        ensures
            r == self.media_kind(),
    {
        match self {
            Entry::Generation(item) => item.media_type,
            Entry::Asset(asset) => asset.kind,
        }
    }

    /// The file to read, while there is one.
    pub fn file(&self) -> (r: Option<String>)
        ensures
            r == self.readable(),
    {
        match self {
            Entry::Generation(item) => copy_text(&item.file),
            Entry::Asset(asset) => copy_text(&asset.file),
        }
    }

    pub fn thumbnail(&self) -> (r: Option<String>)
        ensures
            r == self.picture(),
    {
        match self {
            Entry::Generation(item) => copy_text(&item.thumbnail),
            Entry::Asset(asset) => copy_text(&asset.thumbnail),
        }
    }
}

impl Library {
    pub open spec fn generation_at(self, id: GenerationId) -> Option<Generation> {
        first_where(self.generations@, |g: Generation| g.id == id)
    }

    pub open spec fn asset_at(self, id: AssetId) -> Option<Asset> {
        first_where(self.assets@, |a: Asset| a.id == id)
    }

    pub open spec fn entry_at(self, id: EntryId) -> Option<Entry> {
        match id {
            EntryId::Generation(id) => match self.generation_at(id) {
                Some(item) => Some(Entry::Generation(item)),
                None => None,
            },
            EntryId::Asset(id) => match self.asset_at(id) {
                Some(asset) => Some(Entry::Asset(asset)),
                None => None,
            },
        }
    }

    pub open spec fn album_place(self, id: AlbumId) -> Option<int> {
        first_place(self.albums@, |a: Album| a.id == id)
    }

    /// The generation with this id.
    pub fn get(&self, id: GenerationId) -> (r: Option<&Generation>)
        ensures
            match (r, self.generation_at(id)) {
                (Some(a), Some(b)) => *a == b,
                (None, None) => true,
                _ => false,
            },
    {
        let ghost fits = |g: Generation| g.id == id;
        let mut i: usize = 0;
        while i < self.generations.len()
            invariant
                i <= self.generations.len(),
                fits == (|g: Generation| g.id == id),
                first_from(self.generations@, fits, 0) == first_from(self.generations@, fits, i as int),
            decreases self.generations.len() - i,
        {
            if self.generations[i].id == id {
                return Some(&self.generations[i]);
            }
            i += 1;
        }
        None
    }

    /// The asset with this id.
    pub fn asset(&self, id: AssetId) -> (r: Option<&Asset>)
        ensures
            match (r, self.asset_at(id)) {
                (Some(a), Some(b)) => *a == b,
                (None, None) => true,
                _ => false,
            },
    {
        let ghost fits = |a: Asset| a.id == id;
        let mut i: usize = 0;
        while i < self.assets.len()
            invariant
                i <= self.assets.len(),
                fits == (|a: Asset| a.id == id),
                first_from(self.assets@, fits, 0) == first_from(self.assets@, fits, i as int),
            decreases self.assets.len() - i,
        {
            if self.assets[i].id == id {
                return Some(&self.assets[i]);
            }
            i += 1;
        }
        None
    }

    /// A copy of the entry with this id.
    pub fn entry(&self, id: EntryId) -> (r: Option<Entry>)
        ensures
            r == self.entry_at(id),
    {
        match id {
            EntryId::Generation(id) => match self.get(id) {
                Some(item) => Some(Entry::Generation(item.copy())),
                None => None,
            },
            EntryId::Asset(id) => match self.asset(id) {
                Some(asset) => Some(Entry::Asset(asset.copy())),
                None => None,
            },
        }
    }

    /// The album with this id.
    pub fn album(&self, id: AlbumId) -> (r: Option<&Album>)
        ensures
            match (r, self.album_place(id)) {
                (Some(a), Some(i)) => *a == self.albums@[i],
                (None, None) => true,
                _ => false,
            },
    {
        let ghost fits = |a: Album| a.id == id;
        let mut i: usize = 0;
        while i < self.albums.len()
            invariant
                i <= self.albums.len(),
                fits == (|a: Album| a.id == id),
                first_from(self.albums@, fits, 0) == first_from(self.albums@, fits, i as int),
            decreases self.albums.len() - i,
        {
            if self.albums[i].id == id {
                return Some(&self.albums[i]);
            }
            i += 1;
        }
        None
    }
}

/// An entry that is found has the id it was looked up by.
pub proof fn an_entry_is_found_by_its_own_id(lib: Library, id: EntryId)
    requires
        lib.entry_at(id) is Some,
    ensures
        (lib.entry_at(id)->0).key() == id,
{
    match id {
        EntryId::Generation(g) => lemma_first_from(lib.generations@, |x: Generation| x.id == g, 0),
        EntryId::Asset(a) => lemma_first_from(lib.assets@, |x: Asset| x.id == a, 0),
    }
}

/// The library hands out the first row with the id asked for, and none only where no row has it.
pub proof fn a_row_is_found_by_its_id(lib: Library, generation: GenerationId, asset: AssetId, album: AlbumId)
    ensures
        match lib.generation_at(generation) {
            Some(row) => exists|i: int|
                0 <= i < lib.generations@.len() && #[trigger] lib.generations@[i] == row && row.id == generation && (forall|j: int|
                    0 <= j < i ==> (#[trigger] lib.generations@[j]).id != generation),
            None => forall|i: int| 0 <= i < lib.generations@.len() ==> (#[trigger] lib.generations@[i]).id != generation,
        },
        match lib.asset_at(asset) {
            Some(row) => exists|i: int|
                0 <= i < lib.assets@.len() && #[trigger] lib.assets@[i] == row && row.id == asset && (forall|j: int|
                    0 <= j < i ==> (#[trigger] lib.assets@[j]).id != asset),
            None => forall|i: int| 0 <= i < lib.assets@.len() ==> (#[trigger] lib.assets@[i]).id != asset,
        },
        match lib.album_place(album) {
            Some(i) => 0 <= i < lib.albums@.len() && lib.albums@[i].id == album && (forall|j: int|
                0 <= j < i ==> (#[trigger] lib.albums@[j]).id != album),
            None => forall|i: int| 0 <= i < lib.albums@.len() ==> (#[trigger] lib.albums@[i]).id != album,
        },
{
    lemma_first_from(lib.generations@, |g: Generation| g.id == generation, 0);
    lemma_first_from(lib.assets@, |a: Asset| a.id == asset, 0);
    lemma_first_from(lib.albums@, |a: Album| a.id == album, 0);
    if let Some(row) = lib.generation_at(generation) {
        let i = first_place(lib.generations@, |g: Generation| g.id == generation)->0;
        assert(lib.generations@[i] == row);
    }
    if let Some(row) = lib.asset_at(asset) {
        let i = first_place(lib.assets@, |a: Asset| a.id == asset)->0;
        assert(lib.assets@[i] == row);
    }
}

/// An entry is the row its id names: a generation's id finds a generation, and an asset's an asset.
pub proof fn an_entry_is_the_row_its_id_names(lib: Library, generation: GenerationId, asset: AssetId)
    ensures
        match lib.entry_at(EntryId::Generation(generation)) {
            Some(Entry::Generation(row)) => lib.generation_at(generation) == Some(row),
            Some(Entry::Asset(_)) => false,
            None => lib.generation_at(generation) is None,
        },
        match lib.entry_at(EntryId::Asset(asset)) {
            Some(Entry::Asset(row)) => lib.asset_at(asset) == Some(row),
            Some(Entry::Generation(_)) => false,
            None => lib.asset_at(asset) is None,
        },
{
}

/// What an entry is asked for is what its row says: its id, its kind of media, the file to read and the
/// thumbnail.
pub proof fn an_entry_speaks_for_its_row(item: Generation, asset: Asset)
    ensures
        Entry::Generation(item).key() == EntryId::Generation(item.id),
        Entry::Generation(item).media_kind() == item.media_type,
        Entry::Generation(item).readable() == item.file,
        Entry::Generation(item).picture() == item.thumbnail,
        Entry::Asset(asset).key() == EntryId::Asset(asset.id),
        Entry::Asset(asset).media_kind() == asset.kind,
        Entry::Asset(asset).readable() == asset.file,
        Entry::Asset(asset).picture() == asset.thumbnail,
{
}

/// An entry's id stands for a generation or for an asset, never for both.
pub proof fn an_id_stands_for_one_row(id: EntryId, generation: GenerationId, asset: AssetId)
    ensures
        id.generation() == Some(generation) <==> id == EntryId::Generation(generation),
        id.plain_asset() == Some(asset) <==> id == EntryId::Asset(asset),
        id.generation() is Some <==> id.plain_asset() is None,
{
}

} // verus!

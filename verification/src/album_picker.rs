//! Album picker sheet: toggle membership of the selected items in each album, or create a new album
//! inline.

use vstd::prelude::*;

use crate::model::{Album, AlbumId, GenerationId};
use crate::seqs::{copied, is_among};
use crate::text::{cat3, count_text, dec, trim, trimmed};

verus! {

/// One row of the sheet: an album, checked while every selected item is in it.
#[derive(Clone, Debug, PartialEq, Eq)]
pub struct AlbumRow {
    pub id: AlbumId,
    pub name: String,
    pub checked: bool,
}

/// What the sheet asks of the library.
#[derive(Clone, Debug, PartialEq, Eq)]
pub enum AlbumChange {
    Add { album: AlbumId, ids: Vec<GenerationId> },
    Remove { album: AlbumId, ids: Vec<GenerationId> },
    /// Create an album of this name, and add the items to it.
    Create { name: String, ids: Vec<GenerationId> },
}

/// The sheet over the selected items, with what the name field holds.
pub struct AlbumPicker {
    pub ids: Vec<GenerationId>,
    pub name: String,
}

/// What the sheet shows.
pub struct AlbumSheet {
    /// What it says when there are no albums.
    pub hint: Option<&'static str>,
    pub rows: Vec<AlbumRow>,
    /// What the name field shows while it is empty.
    pub placeholder: &'static str,
    pub create_label: &'static str,
    pub done_label: &'static str,
}

/// Whether every one of `ids` is in the album.
pub open spec fn holds_all(album: Album, ids: Seq<GenerationId>) -> bool {
    forall|i: int| 0 <= i < ids.len() ==> album.items@.contains(#[trigger] ids[i])
}

/// The row of an album.
pub open spec fn row_for(album: Album, ids: Seq<GenerationId>) -> AlbumRow {
    AlbumRow { id: album.id, name: album.name, checked: holds_all(album, ids) }
}

fn all_in(album: &Album, ids: &Vec<GenerationId>) -> (r: bool)
    ensures
        r == holds_all(*album, ids@),
{
    let mut i: usize = 0;
    while i < ids.len()
        invariant
            i <= ids.len(),
            forall|k: int| 0 <= k < i ==> album.items@.contains(#[trigger] ids@[k]),
        decreases ids.len() - i,
    {
        if !is_among(&album.items, ids[i]) {
            assert(!album.items@.contains(ids@[i as int]));
            return false;
        }
        i += 1;
    }
    true
}

/// Opens the sheet over the selected items. Returns it with its title.
pub fn open_album_picker(ids: Vec<GenerationId>) -> (r: (AlbumPicker, String))
    ensures
        r.0.ids == ids,
        r.0.name@ == Seq::<char>::empty(),
        r.1@ == if ids@.len() == 1 {
            "Add to Album"@
        } else {
            "Add "@ + dec(ids@.len()) + " items to Album"@
        },
{
    let title = if ids.len() == 1 {
        "Add to Album".to_owned()
    } else {
        cat3("Add ", count_text(ids.len()).as_str(), " items to Album")
    };
    (AlbumPicker { ids, name: String::new() }, title)
}

impl AlbumPicker {
    /// The sheet: a row for each album, or a hint when there is none.
    pub fn render(&self, albums: &Vec<Album>) -> (r: AlbumSheet)
        ensures
            match r.hint {
                Some(text) => albums@.len() == 0 && text@ == "No albums yet — create one below."@,
                None => albums@.len() > 0,
            },
            r.rows@ == Seq::new(albums@.len(), |i: int| row_for(albums@[i], self.ids@)),
            r.placeholder@ == "New album name"@,
            r.create_label@ == "Create"@,
            r.done_label@ == "Done"@,
    {
        let hint = if albums.len() == 0 {
            Some("No albums yet — create one below.")
        } else {
            None
        };
        let mut rows: Vec<AlbumRow> = Vec::new();
        let mut i: usize = 0;
        while i < albums.len()
            invariant
                i <= albums.len(),
                rows@ == Seq::new(i as nat, |k: int| row_for(albums@[k], self.ids@)),
            decreases albums.len() - i,
        {
            let album = &albums[i];
            rows.push(AlbumRow { id: album.id, name: album.name.clone(), checked: all_in(album, &self.ids) });
            i += 1;
            assert(rows@ =~= Seq::new(i as nat, |k: int| row_for(albums@[k], self.ids@)));
        }
        AlbumSheet { hint, rows, placeholder: "New album name", create_label: "Create", done_label: "Done" }
    }

    /// An album's box was checked, or unchecked: all of the items go in, or all of them out.
    pub fn toggle(&self, album: AlbumId, checked: bool) -> (r: AlbumChange)
        ensures
            match r {
                AlbumChange::Add { album: to, ids } => checked && to == album && ids@ == self.ids@,
                AlbumChange::Remove { album: from, ids } => !checked && from == album && ids@ == self.ids@,
                AlbumChange::Create { .. } => false,
            },
    {
        let ids = copied(&self.ids);
        if checked {
            AlbumChange::Add { album, ids }
        } else {
            AlbumChange::Remove { album, ids }
        }
    }

    /// The name field changed.
    pub fn set_name(&mut self, name: String)
        ensures
            *final(self) == (AlbumPicker { name, ..*old(self) }),
    {
        self.name = name;
    }

    /// Create an album of the name typed, without white space around it, holding the items; the
    /// field is cleared. A blank name creates nothing.
    pub fn create(&mut self) -> (r: Option<AlbumChange>)
        ensures
            final(self).ids == old(self).ids,
            match r {
                Some(AlbumChange::Create { name, ids }) => {
                    &&& trimmed(old(self).name@).len() > 0
                    &&& name@ == trimmed(old(self).name@)
                    &&& ids@ == old(self).ids@
                    &&& final(self).name@ == Seq::<char>::empty()
                },
                Some(_) => false,
                None => trimmed(old(self).name@).len() == 0 && *final(self) == *old(self),
            },
    {
        let name = trim(self.name.as_str());
        if name.as_str().is_empty() {
            return None;
        }
        self.name = String::new();
        Some(AlbumChange::Create { name, ids: copied(&self.ids) })
    }
}

// ----- laws -----------------------------------------------------------------------------------

/// An album every item was added to is checked, and one that lost an item is not.
pub proof fn a_box_is_checked_while_all_items_are_in(album: Album, ids: Seq<GenerationId>, items: Seq<GenerationId>)
    requires
        album.items@ == items,
    ensures
        items.to_set() == items.to_set().union(ids.to_set()) ==> row_for(album, ids).checked,
        row_for(album, ids).checked ==> ids.to_set().subset_of(items.to_set()),
        (exists|i: int| 0 <= i < ids.len() && !items.contains(#[trigger] ids[i])) ==> !row_for(album, ids).checked,
{
    if items.to_set() == items.to_set().union(ids.to_set()) {
        assert forall|i: int| 0 <= i < ids.len() implies items.contains(#[trigger] ids[i]) by {
            assert(ids.to_set().contains(ids[i]));
            assert(items.to_set().union(ids.to_set()).contains(ids[i]));
            assert(items.to_set().contains(ids[i]));
        }
    }
    if holds_all(album, ids) {
        assert forall|id: GenerationId| ids.to_set().contains(id) implies items.to_set().contains(id) by {
            let i = choose|i: int| 0 <= i < ids.len() && ids[i] == id;
            assert(items.contains(ids[i]));
        }
    }
}

/// A row of the sheet is its album's: its id and its name, checked exactly while every selected item is in
/// the album.
pub proof fn a_row_speaks_for_its_album(album: Album, ids: Seq<GenerationId>)
    ensures
        row_for(album, ids).id == album.id,
        row_for(album, ids).name == album.name,
        row_for(album, ids).checked <==> forall|id: GenerationId| #[trigger] ids.contains(id) ==> album.items@.contains(id),
{
    if row_for(album, ids).checked {
        assert forall|id: GenerationId| #[trigger] ids.contains(id) implies album.items@.contains(id) by {
            let i = choose|i: int| 0 <= i < ids.len() && ids[i] == id;
            assert(album.items@.contains(ids[i]));
        }
    }
    if forall|id: GenerationId| #[trigger] ids.contains(id) ==> album.items@.contains(id) {
        assert forall|i: int| 0 <= i < ids.len() implies album.items@.contains(#[trigger] ids[i]) by {
            assert(ids.contains(ids[i]));
        }
    }
}

} // verus!

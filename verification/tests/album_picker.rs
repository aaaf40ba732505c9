use majik_views::album_picker::{open_album_picker, AlbumChange};
use majik_views::model::{Album, AlbumId, GenerationId};

fn album(id: u64, name: &str, items: &[u64]) -> Album {
    Album { id: AlbumId(id), name: name.into(), items: items.iter().map(|i| GenerationId(*i)).collect() }
}

fn ids(all: &[u64]) -> Vec<GenerationId> {
    all.iter().map(|i| GenerationId(*i)).collect()
}

#[test]
fn the_title_counts_the_items() {
    assert_eq!(open_album_picker(ids(&[1])).1, "Add to Album");
    assert_eq!(open_album_picker(ids(&[1, 2, 3])).1, "Add 3 items to Album");
}

#[test]
fn an_album_is_checked_while_it_holds_every_item() {
    let (picker, _) = open_album_picker(ids(&[1, 2]));
    let sheet = picker.render(&vec![album(1, "Both", &[2, 9, 1]), album(2, "One", &[1]), album(3, "None", &[])]);
    assert_eq!(sheet.hint, None);
    assert_eq!((sheet.placeholder, sheet.create_label, sheet.done_label), ("New album name", "Create", "Done"));
    assert_eq!(sheet.rows.iter().map(|r| (r.name.as_str(), r.checked)).collect::<Vec<_>>(), [("Both", true), ("One", false), ("None", false)]);
}

#[test]
fn without_albums_there_is_a_hint() {
    let (picker, _) = open_album_picker(ids(&[1]));
    let sheet = picker.render(&Vec::new());
    assert_eq!(sheet.hint, Some("No albums yet — create one below."));
    assert!(sheet.rows.is_empty());
}

#[test]
fn a_box_files_all_of_the_items_or_takes_them_out() {
    let (picker, _) = open_album_picker(ids(&[1, 2]));
    assert_eq!(picker.toggle(AlbumId(7), true), AlbumChange::Add { album: AlbumId(7), ids: ids(&[1, 2]) });
    assert_eq!(picker.toggle(AlbumId(7), false), AlbumChange::Remove { album: AlbumId(7), ids: ids(&[1, 2]) });
}

#[test]
fn creating_trims_the_name_and_clears_the_field() {
    let (mut picker, _) = open_album_picker(ids(&[1, 2]));
    picker.set_name("   ".into());
    assert_eq!(picker.create(), None, "a blank name creates nothing");
    assert_eq!(picker.name, "   ");
    picker.set_name("  Cats ".into());
    assert_eq!(picker.create(), Some(AlbumChange::Create { name: "Cats".into(), ids: ids(&[1, 2]) }));
    assert_eq!(picker.name, "");
}

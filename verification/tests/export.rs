use majik_views::export::{
    clipboard_media, content_type, copied, copied_into, copy_items, copy_toast, image_format, remember_save_directory, remember_unless, save_all_toast, save_item, save_items,
    folder_copies, save_panel_directory, save_panel_directory_or, save_toast, ClipboardSupport, CopyEvent, CopyStep, Exportable, FolderCopy, FolderStep,
    ImageFormat, SaveOutcome, SavePlan, SaveStep,
};
use majik_views::model::MediaType;

fn file(path: &str, kind: MediaType) -> Exportable {
    Exportable { path: path.into(), kind, name: "name".into() }
}

const NATIVE: ClipboardSupport = ClipboardSupport { media: true, file_references: false };
const PORTABLE: ClipboardSupport = ClipboardSupport { media: false, file_references: false };
const WITH_FILES: ClipboardSupport = ClipboardSupport { media: false, file_references: true };

/// The toast names what actually reached the clipboard: the files when the platform carried
/// them, otherwise the single flavour the portable clipboard could hold.
#[test]
fn copy_toast_names_what_landed() {
    assert_eq!(copy_toast(1, true, true), "Copied", "the file itself, so no flavour to name");
    assert_eq!(copy_toast(3, false, true), "Copied 3 items");
    assert_eq!(copy_toast(1, true, false), "Copied image", "no file references: the bitmap is what landed");
    assert_eq!(copy_toast(3, true, false), "Copied image", "it holds one image, not three");
    assert_eq!(copy_toast(1, false, false), "Copied file path");
    assert_eq!(copy_toast(2, false, false), "Copied 2 file paths", "plural, and honest that they are only paths");
}

#[test]
fn a_picture_on_a_drive_is_copied_in_its_own_format() {
    let format = |path: &str| {
        let (mut copying, _) = copy_items(vec![file(path, MediaType::Image)], PORTABLE);
        copying.advance(CopyEvent::Outcome(true))
    };
    assert_eq!(format("C:\\pictures\\a.jpg"), CopyStep::WriteImage { format: ImageFormat::Jpeg });
    assert_eq!(format("C:\\v1.2\\a.GIF"), CopyStep::WriteImage { format: ImageFormat::Gif });
    assert_eq!(format("D:a.webp"), CopyStep::WriteImage { format: ImageFormat::Webp });
    assert_eq!(format("C:\\pictures\\a"), CopyStep::WriteImage { format: ImageFormat::Png });
    let media = clipboard_media(&vec![file("C:\\a.JPEG", MediaType::Image)]);
    assert_eq!(media[0].content_type, "image/jpeg");
}

#[test]
fn saving_several_items_remembers_the_chosen_folder() {
    let items = vec![
        Exportable { path: "/lib/1.png".into(), kind: MediaType::Image, name: "one.png".into() },
        Exportable { path: "/lib/2.mp4".into(), kind: MediaType::Video, name: "two.mp4".into() },
    ];
    assert_eq!(save_items(items.clone()), SavePlan::Folder(items.clone()), "several files ask for a folder");
    let mut remembered = Some("/old".to_string());
    let (save, news) = folder_copies(&items, &None, &mut remembered);
    assert!(save.is_none() && !news, "dismissed: nothing is copied");
    assert_eq!(remembered.as_deref(), Some("/old"));
    let copies = vec![
        FolderCopy { from: "/lib/1.png".into(), to: "/out/one.png".into() },
        FolderCopy { from: "/lib/2.mp4".into(), to: "/out/two.mp4".into() },
    ];
    let (save, news) = folder_copies(&items, &Some("/out".into()), &mut remembered);
    assert!(news);
    assert_eq!(remembered.as_deref(), Some("/out"));
    let mut save = save.unwrap();
    assert_eq!(save.step(), FolderStep::Copy(copies[0].clone()));
    save.tried(false);
    assert_eq!(save.step(), FolderStep::Copy(copies[1].clone()), "a failed copy does not stop the rest");
    save.tried(true);
    assert_eq!(save.step(), FolderStep::Toast("Saved with 1 failure(s)".into()));
    assert_eq!(save_all_toast(&vec![true, true]), "Saved 2 files");
    let (save, news) = folder_copies(&items, &Some("/out/".into()), &mut remembered);
    assert!(!news, "the same folder again is no news");
    assert_eq!(remembered.as_deref(), Some("/out"), "however it is written");
    assert_eq!(save.unwrap().step(), FolderStep::Copy(copies[0].clone()), "a folder that ends in a separator brings its own");
}

#[test]
fn copying_nothing_does_nothing() {
    let (mut copying, step) = copy_items(Vec::new(), NATIVE);
    assert_eq!(step, CopyStep::Nothing);
    assert_eq!(copying.advance(CopyEvent::Done), CopyStep::Nothing);
}

#[test]
fn the_native_clipboard_takes_files_with_their_types() {
    let items = vec![file("/a/one.JPG", MediaType::Image), file("/a/two.webp", MediaType::Image), file("/a/clip.mp4", MediaType::Video), file("/a/s.mp3", MediaType::Audio)];
    let media = clipboard_media(&items);
    assert_eq!(media.iter().map(|m| m.content_type).collect::<Vec<_>>(), ["image/jpeg", "image/png", "video/mp4", "audio/mpeg"]);
    assert_eq!(media[0].path, "/a/one.JPG");
    let (mut copying, step) = copy_items(items, NATIVE);
    assert_eq!(step, CopyStep::Native(media));
    assert_eq!(copying.advance(CopyEvent::Outcome(true)), CopyStep::Toast("Copied 4 items".into()));
    let (mut copying, _) = copy_items(vec![file("/a/one.png", MediaType::Image)], NATIVE);
    assert_eq!(copying.advance(CopyEvent::Outcome(true)), CopyStep::Toast("Copied".into()));
}

#[test]
fn copy_puts_the_image_on_the_clipboard() {
    let (mut copying, step) = copy_items(vec![file("/a/one.gif", MediaType::Image), file("/a/two.png", MediaType::Image)], NATIVE);
    assert!(matches!(step, CopyStep::Native(_)));
    assert_eq!(copying.advance(CopyEvent::Outcome(false)), CopyStep::ReadImage { path: "/a/one.gif".into() }, "the platform refused");
    assert_eq!(copying.advance(CopyEvent::Outcome(true)), CopyStep::WriteImage { format: ImageFormat::Gif });
    assert_eq!(copying.advance(CopyEvent::Done), CopyStep::Toast("Copied image".into()));
    assert_eq!(copying.advance(CopyEvent::Done), CopyStep::Nothing);
}

#[test]
fn copying_a_non_image_falls_back_to_the_path() {
    let (mut copying, step) = copy_items(vec![file("/a/clip.mp4", MediaType::Video)], PORTABLE);
    assert_eq!(step, CopyStep::WriteText("/a/clip.mp4".into()), "the path, as text");
    assert_eq!(copying.advance(CopyEvent::Done), CopyStep::Toast("Copied file path".into()));
}

#[test]
fn an_unreadable_image_is_copied_as_its_path_beside_the_files() {
    let (mut copying, step) = copy_items(vec![file("/a/one.png", MediaType::Image), file("/a/two.png", MediaType::Image)], WITH_FILES);
    assert_eq!(step, CopyStep::ReadImage { path: "/a/one.png".into() });
    assert_eq!(copying.advance(CopyEvent::Outcome(false)), CopyStep::WriteText("/a/one.png\n/a/two.png".into()));
    assert_eq!(copying.advance(CopyEvent::Done), CopyStep::AddFiles(vec!["/a/one.png".into(), "/a/two.png".into()]));
    assert_eq!(copying.advance(CopyEvent::Outcome(true)), CopyStep::Toast("Copied 2 items".into()));
    let (mut copying, _) = copy_items(vec![file("/a/clip.mp4", MediaType::Video)], WITH_FILES);
    copying.advance(CopyEvent::Done);
    assert_eq!(copying.advance(CopyEvent::Outcome(false)), CopyStep::Toast("Copied file path".into()), "the references failed");
}

#[test]
fn extensions_decide_the_format() {
    let ext = |e: &str| Some(e.to_string());
    assert_eq!(content_type(MediaType::Image, &ext("JPEG")), "image/jpeg");
    assert_eq!(content_type(MediaType::Image, &ext("gif")), "image/png");
    assert_eq!(content_type(MediaType::Image, &None), "image/png");
    assert_eq!(image_format(&ext("jpg")), ImageFormat::Jpeg);
    assert_eq!(image_format(&ext("WebP")), ImageFormat::Webp);
    assert_eq!(image_format(&ext("gif")), ImageFormat::Gif);
    assert_eq!(image_format(&ext("bmp")), ImageFormat::Png);
}

#[test]
fn only_the_file_name_has_an_extension() {
    let types = |paths: &[&str]| clipboard_media(&paths.iter().map(|p| file(p, MediaType::Image)).collect()).iter().map(|m| m.content_type).collect::<Vec<_>>();
    assert_eq!(types(&["/a.jpg/one", "/a/.jpg", "one.jpg", "/a/x.tar.jpg", "/a/x."]), ["image/png", "image/png", "image/jpeg", "image/jpeg", "image/png"]);
}

#[test]
fn one_file_asks_for_a_place_and_several_for_a_folder() {
    assert_eq!(save_items(Vec::new()), SavePlan::Nothing);
    let one = file("/a/one.png", MediaType::Image);
    assert_eq!(save_items(vec![one.clone()]), SavePlan::Panel(one.clone()));
    assert_eq!(save_items(vec![one.clone(), one.clone()]), SavePlan::Folder(vec![one.clone(), one.clone()]));
    assert_eq!(save_item(&one, Some("/b/out.png".into())), SaveStep::Copy { from: "/a/one.png".into(), to: "/b/out.png".into() });
    assert_eq!(save_item(&one, None), SaveStep::Finished(SaveOutcome::Cancelled));
}

#[test]
fn cancelled_and_failed_saves_do_not_move_the_save_folder() {
    let mut folder = Some("/kept".to_string());
    assert_eq!(copied(Err("denied".into()), "/elsewhere/missing/out.png", &mut folder), (SaveOutcome::Failed("denied".into()), false));
    assert_eq!(folder.as_deref(), Some("/kept"));
    assert_eq!(copied(Ok(()), "/", &mut folder), (SaveOutcome::Saved, false), "the root is in no folder");
    assert_eq!(folder.as_deref(), Some("/kept"));
    assert_eq!(copied_into(Ok(()), &None, &mut folder), (SaveOutcome::Saved, false));
    assert_eq!(copied_into(Ok(()), &Some("/elsewhere".into()), &mut folder), (SaveOutcome::Saved, true));
    assert_eq!(folder.as_deref(), Some("/elsewhere"));
}

#[test]
fn save_panel_reopens_in_the_last_saved_folder() {
    let mut folder = None;
    assert_eq!(copied(Ok(()), "/out/first.png", &mut folder), (SaveOutcome::Saved, true));
    assert_eq!(save_panel_directory(&folder, true), "/out");
    assert!(!remember_save_directory("/out", &mut folder), "the same folder again is no news");
    assert!(remember_save_directory("/other", &mut folder));
    assert_eq!(folder.as_deref(), Some("/other"));
}

#[test]
fn a_folder_is_the_same_however_its_path_is_written() {
    for written in ["/a/b", "/a/b/", "/a//b", "/a/./b", "/a/b/."] {
        let mut folder = Some("/a/b".to_string());
        assert!(!remember_save_directory(written, &mut folder), "{written} is no news");
        assert_eq!(folder.as_deref(), Some("/a/b"), "and what is remembered stays as it is");
    }
    for written in ["a/b", "/a/B", "/a", "/a/b/c", "/a/c/../b", "./a/b"] {
        let mut folder = Some("/a/b".to_string());
        assert!(remember_save_directory(written, &mut folder), "{written} is another path");
        assert_eq!(folder.as_deref(), Some(written));
    }
    let mut folder = Some("/a".to_string());
    remember_unless(true, "/b", &mut folder);
    assert_eq!(folder.as_deref(), Some("/a"));
}

#[test]
fn the_folder_of_a_save_is_ahead_of_its_name() {
    for (dest, folder) in [("/a/b.png", "/a"), ("/b.png", "/"), ("b.png", ""), ("../b.png", ".."), ("/a/c/b.png", "/a/c")] {
        let mut remembered = None;
        assert_eq!(copied(Ok(()), dest, &mut remembered), (SaveOutcome::Saved, true));
        assert_eq!(remembered.as_deref(), Some(folder), "{dest}");
    }
}

#[test]
fn save_panel_falls_back_to_home_when_the_remembered_folder_is_gone() {
    let gone = Some("/gone".to_string());
    assert_eq!(save_panel_directory_or(&gone, false, Some("/home/me".into())), "/home/me");
    assert_eq!(save_panel_directory_or(&None, true, Some("/home/me".into())), "/home/me");
    assert_eq!(save_panel_directory_or(&gone, false, None), "");
    let home = directories::BaseDirs::new().map(|dirs| dirs.home_dir().to_string_lossy().into_owned()).unwrap_or_default();
    assert_eq!(save_panel_directory(&gone, false), home);
}

#[test]
fn saves_say_how_they_went() {
    assert_eq!(save_toast(&SaveOutcome::Saved).as_deref(), Some("Saved"));
    assert_eq!(save_toast(&SaveOutcome::Failed("denied".into())).as_deref(), Some("Save failed: denied"));
    assert_eq!(save_toast(&SaveOutcome::Cancelled), None);
    assert_eq!(save_all_toast(&vec![true, true]), "Saved 2 files");
    assert_eq!(save_all_toast(&vec![true, false, false]), "Saved with 2 failure(s)");
}

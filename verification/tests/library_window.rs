use majik_views::detail::DetailEvent;
use majik_views::feed::{Landing, PendingCompose, SelectionChange};
use majik_views::library_window::{
    close_target, follow_system_appearance, notification_copy, FeedNews, LibraryEvent, LibraryWindow, Side, SidebarEvent, WindowBody, WindowConfig,
    WindowEffect, SUBPIXELS,
};
use majik_views::model::{AlbumId, EntryId, FeedFilter, GenerationId};

fn px(n: i64) -> i64 {
    n * SUBPIXELS
}

fn config() -> WindowConfig {
    WindowConfig { sidebar_open: true, sidebar_width: None, compose_panel_open: true, compose_panel_width: None, onboarding_completed: true }
}

fn window() -> (LibraryWindow, WindowConfig) {
    let config = config();
    (LibraryWindow::new(&config), config)
}

#[test]
fn notification_copy_counts() {
    assert_eq!(notification_copy(1, 0), ("Generation complete".into(), "1 ready".into()));
    assert_eq!(notification_copy(2, 1), ("3 generations complete".into(), "2 ready · 1 failed".into()));
    assert_eq!(notification_copy(0, 1), ("Generation complete".into(), "1 failed".into()));
}

/// A fresh install opens the composer at the narrowest width its layout allows, leaving the feed
/// as many columns as possible; the sidebar keeps its roomier default.
#[test]
fn the_composer_opens_at_its_narrowest_width() {
    assert_eq!(Side::Composer.default_width(), Side::Composer.width_range().start);
    assert!(Side::Sidebar.default_width() > Side::Sidebar.width_range().start);
}

#[test]
fn explicit_appearance_survives_a_window_appearance_change() {
    assert!(!follow_system_appearance("dark"), "explicit dark stays dark");
    assert!(!follow_system_appearance("light"));
    assert!(follow_system_appearance("system"), "\"system\" follows the window's appearance");
}

#[test]
fn finished_generations_post_one_system_notification() {
    let (mut w, _) = window();
    for _ in 0..2 {
        let (effects, toast) = w.library_event(LibraryEvent::GenerationFinished { ok: true }, 0);
        assert_eq!(effects, [WindowEffect::ArmNotification(1500)]);
        assert_eq!(toast, None);
    }
    w.library_event(LibraryEvent::Changed, 0);
    assert_eq!(w.finished, (2, 0));
    assert_eq!(w.flush_notification(false), Some(("2 generations complete".into(), "2 ready".into())));
    assert_eq!(w.finished, (0, 0));
    assert_eq!(w.notification_due, None);
    assert_eq!(w.flush_notification(false), None, "nothing finished since");
}

#[test]
fn notifications_coalesce_within_the_window_and_split_beyond_it() {
    let (mut w, _) = window();
    w.note_finished(true, 0);
    w.note_finished(true, 1000);
    assert_eq!(w.notification_timer(1500, false), None, "the second finish restarted the 1.5 s window");
    assert_eq!(w.finished, (2, 0));
    assert_eq!(w.notification_timer(2500, false).unwrap().0, "2 generations complete");
    assert_eq!(w.notification_timer(2500, false), None);
    // A finish after the flush is a new batch.
    w.note_finished(true, 2600);
    assert_eq!(w.notification_timer(4200, false), Some(("Generation complete".into(), "1 ready".into())));
}

#[test]
fn no_notification_while_a_majik_window_is_active() {
    let (mut w, _) = window();
    w.note_finished(true, 0);
    assert_eq!(w.notification_timer(1_600, true), None, "the user is looking at the result already");
    assert_eq!(w.finished, (0, 0), "the batch is still drained");
}

#[test]
fn a_library_error_is_told() {
    let (mut w, _) = window();
    let (effects, toast) = w.library_event(LibraryEvent::Error { message: "disk full".into() }, 0);
    assert!(effects.is_empty());
    assert_eq!(toast.as_deref(), Some("disk full"));
}

#[test]
fn first_launch_shows_onboarding_and_a_completed_one_skips_it() {
    let (mut w, mut c) = window();
    c.onboarding_completed = false;
    let (bar, body, effects) = w.render(c.onboarding_completed, false, true);
    assert!(w.onboarding, "first launch: onboarding covers the window");
    assert_eq!(body, WindowBody::Onboarding);
    assert_eq!((bar.sidebar_toggle, bar.composer_toggle), (None, None));
    assert!(effects.is_empty());
    assert!(!w.config_changed(&c));
    c.onboarding_completed = true;
    assert!(w.config_changed(&c), "finishing redraws the window");
    let (bar, body, effects) = w.render(c.onboarding_completed, false, true);
    assert!(!w.onboarding);
    assert_eq!(body, WindowBody::Split { morphing: false, sidebar: true, composer: true });
    assert_eq!((bar.sidebar_toggle, bar.composer_toggle), (Some(true), Some(true)));
    assert_eq!(effects, [WindowEffect::FocusFeed]);
    c.onboarding_completed = false;
    assert!(w.config_changed(&c), "reset shows onboarding again");
}

#[test]
fn title_bar_toggles_leave_while_a_cover_is_up() {
    let (mut w, mut c) = window();
    w.feed_event(FeedNews::Open, &mut c, 3);
    let (bar, body, _) = w.render(true, false, false);
    assert_eq!((bar.sidebar_toggle, bar.composer_toggle), (None, None), "nothing to toggle under a detail");
    assert!(bar.menu_bar, "drawn where the platform draws none");
    assert_eq!(body, WindowBody::Detail);
    let (_, body, _) = w.render(true, true, false);
    assert_eq!(body, WindowBody::Split { morphing: true, sidebar: true, composer: true }, "the morph plays over the split");
    w.detail_event(DetailEvent::Close, None, &mut c, 3);
    let (bar, _, _) = w.render(true, false, true);
    assert_eq!((bar.sidebar_toggle, bar.composer_toggle), (Some(true), Some(true)), "back with the library screen");
    assert!(!bar.menu_bar);
}

#[test]
fn both_panels_are_open_by_default_with_the_feed_focused() {
    let (w, c) = window();
    for side in [Side::Sidebar, Side::Composer] {
        assert!(w.panel(side).open);
        assert_eq!(w.panel(side).width, side.default_width());
        let frame = w.side_panel(side);
        assert_eq!((frame.visible, frame.width, frame.range), (true, side.default_width(), side.width_range()));
    }
    assert_eq!(w.side_panel(Side::Sidebar).selector, "sidebar-panel");
    assert_eq!(w.side_panel(Side::Composer).selector, "compose-panel");
    assert!(w.side_panel(Side::Composer).divider && !w.side_panel(Side::Sidebar).divider);
    assert_eq!(Side::Sidebar.saved(&c), (true, None));
    assert_eq!(w.focus_feed(), WindowEffect::FocusFeed);
}

#[test]
fn toggle_sidebar_collapses_expands_and_persists() {
    let (mut w, mut c) = window();
    let effects = w.toggle_sidebar(&mut c, 3);
    assert_eq!(effects, [WindowEffect::ResetPanel(0), WindowEffect::Redraw]);
    assert!(!w.panel(Side::Sidebar).open && !c.sidebar_open);
    assert!(w.panel(Side::Composer).open, "independent of the composer");
    w.toggle_sidebar(&mut c, 3);
    assert!(w.panel(Side::Sidebar).open && c.sidebar_open);
    w.toggle_sidebar(&mut c, 3);
    assert!(!w.panel(Side::Sidebar).open && !c.sidebar_open);
}

#[test]
fn toggle_composer_collapses_expands_and_persists() {
    let (mut w, mut c) = window();
    assert_eq!(w.toggle_composer(false, &mut c, 3), [WindowEffect::ResetPanel(2), WindowEffect::Redraw]);
    assert!(!w.panel(Side::Composer).open && !c.compose_panel_open);
    let effects = w.toggle_composer(false, &mut c, 3);
    assert!(w.panel(Side::Composer).open && c.compose_panel_open);
    assert!(effects.contains(&WindowEffect::FocusPrompt), "reopening is an invitation to type");
    let effects = w.toggle_composer(true, &mut c, 3);
    assert!(!w.panel(Side::Composer).open);
    assert_eq!(effects[0], WindowEffect::FocusFeed, "focus leaves the hidden panel");
}

#[test]
fn new_composition_puts_the_panel_away_when_already_typing() {
    let (mut w, mut c) = window();
    assert_eq!(w.new_composition(false, &mut c, 3), [WindowEffect::FocusPrompt, WindowEffect::Redraw]);
    assert!(w.panel(Side::Composer).open);
    let effects = w.new_composition(true, &mut c, 3);
    assert!(!w.panel(Side::Composer).open);
    assert_eq!(effects[0], WindowEffect::FocusFeed);
    w.new_composition(false, &mut c, 3);
    assert!(w.panel(Side::Composer).open);
    assert_eq!(w.panel(Side::Composer).width, Side::Composer.default_width());
}

/// A saved closed state with an out-of-range width comes back closed, and clamped when shown.
fn restores_saved_state(side: Side) {
    let mut c = config();
    side.save_open(&mut c, false);
    side.save_width(&mut c, px(9999));
    let mut w = LibraryWindow::new(&c);
    assert!(!w.panel(side).open);
    let max = side.width_range().end;
    assert_eq!(w.panel(side).width, max, "clamped into the handle's range");
    w.set_open(side, true, &mut c, 0);
    assert_eq!(w.panel(side).width, max);
    assert!(side.saved(&c).0);
}

#[test]
fn saved_composer_state_is_restored() {
    restores_saved_state(Side::Composer);
}

#[test]
fn saved_sidebar_state_is_restored() {
    restores_saved_state(Side::Sidebar);
}

/// A dragged width is written to the settings and a fresh window (relaunch) comes up at it.
fn width_persists(side: Side, width: i64) {
    let (mut w, mut c) = window();
    let mut sizes = vec![px(230), px(700), px(380)];
    sizes[side.panel_index()] = width;
    assert!(w.panel_resized(&sizes, &mut c));
    assert_eq!(w.panel(side).width, width);
    assert_eq!(side.saved(&c).1, Some(width));
    assert_eq!(LibraryWindow::new(&c).panel(side).width, width);
    assert!(!w.panel_resized(&sizes, &mut c), "the same width again is no news");
}

#[test]
fn composer_width_persists_and_is_restored() {
    width_persists(Side::Composer, px(500));
}

#[test]
fn sidebar_width_persists_and_is_restored() {
    width_persists(Side::Sidebar, px(300));
}

#[test]
fn dragging_past_the_range_is_clamped_and_hidden_panels_are_left_alone() {
    let (mut w, mut c) = window();
    w.set_open(Side::Composer, false, &mut c, 3);
    w.panel_resized(&vec![px(5000), px(700), px(999)], &mut c);
    assert_eq!(w.panel(Side::Sidebar).width, px(380));
    assert_eq!(c.sidebar_width, Some(px(380)));
    assert_eq!(w.panel(Side::Composer).width, Side::Composer.default_width());
    assert_eq!(c.compose_panel_width, None);
    w.panel_resized(&vec![px(1)], &mut c);
    assert_eq!(w.panel(Side::Sidebar).width, px(170));
}

#[test]
fn selected_album_is_the_generation_target() {
    let (mut w, mut c) = window();
    w.feed_event(FeedNews::Open, &mut c, 3);
    let album = FeedFilter::Album(AlbumId(7));
    let effects = w.sidebar_event(SidebarEvent::Select(album));
    assert!(!w.detail, "selecting a feed dismisses the detail");
    assert_eq!(effects, [WindowEffect::ShowFeed(album), WindowEffect::TargetAlbum(Some(AlbumId(7))), WindowEffect::Redraw]);
    let effects = w.sidebar_event(SidebarEvent::Select(FeedFilter::Library));
    assert_eq!(effects[1], WindowEffect::TargetAlbum(None));
    assert_eq!(w.sidebar_event(SidebarEvent::OpenSettings), [WindowEffect::OpenSettings]);
}

#[test]
fn imported_files_show_the_assets_feed() {
    let (mut w, mut c) = window();
    let effects = w.feed_event(FeedNews::Imported, &mut c, 3);
    assert_eq!(effects, [WindowEffect::ShowFeed(FeedFilter::Assets), WindowEffect::TargetAlbum(None), WindowEffect::Redraw]);
}

#[test]
fn recreate_from_the_feed_expands_the_panel_and_loads_the_request() {
    let (mut w, mut c) = window();
    w.toggle_composer(false, &mut c, 3);
    let pending = PendingCompose { recreate: Some(GenerationId(4)) };
    let effects = w.feed_event(FeedNews::Compose(pending), &mut c, 3);
    assert!(w.panel(Side::Composer).open && c.compose_panel_open);
    assert_eq!(effects, [WindowEffect::ResetPanel(2), WindowEffect::Redraw, WindowEffect::Compose(pending), WindowEffect::Redraw]);
}

#[test]
fn leaving_the_detail_lands_on_its_entry() {
    let (mut w, mut c) = window();
    let id = EntryId::Generation(GenerationId(4));
    w.feed_event(FeedNews::Open, &mut c, 3);
    assert_eq!(w.detail_event(DetailEvent::WillClose { id }, Some(id), &mut c, 3), [WindowEffect::CloseTowards(id)]);
    assert!(w.detail, "still up while the close morph plays");
    let effects = w.detail_event(DetailEvent::Close, Some(id), &mut c, 3);
    assert_eq!(effects, [WindowEffect::LandOn(id), WindowEffect::FocusFeed, WindowEffect::Redraw]);
    assert!(!w.detail);
    w.feed_event(FeedNews::Open, &mut c, 3);
    let pending = PendingCompose { recreate: Some(GenerationId(4)) };
    let effects = w.detail_event(DetailEvent::Compose(pending), Some(id), &mut c, 3);
    assert_eq!(effects, [WindowEffect::LandOn(id), WindowEffect::Compose(pending), WindowEffect::Redraw]);
    assert!(!w.detail);
}

#[test]
fn the_panel_toggles_have_tooltips() {
    assert_eq!(LibraryWindow::toggle_tooltip(Side::Sidebar), "Show or hide the sidebar");
    assert_eq!(LibraryWindow::toggle_tooltip(Side::Composer), "Show or hide the composer");
}

#[test]
fn a_resized_window_fades_the_detail_instead() {
    let select = SelectionChange::Keep;
    assert_eq!(close_target(Landing::Cell { select, cell: 9 }, true), Some(9));
    assert_eq!(close_target(Landing::Cell { select, cell: 9 }, false), None);
    assert_eq!(close_target(Landing::<i32>::Scroll { select, index: 3 }, true), None);
    assert_eq!(close_target(Landing::<i32>::Nowhere, true), None);
}

//! The Library window: the sidebar on the left and the composer panel on the right (both
//! collapsible, widths persisted) around the feed. The detail instead covers the whole window, drawn
//! over the split while it grows out of its feed cell or shrinks back into it. Until onboarding has
//! been completed the window shows that flow instead.

use vstd::prelude::*;

use crate::detail::DetailEvent;
use crate::feed::{Landing, PendingCompose};
use crate::model::{AlbumId, EntryId, FeedFilter};
use crate::text::{cat, count_text, dec, join, joined, opt_text, same_text, texts};

verus! {

/// Widths are kept in 65536ths of a pixel, which hold every single-precision width from 128 to 1024
/// pixels exactly.
pub const SUBPIXELS: i64 = 65536;

/// `n` pixels as a width.
pub open spec fn px(n: int) -> int {
    n * SUBPIXELS
}

/// The two collapsible panels around the feed. Everything that differs between them lives here;
/// showing, hiding and persisting the width are shared.
#[derive(Clone, Copy, Debug, PartialEq, Eq, Structural)]
pub enum Side {
    Sidebar,
    Composer,
}

/// The range a panel's handle allows.
#[derive(Clone, Copy, Debug, PartialEq, Eq, Structural)]
pub struct WidthRange {
    pub start: i64,
    pub end: i64,
}

/// What the settings hold of this window.
#[derive(Clone, Debug, PartialEq, Eq)]
pub struct WindowConfig {
    pub sidebar_open: bool,
    pub sidebar_width: Option<i64>,
    pub compose_panel_open: bool,
    pub compose_panel_width: Option<i64>,
    pub onboarding_completed: bool,
}

/// A side panel's state, mirrored in the settings.
#[derive(Clone, Copy, Debug, PartialEq, Eq, Structural)]
pub struct SidePanel {
    pub open: bool,
    /// Applied as the panel's initial size whenever it is (re)shown.
    pub width: i64,
}

impl Side {
    /// Index among the split's panels (sidebar, feed, composer).
    pub open spec fn index(self) -> int {
        match self {
            Side::Sidebar => 0,
            Side::Composer => 2,
        }
    }

    pub open spec fn range(self) -> WidthRange {
        match self {
            Side::Sidebar => WidthRange { start: px(170) as i64, end: px(380) as i64 },
            Side::Composer => WidthRange { start: px(380) as i64, end: px(600) as i64 },
        }
    }

    pub open spec fn first_width(self) -> i64 {
        match self {
            Side::Sidebar => px(230) as i64,
            Side::Composer => self.range().start,
        }
    }

    pub open spec fn clamped(self, width: i64) -> i64 {
        if width < self.range().start {
            self.range().start
        } else if width > self.range().end {
            self.range().end
        } else {
            width
        }
    }

    pub open spec fn open_in(self, config: WindowConfig) -> bool {
        match self {
            Side::Sidebar => config.sidebar_open,
            Side::Composer => config.compose_panel_open,
        }
    }

    pub open spec fn width_in(self, config: WindowConfig) -> Option<i64> {
        match self {
            Side::Sidebar => config.sidebar_width,
            Side::Composer => config.compose_panel_width,
        }
    }

    /// The settings with this side shown or hidden.
    pub open spec fn with_open(self, config: WindowConfig, open: bool) -> WindowConfig {
        match self {
            Side::Sidebar => WindowConfig { sidebar_open: open, ..config },
            Side::Composer => WindowConfig { compose_panel_open: open, ..config },
        }
    }

    /// The settings with this side's width.
    pub open spec fn with_width(self, config: WindowConfig, width: i64) -> WindowConfig {
        match self {
            Side::Sidebar => WindowConfig { sidebar_width: Some(width), ..config },
            Side::Composer => WindowConfig { compose_panel_width: Some(width), ..config },
        }
    }

    /// Index among the split's panels (sidebar, feed, composer).
    pub fn panel_index(self) -> (r: usize)
        ensures
            r == self.index(),
    {
        match self {
            Side::Sidebar => 0,
            Side::Composer => 2,
        }
    }

    /// Width until the user drags the handle. The composer opens at the narrowest width its layout
    /// allows, so the feed keeps as many columns as possible until the user widens it.
    pub fn default_width(self) -> (r: i64)
        ensures
            r == self.first_width(),
    {
        match self {
            Side::Sidebar => 230 * SUBPIXELS,
            Side::Composer => self.width_range().start,
        }
    }

    /// The range the handle allows.
    pub fn width_range(self) -> (r: WidthRange)
        ensures
            r == self.range(),
    {
        match self {
            Side::Sidebar => WidthRange { start: 170 * SUBPIXELS, end: 380 * SUBPIXELS },
            Side::Composer => WidthRange { start: 380 * SUBPIXELS, end: 600 * SUBPIXELS },
        }
    }

    /// The nearest width the handle allows.
    pub fn clamp(self, width: i64) -> (r: i64)
        ensures
            r == self.clamped(width),
    {
        let range = self.width_range();
        if width < range.start {
            range.start
        } else if width > range.end {
            range.end
        } else {
            width
        }
    }

    /// What the settings hold of this side: whether it is shown, and its width.
    pub fn saved(self, config: &WindowConfig) -> (r: (bool, Option<i64>))
        ensures
            r == (self.open_in(*config), self.width_in(*config)),
    {
        match self {
            Side::Sidebar => (config.sidebar_open, config.sidebar_width),
            Side::Composer => (config.compose_panel_open, config.compose_panel_width),
        }
    }

    pub fn save_open(self, config: &mut WindowConfig, open: bool)
        ensures
            *final(config) == self.with_open(*old(config), open),
    {
        match self {
            Side::Sidebar => {
                config.sidebar_open = open;
            },
            Side::Composer => {
                config.compose_panel_open = open;
            },
        }
    }

    pub fn save_width(self, config: &mut WindowConfig, width: i64)
        ensures
            *final(config) == self.with_width(*old(config), width),
    {
        match self {
            Side::Sidebar => {
                config.sidebar_width = Some(width);
            },
            Side::Composer => {
                config.compose_panel_width = Some(width);
            },
        }
    }

    /// Key of the panel's content box.
    pub fn selector(self) -> (r: &'static str)
        ensures
            r@ == match self {
                Side::Sidebar => "sidebar-panel"@,
                Side::Composer => "compose-panel"@,
            },
    {
        match self {
            Side::Sidebar => "sidebar-panel",
            Side::Composer => "compose-panel",
        }
    }
}

impl SidePanel {
    /// The panel the settings describe: shown or hidden as saved, at the saved width brought into
    /// the handle's range, or at the default.
    pub open spec fn described(side: Side, config: WindowConfig) -> SidePanel {
        SidePanel {
            open: side.open_in(config),
            width: match side.width_in(config) {
                Some(width) => side.clamped(width),
                None => side.first_width(),
            },
        }
    }

    pub fn from_config(side: Side, config: &WindowConfig) -> (r: SidePanel)
        ensures
            r == SidePanel::described(side, *config),
    {
        let (open, width) = side.saved(config);
        SidePanel {
            open,
            width: match width {
                Some(width) => side.clamp(width),
                None => side.default_width(),
            },
        }
    }
}

/// What a notification says of `completed` and `failed` generations.
pub open spec fn notification_texts(completed: nat, failed: nat) -> (Seq<char>, Seq<char>) {
    (
        if completed + failed == 1 {
            "Generation complete"@
        } else {
            dec(completed + failed) + " generations complete"@
        },
        joined(
            (if completed > 0 {
                seq![dec(completed) + " ready"@]
            } else {
                Seq::empty()
            }) + (if failed > 0 {
                seq![dec(failed) + " failed"@]
            } else {
                Seq::empty()
            }),
            " · "@,
        ),
    )
}

/// "Generation complete" / "3 generations complete", with "2 ready · 1 failed" as the body.
pub fn notification_copy(completed: usize, failed: usize) -> (r: (String, String))
    requires
        completed + failed <= usize::MAX,
    ensures
        (r.0@, r.1@) == notification_texts(completed as nat, failed as nat),
{
    let total: usize = completed + failed;
    let title = if total == 1 {
        "Generation complete".to_owned()
    } else {
        cat(count_text(total).as_str(), " generations complete")
    };
    let mut parts: Vec<String> = Vec::new();
    if completed > 0 {
        parts.push(cat(count_text(completed).as_str(), " ready"));
    }
    if failed > 0 {
        parts.push(cat(count_text(failed).as_str(), " failed"));
    }
    assert(texts(parts@) =~= (if completed > 0 {
        seq![dec(completed as nat) + " ready"@]
    } else {
        Seq::empty()
    }) + (if failed > 0 {
        seq![dec(failed as nat) + " failed"@]
    } else {
        Seq::empty()
    }));
    (title, join(&parts, " · "))
}

/// Generations finishing within this many milliseconds of each other are reported as one
/// notification.
pub const NOTIFY_COALESCE_MS: u64 = 1500;

/// What the library tells the window.
#[derive(Clone, Debug, PartialEq, Eq)]
pub enum LibraryEvent {
    GenerationFinished { ok: bool },
    Error { message: String },
    Changed,
}

/// What the sidebar tells the window.
#[derive(Clone, Copy, Debug, PartialEq, Eq, Structural)]
pub enum SidebarEvent {
    Select(FeedFilter),
    OpenSettings,
}

/// What the feed tells the window: as `FeedEvent`, without what only the detail needs.
#[derive(Clone, Copy, Debug, PartialEq, Eq, Structural)]
pub enum FeedNews {
    Open,
    Compose(PendingCompose),
    Imported,
}

/// What the window asks of the views it holds.
#[derive(Clone, Copy, Debug, PartialEq, Eq, Structural)]
pub enum WindowEffect {
    /// List this in the feed.
    ShowFeed(FeedFilter),
    /// New generations go into this album, or into none.
    TargetAlbum(Option<AlbumId>),
    OpenSettings,
    /// Put the detail up, remembering the size the window has now.
    OpenDetail,
    /// Select this entry in the feed for the detail to return to.
    LandOn(EntryId),
    /// Land on this entry, and close the detail towards its cell if the window still has the size
    /// it had when the detail opened; cell boxes recorded before a resize point at the wrong place.
    CloseTowards(EntryId),
    FocusFeed,
    FocusPrompt,
    /// Load this into the composer.
    Compose(PendingCompose),
    /// Forget the split's bounds of this panel, so its saved width applies again when it returns.
    ResetPanel(usize),
    /// Start the timer of the notification afresh: it runs out after this many milliseconds.
    ArmNotification(u64),
    /// Draw the window again.
    Redraw,
}

/// What the window draws under its title bar.
#[derive(Clone, Copy, Debug, PartialEq, Eq, Structural)]
pub enum WindowBody {
    Onboarding,
    Detail,
    /// The split, with the travelling detail over it while it morphs.
    Split { morphing: bool, sidebar: bool, composer: bool },
}

/// A side panel as the split lays it out.
#[derive(Clone, Copy, Debug)]
pub struct SidePanelFrame {
    pub selector: &'static str,
    pub visible: bool,
    pub width: i64,
    pub range: WidthRange,
    /// A line on its left sets it off from the feed.
    pub divider: bool,
}

/// The window's title bar. It carries the panel toggles, with their state, while the library screen
/// is showing; onboarding and the detail cover the window and have no panels to toggle.
#[derive(Clone, Copy, Debug, PartialEq, Eq, Structural)]
pub struct TitleBar {
    pub sidebar_toggle: Option<bool>,
    pub composer_toggle: Option<bool>,
    /// The menus, where the platform draws no menu bar of its own.
    pub menu_bar: bool,
}

/// The window's state.
pub struct LibraryWindow {
    pub sidebar: SidePanel,
    pub composer: SidePanel,
    /// The detail is up.
    pub detail: bool,
    /// Onboarding is up.
    pub onboarding: bool,
    /// Generations that finished since the last notification: (completed, failed).
    pub finished: (usize, usize),
    /// When the coalesced notification is due, in milliseconds; put off by every generation that
    /// finishes meanwhile.
    pub notification_due: Option<u64>,
}

/// The album a feed's new generations go into.
pub open spec fn target_album(filter: FeedFilter) -> Option<AlbumId> {
    match filter {
        FeedFilter::Album(id) => Some(id),
        _ => None,
    }
}

pub open spec fn select_effects(filter: FeedFilter) -> Seq<WindowEffect> {
    seq![WindowEffect::ShowFeed(filter), WindowEffect::TargetAlbum(target_album(filter)), WindowEffect::Redraw]
}

/// What showing or hiding a panel asks for, with `laid_out` panels in the split.
pub open spec fn open_effects(side: Side, was: bool, open: bool, laid_out: usize) -> Seq<WindowEffect> {
    if was == open {
        Seq::empty()
    } else if laid_out > side.index() {
        seq![WindowEffect::ResetPanel(side.index() as usize), WindowEffect::Redraw]
    } else {
        seq![WindowEffect::Redraw]
    }
}

/// What showing the composer asks for.
pub open spec fn show_effects(was_open: bool, pending: Option<PendingCompose>, laid_out: usize) -> Seq<WindowEffect> {
    open_effects(Side::Composer, was_open, true, laid_out) + seq![
        match pending {
            Some(pending) => WindowEffect::Compose(pending),
            None => WindowEffect::FocusPrompt,
        },
        WindowEffect::Redraw,
    ]
}

/// What hiding the composer asks for; keystrokes routed to a hidden panel would be lost, so the feed
/// takes the focus when the composer had it.
pub open spec fn hide_effects(was_open: bool, typing: bool, laid_out: usize) -> Seq<WindowEffect> {
    (if typing {
        seq![WindowEffect::FocusFeed]
    } else {
        Seq::empty()
    }) + open_effects(Side::Composer, was_open, false, laid_out)
}

pub open spec fn landing(current: Option<EntryId>) -> Seq<WindowEffect> {
    match current {
        Some(id) => seq![WindowEffect::LandOn(id)],
        None => Seq::empty(),
    }
}

impl LibraryWindow {
    pub open spec fn panel_of(self, side: Side) -> SidePanel {
        match side {
            Side::Sidebar => self.sidebar,
            Side::Composer => self.composer,
        }
    }

    pub open spec fn with_panel(self, side: Side, panel: SidePanel) -> LibraryWindow {
        match side {
            Side::Sidebar => LibraryWindow { sidebar: panel, ..self },
            Side::Composer => LibraryWindow { composer: panel, ..self },
        }
    }

    pub open spec fn with_shown(self, side: Side, open: bool) -> LibraryWindow {
        self.with_panel(side, SidePanel { open, ..self.panel_of(side) })
    }

    /// The settings say what the panels are.
    pub open spec fn mirrored(self, config: WindowConfig) -> bool {
        &&& self.sidebar == SidePanel::described(Side::Sidebar, config)
        &&& self.composer == SidePanel::described(Side::Composer, config)
    }

    /// The window over the settings: panels as saved, no detail, nothing to notify of.
    pub fn new(config: &WindowConfig) -> (r: LibraryWindow)
        ensures
            r == (LibraryWindow {
                sidebar: SidePanel::described(Side::Sidebar, *config),
                composer: SidePanel::described(Side::Composer, *config),
                detail: false,
                onboarding: false,
                finished: (0, 0),
                notification_due: None,
            }),
            r.mirrored(*config),
    {
        LibraryWindow {
            sidebar: SidePanel::from_config(Side::Sidebar, config),
            composer: SidePanel::from_config(Side::Composer, config),
            detail: false,
            onboarding: false,
            finished: (0, 0),
            notification_due: None,
        }
    }

    pub fn panel(&self, side: Side) -> (r: SidePanel)
        ensures
            r == self.panel_of(side),
    {
        match side {
            Side::Sidebar => self.sidebar,
            Side::Composer => self.composer,
        }
    }

    fn set_panel(&mut self, side: Side, panel: SidePanel)
        ensures
            *final(self) == old(self).with_panel(side, panel),
    {
        match side {
            Side::Sidebar => {
                self.sidebar = panel;
            },
            Side::Composer => {
                self.composer = panel;
            },
        }
    }

    /// The sidebar was used: selecting a feed dismisses the detail, shows the feed, and sends new
    /// generations into the album it shows.
    pub fn sidebar_event(&mut self, event: SidebarEvent) -> (r: Vec<WindowEffect>)
        ensures
            match event {
                SidebarEvent::Select(filter) => *final(self) == (LibraryWindow { detail: false, ..*old(self) }) && r@
                    == select_effects(filter),
                SidebarEvent::OpenSettings => *final(self) == *old(self) && r@ == seq![WindowEffect::OpenSettings],
            },
    {
        let mut effects: Vec<WindowEffect> = Vec::new();
        match event {
            SidebarEvent::Select(filter) => {
                self.detail = false;
                push_select(&mut effects, filter);
                assert(effects@ =~= select_effects(filter));
            },
            SidebarEvent::OpenSettings => {
                effects.push(WindowEffect::OpenSettings);
                assert(effects@ =~= seq![WindowEffect::OpenSettings]);
            },
        }
        effects
    }

    /// Something happened in the feed: a cell was opened, a request goes to the composer, or files
    /// were imported, which shows the Assets feed they landed in.
    pub fn feed_event(&mut self, event: FeedNews, config: &mut WindowConfig, laid_out: usize) -> (r: Vec<WindowEffect>)
        ensures
            match event {
                FeedNews::Open => {
                    &&& *final(self) == (LibraryWindow { detail: true, ..*old(self) })
                    &&& *final(config) == *old(config)
                    &&& r@ == seq![WindowEffect::OpenDetail, WindowEffect::Redraw]
                },
                FeedNews::Compose(pending) => {
                    &&& *final(self) == (LibraryWindow { detail: false, ..old(self).with_shown(Side::Composer, true) })
                    &&& *final(config) == shown_config(Side::Composer, *old(self), *old(config), true)
                    &&& r@ == show_effects(old(self).composer.open, Some(pending), laid_out)
                },
                FeedNews::Imported => {
                    &&& *final(self) == (LibraryWindow { detail: false, ..*old(self) })
                    &&& *final(config) == *old(config)
                    &&& r@ == select_effects(FeedFilter::Assets)
                },
            },
    {
        match event {
            FeedNews::Open => {
                self.detail = true;
                let mut effects: Vec<WindowEffect> = Vec::new();
                effects.push(WindowEffect::OpenDetail);
                effects.push(WindowEffect::Redraw);
                assert(effects@ =~= seq![WindowEffect::OpenDetail, WindowEffect::Redraw]);
                effects
            },
            FeedNews::Compose(pending) => self.show_composer(Some(pending), config, laid_out),
            FeedNews::Imported => self.sidebar_event(SidebarEvent::Select(FeedFilter::Assets)),
        }
    }

    /// Something happened in the detail, which shows `current`. Closing hands the focus back to the
    /// feed; composing goes straight to the split, as the panel is under the cover.
    pub fn detail_event(&mut self, event: DetailEvent, current: Option<EntryId>, config: &mut WindowConfig, laid_out: usize) -> (r: Vec<
        WindowEffect,
    >)
        ensures
            match event {
                DetailEvent::WillClose { id } => {
                    &&& *final(self) == *old(self)
                    &&& *final(config) == *old(config)
                    &&& r@ == seq![WindowEffect::CloseTowards(id)]
                },
                DetailEvent::Close => {
                    &&& *final(self) == (LibraryWindow { detail: false, ..*old(self) })
                    &&& *final(config) == *old(config)
                    &&& r@ == landing(current) + seq![WindowEffect::FocusFeed, WindowEffect::Redraw]
                },
                DetailEvent::Compose(pending) => {
                    &&& *final(self) == (LibraryWindow { detail: false, ..old(self).with_shown(Side::Composer, true) })
                    &&& *final(config) == shown_config(Side::Composer, *old(self), *old(config), true)
                    &&& r@ == landing(current) + show_effects(old(self).composer.open, Some(pending), laid_out)
                },
            },
    {
        let mut effects: Vec<WindowEffect> = Vec::new();
        match event {
            DetailEvent::WillClose { id } => {
                effects.push(WindowEffect::CloseTowards(id));
                assert(effects@ =~= seq![WindowEffect::CloseTowards(id)]);
            },
            DetailEvent::Close => {
                self.detail = false;
                if let Some(id) = current {
                    effects.push(WindowEffect::LandOn(id));
                }
                effects.push(WindowEffect::FocusFeed);
                effects.push(WindowEffect::Redraw);
                assert(effects@ =~= landing(current) + seq![WindowEffect::FocusFeed, WindowEffect::Redraw]);
            },
            DetailEvent::Compose(pending) => {
                if let Some(id) = current {
                    effects.push(WindowEffect::LandOn(id));
                }
                assert(effects@ =~= landing(current));
                let mut shown = self.show_composer(Some(pending), config, laid_out);
                effects.append(&mut shown);
            },
        }
        effects
    }

    /// Something happened in the library. Returns what to ask for and what to tell the user.
    pub fn library_event(&mut self, event: LibraryEvent, now_ms: u64) -> (r: (Vec<WindowEffect>, Option<String>))
        requires
            event matches LibraryEvent::GenerationFinished { ok } ==> old(self).countable(ok),
        ensures
            match event {
                LibraryEvent::GenerationFinished { ok } => {
                    &&& *final(self) == old(self).counted(ok, now_ms)
                    &&& r.0@ == seq![WindowEffect::ArmNotification(NOTIFY_COALESCE_MS)]
                    &&& r.1 is None
                },
                LibraryEvent::Error { message } => *final(self) == *old(self) && r.0@ == Seq::<WindowEffect>::empty() && opt_text(r.1)
                    == Some(message@),
                LibraryEvent::Changed => *final(self) == *old(self) && r.0@ == Seq::<WindowEffect>::empty() && r.1 is None,
            },
    {
        let mut effects: Vec<WindowEffect> = Vec::new();
        match event {
            LibraryEvent::GenerationFinished { ok } => {
                self.note_finished(ok, now_ms);
                effects.push(WindowEffect::ArmNotification(NOTIFY_COALESCE_MS));
                assert(effects@ =~= seq![WindowEffect::ArmNotification(NOTIFY_COALESCE_MS)]);
                (effects, None)
            },
            LibraryEvent::Error { message } => (effects, Some(message)),
            LibraryEvent::Changed => (effects, None),
        }
    }

    /// A handle was dragged: the split's panels now have these `sizes`. A shown panel whose width
    /// changed keeps it, brought into the range the layout allows. Returns whether the settings
    /// changed.
    pub fn panel_resized(&mut self, sizes: &Vec<i64>, config: &mut WindowConfig) -> (r: bool)
        ensures
            *final(self) == resized(resized(*old(self), Side::Sidebar, sizes@), Side::Composer, sizes@),
            *final(config) == resized_config(
                resized_config(*old(config), *old(self), Side::Sidebar, sizes@),
                *old(self),
                Side::Composer,
                sizes@,
            ),
            r == (width_news(*old(self), Side::Sidebar, sizes@) is Some || width_news(*old(self), Side::Composer, sizes@) is Some),
    {
        let sidebar = self.resize_side(Side::Sidebar, sizes, config);
        let composer = self.resize_side(Side::Composer, sizes, config);
        sidebar || composer
    }

    fn resize_side(&mut self, side: Side, sizes: &Vec<i64>, config: &mut WindowConfig) -> (r: bool)
        ensures
            *final(self) == resized(*old(self), side, sizes@),
            *final(config) == resized_config(*old(config), *old(self), side, sizes@),
            r == width_news(*old(self), side, sizes@) is Some,
    {
        let panel = self.panel(side);
        let index: usize = side.panel_index();
        if !panel.open || index >= sizes.len() {
            return false;
        }
        let width: i64 = side.clamp(sizes[index]);
        if width == panel.width {
            return false;
        }
        self.set_panel(side, SidePanel { open: panel.open, width });
        side.save_width(config, width);
        true
    }

    /// Whether the window has to be drawn again now that the settings changed: only onboarding
    /// concerns it, which is up exactly until it has been completed.
    pub fn config_changed(&self, config: &WindowConfig) -> (redraw: bool)
        ensures
            redraw == (config.onboarding_completed == self.onboarding),
    {
        config.onboarding_completed == self.onboarding
    }

    /// Show or hide a panel. A hidden panel isn't laid out, so the split keeps its last bounds and
    /// size preference; resetting them keeps the other panels from rescaling against a phantom
    /// sibling.
    pub fn set_open(&mut self, side: Side, open: bool, config: &mut WindowConfig, laid_out: usize) -> (r: Vec<WindowEffect>)
        ensures
            *final(self) == old(self).with_shown(side, open),
            *final(config) == shown_config(side, *old(self), *old(config), open),
            r@ == open_effects(side, old(self).panel_of(side).open, open, laid_out),
    {
        let mut effects: Vec<WindowEffect> = Vec::new();
        let panel = self.panel(side);
        if panel.open == open {
            assert(effects@ =~= Seq::empty());
            return effects;
        }
        self.set_panel(side, SidePanel { open, width: panel.width });
        let index: usize = side.panel_index();
        if laid_out > index {
            effects.push(WindowEffect::ResetPanel(index));
        }
        side.save_open(config, open);
        effects.push(WindowEffect::Redraw);
        assert(effects@ =~= open_effects(side, panel.open, open, laid_out));
        effects
    }

    pub fn toggle_sidebar(&mut self, config: &mut WindowConfig, laid_out: usize) -> (r: Vec<WindowEffect>)
        ensures
            *final(self) == old(self).with_shown(Side::Sidebar, !old(self).sidebar.open),
            *final(config) == Side::Sidebar.with_open(*old(config), !old(self).sidebar.open),
            r@ == open_effects(Side::Sidebar, old(self).sidebar.open, !old(self).sidebar.open, laid_out),
    {
        let open = self.sidebar.open;
        self.set_open(Side::Sidebar, !open, config, laid_out)
    }

    /// Show the composer (dismissing a detail, which would cover it) and either hand it `pending`
    /// or just focus the prompt.
    pub fn show_composer(&mut self, pending: Option<PendingCompose>, config: &mut WindowConfig, laid_out: usize) -> (r: Vec<
        WindowEffect,
    >)
        ensures
            *final(self) == (LibraryWindow { detail: false, ..old(self).with_shown(Side::Composer, true) }),
            *final(config) == shown_config(Side::Composer, *old(self), *old(config), true),
            r@ == show_effects(old(self).composer.open, pending, laid_out),
    {
        self.detail = false;
        let mut effects = self.set_open(Side::Composer, true, config, laid_out);
        let ghost opened = effects@;
        match pending {
            Some(pending) => effects.push(WindowEffect::Compose(pending)),
            None => effects.push(WindowEffect::FocusPrompt),
        }
        effects.push(WindowEffect::Redraw);
        assert(effects@ =~= show_effects(old(self).composer.open, pending, laid_out));
        effects
    }

    /// The composer's shortcut cycles like a dock toggle: closed, it opens and focuses the prompt;
    /// open but elsewhere, it focuses the prompt; already `typing`, it puts the panel away.
    pub fn new_composition(&mut self, typing: bool, config: &mut WindowConfig, laid_out: usize) -> (r: Vec<WindowEffect>)
        ensures
            *final(self) == after_new_composition(*old(self), typing),
            *final(config) == shown_config(Side::Composer, *old(self), *old(config), !(old(self).composer.open && typing)),
            r@ == if old(self).composer.open && typing {
                hide_effects(true, true, laid_out)
            } else {
                show_effects(old(self).composer.open, None, laid_out)
            },
    {
        if self.composer.open && typing {
            self.hide_composer(typing, config, laid_out)
        } else {
            self.show_composer(None, config, laid_out)
        }
    }

    /// Put the composer away; the feed takes the focus when the composer had it.
    pub fn hide_composer(&mut self, typing: bool, config: &mut WindowConfig, laid_out: usize) -> (r: Vec<WindowEffect>)
        ensures
            *final(self) == old(self).with_shown(Side::Composer, false),
            *final(config) == shown_config(Side::Composer, *old(self), *old(config), false),
            r@ == hide_effects(old(self).composer.open, typing, laid_out),
    {
        let mut effects: Vec<WindowEffect> = Vec::new();
        if typing {
            effects.push(WindowEffect::FocusFeed);
        }
        let ghost first = effects@;
        let mut hidden = self.set_open(Side::Composer, false, config, laid_out);
        effects.append(&mut hidden);
        assert(effects@ =~= hide_effects(old(self).composer.open, typing, laid_out));
        effects
    }

    pub fn toggle_composer(&mut self, typing: bool, config: &mut WindowConfig, laid_out: usize) -> (r: Vec<WindowEffect>)
        ensures
            old(self).composer.open ==> {
                &&& *final(self) == old(self).with_shown(Side::Composer, false)
                &&& r@ == hide_effects(true, typing, laid_out)
            },
            !old(self).composer.open ==> {
                &&& *final(self) == (LibraryWindow { detail: false, ..old(self).with_shown(Side::Composer, true) })
                &&& r@ == show_effects(false, None, laid_out)
            },
            *final(config) == Side::Composer.with_open(*old(config), !old(self).composer.open),
    {
        if self.composer.open {
            self.hide_composer(typing, config, laid_out)
        } else {
            self.show_composer(None, config, laid_out)
        }
    }

    /// Another one can be counted.
    pub open spec fn countable(self, ok: bool) -> bool {
        if ok {
            self.finished.0 < usize::MAX
        } else {
            self.finished.1 < usize::MAX
        }
    }

    /// The window once a generation finished at `now_ms`.
    pub open spec fn counted(self, ok: bool, now_ms: u64) -> LibraryWindow {
        LibraryWindow {
            finished: if ok {
                ((self.finished.0 + 1) as usize, self.finished.1)
            } else {
                (self.finished.0, (self.finished.1 + 1) as usize)
            },
            notification_due: Some(due_after(now_ms)),
            ..self
        }
    }

    /// The window once everything that finished was reported, or needed no report.
    pub open spec fn flushed(self) -> LibraryWindow {
        LibraryWindow { finished: (0, 0), notification_due: None, ..self }
    }

    /// The notification's time has come.
    pub open spec fn is_due(self, now_ms: u64) -> bool {
        self.notification_due matches Some(due) && due <= now_ms
    }

    /// A generation finished. Its notification waits a while, and waits afresh for each that
    /// finishes meanwhile, so a batch is reported as one.
    pub fn note_finished(&mut self, ok: bool, now_ms: u64)
        requires
            old(self).countable(ok),
        ensures
            *final(self) == old(self).counted(ok, now_ms),
    {
        if ok {
            self.finished.0 = self.finished.0 + 1;
        } else {
            self.finished.1 = self.finished.1 + 1;
        }
        self.notification_due = Some(
            if now_ms <= u64::MAX - NOTIFY_COALESCE_MS {
                now_ms + NOTIFY_COALESCE_MS
            } else {
                u64::MAX
            },
        );
    }

    /// A timer of the notification ran out at `now_ms`; one that a later generation put off does
    /// nothing yet.
    pub fn notification_timer(&mut self, now_ms: u64, app_active: bool) -> (r: Option<(String, String)>)
        requires
            old(self).finished.0 + old(self).finished.1 <= usize::MAX,
        ensures
            !old(self).is_due(now_ms) ==> r is None && *final(self) == *old(self),
            old(self).is_due(now_ms) ==> *final(self) == old(self).flushed() && reports(*old(self), app_active, r),
    {
        let due = match self.notification_due {
            Some(due) => due <= now_ms,
            None => false,
        };
        if due {
            self.flush_notification(app_active)
        } else {
            None
        }
    }

    /// The notification's timer ran out: what to post for everything that finished, as title and
    /// body, and only while the user is elsewhere, as an active window already shows the result.
    pub fn flush_notification(&mut self, app_active: bool) -> (r: Option<(String, String)>)
        requires
            old(self).finished.0 + old(self).finished.1 <= usize::MAX,
        ensures
            *final(self) == old(self).flushed(),
            reports(*old(self), app_active, r),
    {
        let (completed, failed) = self.finished;
        self.finished = (0, 0);
        self.notification_due = None;
        if completed + failed == 0 || app_active {
            return None;
        }
        Some(notification_copy(completed, failed))
    }

    /// Keep onboarding up exactly until it has been completed; the feed takes the focus when it
    /// goes.
    pub fn sync_onboarding(&mut self, completed: bool) -> (r: Vec<WindowEffect>)
        ensures
            *final(self) == (LibraryWindow { onboarding: !completed, ..*old(self) }),
            r@ == if old(self).onboarding && completed {
                seq![WindowEffect::FocusFeed]
            } else {
                Seq::empty()
            },
    {
        let mut effects: Vec<WindowEffect> = Vec::new();
        if self.onboarding && completed {
            effects.push(WindowEffect::FocusFeed);
        }
        self.onboarding = !completed;
        assert(effects@ =~= if old(self).onboarding && completed {
            seq![WindowEffect::FocusFeed]
        } else {
            Seq::empty()
        });
        effects
    }

    pub open spec fn bar(self, native_menus: bool) -> TitleBar {
        let library_screen = !self.onboarding && !self.detail;
        TitleBar {
            sidebar_toggle: if library_screen {
                Some(self.sidebar.open)
            } else {
                None
            },
            composer_toggle: if library_screen {
                Some(self.composer.open)
            } else {
                None
            },
            menu_bar: !native_menus,
        }
    }

    /// The tooltip of a panel's toggle in the title bar.
    pub fn toggle_tooltip(side: Side) -> (r: &'static str)
        ensures
            r@ == match side {
                Side::Sidebar => "Show or hide the sidebar"@,
                Side::Composer => "Show or hide the composer"@,
            },
    {
        match side {
            Side::Sidebar => "Show or hide the sidebar",
            Side::Composer => "Show or hide the composer",
        }
    }

    /// The window's title bar, on a platform that draws the menus itself or does not.
    pub fn render_title_bar(&self, native_menus: bool) -> (r: TitleBar)
        ensures
            r == self.bar(native_menus),
    {
        let library_screen = !self.onboarding && !self.detail;
        TitleBar {
            sidebar_toggle: if library_screen {
                Some(self.sidebar.open)
            } else {
                None
            },
            composer_toggle: if library_screen {
                Some(self.composer.open)
            } else {
                None
            },
            menu_bar: !native_menus,
        }
    }

    pub open spec fn body(self, transitioning: bool) -> WindowBody {
        if self.onboarding {
            WindowBody::Onboarding
        } else if self.detail && !transitioning {
            WindowBody::Detail
        } else {
            WindowBody::Split { morphing: self.detail, sidebar: self.sidebar.open, composer: self.composer.open }
        }
    }

    /// One of the split's side panels: hidden rather than omitted while collapsed, so the panel
    /// indices in the shared state stay stable.
    pub fn side_panel(&self, side: Side) -> (r: SidePanelFrame)
        ensures
            r.visible == self.panel_of(side).open,
            r.width == self.panel_of(side).width,
            r.range == side.range(),
            r.divider == (side == Side::Composer),
            r.selector@ == match side {
                Side::Sidebar => "sidebar-panel"@,
                Side::Composer => "compose-panel"@,
            },
    {
        let panel = self.panel(side);
        SidePanelFrame {
            selector: side.selector(),
            visible: panel.open,
            width: panel.width,
            range: side.width_range(),
            divider: side == Side::Composer,
        }
    }

    /// Give the focus to the feed.
    pub fn focus_feed(&self) -> (r: WindowEffect)
        ensures
            r == WindowEffect::FocusFeed,
    {
        WindowEffect::FocusFeed
    }

    /// One frame of the window: the title bar, and under it onboarding, the detail, or the split,
    /// over which the detail's morph plays. Onboarding is brought up or dropped first.
    pub fn render(&mut self, onboarding_completed: bool, transitioning: bool, native_menus: bool) -> (r: (TitleBar, WindowBody, Vec<
        WindowEffect,
    >))
        ensures
            *final(self) == (LibraryWindow { onboarding: !onboarding_completed, ..*old(self) }),
            r.0 == final(self).bar(native_menus),
            r.1 == final(self).body(transitioning),
            r.2@ == if old(self).onboarding && onboarding_completed {
                seq![WindowEffect::FocusFeed]
            } else {
                Seq::empty()
            },
    {
        let effects = self.sync_onboarding(onboarding_completed);
        let body = if self.onboarding {
            WindowBody::Onboarding
        } else if self.detail && !transitioning {
            WindowBody::Detail
        } else {
            WindowBody::Split { morphing: self.detail, sidebar: self.sidebar.open, composer: self.composer.open }
        };
        (self.render_title_bar(native_menus), body, effects)
    }
}

/// When a notification is due after a generation finished at `now_ms`.
pub open spec fn due_after(now_ms: u64) -> u64 {
    if now_ms + NOTIFY_COALESCE_MS <= u64::MAX {
        (now_ms + NOTIFY_COALESCE_MS) as u64
    } else {
        u64::MAX
    }
}

/// Whether `copy` is what is posted of everything that finished: nothing where nothing did, or where
/// the user is looking already.
pub open spec fn reports(window: LibraryWindow, app_active: bool, copy: Option<(String, String)>) -> bool {
    match copy {
        Some(copy) => {
            &&& window.finished.0 + window.finished.1 > 0
            &&& !app_active
            &&& (copy.0@, copy.1@) == notification_texts(window.finished.0 as nat, window.finished.1 as nat)
        },
        None => window.finished.0 + window.finished.1 == 0 || app_active,
    }
}

fn push_select(effects: &mut Vec<WindowEffect>, filter: FeedFilter)
    ensures
        final(effects)@ == old(effects)@ + select_effects(filter),
{
    let album = match filter {
        FeedFilter::Album(id) => Some(id),
        _ => None,
    };
    effects.push(WindowEffect::ShowFeed(filter));
    effects.push(WindowEffect::TargetAlbum(album));
    effects.push(WindowEffect::Redraw);
    assert(effects@ =~= old(effects)@ + select_effects(filter));
}

/// The cell the detail closes towards, once the feed has landed on its entry: none after a resize,
/// since the boxes recorded before it point at the wrong place; the detail fades instead.
pub fn close_target<B: Copy>(landed: Landing<B>, same_viewport: bool) -> (r: Option<B>)
    ensures
        r == match landed {
            Landing::Cell { cell, .. } if same_viewport => Some(cell),
            _ => None,
        },
{
    match landed {
        Landing::Cell { cell, .. } => if same_viewport {
            Some(cell)
        } else {
            None
        },
        _ => None,
    }
}

/// The settings once a panel was shown or hidden; they are written only when that changed.
pub open spec fn shown_config(side: Side, window: LibraryWindow, config: WindowConfig, open: bool) -> WindowConfig {
    if window.panel_of(side).open == open {
        config
    } else {
        side.with_open(config, open)
    }
}

/// The window after the composer's shortcut.
pub open spec fn after_new_composition(window: LibraryWindow, typing: bool) -> LibraryWindow {
    if window.composer.open && typing {
        window.with_shown(Side::Composer, false)
    } else {
        LibraryWindow { detail: false, ..window.with_shown(Side::Composer, true) }
    }
}

/// The new width of a panel the split gave `sizes`: only a shown panel has one, and only when it
/// is not the width it had.
pub open spec fn width_news(window: LibraryWindow, side: Side, sizes: Seq<i64>) -> Option<i64> {
    let panel = window.panel_of(side);
    if panel.open && side.index() < sizes.len() && side.clamped(sizes[side.index()]) != panel.width {
        Some(side.clamped(sizes[side.index()]))
    } else {
        None
    }
}

pub open spec fn resized(window: LibraryWindow, side: Side, sizes: Seq<i64>) -> LibraryWindow {
    match width_news(window, side, sizes) {
        Some(width) => window.with_panel(side, SidePanel { width, ..window.panel_of(side) }),
        None => window,
    }
}

pub open spec fn resized_config(config: WindowConfig, window: LibraryWindow, side: Side, sizes: Seq<i64>) -> WindowConfig {
    match width_news(window, side, sizes) {
        Some(width) => side.with_width(config, width),
        None => config,
    }
}

/// Whether the window takes over the system's appearance when that changes: only while the user
/// left the choice to the system. An explicit light or dark choice stays as it is.
pub fn follow_system_appearance(appearance: &str) -> (r: bool)
    ensures
        r == (appearance@ == "system"@),
{
    same_text(appearance, "system")
}

// ----- laws -----------------------------------------------------------------------------------

/// However wide a panel is dragged or was saved, it stays within the range its handle allows.
pub proof fn widths_stay_in_range(side: Side, width: i64, config: WindowConfig)
    ensures
        side.range().start <= side.clamped(width) <= side.range().end,
        side.range().start <= SidePanel::described(side, config).width <= side.range().end,
        side.range().start <= width <= side.range().end ==> side.clamped(width) == width,
        side.clamped(side.clamped(width)) == side.clamped(width),
{
}

/// Showing or hiding a panel keeps the panels and the settings in agreement, and so does dragging a
/// handle: a window opened over those settings has the same panels.
pub proof fn the_settings_mirror_the_panels(window: LibraryWindow, config: WindowConfig, side: Side, open: bool, sizes: Seq<i64>)
    requires
        window.mirrored(config),
    ensures
        window.with_shown(side, open).mirrored(shown_config(side, window, config, open)),
        resized(window, side, sizes).mirrored(resized_config(config, window, side, sizes)),
{
}

/// Dragging one handle, or showing and hiding one panel, leaves the other panel alone; and a hidden
/// panel keeps its width whatever the split reports.
pub proof fn the_panels_are_independent(window: LibraryWindow, side: Side, other: Side, open: bool, sizes: Seq<i64>)
    requires
        side != other,
    ensures
        window.with_shown(side, open).panel_of(other) == window.panel_of(other),
        resized(window, side, sizes).panel_of(other) == window.panel_of(other),
        !window.panel_of(side).open ==> resized(window, side, sizes) == window,
{
}

/// A panel shown again comes back at the width it had.
pub proof fn a_panel_returns_at_its_width(window: LibraryWindow, side: Side)
    ensures
        window.with_shown(side, false).with_shown(side, true).panel_of(side).width == window.panel_of(side).width,
        window.with_shown(side, !window.panel_of(side).open).with_shown(side, window.panel_of(side).open) == window,
{
}

/// The composer's shortcut: from closed it opens, from elsewhere it stays open, and from typing it
/// closes; two presses while typing bring an open panel back.
pub proof fn the_shortcut_cycles(window: LibraryWindow)
    ensures
        !window.composer.open ==> after_new_composition(window, false).composer.open,
        window.composer.open ==> after_new_composition(window, false).composer.open,
        window.composer.open ==> !after_new_composition(window, true).composer.open,
        window.composer.open ==> after_new_composition(after_new_composition(window, true), false).composer
            == window.composer,
{
}

/// Whatever finished before a notification is counted in it once: the batch starts again at
/// nothing.
pub proof fn every_finished_generation_is_counted_once(window: LibraryWindow, ok: bool, now_ms: u64)
    requires
        window.countable(ok),
    ensures
        window.counted(ok, now_ms).finished.0 + window.counted(ok, now_ms).finished.1 == window.finished.0 + window.finished.1 + 1,
        window.counted(ok, now_ms).notification_due is Some,
        window.flushed().finished == (0usize, 0usize),
        window.flushed().notification_due is None,
{
}

/// Generations finishing within the window of one another are reported as one: a second one puts the
/// notification off until the window has passed since it, and then both are in it.
pub proof fn notifications_coalesce(window: LibraryWindow, first: bool, second: bool, t1: u64, t2: u64, now_ms: u64)
    requires
        t1 <= t2,
        t2 + NOTIFY_COALESCE_MS <= u64::MAX,
        window.countable(first),
        window.counted(first, t1).countable(second),
    ensures
        ({
            let both = window.counted(first, t1).counted(second, t2);
            &&& now_ms < t2 + NOTIFY_COALESCE_MS ==> !both.is_due(now_ms)
            &&& now_ms >= t2 + NOTIFY_COALESCE_MS ==> both.is_due(now_ms)
            &&& both.finished.0 + both.finished.1 == window.finished.0 + window.finished.1 + 2
        }),
{
}

/// Onboarding covers the window while it is up, and a detail at rest covers it otherwise; the panel
/// toggles are there exactly when neither does.
pub proof fn covers_hide_the_panel_toggles(window: LibraryWindow, transitioning: bool, native_menus: bool)
    ensures
        window.onboarding ==> window.body(transitioning) == WindowBody::Onboarding,
        window.bar(native_menus).sidebar_toggle is Some <==> !window.onboarding && !window.detail,
        window.bar(native_menus).composer_toggle is Some <==> !window.onboarding && !window.detail,
        window.bar(native_menus).sidebar_toggle is Some ==> window.body(transitioning) is Split,
{
}

/// A generation that finished well adds one to the completed and leaves the failed as they are; one that
/// failed adds one to the failed and leaves the completed. Either puts the notification off until a second and
/// a half after it, and touches nothing else of the window.
pub proof fn a_finished_generation_is_counted_as_it_ended(window: LibraryWindow, now_ms: u64)
    ensures
        window.finished.0 < usize::MAX ==> window.counted(true, now_ms).finished.0 == window.finished.0 + 1,
        window.counted(true, now_ms).finished.1 == window.finished.1,
        window.counted(false, now_ms).finished.0 == window.finished.0,
        window.finished.1 < usize::MAX ==> window.counted(false, now_ms).finished.1 == window.finished.1 + 1,
        forall|ok: bool|
            #![trigger window.counted(ok, now_ms)]
            {
                let after = window.counted(ok, now_ms);
                &&& now_ms + 1500 <= u64::MAX ==> after.notification_due == Some((now_ms + 1500) as u64)
                &&& now_ms + 1500 > u64::MAX ==> after.notification_due == Some(u64::MAX)
                &&& after.sidebar == window.sidebar
                &&& after.composer == window.composer
                &&& after.detail == window.detail
                &&& after.onboarding == window.onboarding
            },
        window.countable(true) <==> window.finished.0 < usize::MAX,
        window.countable(false) <==> window.finished.1 < usize::MAX,
{
}

/// A notification says how many generations finished, and of them how many are ready and how many failed;
/// what there is none of is not mentioned.
pub proof fn a_notification_tells_ready_from_failed(completed: nat, failed: nat)
    ensures
        completed + failed == 1 ==> notification_texts(completed, failed).0 == "Generation complete"@,
        completed + failed != 1 ==> notification_texts(completed, failed).0 == dec(completed + failed) + " generations complete"@,
        completed > 0 && failed == 0 ==> notification_texts(completed, failed).1 == dec(completed) + " ready"@,
        completed == 0 && failed > 0 ==> notification_texts(completed, failed).1 == dec(failed) + " failed"@,
        completed > 0 && failed > 0 ==> notification_texts(completed, failed).1 == dec(completed) + " ready"@ + " · "@ + dec(failed)
            + " failed"@,
        completed == 0 && failed == 0 ==> notification_texts(completed, failed).1 == Seq::<char>::empty(),
{
    reveal_with_fuel(joined, 3);
    let ready = dec(completed) + " ready"@;
    let lost = dec(failed) + " failed"@;
    assert(seq![ready, lost].drop_last() =~= seq![ready]);
    assert(seq![ready].drop_last() =~= Seq::empty());
    assert(seq![lost].drop_last() =~= Seq::empty());
    let parts = (if completed > 0 {
        seq![ready]
    } else {
        Seq::empty()
    }) + (if failed > 0 {
        seq![lost]
    } else {
        Seq::empty()
    });
    if completed > 0 && failed > 0 {
        assert(parts =~= seq![ready, lost]);
        assert(ready + " · "@ + lost =~= dec(completed) + " ready"@ + " · "@ + dec(failed) + " failed"@);
    } else if completed > 0 {
        assert(parts =~= seq![ready]);
    } else if failed > 0 {
        assert(parts =~= seq![lost]);
    } else {
        assert(parts =~= Seq::empty());
    }
}

/// What finished is reported exactly while the user is elsewhere, and with the counts there were.
pub proof fn the_report_is_for_a_user_who_is_elsewhere(window: LibraryWindow, app_active: bool, copy: Option<(String, String)>)
    requires
        reports(window, app_active, copy),
    ensures
        copy is Some <==> !app_active && (window.finished.0 > 0 || window.finished.1 > 0),
        copy matches Some(told) ==> told.0@ == notification_texts(window.finished.0 as nat, window.finished.1 as nat).0 && told.1@
            == notification_texts(window.finished.0 as nat, window.finished.1 as nat).1,
{
}

/// The notification is due once its time has come and not before; reporting forgets what was counted and
/// leaves the rest of the window alone.
pub proof fn a_notification_is_due_at_its_time(window: LibraryWindow, now_ms: u64)
    ensures
        window.notification_due is None ==> !window.is_due(now_ms),
        window.notification_due matches Some(due) ==> (window.is_due(now_ms) <==> now_ms >= due),
        window.flushed().finished.0 == 0 && window.flushed().finished.1 == 0,
        window.flushed().sidebar == window.sidebar,
        window.flushed().composer == window.composer,
        window.flushed().detail == window.detail,
        window.flushed().onboarding == window.onboarding,
{
}

/// Each side has its own place among the panels, its own range in pixels, and its own two settings: writing
/// one of them changes what is read of that side and nothing else.
pub proof fn each_side_has_its_own_settings(config: WindowConfig, open: bool, width: i64)
    ensures
        Side::Sidebar.index() == 0 && Side::Composer.index() == 2,
        Side::Sidebar.range().start == 170 * 65536 && Side::Sidebar.range().end == 380 * 65536,
        Side::Composer.range().start == 380 * 65536 && Side::Composer.range().end == 600 * 65536,
        Side::Sidebar.first_width() == 230 * 65536,
        Side::Composer.first_width() == 380 * 65536,
        Side::Sidebar.open_in(config) == config.sidebar_open,
        Side::Composer.open_in(config) == config.compose_panel_open,
        Side::Sidebar.width_in(config) == config.sidebar_width,
        Side::Composer.width_in(config) == config.compose_panel_width,
        Side::Sidebar.with_open(config, open) == (WindowConfig { sidebar_open: open, ..config }),
        Side::Composer.with_open(config, open) == (WindowConfig { compose_panel_open: open, ..config }),
        Side::Sidebar.with_width(config, width) == (WindowConfig { sidebar_width: Some(width), ..config }),
        Side::Composer.with_width(config, width) == (WindowConfig { compose_panel_width: Some(width), ..config }),
{
}

/// A width is brought to the nearest the handle allows: none that is allowed is nearer.
pub proof fn a_width_is_brought_to_the_nearest_allowed(side: Side, width: i64, other: i64)
    requires
        side.range().start <= other <= side.range().end,
    ensures
        side.range().start <= side.clamped(width) <= side.range().end,
        width <= side.clamped(width) ==> side.clamped(width) - width <= (if other < width {
            width - other
        } else {
            other - width
        }),
        side.clamped(width) <= width ==> width - side.clamped(width) <= (if other < width {
            width - other
        } else {
            other - width
        }),
{
}

/// A panel starts as the settings describe it: shown or hidden as saved, and at the saved width, brought into
/// range, or at the side's first width where none was saved.
pub proof fn a_panel_starts_as_saved(config: WindowConfig)
    ensures
        SidePanel::described(Side::Sidebar, config).open == config.sidebar_open,
        SidePanel::described(Side::Composer, config).open == config.compose_panel_open,
        config.sidebar_width is None ==> SidePanel::described(Side::Sidebar, config).width == 230 * 65536,
        config.compose_panel_width is None ==> SidePanel::described(Side::Composer, config).width == 380 * 65536,
        config.sidebar_width matches Some(w) ==> (170 * 65536 <= w <= 380 * 65536 ==> SidePanel::described(Side::Sidebar, config).width == w),
        config.compose_panel_width matches Some(w) ==> (380 * 65536 <= w <= 600 * 65536 ==> SidePanel::described(Side::Composer, config).width
            == w),
{
}

/// Showing or hiding a panel changes that and nothing else of the window, and is written to the settings only
/// where it is a change.
pub proof fn showing_a_panel_changes_that_alone(window: LibraryWindow, config: WindowConfig, open: bool)
    ensures
        window.with_shown(Side::Sidebar, open) == (LibraryWindow { sidebar: SidePanel { open, width: window.sidebar.width }, ..window }),
        window.with_shown(Side::Composer, open) == (LibraryWindow { composer: SidePanel { open, width: window.composer.width }, ..window }),
        shown_config(Side::Sidebar, window, config, open) == if window.sidebar.open == open {
            config
        } else {
            WindowConfig { sidebar_open: open, ..config }
        },
        shown_config(Side::Composer, window, config, open) == if window.composer.open == open {
            config
        } else {
            WindowConfig { compose_panel_open: open, ..config }
        },
        window.panel_of(Side::Sidebar) == window.sidebar,
        window.panel_of(Side::Composer) == window.composer,
{
}

/// Selecting a feed lists it and sends new generations into the album it shows, or into none.
pub proof fn selecting_a_feed_lists_it(filter: FeedFilter, album: AlbumId)
    ensures
        select_effects(filter).contains(WindowEffect::ShowFeed(filter)),
        forall|other: FeedFilter| #[trigger] select_effects(filter).contains(WindowEffect::ShowFeed(other)) ==> other == filter,
        select_effects(filter).contains(WindowEffect::TargetAlbum(Some(album))) <==> filter == FeedFilter::Album(album),
        select_effects(filter).contains(WindowEffect::TargetAlbum(None)) <==> !(filter is Album),
        select_effects(filter).contains(WindowEffect::Redraw),
        select_effects(filter).len() == 3,
{
    assert(select_effects(filter)[0] == WindowEffect::ShowFeed(filter));
    assert(select_effects(filter)[1] == WindowEffect::TargetAlbum(target_album(filter)));
    assert(select_effects(filter)[2] == WindowEffect::Redraw);
}

/// A panel that is shown or hidden redraws the window and has the split forget its bounds, where it laid that
/// panel out; a panel that stays as it is asks for nothing.
pub proof fn a_shown_panel_is_laid_out_afresh(side: Side, was: bool, open: bool, laid_out: usize, panel: usize)
    ensures
        was == open ==> open_effects(side, was, open, laid_out).len() == 0,
        was != open ==> open_effects(side, was, open, laid_out).last() == WindowEffect::Redraw,
        open_effects(side, was, open, laid_out).contains(WindowEffect::ResetPanel(panel)) <==> was != open && panel < laid_out && panel
            == side.index(),
        open_effects(side, was, open, laid_out).len() == (if was == open {
            0nat
        } else if side.index() < laid_out {
            2nat
        } else {
            1nat
        }),
{
    if was != open && laid_out > side.index() {
        assert(open_effects(side, was, open, laid_out)[0] == WindowEffect::ResetPanel(side.index() as usize));
    }
}

/// Showing the composer hands it what is pending, or else the keyboard; hiding it gives the keyboard back to
/// the feed exactly where the composer had it.
pub proof fn the_keyboard_follows_the_composer(was_open: bool, pending: PendingCompose, typing: bool, laid_out: usize)
    ensures
        show_effects(was_open, Some(pending), laid_out).contains(WindowEffect::Compose(pending)),
        !show_effects(was_open, Some(pending), laid_out).contains(WindowEffect::FocusPrompt),
        show_effects(was_open, None, laid_out).contains(WindowEffect::FocusPrompt),
        !show_effects(was_open, None, laid_out).contains(WindowEffect::Compose(pending)),
        hide_effects(was_open, typing, laid_out).contains(WindowEffect::FocusFeed) <==> typing,
        !show_effects(was_open, None, laid_out).contains(WindowEffect::FocusFeed),
        !was_open ==> show_effects(was_open, None, laid_out).len() > 2,
        was_open ==> show_effects(was_open, None, laid_out).len() == 2,
{
    let opened = open_effects(Side::Composer, was_open, true, laid_out);
    let n = opened.len() as int;
    assert(show_effects(was_open, Some(pending), laid_out)[n] == WindowEffect::Compose(pending));
    assert(show_effects(was_open, None, laid_out)[n] == WindowEffect::FocusPrompt);
    if typing {
        assert(hide_effects(was_open, typing, laid_out)[0] == WindowEffect::FocusFeed);
    }
}

/// The detail that closes leaves the feed on the entry it showed.
pub proof fn the_feed_lands_on_what_was_shown(id: EntryId)
    ensures
        landing(Some(id)) == seq![WindowEffect::LandOn(id)],
        landing(None).len() == 0,
{
}

/// The composer's shortcut puts the panel away only from the prompt; otherwise it shows it, and a detail that
/// would cover it goes. Nothing else of the window changes.
pub proof fn the_shortcut_changes_the_composer_alone(window: LibraryWindow, typing: bool)
    ensures
        ({
            let after = after_new_composition(window, typing);
            &&& after.composer.open <==> !(window.composer.open && typing)
            &&& after.composer.width == window.composer.width
            &&& after.sidebar == window.sidebar
            &&& after.detail <==> window.detail && window.composer.open && typing
            &&& after.onboarding == window.onboarding
            &&& after.finished == window.finished
            &&& after.notification_due == window.notification_due
        }),
{
}

/// A dragged handle gives the panel on its side the width the split has for it, within the range, while that
/// panel is shown; the settings follow. Nothing else of the window changes.
pub proof fn a_dragged_panel_takes_its_size(window: LibraryWindow, config: WindowConfig, sizes: Seq<i64>)
    ensures
        ({
            let after = resized(window, Side::Sidebar, sizes);
            let kept = resized_config(config, window, Side::Sidebar, sizes);
            &&& after == (LibraryWindow { sidebar: SidePanel { open: window.sidebar.open, width: after.sidebar.width }, ..window })
            &&& window.sidebar.open && sizes.len() > 0 && 170 * 65536 <= sizes[0] <= 380 * 65536 ==> after.sidebar.width == sizes[0]
            &&& window.sidebar.open && sizes.len() > 0 && sizes[0] < 170 * 65536 ==> after.sidebar.width == 170 * 65536
            &&& window.sidebar.open && sizes.len() > 0 && sizes[0] > 380 * 65536 ==> after.sidebar.width == 380 * 65536
            &&& !window.sidebar.open || sizes.len() == 0 ==> after == window
            &&& after.sidebar.width == window.sidebar.width ==> kept == config
            &&& after.sidebar.width != window.sidebar.width ==> kept == (WindowConfig { sidebar_width: Some(after.sidebar.width), ..config })
            &&& width_news(window, Side::Sidebar, sizes) is Some <==> after.sidebar.width != window.sidebar.width
        }),
        ({
            let after = resized(window, Side::Composer, sizes);
            let kept = resized_config(config, window, Side::Composer, sizes);
            &&& after == (LibraryWindow { composer: SidePanel { open: window.composer.open, width: after.composer.width }, ..window })
            &&& window.composer.open && sizes.len() > 2 && 380 * 65536 <= sizes[2] <= 600 * 65536 ==> after.composer.width == sizes[2]
            &&& window.composer.open && sizes.len() > 2 && sizes[2] < 380 * 65536 ==> after.composer.width == 380 * 65536
            &&& window.composer.open && sizes.len() > 2 && sizes[2] > 600 * 65536 ==> after.composer.width == 600 * 65536
            &&& !window.composer.open || sizes.len() <= 2 ==> after == window
            &&& after.composer.width == window.composer.width ==> kept == config
            &&& after.composer.width != window.composer.width ==> kept == (WindowConfig {
                compose_panel_width: Some(after.composer.width),
                ..config
            })
            &&& width_news(window, Side::Composer, sizes) is Some <==> after.composer.width != window.composer.width
        }),
{
}

/// What the window draws follows from what is up: onboarding before everything, the detail alone once it is at
/// rest, and otherwise the panels that are shown, with the detail's morph over them while it plays. The title
/// bar's toggles say which panels are shown.
pub proof fn the_window_draws_what_is_up(window: LibraryWindow, transitioning: bool, native_menus: bool)
    ensures
        window.body(transitioning) is Onboarding <==> window.onboarding,
        window.body(transitioning) is Detail <==> !window.onboarding && window.detail && !transitioning,
        window.body(transitioning) matches WindowBody::Split { morphing, sidebar, composer } ==> morphing == window.detail && sidebar
            == window.sidebar.open && composer == window.composer.open,
        window.bar(native_menus).sidebar_toggle matches Some(on) ==> on == window.sidebar.open,
        window.bar(native_menus).composer_toggle matches Some(on) ==> on == window.composer.open,
        window.bar(native_menus).menu_bar <==> !native_menus,
{
}

/// Hiding the composer lays the window out as hiding any panel does, after the feed took the keyboard where the
/// composer had it; showing it does so too, and then the composer takes the keyboard.
pub proof fn the_composer_is_a_panel_like_the_other(was_open: bool, pending: PendingCompose, laid_out: usize)
    ensures
        hide_effects(was_open, false, laid_out) == open_effects(Side::Composer, was_open, false, laid_out),
        hide_effects(was_open, true, laid_out) == seq![WindowEffect::FocusFeed] + open_effects(Side::Composer, was_open, false, laid_out),
        show_effects(was_open, None, laid_out) == open_effects(Side::Composer, was_open, true, laid_out) + seq![
            WindowEffect::FocusPrompt,
            WindowEffect::Redraw,
        ],
        show_effects(was_open, Some(pending), laid_out) == open_effects(Side::Composer, was_open, true, laid_out) + seq![
            WindowEffect::Compose(pending),
            WindowEffect::Redraw,
        ],
{
    assert(hide_effects(was_open, false, laid_out) =~= open_effects(Side::Composer, was_open, false, laid_out));
}

} // verus!

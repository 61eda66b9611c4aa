//! How the indicator looks, and what its menu offers.

use crate::clock::{wall_time, WallTime};
use crate::tray::state::{
    last_sync_words, shown_name, status_words, valid, TrayCommand, TrayState, TrayStatus,
};
use vstd::prelude::*;
use vstd::string::*;

verus! {

/// A picture: its size, and for each pixel, row by row, its opacity, red, green and blue.
#[derive(Debug, Clone)]
pub struct Icon {
    pub width: u32,
    pub height: u32,
    pub data: Vec<u8>,
}

/// A picture as contracts state it: its width, its height and its bytes.
pub open spec fn icon_view(icon: Icon) -> (u32, u32, Seq<u8>) {
    (icon.width, icon.height, icon.data@)
}

pub open spec fn icons_view(icons: Seq<Icon>) -> Seq<(u32, u32, Seq<u8>)> {
    icons.map_values(|i: Icon| icon_view(i))
}

/// The picture that a PNG file holds, if it is one: its width, its height and, for each pixel,
/// row by row, its red, green, blue and opacity.
pub uninterp spec fn decoded_png(file: Seq<u8>) -> Option<(u32, u32, Seq<u8>)>;

pub open spec fn decoded_view(d: Option<(u32, u32, Vec<u8>)>) -> Option<(u32, u32, Seq<u8>)> {
    match d {
        Some((width, height, bytes)) => Some((width, height, bytes@)),
        None => None,
    }
}

/// `image::load_from_memory_with_format` for PNG, and `into_rgba8` of what it loads. The result
/// depends on the file alone; there is none where the file is no PNG.
#[verifier::external_body]
fn decode_png(file: &Vec<u8>) -> (decoded: Option<(u32, u32, Vec<u8>)>)
    ensures
        decoded_view(decoded) == decoded_png(file@),
{
    match image::load_from_memory_with_format(file.as_slice(), image::ImageFormat::Png) {
        Ok(loaded) => {
            let picture = loaded.into_rgba8();
            Some((picture.width(), picture.height(), picture.into_raw()))
        },
        Err(_) => None,
    }
}

/// The bytes of a picture with the opacity first in each pixel rather than last.
pub open spec fn opacity_first(bytes: Seq<u8>) -> Seq<u8> {
    Seq::new(
        bytes.len() / 4 * 4,
        |i: int|
            if i % 4 == 0 {
                bytes[i + 3]
            } else {
                bytes[i - 1]
            },
    )
}

/// The bytes of a picture with the opacity first in each pixel rather than last.
pub fn rgba_to_argb(bytes: &Vec<u8>) -> (data: Vec<u8>)
    ensures
        data@ == opacity_first(bytes@),
{
    let ghost wanted = opacity_first(bytes@);
    let total: usize = bytes.len();
    let pixels: usize = total / 4;
    let mut data: Vec<u8> = Vec::new();
    let mut p: usize = 0;
    while p < pixels
        invariant
            p <= pixels,
            pixels == total / 4,
            total == bytes@.len(),
            wanted == opacity_first(bytes@),
            data@ == wanted.take(4 * p),
        decreases pixels - p,
    {
        let at: usize = 4 * p;
        data.push(bytes[at + 3]);
        data.push(bytes[at]);
        data.push(bytes[at + 1]);
        data.push(bytes[at + 2]);
        assert(wanted[at as int] == bytes@[at + 3]);
        assert(wanted[at + 1] == bytes@[at as int]);
        assert(wanted[at + 2] == bytes@[at + 1]);
        assert(wanted[at + 3] == bytes@[at + 2]);
        assert(data@ =~= wanted.take(4 * (p + 1)));
        p = p + 1;
    }
    assert(wanted.take(4 * pixels) =~= wanted);
    data
}

/// The picture of a PNG file.
pub open spec fn png_icon(file: Seq<u8>) -> Option<(u32, u32, Seq<u8>)> {
    match decoded_png(file) {
        Some((width, height, bytes)) => Some((width, height, opacity_first(bytes))),
        None => None,
    }
}

/// The picture of a PNG file, if it is one.
pub fn png_to_argb32(png_data: &Vec<u8>) -> (icon: Option<Icon>)
    ensures
        match icon {
            Some(icon) => png_icon(png_data@) == Some(icon_view(icon)),
            None => png_icon(png_data@) is None,
        },
{
    match decode_png(png_data) {
        Some((width, height, bytes)) => Some(Icon { width, height, data: rgba_to_argb(&bytes) }),
        None => None,
    }
}

/// The same picture in three sizes.
pub fn load_icon_set(png_32: &Vec<u8>, png_48: &Vec<u8>, png_64: &Vec<u8>) -> (icons: Option<
    Vec<Icon>,
>)
    ensures
        match icons {
            Some(icons) => icons@.len() == 3 && png_icon(png_32@) == Some(icon_view(icons@[0]))
                && png_icon(png_48@) == Some(icon_view(icons@[1])) && png_icon(png_64@) == Some(
                icon_view(icons@[2]),
            ),
            None => png_icon(png_32@) is None || png_icon(png_48@) is None || png_icon(
                png_64@,
            ) is None,
        },
{
    match (png_to_argb32(png_32), png_to_argb32(png_48), png_to_argb32(png_64)) {
        (Some(a), Some(b), Some(c)) => {
            let mut icons: Vec<Icon> = Vec::new();
            icons.push(a);
            icons.push(b);
            icons.push(c);
            Some(icons)
        },
        _ => None,
    }
}

/// The pictures that are laid over that of the indicator.
#[derive(Debug, Clone)]
pub struct OverlayIcons {
    pub sync: Vec<Icon>,
    pub error: Vec<Icon>,
    pub pause: Vec<Icon>,
}

/// The indicator of one repository.
#[derive(Debug)]
pub struct GitSyncTray {
    pub state: TrayState,
    pub icons: Vec<Icon>,
    pub overlays: OverlayIcons,
    /// Counts the changes of the state
    pub icon_generation: u64,
}

/// An entry of the menu.
#[derive(Debug)]
pub enum MenuEntry<S = String> {
    /// A text that does nothing
    Label(S),
    Separator,
    /// A text that sends a command, where it is enabled
    Action { label: S, icon_name: S, enabled: bool, command: TrayCommand<S> },
}

impl View for TrayCommand {
    type V = TrayCommand<Seq<char>>;

    open spec fn view(&self) -> TrayCommand<Seq<char>> {
        match self {
            TrayCommand::SyncNow => TrayCommand::SyncNow,
            TrayCommand::Suspend => TrayCommand::Suspend,
            TrayCommand::Resume => TrayCommand::Resume,
            TrayCommand::SyncAll => TrayCommand::SyncAll,
            TrayCommand::SuspendAll => TrayCommand::SuspendAll,
            TrayCommand::ResumeAll => TrayCommand::ResumeAll,
            TrayCommand::SyncRepository(path) => TrayCommand::SyncRepository(path@),
            TrayCommand::SuspendRepository(path) => TrayCommand::SuspendRepository(path@),
            TrayCommand::ResumeRepository(path) => TrayCommand::ResumeRepository(path@),
            TrayCommand::Quit => TrayCommand::Quit,
            TrayCommand::Respawn { reason } => TrayCommand::Respawn { reason: reason@ },
        }
    }
}

impl View for MenuEntry {
    type V = MenuEntry<Seq<char>>;

    open spec fn view(&self) -> MenuEntry<Seq<char>> {
        match self {
            MenuEntry::Label(label) => MenuEntry::Label(label@),
            MenuEntry::Separator => MenuEntry::Separator,
            MenuEntry::Action { label, icon_name, enabled, command } => MenuEntry::Action {
                label: label@,
                icon_name: icon_name@,
                enabled: *enabled,
                command: command@,
            },
        }
    }
}

/// A transparent pixel that depends on how often the state has changed.
pub open spec fn generation_view(generation: u64) -> (u32, u32, Seq<u8>) {
    (
        1,
        1,
        seq![
            0u8,
            (generation % 256) as u8,
            (generation / 256 % 256) as u8,
            (generation / 65536 % 256) as u8,
        ],
    )
}

/// The count after one more change.
pub open spec fn next_generation(generation: u64) -> u64 {
    if generation == u64::MAX {
        0
    } else {
        (generation + 1) as u64
    }
}

/// Every change of the state changes the pictures that are laid over that of the indicator, if
/// only in the transparent pixel, which is the last of them.
pub proof fn every_change_shows(before: GitSyncTray, after: GitSyncTray)
    requires
        after.icon_generation == next_generation(before.icon_generation),
    ensures
        overlay_view(before).last() != overlay_view(after).last(),
        overlay_view(before) != overlay_view(after),
{
    let x = before.icon_generation;
    let y = after.icon_generation;
    assert(generation_view(x).2[1] == x % 256);
    assert(generation_view(y).2[1] == y % 256);
    assert(x % 256 != y % 256);
}

/// The pictures for a state; none but the transparent pixel where there is nothing to say.
pub open spec fn overlay_view(tray: GitSyncTray) -> Seq<(u32, u32, Seq<u8>)> {
    let pixel = generation_view(tray.icon_generation);
    if tray.state.paused {
        icons_view(tray.overlays.pause@).push(pixel)
    } else {
        match tray.state.status {
            TrayStatus::Starting => seq![pixel],
            TrayStatus::Idle => seq![pixel],
            TrayStatus::Syncing => icons_view(tray.overlays.sync@).push(pixel),
            TrayStatus::Error(_) => icons_view(tray.overlays.error@).push(pixel),
        }
    }
}

/// The title of the indicator.
pub open spec fn title_words(state: TrayState<Seq<char>>) -> Seq<char> {
    "git-sync-rs - "@ + shown_name(state)
}

/// The menu for a state: what is shown, then what can be done.
pub open spec fn menu_view(state: TrayState<Seq<char>>, now: WallTime) -> Seq<
    MenuEntry<Seq<char>>,
> {
    seq![
        MenuEntry::Label(title_words(state)),
        MenuEntry::Separator,
        MenuEntry::Label("Status: "@ + status_words(state)),
        MenuEntry::Label(last_sync_words(state.last_sync, now)),
        MenuEntry::Separator,
        MenuEntry::Action {
            label: "Sync Now"@,
            icon_name: "view-refresh"@,
            enabled: !state.paused,
            command: TrayCommand::SyncNow,
        },
        if state.paused {
            MenuEntry::Action {
                label: "Resume"@,
                icon_name: "media-playback-start"@,
                enabled: true,
                command: TrayCommand::Resume,
            }
        } else {
            MenuEntry::Action {
                label: "Pause"@,
                icon_name: "media-playback-pause"@,
                enabled: true,
                command: TrayCommand::Suspend,
            }
        },
        MenuEntry::Separator,
        MenuEntry::Action {
            label: "Quit"@,
            icon_name: "application-exit"@,
            enabled: true,
            command: TrayCommand::Quit,
        },
    ]
}

pub open spec fn entries_view(entries: Seq<MenuEntry>) -> Seq<MenuEntry<Seq<char>>> {
    entries.map_values(|e: MenuEntry| e@)
}

/// Copies of pictures.
fn copy_icons(icons: &Vec<Icon>) -> (copies: Vec<Icon>)
    ensures
        icons_view(copies@) == icons_view(icons@),
{
    let mut copies: Vec<Icon> = Vec::new();
    let mut i: usize = 0;
    while i < icons.len()
        invariant
            i <= icons@.len(),
            icons_view(copies@) == icons_view(icons@).take(i as int),
        decreases icons@.len() - i,
    {
        let ghost before = copies@;
        let mut data: Vec<u8> = Vec::new();
        let mut j: usize = 0;
        while j < icons[i].data.len()
            invariant
                i < icons@.len(),
                j <= icons@[i as int].data@.len(),
                data@ == icons@[i as int].data@.take(j as int),
            decreases icons@[i as int].data@.len() - j,
        {
            data.push(icons[i].data[j]);
            assert(data@ =~= icons@[i as int].data@.take(j + 1));
            j = j + 1;
        }
        assert(data@ =~= icons@[i as int].data@);
        copies.push(Icon { width: icons[i].width, height: icons[i].height, data });
        assert(icons_view(copies@) =~= icons_view(before).push(icon_view(icons@[i as int])));
        assert(icons_view(copies@) =~= icons_view(icons@).take(i + 1));
        i = i + 1;
    }
    assert(icons_view(icons@).take(icons@.len() as int) =~= icons_view(icons@));
    copies
}

impl GitSyncTray {
    /// An indicator for the given state, with the given pictures.
    pub fn new(state: TrayState, icons: Vec<Icon>, overlays: OverlayIcons) -> (tray: GitSyncTray)
        ensures
            tray == (GitSyncTray { state, icons, overlays, icon_generation: 0 }),
    {
        GitSyncTray { state, icons, overlays, icon_generation: 0 }
    }

    /// Notes that the state has changed.
    pub fn bump_icon_generation(&mut self)
        ensures
            *final(self) == (GitSyncTray {
                icon_generation: next_generation(old(self).icon_generation),
                ..*old(self)
            }),
    {
        self.icon_generation = self.icon_generation.wrapping_add(1);
    }

    /// Shows another state.
    pub fn show(&mut self, state: TrayState)
        ensures
            *final(self) == (GitSyncTray {
                state,
                icon_generation: next_generation(old(self).icon_generation),
                ..*old(self)
            }),
    {
        self.state = state;
        self.bump_icon_generation();
    }

    /// A transparent pixel that depends on how often the state has changed.
    pub fn generation_pixel(&self) -> (icon: Icon)
        ensures
            icon_view(icon) == generation_view(self.icon_generation),
    {
        let generation: u64 = self.icon_generation;
        let mut data: Vec<u8> = Vec::new();
        data.push(0);
        data.push((generation % 256) as u8);
        data.push((generation / 256 % 256) as u8);
        data.push((generation / 65536 % 256) as u8);
        assert(data@ =~= generation_view(generation).2);
        Icon { width: 1, height: 1, data }
    }

    /// The pictures to lay over that of the indicator.
    pub fn overlay_pixmaps_for_status(&self) -> (icons: Vec<Icon>)
        ensures
            icons_view(icons@) == overlay_view(*self),
    {
        let mut icons: Vec<Icon> = if self.state.paused {
            copy_icons(&self.overlays.pause)
        } else {
            match &self.state.status {
                TrayStatus::Starting | TrayStatus::Idle => Vec::new(),
                TrayStatus::Syncing => copy_icons(&self.overlays.sync),
                TrayStatus::Error(_) => copy_icons(&self.overlays.error),
            }
        };
        let ghost before = icons@;
        icons.push(self.generation_pixel());
        assert(icons_view(icons@) =~= icons_view(before).push(
            generation_view(self.icon_generation),
        ));
        assert(icons_view(icons@) =~= overlay_view(*self));
        icons
    }

    /// The title of the indicator.
    pub fn title(&self) -> (words: String)
        ensures
            words@ == title_words(self.state@),
    {
        "git-sync-rs - ".to_string().concat(self.state.repo_name().as_str())
    }

    /// The text below the title, at the given time.
    pub fn description_at(&self, now: WallTime) -> (words: String)
        requires
            valid(self.state),
            now.plausible(),
        ensures
            words@ == status_words(self.state@) + "\n"@ + last_sync_words(
                self.state.last_sync,
                now,
            ),
    {
        self.state.status_text().concat("\n").concat(self.state.last_sync_text_at(now).as_str())
    }

    /// The text below the title.
    pub fn description(&self) -> (words: String)
        requires
            valid(self.state),
        ensures
            exists|now: WallTime|
                words@ == status_words(self.state@) + "\n"@ + #[trigger] last_sync_words(
                    self.state.last_sync,
                    now,
                ),
    {
        self.description_at(wall_time())
    }

    /// The menu.
    pub fn menu(&self) -> (entries: Vec<MenuEntry>)
        requires
            valid(self.state),
        ensures
            exists|now: WallTime| entries_view(entries@) == #[trigger] menu_view(self.state@, now),
    {
        self.menu_at(wall_time())
    }

    /// The menu, at the given time.
    pub fn menu_at(&self, now: WallTime) -> (entries: Vec<MenuEntry>)
        requires
            valid(self.state),
            now.plausible(),
        ensures
            entries_view(entries@) == menu_view(self.state@, now),
    {
        let mut entries: Vec<MenuEntry> = Vec::new();
        entries.push(MenuEntry::Label(self.title()));
        entries.push(MenuEntry::Separator);
        entries.push(
            MenuEntry::Label("Status: ".to_string().concat(self.state.status_text().as_str())),
        );
        entries.push(MenuEntry::Label(self.state.last_sync_text_at(now)));
        entries.push(MenuEntry::Separator);
        entries.push(
            MenuEntry::Action {
                label: "Sync Now".to_string(),
                icon_name: "view-refresh".to_string(),
                enabled: !self.state.paused,
                command: TrayCommand::SyncNow,
            },
        );
        if self.state.paused {
            entries.push(
                MenuEntry::Action {
                    label: "Resume".to_string(),
                    icon_name: "media-playback-start".to_string(),
                    enabled: true,
                    command: TrayCommand::Resume,
                },
            );
        } else {
            entries.push(
                MenuEntry::Action {
                    label: "Pause".to_string(),
                    icon_name: "media-playback-pause".to_string(),
                    enabled: true,
                    command: TrayCommand::Suspend,
                },
            );
        }
        entries.push(MenuEntry::Separator);
        entries.push(
            MenuEntry::Action {
                label: "Quit".to_string(),
                icon_name: "application-exit".to_string(),
                enabled: true,
                command: TrayCommand::Quit,
            },
        );
        assert(entries_view(entries@) =~= menu_view(self.state@, now));
        entries
    }
}

/// The opacity of each pixel moves in front of its red, green and blue, which stay in order; no
/// pixel is lost.
pub proof fn pixels_keep_their_colours(bytes: Seq<u8>, pixel: int)
    requires
        0 <= pixel,
        4 * pixel + 3 < bytes.len(),
    ensures
        4 * pixel + 3 < opacity_first(bytes).len() <= bytes.len(),
        opacity_first(bytes)[4 * pixel] == bytes[4 * pixel + 3],
        opacity_first(bytes)[4 * pixel + 1] == bytes[4 * pixel],
        opacity_first(bytes)[4 * pixel + 2] == bytes[4 * pixel + 1],
        opacity_first(bytes)[4 * pixel + 3] == bytes[4 * pixel + 2],
        bytes.len() % 4 == 0 ==> opacity_first(bytes).len() == bytes.len(),
{
}

/// The picture of a file has the size of what is in the file.
pub proof fn pictures_keep_their_size(file: Seq<u8>)
    ensures
        decoded_png(file) is None <==> png_icon(file) is None,
        decoded_png(file) matches Some(d) ==> png_icon(file) == Some(
            (d.0, d.1, opacity_first(d.2)),
        ),
{
}

/// What is laid over the picture of the indicator says what is going on: that synchronizations are
/// put off, before anything else; that one is under way; that the last one failed; and otherwise
/// nothing. A transparent pixel comes last in any case.
pub proof fn overlays_say_what_is_going_on(tray: GitSyncTray)
    ensures
        ({
            let shown = overlay_view(tray).drop_last();
            let pixel = overlay_view(tray).last();
            &&& overlay_view(tray).len() > 0
            &&& pixel.0 == 1 && pixel.1 == 1 && pixel.2.len() == 4 && pixel.2[0] == 0
            &&& tray.state.paused ==> shown == icons_view(tray.overlays.pause@)
            &&& !tray.state.paused && tray.state.status is Syncing ==> shown == icons_view(
                tray.overlays.sync@,
            )
            &&& !tray.state.paused && tray.state.status is Error ==> shown == icons_view(
                tray.overlays.error@,
            )
            &&& !tray.state.paused && (tray.state.status is Idle || tray.state.status is Starting)
                ==> shown.len() == 0
        }),
        forall|i: int|
            0 <= i < tray.overlays.sync@.len() ==> (#[trigger] icons_view(tray.overlays.sync@)[i]).2
                == tray.overlays.sync@[i].data@,
{
    let pixel = generation_view(tray.icon_generation);
    assert(icons_view(tray.overlays.pause@).push(pixel).drop_last() =~= icons_view(
        tray.overlays.pause@,
    ));
    assert(icons_view(tray.overlays.sync@).push(pixel).drop_last() =~= icons_view(
        tray.overlays.sync@,
    ));
    assert(icons_view(tray.overlays.error@).push(pixel).drop_last() =~= icons_view(
        tray.overlays.error@,
    ));
}

/// The menu names the repository, its status and its last synchronization. It offers to synchronize
/// unless that is put off; to take synchronizations up again where they are put off, and to put
/// them off where they are not; and to quit, always. Nothing else can be done with it.
pub proof fn menus_offer_what_can_be_done(state: TrayState<Seq<char>>, now: WallTime)
    ensures
        ({
            let menu = menu_view(state, now);
            let offered = |command: TrayCommand<Seq<char>>|
                exists|i: int|
                    0 <= i < menu.len() && (#[trigger] menu[i]) is Action && menu[i]->command
                        == command && menu[i]->enabled;
            &&& menu[0] == MenuEntry::<Seq<char>>::Label("git-sync-rs - "@ + shown_name(state))
            &&& menu.contains(MenuEntry::<Seq<char>>::Label("Status: "@ + status_words(state)))
            &&& menu.contains(MenuEntry::<Seq<char>>::Label(last_sync_words(state.last_sync, now)))
            &&& offered(TrayCommand::SyncNow) <==> !state.paused
            &&& offered(TrayCommand::Resume) <==> state.paused
            &&& offered(TrayCommand::Suspend) <==> !state.paused
            &&& offered(TrayCommand::Quit)
            &&& forall|i: int|
                0 <= i < menu.len() && (#[trigger] menu[i]) is Action ==> {
                    let command = menu[i]->command;
                    &&& command is SyncNow || command is Resume || command is Suspend
                        || command is Quit
                    &&& command is SyncNow ==> menu[i]->label == "Sync Now"@
                    &&& command is Resume ==> menu[i]->label == "Resume"@
                    &&& command is Suspend ==> menu[i]->label == "Pause"@
                    &&& command is Quit ==> menu[i]->label == "Quit"@
                }
        }),
{
    let menu = menu_view(state, now);
    assert(menu.len() == 9);
    assert(menu[2] == MenuEntry::<Seq<char>>::Label("Status: "@ + status_words(state)));
    assert(menu[3] == MenuEntry::<Seq<char>>::Label(last_sync_words(state.last_sync, now)));
    assert(menu[5] is Action && menu[5]->command == TrayCommand::<Seq<char>>::SyncNow);
    assert(menu[6] is Action);
    assert(menu[8] is Action && menu[8]->command == TrayCommand::<Seq<char>>::Quit);
}

} // verus!

//! The detail's players: opening one for the item shown, decoding its frames, and the transport bar.

use vstd::prelude::*;

use crate::detail::{plays_as, AudioStep, DetailModel, DetailView, Media, Transport, VideoStep};
use crate::model::{Generation, GenerationId, MediaType, Status};
use crate::text::{cat3, count_text, dec, decimal};

verus! {

/// The players once they match `item` for sound: one per audio item, stopped on a page change.
pub open spec fn audio_synced(media: Media, item: Generation) -> Media {
    if !plays_as(item, MediaType::Audio) {
        Media { audio: false, audio_for: None, ..media }
    } else if media.audio_for == Some(item.id) {
        media
    } else {
        Media { audio: false, audio_for: Some(item.id), player_error: None, ..media }
    }
}

/// The players once they match `item` for pictures.
pub open spec fn video_synced(media: Media, item: Generation) -> Media {
    if !plays_as(item, MediaType::Video) {
        media.without_player()
    } else if media.player_for == Some(item.id) {
        media
    } else {
        Media { player_for: Some(item.id), player_error: None, player_opening: true, ..media.without_player() }
    }
}

/// What to do about the audio player for `item`.
pub open spec fn audio_step(media: Media, item: Generation) -> AudioStep {
    if !plays_as(item, MediaType::Audio) {
        AudioStep::Stop
    } else if media.audio_for == Some(item.id) {
        AudioStep::Keep
    } else {
        AudioStep::Open(item.path->0)
    }
}

/// What to do about the video player for `item`.
pub open spec fn video_step(media: Media, item: Generation) -> VideoStep {
    if !plays_as(item, MediaType::Video) {
        VideoStep::Drop
    } else if media.player_for == Some(item.id) {
        VideoStep::Keep
    } else {
        VideoStep::Open(item.path->0)
    }
}

/// What playing or pausing acts on.
#[derive(Clone, Copy, Debug, PartialEq, Eq, Structural)]
pub enum Playback {
    Nothing,
    Video,
    Audio,
}

/// What follows a turn of the decode loop.
#[derive(Clone, Copy, Debug, PartialEq, Eq, Structural)]
pub struct PumpTurn {
    /// Put the player's frame on screen.
    pub upload: bool,
    /// Take another turn.
    pub again: bool,
}

/// A decoded picture, ready to be drawn.
#[derive(Clone, Debug, PartialEq, Eq)]
pub struct FramePixels {
    pub width: u32,
    pub height: u32,
    pub bytes: Vec<u8>,
}

/// What uploading a frame does.
#[derive(Clone, Debug, PartialEq, Eq)]
pub enum FrameUpload {
    /// The player has no frame.
    Nothing,
    /// Draw these pixels, and release the picture drawn before if there was one.
    Show { pixels: FramePixels, release: bool },
    /// The frame has too few bytes for its size; this says so in the log.
    Short(String),
}

/// Whether a picture of this size, four bytes to a pixel, can be made of so many bytes: a row of it
/// fits a `usize`, and there are at least as many bytes as it takes.
pub open spec fn makes_picture(width: u32, height: u32, bytes: nat) -> bool {
    4 * width <= usize::MAX && 4 * width * height <= bytes
}

/// `image::RgbaImage::from_raw`, taken apart again with `dimensions` and `into_raw`: the bytes make a
/// picture of that size, four bytes to a pixel, exactly when there are at least as many as that
/// takes, and four times the width fits a `usize`; they stay as they are.
#[verifier::external_body]
fn rgba_from_raw(width: u32, height: u32, bytes: Vec<u8>) -> (r: Option<FramePixels>)
    ensures
        r is Some <==> makes_picture(width, height, bytes@.len()),
        r matches Some(pixels) ==> pixels.width == width && pixels.height == height && pixels.bytes@ == bytes@,
{
    let image = image::RgbaImage::from_raw(width, height, bytes)?;
    let (width, height) = image.dimensions();
    Some(FramePixels { width, height, bytes: image.into_raw() })
}

impl<B: Copy> DetailView<B> {
    /// Open or drop players so they always match the current item. While `sliding` the leaving item
    /// keeps its player (and so its picture) and the arriving one waits.
    pub fn sync_player(&mut self, item: &Generation, sliding: bool) -> (r: Option<(AudioStep, VideoStep)>)
        ensures
            sliding ==> r is None && final(self)@ == old(self)@,
            !sliding ==> {
                &&& final(self)@ == (DetailModel {
                    media: video_synced(audio_synced(old(self)@.media, *item), *item),
                    ..old(self)@
                })
                &&& r == Some((audio_step(old(self)@.media, *item), video_step(old(self)@.media, *item)))
            },
    {
        if sliding {
            return None;
        }
        let audio = self.sync_audio(item);
        let video = match &item.path {
            Some(path) => if item.media_type == MediaType::Video && item.status == Status::Completed {
                if self.media.player_for == Some(item.id) {
                    VideoStep::Keep
                } else {
                    self.drop_player();
                    self.media.player_for = Some(item.id);
                    self.media.player_error = None;
                    self.media.player_opening = true;
                    VideoStep::Open(path.clone())
                }
            } else {
                self.drop_player();
                VideoStep::Drop
            },
            None => {
                self.drop_player();
                VideoStep::Drop
            },
        };
        Some((audio, video))
    }

    fn sync_audio(&mut self, item: &Generation) -> (r: AudioStep)
        ensures
            final(self)@ == (DetailModel { media: audio_synced(old(self)@.media, *item), ..old(self)@ }),
            r == audio_step(old(self)@.media, *item),
    {
        if item.media_type == MediaType::Audio && item.status == Status::Completed {
            if let Some(path) = &item.path {
                if self.media.audio_for == Some(item.id) {
                    return AudioStep::Keep;
                }
                self.media.audio = false;
                self.media.audio_for = Some(item.id);
                self.media.player_error = None;
                return AudioStep::Open(path.clone());
            }
        }
        self.media.audio = false;
        self.media.audio_for = None;
        AudioStep::Stop
    }

    /// Drop the video player and the picture it decoded.
    pub fn drop_player(&mut self)
        ensures
            final(self)@ == (DetailModel { media: old(self)@.media.without_player(), ..old(self)@ }),
    {
        self.media.player = false;
        self.media.player_for = None;
        self.media.pumping = false;
        self.media.player_opening = false;
        self.media.frame = false;
    }

    /// The audio player was opened, or could not be.
    pub fn audio_opened(&mut self, result: Result<(), String>)
        ensures
            final(self)@ == (DetailModel {
                media: match result {
                    Ok(()) => Media { audio: true, ..old(self)@.media },
                    Err(e) => Media { player_error: Some(e), ..old(self)@.media },
                },
                ..old(self)@
            }),
    {
        match result {
            Ok(()) => {
                self.media.audio = true;
            },
            Err(e) => {
                self.media.player_error = Some(e);
            },
        }
    }

    /// The video of `id` was opened, or could not be. An answer for an item that was left meanwhile
    /// is dropped. Returns whether the player is open now.
    pub fn player_opened(&mut self, id: GenerationId, result: Result<(), String>) -> (opened: bool)
        ensures
            opened == (old(self)@.media.player_for == Some(id) && result is Ok),
            final(self)@ == if old(self)@.media.player_for != Some(id) {
                old(self)@
            } else {
                DetailModel {
                    media: match result {
                        Ok(()) => Media { player: true, player_opening: false, ..old(self)@.media },
                        Err(e) => Media { player_error: Some(e), player_opening: false, ..old(self)@.media },
                    },
                    ..old(self)@
                }
            },
    {
        if self.media.player_for != Some(id) {
            return false;
        }
        self.media.player_opening = false;
        match result {
            Ok(()) => {
                self.media.player = true;
                true
            },
            Err(e) => {
                self.media.player_error = Some(e);
                false
            },
        }
    }

    /// Start the decode loop if the player wants frames and none is running.
    pub fn ensure_pump(&mut self, wants_frames: bool) -> (start: bool)
        ensures
            start == (!old(self)@.media.pumping && old(self)@.media.player && wants_frames),
            final(self)@ == (DetailModel {
                media: Media { pumping: old(self)@.media.pumping || start, ..old(self)@.media },
                ..old(self)@
            }),
    {
        if self.media.pumping || !self.media.player || !wants_frames {
            return false;
        }
        self.media.pumping = true;
        true
    }

    /// A turn of the decode loop begins: it ends where the player has nothing to decode.
    pub fn pump_job(&mut self, has_job: bool) -> (run: bool)
        ensures
            run == (old(self)@.media.player && has_job),
            final(self)@ == (DetailModel {
                media: Media { pumping: old(self)@.media.pumping && run, ..old(self)@.media },
                ..old(self)@
            }),
    {
        let run = self.media.player && has_job;
        if !run {
            self.media.pumping = false;
        }
        run
    }

    /// A frame was decoded: whether it is a new picture, the player's error if it has one, and
    /// whether it wants more.
    pub fn pump_applied(&mut self, new_frame: bool, error: Option<String>, wants_frames: bool) -> (r: PumpTurn)
        ensures
            r == (PumpTurn {
                upload: old(self)@.media.player && new_frame,
                again: old(self)@.media.player && wants_frames,
            }),
            final(self)@ == (DetailModel {
                media: Media {
                    pumping: old(self)@.media.pumping && r.again,
                    player_error: if old(self)@.media.player && error is Some {
                        error
                    } else {
                        old(self)@.media.player_error
                    },
                    ..old(self)@.media
                },
                ..old(self)@
            }),
    {
        if !self.media.player {
            self.media.pumping = false;
            return PumpTurn { upload: false, again: false };
        }
        if error.is_some() {
            self.media.player_error = error;
        }
        if !wants_frames {
            self.media.pumping = false;
        }
        PumpTurn { upload: new_frame, again: wants_frames }
    }

    /// Hand the player's current frame over to be drawn, and release the previous one.
    pub fn upload_frame(&mut self, frame: Option<FramePixels>) -> (r: FrameUpload)
        ensures
            match frame {
                None => r is Nothing && final(self)@ == old(self)@,
                Some(f) => if makes_picture(f.width, f.height, f.bytes@.len()) {
                    &&& r matches FrameUpload::Show { pixels, release } && pixels.width == f.width && pixels.height == f.height
                        && pixels.bytes@ == f.bytes@ && release == old(self)@.media.frame
                    &&& final(self)@ == (DetailModel { media: Media { frame: true, ..old(self)@.media }, ..old(self)@ })
                } else {
                    &&& r matches FrameUpload::Short(text) && text@ == "video frame has "@ + dec(f.bytes@.len()) + " bytes for "@ + dec(
                        f.width as nat,
                    ) + "x"@ + dec(f.height as nat)
                    &&& final(self)@ == old(self)@
                },
            },
    {
        match frame {
            None => FrameUpload::Nothing,
            Some(f) => {
                let count: usize = f.bytes.len();
                let (width, height) = (f.width, f.height);
                match rgba_from_raw(width, height, f.bytes) {
                    Some(pixels) => {
                        let release = self.media.frame;
                        self.media.frame = true;
                        FrameUpload::Show { pixels, release }
                    },
                    None => {
                        let mut text = cat3("video frame has ", count_text(count).as_str(), " bytes for ");
                        text.append(decimal(width as u64).as_str());
                        text.append("x");
                        text.append(decimal(height as u64).as_str());
                        FrameUpload::Short(text)
                    },
                }
            },
        }
    }

    /// Play or pause whichever player is open.
    pub fn toggle_playback(&self) -> (r: Playback)
        ensures
            r == if self@.media.player {
                Playback::Video
            } else if self@.media.audio {
                Playback::Audio
            } else {
                Playback::Nothing
            },
    {
        if self.media.player {
            Playback::Video
        } else if self.media.audio {
            Playback::Audio
        } else {
            Playback::Nothing
        }
    }

    /// Where the transport bar of an item has its numbers from: its player once that is open, and
    /// until then a paused bar at zero over the stored duration. The bar keeps its place either way:
    /// were it to vanish meanwhile, the stage would grow and shrink and the picture jump with it.
    pub fn transport_for(&self, item: &Generation) -> (r: Transport)
        ensures
            r == transport_of(self@.media, *item),
    {
        if self.media.player && self.media.player_for == Some(item.id) {
            Transport::Video
        } else if self.media.audio && self.media.audio_for == Some(item.id) {
            Transport::Audio
        } else if (item.media_type == MediaType::Video || item.media_type == MediaType::Audio) && item.status == Status::Completed
            && item.file.is_some() {
            Transport::Waiting
        } else {
            Transport::Absent
        }
    }
}

/// Where the transport bar of an item has its numbers from.
pub open spec fn transport_of(media: Media, item: Generation) -> Transport {
    if media.player && media.player_for == Some(item.id) {
        Transport::Video
    } else if media.audio && media.audio_for == Some(item.id) {
        Transport::Audio
    } else if (item.media_type == MediaType::Video || item.media_type == MediaType::Audio) && item.status == Status::Completed
        && item.file is Some {
        Transport::Waiting
    } else {
        Transport::Absent
    }
}

/// How long the decode loop waits between turns: half a frame interval, and at least four
/// milliseconds. Both are in nanoseconds.
pub fn pump_delay(interval: u64) -> (r: u64)
    ensures
        r == if interval / 2 > 4_000_000 {
            interval / 2
        } else {
            4_000_000
        },
{
    if interval / 2 > 4_000_000 {
        interval / 2
    } else {
        4_000_000
    }
}

// ----- laws -----------------------------------------------------------------------------------

/// Once the players match an item, at most one of the two belongs to it, and neither to any other
/// item; syncing again changes nothing.
pub proof fn the_players_match_the_item(media: Media, item: Generation)
    ensures
        ({
            let synced = video_synced(audio_synced(media, item), item);
            &&& synced.player_for is Some ==> synced.player_for == Some(item.id) && synced.audio_for is None
            &&& synced.audio_for is Some ==> synced.audio_for == Some(item.id) && synced.player_for is None
            &&& video_synced(audio_synced(synced, item), item) == synced
        }),
{
}

/// Leaving an item drops its video player with everything that came of it: the decode loop and the
/// picture on screen.
pub proof fn leaving_a_video_drops_its_picture(media: Media, item: Generation)
    requires
        media.player_for != Some(item.id),
    ensures
        ({
            let synced = video_synced(media, item);
            !synced.player && !synced.pumping && !synced.frame
        }),
{
}

/// The transport bar of an item that plays is always there, whatever has become of the players.
pub proof fn the_transport_bar_keeps_its_place(media: Media, item: Generation)
    requires
        item.media_type == MediaType::Video || item.media_type == MediaType::Audio,
        item.status == Status::Completed,
        item.file is Some,
    ensures
        transport_of(media, item) != Transport::Absent,
{
}

/// A picture has no transport bar once the players match it.
pub proof fn a_picture_has_no_transport_bar(media: Media, item: Generation)
    requires
        item.media_type == MediaType::Image,
    ensures
        transport_of(video_synced(audio_synced(media, item), item), item) == Transport::Absent,
{
}

/// Only a finished item of the kind plays, from its own file.
pub proof fn only_finished_media_plays(item: Generation, kind: MediaType)
    ensures
        plays_as(item, kind) <==> item.media_type == kind && item.status == Status::Completed && item.path is Some,
{
}

/// A finished piece of audio is opened from its own file once, and kept while it is shown; anything else stops
/// the sound.
pub proof fn sound_belongs_to_the_item_shown(media: Media, item: Generation, path: String)
    ensures
        ({
            let sounds = item.media_type == MediaType::Audio && item.status == Status::Completed && item.path is Some;
            let after = audio_synced(media, item);
            &&& audio_step(media, item) is Stop <==> !sounds
            &&& audio_step(media, item) is Keep <==> sounds && media.audio_for == Some(item.id)
            &&& audio_step(media, item) == AudioStep::Open(path) ==> item.path == Some(path)
            &&& audio_step(media, item) is Stop ==> !after.audio && after.audio_for is None && after.player_error == media.player_error
            &&& audio_step(media, item) is Keep ==> after == media
            &&& audio_step(media, item) is Open ==> !after.audio && after.audio_for == Some(item.id) && after.player_error is None
            &&& after.player == media.player && after.player_for == media.player_for && after.player_opening == media.player_opening
            &&& after.pumping == media.pumping && after.frame == media.frame
        }),
{
}

/// A finished video is opened from its own file once, and kept while it is shown; anything else drops the
/// player, with its decode loop and its picture.
pub proof fn the_picture_belongs_to_the_item_shown(media: Media, item: Generation, path: String)
    ensures
        ({
            let moves = item.media_type == MediaType::Video && item.status == Status::Completed && item.path is Some;
            let after = video_synced(media, item);
            &&& video_step(media, item) is Drop <==> !moves
            &&& video_step(media, item) is Keep <==> moves && media.player_for == Some(item.id)
            &&& video_step(media, item) == VideoStep::Open(path) ==> item.path == Some(path)
            &&& video_step(media, item) is Keep ==> after == media
            &&& !(video_step(media, item) is Keep) ==> !after.player && !after.pumping && !after.frame
            &&& video_step(media, item) is Drop ==> after.player_for is None && !after.player_opening && after.player_error == media.player_error
            &&& video_step(media, item) is Open ==> after.player_for == Some(item.id) && after.player_opening && after.player_error is None
            &&& after.audio == media.audio && after.audio_for == media.audio_for
        }),
{
}

/// The transport bar has its numbers from the player that is open for the item, and waits where a finished
/// file could play; nothing else has a bar.
pub proof fn the_transport_bar_follows_the_open_player(media: Media, item: Generation)
    ensures
        transport_of(media, item) == Transport::Video <==> media.player && media.player_for == Some(item.id),
        transport_of(media, item) == Transport::Audio ==> media.audio && media.audio_for == Some(item.id),
        media.audio && media.audio_for == Some(item.id) && !media.player ==> transport_of(media, item) == Transport::Audio,
        transport_of(media, item) == Transport::Waiting ==> item.media_type != MediaType::Image && item.status == Status::Completed
            && item.file is Some,
        !media.player && !media.audio ==> (transport_of(media, item) == Transport::Absent <==> item.media_type == MediaType::Image || item.status
            != Status::Completed || item.file is None),
{
}

/// A picture takes four bytes for each of its pixels: with as many it can be made, with fewer it cannot.
pub proof fn a_picture_takes_four_bytes_a_pixel(width: u32, height: u32, bytes: nat)
    requires
        4 * width <= usize::MAX,
    ensures
        bytes >= 4 * width * height ==> makes_picture(width, height, bytes),
        bytes < 4 * width * height ==> !makes_picture(width, height, bytes),
{
}

} // verus!

use vstd::prelude::*;

verus! {

/// Full brightness, in thousandths.
pub const FULL: u32 = 1000;

/// The fade policy of an action, every duration in milliseconds.
#[derive(Debug, PartialEq, Eq, Structural, Clone, Copy)]
pub struct Fade {
    pub fade_in: u32,
    /// How long to hold full brightness; with `None` the source plays once.
    pub show_for: Option<u32>,
    pub fade_out: u32,
}

impl Fade {
    pub fn new(fade_in: u32, show_for: Option<u32>, fade_out: u32) -> (r: Fade)
        ensures
            r == (Fade { fade_in, show_for, fade_out }),
    {
        Fade { fade_in, show_for, fade_out }
    }
}

/// How long an action plays.
#[derive(Debug, PartialEq, Eq, Structural, Clone, Copy)]
pub enum AnimTime {
    /// Ramp up, hold, ramp down.
    Fade(Fade),
    /// Loop until another trigger comes.
    Infinite,
    /// Play the source this many times.
    Count(u32),
}

/// An offset on the matrix, in thousandths of a LED.
#[derive(Debug, PartialEq, Eq, Structural, Clone, Copy)]
pub struct Vec2 {
    pub x: i32,
    pub y: i32,
}

impl Vec2 {
    pub fn new(x: i32, y: i32) -> (r: Vec2)
        ensures
            r == (Vec2 { x, y }),
    {
        Vec2 { x, y }
    }
}

/// A user-authored animation step. Scale, angle and brightness are in
/// thousandths (`1000` is a scale of one, full brightness, one radian).
#[derive(Debug, Clone)]
pub enum ActionLoader {
    AsusAnimation { file: String, time: AnimTime, brightness: u32 },
    ImageAnimation {
        file: String,
        scale: i32,
        angle: i32,
        translation: Vec2,
        time: AnimTime,
        brightness: u32,
    },
    Image {
        file: String,
        scale: i32,
        angle: i32,
        translation: Vec2,
        time: AnimTime,
        brightness: u32,
    },
    /// Show nothing for this many milliseconds.
    Pause(u32),
}

/// The matrix geometries that the display comes in.
#[derive(Debug, PartialEq, Eq, Structural, Clone, Copy)]
pub enum AnimeType {
    GA401,
    GA402,
    GU604,
}

/// Where the frames of a resolved action come from.
#[derive(Debug, Clone)]
pub enum FrameSource {
    /// A gif in the vendor's own diagonal layout.
    AsusGif { file: String },
    /// A gif placed on the matrix by scale, angle and offset.
    Gif { file: String, scale: i32, angle: i32, translation: Vec2 },
    /// A still image placed the same way.
    Still { file: String, scale: i32, angle: i32, translation: Vec2 },
    /// No frame: the matrix stays dark.
    Blank,
}

/// An action bound to one matrix geometry, ready to be played.
#[derive(Debug, Clone)]
pub struct ActionData {
    pub anime_type: AnimeType,
    pub source: FrameSource,
    pub time: AnimTime,
    pub brightness: u32,
}

pub open spec fn action_time(a: ActionLoader) -> AnimTime {
    match a {
        ActionLoader::AsusAnimation { time, .. } => time,
        ActionLoader::ImageAnimation { time, .. } => time,
        ActionLoader::Image { time, .. } => time,
        ActionLoader::Pause(ms) => AnimTime::Fade(Fade { fade_in: 0, show_for: Some(ms), fade_out: 0 }),
    }
}

pub open spec fn action_brightness(a: ActionLoader) -> u32 {
    match a {
        ActionLoader::AsusAnimation { brightness, .. } => brightness,
        ActionLoader::ImageAnimation { brightness, .. } => brightness,
        ActionLoader::Image { brightness, .. } => brightness,
        ActionLoader::Pause(_) => 0,
    }
}

pub open spec fn source_of(a: ActionLoader) -> FrameSource {
    match a {
        ActionLoader::AsusAnimation { file, .. } => FrameSource::AsusGif { file },
        ActionLoader::ImageAnimation { file, scale, angle, translation, .. } => FrameSource::Gif {
            file,
            scale,
            angle,
            translation,
        },
        ActionLoader::Image { file, scale, angle, translation, .. } => FrameSource::Still {
            file,
            scale,
            angle,
            translation,
        },
        ActionLoader::Pause(_) => FrameSource::Blank,
    }
}

/// `d` is `a` resolved for the geometry `t`.
pub open spec fn resolves(d: ActionData, t: AnimeType, a: ActionLoader) -> bool {
    &&& d.anime_type == t
    &&& d.time == action_time(a)
    &&& d.brightness == action_brightness(a)
    &&& d.source == source_of(a)
}

impl ActionData {
    /// Binds an action to the geometry of the matrix it will play on.
    pub fn from_anime_action(anime_type: AnimeType, action: &ActionLoader) -> (r: ActionData)
        ensures
            resolves(r, anime_type, *action),
    {
        match action {
            ActionLoader::AsusAnimation { file, time, brightness } => ActionData {
                anime_type,
                source: FrameSource::AsusGif { file: file.clone() },
                time: *time,
                brightness: *brightness,
            },
            ActionLoader::ImageAnimation { file, scale, angle, translation, time, brightness } =>
                ActionData {
                anime_type,
                source: FrameSource::Gif {
                    file: file.clone(),
                    scale: *scale,
                    angle: *angle,
                    translation: *translation,
                },
                time: *time,
                brightness: *brightness,
            },
            ActionLoader::Image { file, scale, angle, translation, time, brightness } =>
                ActionData {
                anime_type,
                source: FrameSource::Still {
                    file: file.clone(),
                    scale: *scale,
                    angle: *angle,
                    translation: *translation,
                },
                time: *time,
                brightness: *brightness,
            },
            ActionLoader::Pause(ms) => ActionData {
                anime_type,
                source: FrameSource::Blank,
                time: AnimTime::Fade(Fade { fade_in: 0, show_for: Some(*ms), fade_out: 0 }),
                brightness: 0,
            },
        }
    }
}

} // verus!

use vstd::prelude::*;
use crate::anime::{resolves, ActionData, ActionLoader, AnimTime, AnimeType, Fade, Vec2, FULL};

verus! {

/// The oldest stored schema: at most one action per event.
#[derive(Debug)]
pub struct AnimeConfigV341 {
    pub system: Option<ActionLoader>,
    pub boot: Option<ActionLoader>,
    pub suspend: Option<ActionLoader>,
    pub shutdown: Option<ActionLoader>,
}

/// The middle schema: a list per event and a brightness.
#[derive(Debug)]
pub struct AnimeConfigV352 {
    pub system: Vec<ActionLoader>,
    pub boot: Vec<ActionLoader>,
    pub wake: Vec<ActionLoader>,
    pub shutdown: Vec<ActionLoader>,
    pub brightness: i64,
}

/// Config for base system actions for the anime display. `brightness` is in
/// thousandths and belongs in `0..=1000` once loaded.
#[derive(Debug)]
pub struct AnimeConfig {
    pub system: Vec<ActionLoader>,
    pub boot: Vec<ActionLoader>,
    pub wake: Vec<ActionLoader>,
    pub shutdown: Vec<ActionLoader>,
    pub brightness: i64,
    pub awake_enabled: bool,
    pub boot_anim_enabled: bool,
}

pub struct AnimeConfigView {
    pub system: Seq<ActionLoader>,
    pub boot: Seq<ActionLoader>,
    pub wake: Seq<ActionLoader>,
    pub shutdown: Seq<ActionLoader>,
    pub brightness: int,
    pub awake_enabled: bool,
    pub boot_anim_enabled: bool,
}

impl View for AnimeConfig {
    type V = AnimeConfigView;

    open spec fn view(&self) -> AnimeConfigView {
        AnimeConfigView {
            system: self.system@,
            boot: self.boot@,
            wake: self.wake@,
            shutdown: self.shutdown@,
            brightness: self.brightness as int,
            awake_enabled: self.awake_enabled,
            boot_anim_enabled: self.boot_anim_enabled,
        }
    }
}

pub open spec fn list_of(a: Option<ActionLoader>) -> Seq<ActionLoader> {
    match a {
        Some(x) => seq![x],
        None => Seq::empty(),
    }
}

pub open spec fn clamp_brightness(b: int) -> int {
    if b < 0 { 0 } else if b > FULL { FULL as int } else { b }
}

pub open spec fn with_brightness(c: AnimeConfigView, b: int) -> AnimeConfigView {
    AnimeConfigView { brightness: b, ..c }
}

/// An empty config at full brightness with both events enabled.
pub open spec fn empty_view() -> AnimeConfigView {
    AnimeConfigView {
        system: Seq::empty(),
        boot: Seq::empty(),
        wake: Seq::empty(),
        shutdown: Seq::empty(),
        brightness: FULL as int,
        awake_enabled: true,
        boot_anim_enabled: true,
    }
}

impl AnimeConfigV341 {
    pub open spec fn current_view(&self) -> AnimeConfigView {
        AnimeConfigView {
            system: list_of(self.system),
            boot: list_of(self.boot),
            wake: list_of(self.suspend),
            shutdown: list_of(self.shutdown),
            ..empty_view()
        }
    }

    /// Each set action becomes a one-element list, each unset one an empty list.
    pub fn into_current(self) -> (r: AnimeConfig)
        ensures
            r@ == self.current_view(),
    {
        AnimeConfig {
            system: one_or_none(self.system),
            boot: one_or_none(self.boot),
            wake: one_or_none(self.suspend),
            shutdown: one_or_none(self.shutdown),
            brightness: FULL as i64,
            awake_enabled: true,
            boot_anim_enabled: true,
        }
    }
}

fn one_or_none(a: Option<ActionLoader>) -> (r: Vec<ActionLoader>)
    ensures
        r@ == list_of(a),
{
    match a {
        Some(x) => {
            let mut v: Vec<ActionLoader> = Vec::new();
            v.push(x);
            assert(v@ =~= seq![x]);
            v
        },
        None => {
            let v: Vec<ActionLoader> = Vec::new();
            assert(v@ =~= Seq::<ActionLoader>::empty());
            v
        },
    }
}

impl AnimeConfigV352 {
    pub open spec fn current_view(&self) -> AnimeConfigView {
        AnimeConfigView {
            system: self.system@,
            boot: self.boot@,
            wake: self.wake@,
            shutdown: self.shutdown@,
            ..empty_view()
        }
    }

    /// Keeps the lists; brightness restarts at full and both events are enabled.
    pub fn into_current(self) -> (r: AnimeConfig)
        ensures
            r@ == self.current_view(),
    {
        AnimeConfig {
            system: self.system,
            boot: self.boot,
            wake: self.wake,
            shutdown: self.shutdown,
            brightness: FULL as i64,
            awake_enabled: true,
            boot_anim_enabled: true,
        }
    }
}

impl Default for AnimeConfig {
    fn default() -> (r: Self)
        ensures
            r@ == empty_view(),
    {
        AnimeConfig {
            system: Vec::new(),
            boot: Vec::new(),
            wake: Vec::new(),
            shutdown: Vec::new(),
            brightness: FULL as i64,
            awake_enabled: true,
            boot_anim_enabled: true,
        }
    }
}

/// The outcome of reading the stored document, decoded under each schema.
pub enum ConfigSource {
    /// The file could not be read.
    Unreadable,
    /// The file holds nothing, as after a write cut short.
    Empty,
    /// The file's text, decoded under the current and each prior schema.
    Text {
        current: Option<AnimeConfig>,
        v352: Option<AnimeConfigV352>,
        v341: Option<AnimeConfigV341>,
    },
}

/// What must happen to the stored document after a load.
#[derive(Debug, PartialEq, Eq, Structural, Clone, Copy)]
pub enum StoreAction {
    /// The stored document is current: leave it.
    Keep,
    /// Overwrite the document with the loaded config.
    Write,
    /// Rename the document to `<name>-old`, then write the loaded config.
    RenameOldThenWrite,
}

/// `a` is an image animation of `file` with the given placement and timing,
/// at full brightness.
pub open spec fn is_image_animation(
    a: ActionLoader,
    file: Seq<char>,
    scale: i32,
    angle: i32,
    translation: Vec2,
    time: AnimTime,
) -> bool {
    match a {
        ActionLoader::ImageAnimation { file: f, scale: s, angle: g, translation: t, time: m, brightness: b } =>
            f@ == file && s == scale && g == angle && t == translation && m == time && b == FULL,
        _ => false,
    }
}

pub open spec fn sonic_run(a: ActionLoader) -> bool {
    is_image_animation(
        a,
        "/usr/share/asusd/anime/custom/sonic-run.gif"@,
        900,
        650,
        Vec2 { x: 0, y: 0 },
        AnimTime::Fade(Fade { fade_in: 2000, show_for: Some(2000), fade_out: 2000 }),
    )
}

pub open spec fn sonic_wait(a: ActionLoader) -> bool {
    is_image_animation(
        a,
        "/usr/share/asusd/anime/custom/sonic-wait.gif"@,
        900,
        0,
        Vec2 { x: 3000, y: 2000 },
        AnimTime::Infinite,
    )
}

/// The config generated where none can be read: nothing on `system`, a
/// running animation on boot and wake, a waiting one on shutdown.
pub open spec fn is_default(c: AnimeConfigView) -> bool {
    &&& c.system.len() == 0
    &&& c.boot.len() == 1 && sonic_run(c.boot[0])
    &&& c.wake.len() == 1 && sonic_run(c.wake[0])
    &&& c.shutdown.len() == 1 && sonic_wait(c.shutdown[0])
    &&& c.brightness == FULL
    &&& c.awake_enabled
    &&& c.boot_anim_enabled
}

/// Loading `src` yields the config `c` and asks for `act` on the stored document.
pub open spec fn loads_as(src: ConfigSource, c: AnimeConfigView, act: StoreAction) -> bool {
    match src {
        ConfigSource::Unreadable => is_default(c) && act == StoreAction::Write,
        ConfigSource::Empty => is_default(c) && act == StoreAction::Write,
        ConfigSource::Text { current, v352, v341 } => match (current, v352, v341) {
            (Some(d), _, _) => c == with_brightness(d@, clamp_brightness(d@.brightness)) && act
                == StoreAction::Keep,
            (None, Some(m), _) => c == m.current_view() && act == StoreAction::Write,
            (None, None, Some(o)) => c == o.current_view() && act == StoreAction::Write,
            (None, None, None) => is_default(c) && act == StoreAction::RenameOldThenWrite,
        },
    }
}

impl AnimeConfig {
    /// Brings `brightness` into `0..=1000`, to the nearest bound.
    pub fn clamp_config_brightness(config: &mut AnimeConfig)
        ensures
            final(config)@ == with_brightness(old(config)@, clamp_brightness(old(config)@.brightness)),
    {
        if config.brightness < 0 {
            config.brightness = 0;
        } else if config.brightness > FULL as i64 {
            config.brightness = FULL as i64;
        }
    }

    /// The config written where none can be read: the vendor's animations on
    /// boot, wake and shutdown.
    pub fn create_default() -> (r: AnimeConfig)
        ensures
            is_default(r@),
    {
        let run = ActionLoader::ImageAnimation {
            file: "/usr/share/asusd/anime/custom/sonic-run.gif".to_owned(),
            scale: 900,
            angle: 650,
            translation: Vec2::new(0, 0),
            brightness: FULL,
            time: AnimTime::Fade(Fade::new(2000, Some(2000), 2000)),
        };
        let run2 = ActionLoader::ImageAnimation {
            file: "/usr/share/asusd/anime/custom/sonic-run.gif".to_owned(),
            scale: 900,
            angle: 650,
            translation: Vec2::new(0, 0),
            brightness: FULL,
            time: AnimTime::Fade(Fade::new(2000, Some(2000), 2000)),
        };
        let wait = ActionLoader::ImageAnimation {
            file: "/usr/share/asusd/anime/custom/sonic-wait.gif".to_owned(),
            scale: 900,
            angle: 0,
            translation: Vec2::new(3000, 2000),
            brightness: FULL,
            time: AnimTime::Infinite,
        };
        let mut boot: Vec<ActionLoader> = Vec::new();
        boot.push(run);
        let mut wake: Vec<ActionLoader> = Vec::new();
        wake.push(run2);
        let mut shutdown: Vec<ActionLoader> = Vec::new();
        shutdown.push(wait);
        let r = AnimeConfig {
            system: Vec::new(),
            boot,
            wake,
            shutdown,
            brightness: FULL as i64,
            awake_enabled: true,
            boot_anim_enabled: true,
        };
        proof {
            reveal_strlit("/usr/share/asusd/anime/custom/sonic-run.gif");
            reveal_strlit("/usr/share/asusd/anime/custom/sonic-wait.gif");
        }
        assert(r@.system =~= Seq::<ActionLoader>::empty());
        r
    }

    /// Decides the config a load yields, and what to do to the stored
    /// document: the current schema is used as it stands, the newest prior
    /// schema that decodes is migrated and written back, and a document that
    /// decodes under none is set aside for the default.
    pub fn load(src: ConfigSource) -> (r: (AnimeConfig, StoreAction))
        ensures
            loads_as(src, r.0@, r.1),
            0 <= r.0@.brightness <= FULL,
    {
        match src {
            ConfigSource::Unreadable => (Self::create_default(), StoreAction::Write),
            ConfigSource::Empty => (Self::create_default(), StoreAction::Write),
            ConfigSource::Text { current, v352, v341 } => {
                if let Some(mut c) = current {
                    Self::clamp_config_brightness(&mut c);
                    (c, StoreAction::Keep)
                } else if let Some(m) = v352 {
                    let mut c = m.into_current();
                    Self::clamp_config_brightness(&mut c);
                    (c, StoreAction::Write)
                } else if let Some(o) = v341 {
                    let mut c = o.into_current();
                    Self::clamp_config_brightness(&mut c);
                    (c, StoreAction::Write)
                } else {
                    (Self::create_default(), StoreAction::RenameOldThenWrite)
                }
            },
        }
    }
}

/// Migration law: a document in the oldest schema loads as the current
/// schema, each set event a one-element list, each unset one an empty list,
/// at full brightness with both events enabled, and is written back; loading
/// that written-back document again yields the same config and writes nothing.
pub proof fn lemma_migration_round_trip(
    prior: AnimeConfigV341,
    c: AnimeConfigView,
    act: StoreAction,
    stored: AnimeConfig,
    v352: Option<AnimeConfigV352>,
    v341: Option<AnimeConfigV341>,
    c2: AnimeConfigView,
    act2: StoreAction,
)
    requires
        loads_as(ConfigSource::Text { current: None, v352: None, v341: Some(prior) }, c, act),
        stored@ == c,
        loads_as(ConfigSource::Text { current: Some(stored), v352, v341 }, c2, act2),
    ensures
        c.system == list_of(prior.system),
        c.boot == list_of(prior.boot),
        c.wake == list_of(prior.suspend),
        c.shutdown == list_of(prior.shutdown),
        c.brightness == FULL,
        c.awake_enabled && c.boot_anim_enabled,
        act == StoreAction::Write,
        c2 == c,
        act2 == StoreAction::Keep,
{
}

/// Recovery law: a document that decodes under no known schema is set aside
/// and replaced by the default config; the load itself never fails.
pub proof fn lemma_undecodable_recovers(c: AnimeConfigView, act: StoreAction)
    requires
        loads_as(ConfigSource::Text { current: None, v352: None, v341: None }, c, act),
    ensures
        is_default(c),
        act == StoreAction::RenameOldThenWrite,
{
}

/// Clamp law: loading a current document keeps a brightness inside
/// `0..=1000` and moves one outside to the nearest bound.
pub proof fn lemma_brightness_clamp(stored: AnimeConfig, c: AnimeConfigView, act: StoreAction)
    requires
        loads_as(ConfigSource::Text { current: Some(stored), v352: None, v341: None }, c, act),
    ensures
        0 <= stored.brightness <= FULL ==> c.brightness == stored.brightness,
        stored.brightness < 0 ==> c.brightness == 0,
        stored.brightness > FULL ==> c.brightness == FULL,
        c.system == stored.system@ && c.boot == stored.boot@,
        c.wake == stored.wake@ && c.shutdown == stored.shutdown@,
{
}

} // verus!

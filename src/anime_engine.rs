use vstd::prelude::*;
use crate::anime::{resolves, ActionData, ActionLoader, AnimTime, AnimeType, Fade, FULL};
use crate::anime_config::{clamp_brightness, AnimeConfig};

verus! {

/// The resolved actions of each event, rebuilt whenever the config or the
/// matrix geometry changes, never stored.
pub struct AnimeConfigCached {
    pub system: Vec<ActionData>,
    pub boot: Vec<ActionData>,
    pub wake: Vec<ActionData>,
    pub shutdown: Vec<ActionData>,
}

/// Each action of `d` is the action of `a` at the same place, resolved for `t`.
pub open spec fn resolves_all(d: Seq<ActionData>, t: AnimeType, a: Seq<ActionLoader>) -> bool {
    d.len() == a.len() && forall|i: int| 0 <= i < d.len() ==> resolves(#[trigger] d[i], t, a[i])
}

fn resolve_list(list: &Vec<ActionLoader>, anime_type: AnimeType) -> (r: Vec<ActionData>)
    ensures
        resolves_all(r@, anime_type, list@),
{
    let mut out: Vec<ActionData> = Vec::with_capacity(list.len());
    let mut i: usize = 0;
    while i < list.len()
        invariant
            0 <= i <= list@.len(),
            resolves_all(out@, anime_type, list@.subrange(0, i as int)),
        decreases list@.len() - i,
    {
        out.push(ActionData::from_anime_action(anime_type, &list[i]));
        i = i + 1;
    }
    assert(list@.subrange(0, list@.len() as int) =~= list@);
    out
}

impl AnimeConfigCached {
    pub fn new() -> (r: AnimeConfigCached)
        ensures
            r.system@.len() == 0 && r.boot@.len() == 0 && r.wake@.len() == 0 && r.shutdown@.len() == 0,
    {
        AnimeConfigCached { system: Vec::new(), boot: Vec::new(), wake: Vec::new(), shutdown: Vec::new() }
    }

    /// Resolves every list of `config` for the geometry `anime_type`.
    pub fn init_from_config(&mut self, config: &AnimeConfig, anime_type: AnimeType)
        ensures
            resolves_all(final(self).system@, anime_type, config.system@),
            resolves_all(final(self).boot@, anime_type, config.boot@),
            resolves_all(final(self).wake@, anime_type, config.wake@),
            resolves_all(final(self).shutdown@, anime_type, config.shutdown@),
    {
        self.system = resolve_list(&config.system, anime_type);
        self.boot = resolve_list(&config.boot, anime_type);
        self.wake = resolve_list(&config.wake, anime_type);
        self.shutdown = resolve_list(&config.shutdown, anime_type);
    }

    pub open spec fn list(&self, t: Trigger) -> Seq<ActionData> {
        match t {
            Trigger::System => self.system@,
            Trigger::Boot => self.boot@,
            Trigger::Wake => self.wake@,
            Trigger::Shutdown => self.shutdown@,
        }
    }

    fn list_len(&self, t: Trigger) -> (r: usize)
        ensures
            r == self.list(t).len(),
    {
        match t {
            Trigger::System => self.system.len(),
            Trigger::Boot => self.boot.len(),
            Trigger::Wake => self.wake.len(),
            Trigger::Shutdown => self.shutdown.len(),
        }
    }

    fn action(&self, t: Trigger, i: usize) -> (r: &ActionData)
        requires
            i < self.list(t).len(),
        ensures
            *r == self.list(t)[i as int],
    {
        match t {
            Trigger::System => &self.system[i],
            Trigger::Boot => &self.boot[i],
            Trigger::Wake => &self.wake[i],
            Trigger::Shutdown => &self.shutdown[i],
        }
    }
}

/// A system lifecycle event that starts the list of the same name.
#[derive(Debug, PartialEq, Eq, Structural, Clone, Copy)]
pub enum Trigger {
    System,
    Boot,
    Wake,
    Shutdown,
}

/// What the engine is playing: nothing, or the action at `index` of the
/// list of `list`, `elapsed` milliseconds after it began.
#[derive(Debug, PartialEq, Eq, Structural, Clone, Copy)]
pub enum EngineState {
    Idle,
    Playing { list: Trigger, index: usize, elapsed: u64 },
}

/// How long `time` plays, given the length `cycle` of one playback of its
/// source; `None` for an action that plays until interrupted.
pub open spec fn play_length(time: AnimTime, cycle: int) -> Option<int> {
    match time {
        AnimTime::Fade(f) => Some(f.fade_in + shown_for(f, cycle) + f.fade_out),
        AnimTime::Infinite => None,
        AnimTime::Count(n) => Some(n * cycle),
    }
}

pub open spec fn shown_for(f: Fade, cycle: int) -> int {
    match f.show_for {
        Some(s) => s as int,
        None => cycle,
    }
}

/// The fraction of its target brightness, in thousandths, that an action
/// shows `t` milliseconds after it began: a linear ramp up over the fade-in,
/// full while shown, a linear ramp down over the fade-out, dark after.
pub open spec fn fade_level(time: AnimTime, cycle: int, t: int) -> int {
    match time {
        AnimTime::Fade(f) => {
            let up = f.fade_in as int;
            let hold = up + shown_for(f, cycle);
            let end = hold + f.fade_out;
            if t < up {
                t * 1000 / up
            } else if t < hold {
                1000
            } else if t < end {
                (end - t) * 1000 / (f.fade_out as int)
            } else {
                0
            }
        },
        _ => 1000,
    }
}

/// Computes `fade_level`.
pub fn fade_level_at(time: AnimTime, cycle: u32, t: u64) -> (r: u32)
    ensures
        r == fade_level(time, cycle as int, t as int),
        r <= FULL,
{
    match time {
        AnimTime::Fade(f) => {
            let up: u64 = f.fade_in as u64;
            let show: u64 = match f.show_for {
                Some(s) => s as u64,
                None => cycle as u64,
            };
            let hold: u64 = up + show;
            let end: u64 = hold + f.fade_out as u64;
            if t < up {
                assert((t as int) * 1000 / (up as int) <= 1000) by (nonlinear_arith)
                    requires t < up;
                (t * 1000 / up) as u32
            } else if t < hold {
                FULL
            } else if t < end {
                let left: u64 = end - t;
                assert((left as int) * 1000 / (f.fade_out as int) <= 1000) by (nonlinear_arith)
                    requires left <= f.fade_out as int, left > 0;
                (left * 1000 / (f.fade_out as u64)) as u32
            } else {
                0
            }
        },
        _ => FULL,
    }
}

/// The brightness, in thousandths, of a frame: the global brightness times
/// the action's own brightness times the fade level.
pub open spec fn frame_level(global: int, action: int, level: int) -> int {
    global * action * level / 1_000_000
}

/// Plays the resolved actions on the matrix, driven by lifecycle triggers
/// and a periodic tick.
pub struct AnimeEngine {
    pub cache: AnimeConfigCached,
    /// Global brightness in thousandths, `0..=1000`.
    pub brightness: u32,
    pub awake_enabled: bool,
    pub boot_anim_enabled: bool,
    pub state: EngineState,
}

/// Whether `t` does anything under the given enable flags.
pub open spec fn trigger_enabled(t: Trigger, awake_enabled: bool, boot_anim_enabled: bool) -> bool {
    match t {
        Trigger::Boot => boot_anim_enabled,
        Trigger::System | Trigger::Wake => awake_enabled,
        Trigger::Shutdown => true,
    }
}

/// The state that the tick after `s` enters, with `len` actions in the
/// playing list, `length` the play length of the playing action.
pub open spec fn next_state(s: EngineState, dt: int, length: Option<int>, len: int) -> EngineState {
    match s {
        EngineState::Idle => EngineState::Idle,
        EngineState::Playing { list, index, elapsed } => {
            let now = if elapsed + dt > u64::MAX { u64::MAX as int } else { elapsed + dt };
            match length {
                Some(l) if now >= l => if index + 1 < len {
                    EngineState::Playing { list, index: (index + 1) as usize, elapsed: 0 }
                } else if list == Trigger::System {
                    EngineState::Playing { list, index: 0, elapsed: 0 }
                } else {
                    EngineState::Idle
                },
                _ => EngineState::Playing { list, index, elapsed: now as u64 },
            }
        },
    }
}

impl AnimeEngine {
    /// The playing action, if any, is an action of its list.
    pub open spec fn wf(&self) -> bool {
        &&& self.brightness <= FULL
        &&& match self.state {
            EngineState::Idle => true,
            EngineState::Playing { list, index, .. } => index < self.cache.list(list).len(),
        }
    }

    /// An engine for `config` on a matrix of geometry `anime_type`, idle.
    pub fn new(config: &AnimeConfig, anime_type: AnimeType) -> (r: AnimeEngine)
        ensures
            r.wf(),
            r.state == EngineState::Idle,
            r.brightness == clamp_brightness(config.brightness as int),
            r.awake_enabled == config.awake_enabled,
            r.boot_anim_enabled == config.boot_anim_enabled,
            resolves_all(r.cache.system@, anime_type, config.system@),
            resolves_all(r.cache.boot@, anime_type, config.boot@),
            resolves_all(r.cache.wake@, anime_type, config.wake@),
            resolves_all(r.cache.shutdown@, anime_type, config.shutdown@),
    {
        let mut cache = AnimeConfigCached::new();
        cache.init_from_config(config, anime_type);
        let brightness: u32 = if config.brightness < 0 {
            0
        } else if config.brightness > FULL as i64 {
            FULL
        } else {
            config.brightness as u32
        };
        AnimeEngine {
            cache,
            brightness,
            awake_enabled: config.awake_enabled,
            boot_anim_enabled: config.boot_anim_enabled,
            state: EngineState::Idle,
        }
    }

    /// Replaces every list and setting at once from a new config; what was
    /// playing stops.
    pub fn apply_config(&mut self, config: &AnimeConfig, anime_type: AnimeType)
        ensures
            final(self).wf(),
            final(self).state == EngineState::Idle,
            final(self).brightness == clamp_brightness(config.brightness as int),
            final(self).awake_enabled == config.awake_enabled,
            final(self).boot_anim_enabled == config.boot_anim_enabled,
            resolves_all(final(self).cache.system@, anime_type, config.system@),
            resolves_all(final(self).cache.boot@, anime_type, config.boot@),
            resolves_all(final(self).cache.wake@, anime_type, config.wake@),
            resolves_all(final(self).cache.shutdown@, anime_type, config.shutdown@),
    {
        *self = AnimeEngine::new(config, anime_type);
    }

    /// A lifecycle event: when enabled it pre-empts whatever plays and starts
    /// its own list from the first action, or goes idle on an empty list.
    /// A disabled event changes nothing.
    pub fn trigger(&mut self, t: Trigger)
        requires
            old(self).wf(),
        ensures
            final(self).wf(),
            final(self).cache == old(self).cache,
            final(self).brightness == old(self).brightness,
            final(self).awake_enabled == old(self).awake_enabled,
            final(self).boot_anim_enabled == old(self).boot_anim_enabled,
            final(self).state == (if !trigger_enabled(t, old(self).awake_enabled, old(self).boot_anim_enabled) {
                old(self).state
            } else if old(self).cache.list(t).len() == 0 {
                EngineState::Idle
            } else {
                EngineState::Playing { list: t, index: 0, elapsed: 0 }
            }),
    {
        let enabled = match t {
            Trigger::Boot => self.boot_anim_enabled,
            Trigger::System | Trigger::Wake => self.awake_enabled,
            Trigger::Shutdown => true,
        };
        if !enabled {
            return;
        }
        if self.cache.list_len(t) == 0 {
            self.state = EngineState::Idle;
        } else {
            self.state = EngineState::Playing { list: t, index: 0, elapsed: 0 };
        }
    }

    /// The play length of the playing action under a source of `cycle` ms.
    pub open spec fn current_length(&self, cycle: int) -> Option<int> {
        match self.state {
            EngineState::Idle => None,
            EngineState::Playing { list, index, .. } => play_length(self.cache.list(list)[index as int].time, cycle),
        }
    }

    pub open spec fn current_len(&self) -> int {
        match self.state {
            EngineState::Idle => 0,
            EngineState::Playing { list, .. } => self.cache.list(list).len() as int,
        }
    }

    /// Advances playback by `dt` milliseconds. `cycle` is the length of one
    /// playback of the playing action's source. When the action's time is up
    /// the next action of the list begins; after the last one the `system`
    /// list starts over and any other list goes idle.
    pub fn tick(&mut self, dt: u32, cycle: u32)
        requires
            old(self).wf(),
        ensures
            final(self).wf(),
            final(self).cache == old(self).cache,
            final(self).brightness == old(self).brightness,
            final(self).awake_enabled == old(self).awake_enabled,
            final(self).boot_anim_enabled == old(self).boot_anim_enabled,
            final(self).state == next_state(
                old(self).state,
                dt as int,
                old(self).current_length(cycle as int),
                old(self).current_len(),
            ),
    {
        match self.state {
            EngineState::Idle => {},
            EngineState::Playing { list, index, elapsed } => {
                let now: u64 = if elapsed > u64::MAX - dt as u64 {
                    u64::MAX
                } else {
                    elapsed + dt as u64
                };
                let len = self.cache.list_len(list);
                let time = self.cache.action(list, index).time;
                let done = match time {
                    AnimTime::Fade(f) => {
                        let show: u64 = match f.show_for {
                            Some(s) => s as u64,
                            None => cycle as u64,
                        };
                        now >= f.fade_in as u64 + show + f.fade_out as u64
                    },
                    AnimTime::Infinite => false,
                    AnimTime::Count(n) => {
                        assert((n as int) * (cycle as int) <= 0xffff_ffff * 0xffff_ffff) by (nonlinear_arith)
                            requires n <= 0xffff_ffff, cycle <= 0xffff_ffff;
                        now as u128 >= n as u128 * cycle as u128
                    },
                };
                if done {
                    if index + 1 < len {
                        self.state = EngineState::Playing { list, index: index + 1, elapsed: 0 };
                    } else if list == Trigger::System {
                        self.state = EngineState::Playing { list, index: 0, elapsed: 0 };
                    } else {
                        self.state = EngineState::Idle;
                    }
                } else {
                    self.state = EngineState::Playing { list, index, elapsed: now };
                }
            },
        }
    }

    /// The brightness, in thousandths, of the frame to show now, or `None`
    /// when idle.
    pub fn frame_brightness(&self, cycle: u32) -> (r: Option<u64>)
        requires
            self.wf(),
        ensures
            r == (match self.state {
                EngineState::Idle => None,
                EngineState::Playing { list, index, elapsed } => {
                    let a = self.cache.list(list)[index as int];
                    Some(
                        frame_level(
                            self.brightness as int,
                            a.brightness as int,
                            fade_level(a.time, cycle as int, elapsed as int),
                        ) as u64,
                    )
                },
            }),
    {
        match self.state {
            EngineState::Idle => None,
            EngineState::Playing { list, index, elapsed } => {
                let a = self.cache.action(list, index);
                let level = fade_level_at(a.time, cycle, elapsed);
                let g: u64 = self.brightness as u64;
                let b: u64 = a.brightness as u64;
                assert(g * b <= 1000 * 0xffff_ffff) by (nonlinear_arith)
                    requires g <= 1000, b <= 0xffff_ffff;
                assert(g * b * (level as u64) <= 1000 * 0xffff_ffff * 1000) by (nonlinear_arith)
                    requires g * b <= 1000 * 0xffff_ffff, level <= 1000;
                Some(g * b * (level as u64) / 1_000_000)
            },
        }
    }
}

/// Fade timing law: an action faded in over 2 s, shown 2 s and faded out
/// over 2 s is at half its brightness 1 s in, at all of it 3 s in, at half
/// again 5 s in and dark from 6 s on; a tick that reaches 6 s moves on to the
/// next action, starts `system` over after its last one, or goes idle.
pub proof fn lemma_fade_timing(cycle: int, t: int, list: Trigger, index: usize, elapsed: u64, dt: int, len: int)
    requires
        dt >= 0,
        elapsed + dt >= 6000,
    ensures
        ({
            let f = AnimTime::Fade(Fade { fade_in: 2000, show_for: Some(2000), fade_out: 2000 });
            &&& fade_level(f, cycle, 1000) == 500
            &&& fade_level(f, cycle, 3000) == 1000
            &&& fade_level(f, cycle, 5000) == 500
            &&& (t >= 6000 ==> fade_level(f, cycle, t) == 0)
            &&& play_length(f, cycle) == Some(6000int)
            &&& next_state(EngineState::Playing { list, index, elapsed }, dt, play_length(f, cycle), len)
                == (if index + 1 < len {
                EngineState::Playing { list, index: (index + 1) as usize, elapsed: 0 }
            } else if list == Trigger::System {
                EngineState::Playing { list, index: 0, elapsed: 0 }
            } else {
                EngineState::Idle
            })
        }),
{
}

} // verus!

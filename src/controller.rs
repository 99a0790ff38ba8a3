use vstd::prelude::*;
use crate::capability::{Attr, SupportedFunctions};
use crate::fan_curve::{check_curve, check_result, CurveError, CurvePoint};
use crate::gpu::{combined_mode, dgpu_mode, mode_from_attrs, mux_byte, mux_mode, GpuMode};

verus! {

/// A fan and thermal preset.
#[derive(Debug, PartialEq, Eq, Structural, Clone, Copy)]
pub enum Profile {
    Balanced,
    Performance,
    Quiet,
}

/// The `throttle_thermal_policy` value of each profile.
pub open spec fn profile_byte(p: Profile) -> u8 {
    match p {
        Profile::Balanced => 0,
        Profile::Performance => 1,
        Profile::Quiet => 2,
    }
}

impl Profile {
    pub fn to_policy(&self) -> (r: u8)
        ensures
            r == profile_byte(*self),
    {
        match self {
            Profile::Balanced => 0,
            Profile::Performance => 1,
            Profile::Quiet => 2,
        }
    }
}

/// The change announced to every subscriber after a successful write.
#[derive(Debug, PartialEq, Eq, Structural, Clone, Copy)]
pub enum Notification {
    Profile(Profile),
    KbdBrightness(u8),
    KbdRgbMode,
    KbdRgbState,
    FanCurve(Profile),
    ChargeLimit(u8),
    PostSound(bool),
    DedicatedGfx(bool),
    GpuMode(GpuMode),
    AnimeOn(bool),
    AnimeBootOn(bool),
    AnimeFrame,
}

/// Why a controller refused a request.
#[derive(Debug, PartialEq, Eq, Structural, Clone, Copy)]
pub enum CtrlError {
    /// This machine does not expose the feature.
    Unsupported(Attr),
    /// The value is outside what the feature takes.
    Invalid(Attr),
    /// A fan curve was refused.
    Curve(CurveError),
}

/// One write of bytes to a device attribute.
#[derive(Debug)]
pub struct AttrWrite {
    pub attr: Attr,
    pub bytes: Vec<u8>,
}

/// The writes a request takes, in order, and the change to announce once
/// they succeed.
#[derive(Debug)]
pub struct Command {
    pub writes: Vec<AttrWrite>,
    pub notify: Notification,
}

/// `c` is the single write of `bytes` to `a`, announced as `n`.
pub open spec fn single_write(c: Command, a: Attr, bytes: Seq<u8>, n: Notification) -> bool {
    &&& c.writes@.len() == 1
    &&& c.writes@[0].attr == a
    &&& c.writes@[0].bytes@ == bytes
    &&& c.notify == n
}

/// The outcome of a set on `a`: refused without any write where the machine
/// lacks `a`, refused where `valid` fails, else the single write of `bytes`.
pub open spec fn gated(
    r: Result<Command, CtrlError>,
    s: SupportedFunctions,
    a: Attr,
    valid: bool,
    bytes: Seq<u8>,
    n: Notification,
) -> bool {
    if !s.allows(a) {
        r == Err::<Command, CtrlError>(CtrlError::Unsupported(a))
    } else if !valid {
        r == Err::<Command, CtrlError>(CtrlError::Invalid(a))
    } else {
        r matches Ok(c) && single_write(c, a, bytes, n)
    }
}

fn write_one(a: Attr, bytes: Vec<u8>, n: Notification) -> (r: Command)
    ensures
        single_write(r, a, bytes@, n),
{
    let mut writes: Vec<AttrWrite> = Vec::new();
    writes.push(AttrWrite { attr: a, bytes });
    Command { writes, notify: n }
}

fn one_byte(b: u8) -> (r: Vec<u8>)
    ensures
        r@ == seq![b],
{
    let mut v: Vec<u8> = Vec::new();
    v.push(b);
    assert(v@ =~= seq![b]);
    v
}

/// Sets the keyboard backlight level, `0..=3`.
pub fn set_kbd_brightness(s: &SupportedFunctions, level: u8) -> (r: Result<Command, CtrlError>)
    ensures
        gated(r, *s, Attr::KbdBrightness, level <= 3, seq![level], Notification::KbdBrightness(level)),
{
    if !s.supports(Attr::KbdBrightness) {
        return Err(CtrlError::Unsupported(Attr::KbdBrightness));
    }
    if level > 3 {
        return Err(CtrlError::Invalid(Attr::KbdBrightness));
    }
    Ok(write_one(Attr::KbdBrightness, one_byte(level), Notification::KbdBrightness(level)))
}

/// Sets the keyboard RGB mode from its packet; the mode cannot be read back.
pub fn set_kbd_rgb_mode(s: &SupportedFunctions, packet: Vec<u8>) -> (r: Result<Command, CtrlError>)
    ensures
        gated(r, *s, Attr::KbdRgbMode, packet@.len() > 0, packet@, Notification::KbdRgbMode),
{
    if !s.supports(Attr::KbdRgbMode) {
        return Err(CtrlError::Unsupported(Attr::KbdRgbMode));
    }
    if packet.len() == 0 {
        return Err(CtrlError::Invalid(Attr::KbdRgbMode));
    }
    Ok(write_one(Attr::KbdRgbMode, packet, Notification::KbdRgbMode))
}

/// Sets the keyboard RGB power states from their packet; write-only too.
pub fn set_kbd_rgb_state(s: &SupportedFunctions, packet: Vec<u8>) -> (r: Result<Command, CtrlError>)
    ensures
        gated(r, *s, Attr::KbdRgbState, packet@.len() > 0, packet@, Notification::KbdRgbState),
{
    if !s.supports(Attr::KbdRgbState) {
        return Err(CtrlError::Unsupported(Attr::KbdRgbState));
    }
    if packet.len() == 0 {
        return Err(CtrlError::Invalid(Attr::KbdRgbState));
    }
    Ok(write_one(Attr::KbdRgbState, packet, Notification::KbdRgbState))
}

/// Sets the battery charge limit, a percentage in `20..=100`.
pub fn set_charge_limit(s: &SupportedFunctions, limit: u8) -> (r: Result<Command, CtrlError>)
    ensures
        gated(r, *s, Attr::ChargeLimit, 20 <= limit <= 100, seq![limit], Notification::ChargeLimit(limit)),
{
    if !s.supports(Attr::ChargeLimit) {
        return Err(CtrlError::Unsupported(Attr::ChargeLimit));
    }
    if limit < 20 || limit > 100 {
        return Err(CtrlError::Invalid(Attr::ChargeLimit));
    }
    Ok(write_one(Attr::ChargeLimit, one_byte(limit), Notification::ChargeLimit(limit)))
}

/// Turns the firmware's POST sound on or off, written as a byte.
pub fn set_post_sound(s: &SupportedFunctions, on: bool) -> (r: Result<Command, CtrlError>)
    ensures
        gated(r, *s, Attr::PostSound, true, seq![if on { 1u8 } else { 0u8 }], Notification::PostSound(on)),
{
    if !s.supports(Attr::PostSound) {
        return Err(CtrlError::Unsupported(Attr::PostSound));
    }
    let b: u8 = if on { 1 } else { 0 };
    Ok(write_one(Attr::PostSound, one_byte(b), Notification::PostSound(on)))
}

/// Routes the display to the dedicated GPU, or back to hybrid, through the
/// mux attribute.
pub fn set_dedicated_gfx(s: &SupportedFunctions, on: bool) -> (r: Result<Command, CtrlError>)
    ensures
        gated(
            r,
            *s,
            Attr::GpuMuxMode,
            true,
            seq![mux_byte(if on { GpuMode::Discrete } else { GpuMode::Optimus })],
            Notification::DedicatedGfx(on),
        ),
{
    if !s.supports(Attr::GpuMuxMode) {
        return Err(CtrlError::Unsupported(Attr::GpuMuxMode));
    }
    let mode = if on { GpuMode::Discrete } else { GpuMode::Optimus };
    Ok(write_one(Attr::GpuMuxMode, one_byte(mode.to_mux_attr()), Notification::DedicatedGfx(on)))
}

/// Writes the mux encoding of `mode`. Only a mode the mux can route to is
/// taken: `Error` and `NotSupported` are refused.
pub fn set_gpu_mode(s: &SupportedFunctions, mode: GpuMode) -> (r: Result<Command, CtrlError>)
    ensures
        gated(
            r,
            *s,
            Attr::GpuMuxMode,
            mode != GpuMode::Error && mode != GpuMode::NotSupported,
            seq![mux_byte(mode)],
            Notification::GpuMode(mode),
        ),
{
    if !s.supports(Attr::GpuMuxMode) {
        return Err(CtrlError::Unsupported(Attr::GpuMuxMode));
    }
    if mode == GpuMode::Error || mode == GpuMode::NotSupported {
        return Err(CtrlError::Invalid(Attr::GpuMuxMode));
    }
    Ok(write_one(Attr::GpuMuxMode, one_byte(mode.to_mux_attr()), Notification::GpuMode(mode)))
}

/// Turns the matrix display on or off.
pub fn set_anime_on(s: &SupportedFunctions, on: bool) -> (r: Result<Command, CtrlError>)
    ensures
        gated(r, *s, Attr::AnimeMatrix, true, seq![if on { 1u8 } else { 0u8 }], Notification::AnimeOn(on)),
{
    if !s.supports(Attr::AnimeMatrix) {
        return Err(CtrlError::Unsupported(Attr::AnimeMatrix));
    }
    let b: u8 = if on { 1 } else { 0 };
    Ok(write_one(Attr::AnimeMatrix, one_byte(b), Notification::AnimeOn(on)))
}

/// Number of LED values in one full frame of the matrix.
pub const FULL_PANE_LEN: usize = 1245;

/// Writes one frame straight to the matrix, bypassing the animation engine.
pub fn write_direct(s: &SupportedFunctions, frame: Vec<u8>) -> (r: Result<Command, CtrlError>)
    ensures
        gated(r, *s, Attr::AnimeMatrix, frame@.len() == FULL_PANE_LEN, frame@, Notification::AnimeFrame),
{
    if !s.supports(Attr::AnimeMatrix) {
        return Err(CtrlError::Unsupported(Attr::AnimeMatrix));
    }
    if frame.len() != FULL_PANE_LEN {
        return Err(CtrlError::Invalid(Attr::AnimeMatrix));
    }
    Ok(write_one(Attr::AnimeMatrix, frame, Notification::AnimeFrame))
}

/// Reads the keyboard backlight level from what the attribute held; a
/// failed read counts as level 0.
pub fn get_kbd_brightness(s: &SupportedFunctions, read: Option<u8>) -> (r: Result<u8, CtrlError>)
    ensures
        !s.allows(Attr::KbdBrightness) ==> r == Err::<u8, CtrlError>(CtrlError::Unsupported(Attr::KbdBrightness)),
        s.allows(Attr::KbdBrightness) ==> r == Ok::<u8, CtrlError>(
            match read {
                Some(b) => b,
                None => 0,
            },
        ),
{
    if !s.supports(Attr::KbdBrightness) {
        return Err(CtrlError::Unsupported(Attr::KbdBrightness));
    }
    match read {
        Some(b) => Ok(b),
        None => Ok(0),
    }
}

/// Reads a firmware toggle stored as a byte: on exactly when it holds 1; a
/// failed read counts as off.
pub fn get_post_sound(s: &SupportedFunctions, read: Option<u8>) -> (r: Result<bool, CtrlError>)
    ensures
        !s.allows(Attr::PostSound) ==> r == Err::<bool, CtrlError>(CtrlError::Unsupported(Attr::PostSound)),
        s.allows(Attr::PostSound) ==> r == Ok::<bool, CtrlError>(read == Some(1u8)),
{
    if !s.supports(Attr::PostSound) {
        return Err(CtrlError::Unsupported(Attr::PostSound));
    }
    Ok(match read {
        Some(b) => b == 1,
        None => false,
    })
}

/// Reads the graphics mode back from the dGPU and mux attributes, the
/// dGPU's taking precedence; with neither readable the mode is unknown.
pub fn get_gpu_mode(s: &SupportedFunctions, dgpu: Option<u8>, mux: Option<u8>) -> (r: Result<GpuMode, CtrlError>)
    ensures
        !s.allows(Attr::GpuMuxMode) ==> r == Err::<GpuMode, CtrlError>(CtrlError::Unsupported(Attr::GpuMuxMode)),
        s.allows(Attr::GpuMuxMode) ==> r == Ok::<GpuMode, CtrlError>(
            match (dgpu, mux) {
                (Some(d), Some(m)) => combined_mode(dgpu_mode(d), mux_mode(m)),
                (Some(d), None) => dgpu_mode(d),
                (None, Some(m)) => mux_mode(m),
                (None, None) => GpuMode::NotSupported,
            },
        ),
{
    if !s.supports(Attr::GpuMuxMode) {
        return Err(CtrlError::Unsupported(Attr::GpuMuxMode));
    }
    Ok(mode_from_attrs(dgpu, mux))
}

/// The profiles a machine cycles through and the one in use.
pub struct ProfileController {
    pub profiles: Vec<Profile>,
    pub active: usize,
}

impl ProfileController {
    pub open spec fn wf(&self) -> bool {
        self.active < self.profiles@.len()
    }

    /// Starts on the first of `profiles`, which must not be empty.
    pub fn new(profiles: Vec<Profile>) -> (r: ProfileController)
        requires
            profiles@.len() > 0,
        ensures
            r.wf(),
            r.profiles@ == profiles@,
            r.active == 0,
    {
        ProfileController { profiles, active: 0 }
    }

    pub fn active_profile(&self) -> (r: Profile)
        requires
            self.wf(),
        ensures
            r == self.profiles@[self.active as int],
    {
        self.profiles[self.active]
    }

    /// Selects `p`, which must be one of the configured profiles, and writes
    /// its thermal policy. Nothing changes on an error.
    pub fn set_profile(&mut self, s: &SupportedFunctions, p: Profile) -> (r: Result<Command, CtrlError>)
        requires
            old(self).wf(),
        ensures
            final(self).wf(),
            final(self).profiles@ == old(self).profiles@,
            gated(
                r,
                *s,
                Attr::ThrottlePolicy,
                old(self).profiles@.contains(p),
                seq![profile_byte(p)],
                Notification::Profile(p),
            ),
            r is Ok ==> final(self).profiles@[final(self).active as int] == p,
            r is Err ==> final(self).active == old(self).active,
    {
        if !s.supports(Attr::ThrottlePolicy) {
            return Err(CtrlError::Unsupported(Attr::ThrottlePolicy));
        }
        let mut i: usize = 0;
        while i < self.profiles.len()
            invariant
                0 <= i <= self.profiles@.len(),
                self.wf(),
                s.allows(Attr::ThrottlePolicy),
                self.profiles@ == old(self).profiles@,
                self.active == old(self).active,
                forall|j: int| 0 <= j < i ==> self.profiles@[j] != p,
            decreases self.profiles@.len() - i,
        {
            if self.profiles[i] == p {
                assert(old(self).profiles@[i as int] == p);
                assert(old(self).profiles@.contains(p));
                self.active = i;

                return Ok(write_one(Attr::ThrottlePolicy, one_byte(p.to_policy()), Notification::Profile(p)));
            }
            i = i + 1;
        }
        Err(CtrlError::Invalid(Attr::ThrottlePolicy))
    }

    /// Moves to the next configured profile, back to the first after the
    /// last, and writes its thermal policy.
    pub fn next_profile(&mut self, s: &SupportedFunctions) -> (r: Result<Command, CtrlError>)
        requires
            old(self).wf(),
        ensures
            final(self).wf(),
            final(self).profiles@ == old(self).profiles@,
            !s.allows(Attr::ThrottlePolicy) ==> r == Err::<Command, CtrlError>(CtrlError::Unsupported(Attr::ThrottlePolicy))
                && final(self).active == old(self).active,
            s.allows(Attr::ThrottlePolicy) ==> final(self).active == (if old(self).active + 1 < old(
                self,
            ).profiles@.len() {
                old(self).active + 1
            } else {
                0
            }),
            s.allows(Attr::ThrottlePolicy) ==> (r matches Ok(c) && single_write(
                c,
                Attr::ThrottlePolicy,
                seq![profile_byte(final(self).profiles@[final(self).active as int])],
                Notification::Profile(final(self).profiles@[final(self).active as int]),
            )),
    {
        if !s.supports(Attr::ThrottlePolicy) {
            return Err(CtrlError::Unsupported(Attr::ThrottlePolicy));
        }
        let next: usize = if self.active < self.profiles.len() - 1 { self.active + 1 } else { 0 };
        self.active = next;
        let p = self.profiles[next];
        Ok(write_one(Attr::ThrottlePolicy, one_byte(p.to_policy()), Notification::Profile(p)))
    }
}

/// Encodes a curve for the fan attribute: each temperature, then each value.
pub open spec fn curve_bytes(c: Seq<CurvePoint>) -> Seq<u8> {
    Seq::new(c.len(), |i: int| c[i].temp) + Seq::new(c.len(), |i: int| c[i].value)
}

/// Replaces the active profile's fan curve. The curve is checked first; a
/// refused curve writes nothing.
pub fn set_fan_curve(s: &SupportedFunctions, active: Profile, curve: &Vec<CurvePoint>) -> (r: Result<
    Command,
    CtrlError,
>)
    ensures
        !s.allows(Attr::FanCurve) ==> r == Err::<Command, CtrlError>(CtrlError::Unsupported(Attr::FanCurve)),
        s.allows(Attr::FanCurve) ==> match check_result(curve@) {
            Err(e) => r == Err::<Command, CtrlError>(CtrlError::Curve(e)),
            Ok(_) => r matches Ok(c) && single_write(c, Attr::FanCurve, curve_bytes(curve@), Notification::FanCurve(active)),
        },
{
    if !s.supports(Attr::FanCurve) {
        return Err(CtrlError::Unsupported(Attr::FanCurve));
    }
    match check_curve(curve) {
        Err(e) => Err(CtrlError::Curve(e)),
        Ok(()) => {
            let mut bytes: Vec<u8> = Vec::new();
            let mut i: usize = 0;
            while i < curve.len()
                invariant
                    0 <= i <= curve@.len(),
                    bytes@ == Seq::new(i as nat, |k: int| curve@[k].temp),
                decreases curve@.len() - i,
            {
                bytes.push(curve[i].temp);
                i = i + 1;
                assert(bytes@ =~= Seq::new(i as nat, |k: int| curve@[k].temp));
            }
            let mut j: usize = 0;
            while j < curve.len()
                invariant
                    0 <= j <= curve@.len(),
                    bytes@ == Seq::new(curve@.len(), |k: int| curve@[k].temp) + Seq::new(j as nat, |k: int| curve@[k].value),
                decreases curve@.len() - j,
            {
                bytes.push(curve[j].value);
                j = j + 1;
                assert(bytes@ =~= Seq::new(curve@.len(), |k: int| curve@[k].temp) + Seq::new(j as nat, |k: int| curve@[k].value));
            }
            Ok(write_one(Attr::FanCurve, bytes, Notification::FanCurve(active)))
        },
    }
}

/// Capability gating law: a set on a feature that the machine lacks yields
/// the capability error and no command, so no device write takes place,
/// whatever the value asked for.
pub proof fn lemma_unsupported_writes_nothing(
    r: Result<Command, CtrlError>,
    s: SupportedFunctions,
    a: Attr,
    valid: bool,
    bytes: Seq<u8>,
    n: Notification,
)
    requires
        gated(r, s, a, valid, bytes, n),
        !s.allows(a),
    ensures
        r == Err::<Command, CtrlError>(CtrlError::Unsupported(a)),
        !(r is Ok),
{
}

} // verus!

use vstd::prelude::*;

verus! {

/// A device attribute that a controller reads or writes.
#[derive(Debug, PartialEq, Eq, Structural, Clone, Copy)]
pub enum Attr {
    KbdBrightness,
    KbdRgbMode,
    KbdRgbState,
    ThrottlePolicy,
    FanCurve,
    ChargeLimit,
    PostSound,
    DgpuDisable,
    EgpuEnable,
    GpuMuxMode,
    PanelOd,
    AnimeMatrix,
}

#[derive(Debug, PartialEq, Eq, Structural, Clone, Copy)]
pub struct LedSupportedFunctions {
    pub brightness_set: bool,
    pub rgb_mode_set: bool,
    pub rgb_state_set: bool,
}

#[derive(Debug, PartialEq, Eq, Structural, Clone, Copy)]
pub struct FanCpuSupportedFunctions {
    pub stock_fan_modes: bool,
    pub fan_curve_set: bool,
}

#[derive(Debug, PartialEq, Eq, Structural, Clone, Copy)]
pub struct RogBiosSupportedFunctions {
    pub post_sound_toggle: bool,
    pub dedicated_gfx_toggle: bool,
    pub egpu_toggle: bool,
    pub panel_overdrive: bool,
}

/// What the running machine exposes, probed once at startup and never
/// changed afterwards.
#[derive(Debug, PartialEq, Eq, Structural, Clone, Copy)]
pub struct SupportedFunctions {
    pub keyboard_led: LedSupportedFunctions,
    pub fan_cpu_ctrl: FanCpuSupportedFunctions,
    pub charge_level_set: bool,
    pub rog_bios_ctrl: RogBiosSupportedFunctions,
    pub anime_ctrl: bool,
}

/// Whether `a` is among the attributes found.
pub fn has_attr(found: &Vec<Attr>, a: Attr) -> (r: bool)
    ensures
        r == found@.contains(a),
{
    let mut i: usize = 0;
    while i < found.len()
        invariant
            0 <= i <= found@.len(),
            forall|j: int| 0 <= j < i ==> found@[j] != a,
        decreases found@.len() - i,
    {
        if found[i] == a {
            return true;
        }
        i = i + 1;
    }
    false
}

/// Each feature is supported exactly when its attributes were found.
pub open spec fn probed_from(s: SupportedFunctions, found: Seq<Attr>) -> bool {
    &&& s.keyboard_led.brightness_set == found.contains(Attr::KbdBrightness)
    &&& s.keyboard_led.rgb_mode_set == found.contains(Attr::KbdRgbMode)
    &&& s.keyboard_led.rgb_state_set == found.contains(Attr::KbdRgbState)
    &&& s.fan_cpu_ctrl.stock_fan_modes == found.contains(Attr::ThrottlePolicy)
    &&& s.fan_cpu_ctrl.fan_curve_set == found.contains(Attr::FanCurve)
    &&& s.charge_level_set == found.contains(Attr::ChargeLimit)
    &&& s.rog_bios_ctrl.post_sound_toggle == found.contains(Attr::PostSound)
    &&& s.rog_bios_ctrl.dedicated_gfx_toggle == found.contains(Attr::GpuMuxMode)
    &&& s.rog_bios_ctrl.egpu_toggle == found.contains(Attr::EgpuEnable)
    &&& s.rog_bios_ctrl.panel_overdrive == found.contains(Attr::PanelOd)
    &&& s.anime_ctrl == found.contains(Attr::AnimeMatrix)
}

impl SupportedFunctions {
    /// Builds the snapshot from the attributes that device discovery found.
    /// A feature that was not found is unsupported; the probe never fails.
    pub fn probe(found: &Vec<Attr>) -> (r: SupportedFunctions)
        ensures
            probed_from(r, found@),
    {
        SupportedFunctions {
            keyboard_led: LedSupportedFunctions {
                brightness_set: has_attr(found, Attr::KbdBrightness),
                rgb_mode_set: has_attr(found, Attr::KbdRgbMode),
                rgb_state_set: has_attr(found, Attr::KbdRgbState),
            },
            fan_cpu_ctrl: FanCpuSupportedFunctions {
                stock_fan_modes: has_attr(found, Attr::ThrottlePolicy),
                fan_curve_set: has_attr(found, Attr::FanCurve),
            },
            charge_level_set: has_attr(found, Attr::ChargeLimit),
            rog_bios_ctrl: RogBiosSupportedFunctions {
                post_sound_toggle: has_attr(found, Attr::PostSound),
                dedicated_gfx_toggle: has_attr(found, Attr::GpuMuxMode),
                egpu_toggle: has_attr(found, Attr::EgpuEnable),
                panel_overdrive: has_attr(found, Attr::PanelOd),
            },
            anime_ctrl: has_attr(found, Attr::AnimeMatrix),
        }
    }

    /// Whether writing `a` is allowed on this machine.
    pub open spec fn allows(&self, a: Attr) -> bool {
        match a {
            Attr::KbdBrightness => self.keyboard_led.brightness_set,
            Attr::KbdRgbMode => self.keyboard_led.rgb_mode_set,
            Attr::KbdRgbState => self.keyboard_led.rgb_state_set,
            Attr::ThrottlePolicy => self.fan_cpu_ctrl.stock_fan_modes,
            Attr::FanCurve => self.fan_cpu_ctrl.fan_curve_set,
            Attr::ChargeLimit => self.charge_level_set,
            Attr::PostSound => self.rog_bios_ctrl.post_sound_toggle,
            Attr::DgpuDisable => self.rog_bios_ctrl.dedicated_gfx_toggle,
            Attr::EgpuEnable => self.rog_bios_ctrl.egpu_toggle,
            Attr::GpuMuxMode => self.rog_bios_ctrl.dedicated_gfx_toggle,
            Attr::PanelOd => self.rog_bios_ctrl.panel_overdrive,
            Attr::AnimeMatrix => self.anime_ctrl,
        }
    }

    pub fn supports(&self, a: Attr) -> (r: bool)
        ensures
            r == self.allows(a),
    {
        match a {
            Attr::KbdBrightness => self.keyboard_led.brightness_set,
            Attr::KbdRgbMode => self.keyboard_led.rgb_mode_set,
            Attr::KbdRgbState => self.keyboard_led.rgb_state_set,
            Attr::ThrottlePolicy => self.fan_cpu_ctrl.stock_fan_modes,
            Attr::FanCurve => self.fan_cpu_ctrl.fan_curve_set,
            Attr::ChargeLimit => self.charge_level_set,
            Attr::PostSound => self.rog_bios_ctrl.post_sound_toggle,
            Attr::DgpuDisable => self.rog_bios_ctrl.dedicated_gfx_toggle,
            Attr::EgpuEnable => self.rog_bios_ctrl.egpu_toggle,
            Attr::GpuMuxMode => self.rog_bios_ctrl.dedicated_gfx_toggle,
            Attr::PanelOd => self.rog_bios_ctrl.panel_overdrive,
            Attr::AnimeMatrix => self.anime_ctrl,
        }
    }
}

} // verus!

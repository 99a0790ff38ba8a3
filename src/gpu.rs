use vstd::prelude::*;

verus! {

/// Graphics routing mode of the GPU multiplexer.
#[derive(Debug, PartialEq, Eq, Structural, Clone, Copy)]
pub enum GpuMode {
    Discrete,
    Optimus,
    Integrated,
    Egpu,
    Error,
    NotSupported,
}

/// ASCII `'0'`, the byte written for the discrete routing.
pub const ASCII_ZERO: u8 = 48;

/// ASCII `'1'`, the byte that switches an attribute on.
pub const ASCII_ONE: u8 = 49;

pub open spec fn mux_byte(m: GpuMode) -> u8 {
    if m == GpuMode::Discrete { ASCII_ZERO } else { ASCII_ONE }
}

pub open spec fn dgpu_byte(m: GpuMode) -> u8 {
    if m == GpuMode::Integrated { ASCII_ONE } else { ASCII_ZERO }
}

pub open spec fn egpu_byte(m: GpuMode) -> u8 {
    if m == GpuMode::Egpu { ASCII_ONE } else { ASCII_ZERO }
}

pub open spec fn mux_mode(num: u8) -> GpuMode {
    if num == ASCII_ZERO { GpuMode::Discrete } else { GpuMode::Optimus }
}

pub open spec fn dgpu_mode(num: u8) -> GpuMode {
    if num == 1 { GpuMode::Integrated } else { GpuMode::Optimus }
}

pub open spec fn egpu_mode(num: u8) -> GpuMode {
    if num == 1 { GpuMode::Egpu } else { GpuMode::Optimus }
}

impl GpuMode {
    /// For writing to the `gpu_mux_mode` attribute.
    pub fn to_mux_attr(&self) -> (r: u8)
        ensures
            r == mux_byte(*self),
    {
        if *self == Self::Discrete {
            return ASCII_ZERO;
        }
        ASCII_ONE
    }

    /// For writing to the `dgpu_disable` attribute.
    pub fn to_dgpu_attr(&self) -> (r: u8)
        ensures
            r == dgpu_byte(*self),
    {
        if *self == Self::Integrated {
            return ASCII_ONE;
        }
        ASCII_ZERO
    }

    /// For writing to the `egpu_enable` attribute.
    pub fn to_egpu_attr(&self) -> (r: u8)
        ensures
            r == egpu_byte(*self),
    {
        if *self == Self::Egpu {
            return ASCII_ONE;
        }
        ASCII_ZERO
    }

    /// Decodes a `gpu_mux_mode` byte: only the discrete encoding is told apart.
    pub fn from_mux(num: u8) -> (r: Self)
        ensures
            r == mux_mode(num),
    {
        if num == ASCII_ZERO {
            return Self::Discrete;
        }
        Self::Optimus
    }

    /// Decodes a `dgpu_disable` value: `1` means the dGPU is off.
    pub fn from_dgpu(num: u8) -> (r: Self)
        ensures
            r == dgpu_mode(num),
    {
        if num == 1 {
            return Self::Integrated;
        }
        Self::Optimus
    }

    /// Decodes an `egpu_enable` value. When `from_dgpu` disagrees, it wins.
    pub fn from_egpu(num: u8) -> (r: Self)
        ensures
            r == egpu_mode(num),
    {
        if num == 1 {
            return Self::Egpu;
        }
        Self::Optimus
    }
}

/// The mode reported when both the dGPU and the mux attribute were read:
/// the dGPU-derived mode takes precedence where the two disagree.
pub open spec fn combined_mode(dgpu: GpuMode, mux: GpuMode) -> GpuMode {
    if dgpu != mux { dgpu } else { mux }
}

/// Combines the modes decoded from the readable attributes. With neither
/// readable the platform does not support mode switching.
pub fn mode_from_attrs(dgpu: Option<u8>, mux: Option<u8>) -> (r: GpuMode)
    ensures
        r == (match (dgpu, mux) {
            (Some(d), Some(m)) => combined_mode(dgpu_mode(d), mux_mode(m)),
            (Some(d), None) => dgpu_mode(d),
            (None, Some(m)) => mux_mode(m),
            (None, None) => GpuMode::NotSupported,
        }),
{
    match (dgpu, mux) {
        (Some(d), Some(m)) => {
            let from_d = GpuMode::from_dgpu(d);
            let from_m = GpuMode::from_mux(m);
            if from_d != from_m {
                from_d
            } else {
                from_m
            }
        },
        (Some(d), None) => GpuMode::from_dgpu(d),
        (None, Some(m)) => GpuMode::from_mux(m),
        (None, None) => GpuMode::NotSupported,
    }
}

/// Decoding the mux byte undoes encoding only for the discrete mode; every
/// other byte collapses to `Optimus`, so the decode is no inverse.
pub proof fn lemma_mux_encoding_asymmetry(x: u8)
    ensures
        mux_mode(mux_byte(GpuMode::Discrete)) == GpuMode::Discrete,
        x != mux_byte(GpuMode::Discrete) ==> mux_mode(x) == GpuMode::Optimus,
        forall|m: GpuMode| m != GpuMode::Discrete ==> mux_mode(#[trigger] mux_byte(m)) == GpuMode::Optimus,
{
}

} // verus!

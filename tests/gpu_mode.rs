use rog_core::gpu::{mode_from_attrs, GpuMode};

#[test]
fn mux_round_trip_only_for_discrete() {
    assert_eq!(GpuMode::from_mux(GpuMode::Discrete.to_mux_attr()), GpuMode::Discrete);
    assert_eq!(GpuMode::from_mux(GpuMode::Integrated.to_mux_attr()), GpuMode::Optimus);
    assert_eq!(GpuMode::from_mux(GpuMode::Egpu.to_mux_attr()), GpuMode::Optimus);
    for x in 0..=255u8 {
        if x != GpuMode::Discrete.to_mux_attr() {
            assert_eq!(GpuMode::from_mux(x), GpuMode::Optimus);
        }
    }
}

#[test]
fn encodings_are_ascii_digits() {
    assert_eq!(GpuMode::Discrete.to_mux_attr(), b'0');
    assert_eq!(GpuMode::Optimus.to_mux_attr(), b'1');
    assert_eq!(GpuMode::Integrated.to_dgpu_attr(), b'1');
    assert_eq!(GpuMode::Discrete.to_dgpu_attr(), b'0');
    assert_eq!(GpuMode::Egpu.to_egpu_attr(), b'1');
    assert_eq!(GpuMode::Optimus.to_egpu_attr(), b'0');
}

#[test]
fn dgpu_and_egpu_decodes_collapse() {
    assert_eq!(GpuMode::from_dgpu(1), GpuMode::Integrated);
    assert_eq!(GpuMode::from_dgpu(0), GpuMode::Optimus);
    assert_eq!(GpuMode::from_dgpu(7), GpuMode::Optimus);
    assert_eq!(GpuMode::from_egpu(1), GpuMode::Egpu);
    assert_eq!(GpuMode::from_egpu(2), GpuMode::Optimus);
}

#[test]
fn dgpu_takes_precedence_over_mux() {
    assert_eq!(mode_from_attrs(Some(1), Some(b'0')), GpuMode::Integrated);
    assert_eq!(mode_from_attrs(Some(0), Some(b'0')), GpuMode::Optimus);
    assert_eq!(mode_from_attrs(None, Some(b'0')), GpuMode::Discrete);
    assert_eq!(mode_from_attrs(None, None), GpuMode::NotSupported);
}

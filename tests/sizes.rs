use frft::capacity::conv_length;
use frft::geometry::{Geometry, MAX_SIGNAL_LEN};

#[test]
fn conv_length_is_least_power_of_two() {
    assert_eq!(conv_length(2, 2), 4);
    assert_eq!(conv_length(1, 1), 1);
    assert_eq!(conv_length(0, 0), 1);
    assert_eq!(conv_length(4, 5), 8);
    assert_eq!(conv_length(3, 7), 16);
    assert_eq!(conv_length(16, 31), 64);
    assert_eq!(conv_length(16, 32), 64);
    assert_eq!(conv_length(40, 25), 64);
    assert_eq!(conv_length(40, 26), 128);
}

#[test]
fn geometry_rejects_short_signals() {
    assert!(Geometry::new(0).is_none());
    assert!(Geometry::new(1).is_none());
    assert!(Geometry::new(MAX_SIGNAL_LEN + 1).is_none());
    assert_eq!(Geometry::new(2).map(|g| g.len()), Some(2));
    assert_eq!(Geometry::new(MAX_SIGNAL_LEN).map(|g| g.len()), Some(MAX_SIGNAL_LEN));
}

#[test]
fn geometry_sizes_for_sixteen_samples() {
    let g = Geometry::new(16).unwrap();
    assert_eq!(g.len(), 16);
    assert_eq!(g.half(), 8);
    assert_eq!(g.upsampled_len(), 31);
    assert_eq!(g.sinc_half_width(), 29);
    assert_eq!(g.interp_capacity(), 128);
    assert_eq!(g.interp_window_start(), 29);
    assert_eq!(g.chirp_a_half_width(), 15);
    assert_eq!(g.chirp_b_half_width(), 31);
    assert_eq!(g.engine_capacity(), 64);
}

#[test]
fn geometry_sizes_for_two_samples() {
    let g = Geometry::new(2).unwrap();
    assert_eq!(g.half(), 1);
    assert_eq!(g.upsampled_len(), 3);
    assert_eq!(g.sinc_half_width(), 1);
    assert_eq!(g.interp_capacity(), 8);
    assert_eq!(g.engine_capacity(), 8);
}

use frft::geometry::Geometry;
use frft::session::Buffers;

#[test]
fn buffers_start_zeroed_with_equal_lengths() {
    let b = Buffers::new(Geometry::new(4).unwrap(), 0i32);
    assert_eq!(b.len(), 4);
    assert_eq!(b.time(), &vec![0, 0, 0, 0]);
    assert_eq!(b.freq(), &vec![0, 0, 0, 0]);
    assert_eq!(b.frac(), &vec![0, 0, 0, 0]);
    assert_eq!(b.geometry().len(), 4);
}

#[test]
fn time_samples_are_written_in_range_only() {
    let mut b = Buffers::new(Geometry::new(3).unwrap(), 0i32);
    assert!(b.set_time_sample(1, 7));
    assert!(!b.set_time_sample(3, 9));
    assert_eq!(b.time(), &vec![0, 7, 0]);
    assert_eq!(b.freq(), &vec![0, 0, 0]);
}

#[test]
fn replacement_is_whole_or_nothing() {
    let mut b = Buffers::new(Geometry::new(3).unwrap(), 0i32);
    assert!(b.replace_freq(vec![1, 2, 3]));
    assert!(!b.replace_freq(vec![4, 5]));
    assert_eq!(b.freq(), &vec![1, 2, 3]);
    assert!(!b.replace_frac(vec![1, 2, 3, 4]));
    assert_eq!(b.frac(), &vec![0, 0, 0]);
    assert!(b.replace_frac(vec![9, 8, 7]));
    assert_eq!(b.frac(), &vec![9, 8, 7]);
    assert!(b.replace_time(vec![5, 5, 5]));
    assert_eq!(b.time(), &vec![5, 5, 5]);
    assert_eq!(b.freq(), &vec![1, 2, 3]);
    assert_eq!(b.len(), 3);
}

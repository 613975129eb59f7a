use uhouse::fps::FpsCounter;

#[test]
fn reports_frames_of_each_interval() {
    let mut c = FpsCounter::new();
    for _ in 0..4 {
        assert_eq!(c.update(false), None);
    }
    assert_eq!(c.update(true), Some(5));
    assert_eq!(c.count(), 0);
    for _ in 0..2 {
        assert_eq!(c.update(false), None);
    }
    assert_eq!(c.update(true), Some(3));
    assert_eq!(c.count(), 0);
}

#[test]
fn boundary_on_first_frame_reports_one() {
    let mut c = FpsCounter::new();
    assert_eq!(c.update(true), Some(1));
    assert_eq!(c.update(true), Some(1));
}

#[test]
fn count_grows_without_boundary() {
    let mut c = FpsCounter::new();
    assert_eq!(c.count(), 0);
    c.update(false);
    c.update(false);
    assert_eq!(c.count(), 2);
}

#[test]
fn count_wraps_at_sixteen_bits() {
    let mut c = FpsCounter::new();
    for _ in 0..u16::MAX {
        c.update(false);
    }
    assert_eq!(c.count(), u16::MAX);
    assert_eq!(c.update(true), Some(0));
}

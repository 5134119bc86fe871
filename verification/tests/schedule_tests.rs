use img2video::collect::Collector;
use img2video::schedule::build_schedule;

#[test]
fn schedule_makes_n_times_r_submissions_with_contiguous_indices() {
    let v = build_schedule(2, 3);
    assert_eq!(v.len(), 6);
    for (k, s) in v.iter().enumerate() {
        assert_eq!(s.pts, k);
        assert_eq!(s.image, k / 3);
    }
    assert_eq!(v[0].image, 0);
    assert_eq!(v[2].image, 0);
    assert_eq!(v[3].image, 1);
    assert_eq!(v[5].image, 1);
}

#[test]
fn schedule_of_one_image_once() {
    let v = build_schedule(1, 1);
    assert_eq!(v.len(), 1);
    assert_eq!(v[0].pts, 0);
    assert_eq!(v[0].image, 0);
}

#[test]
fn schedule_of_nothing_is_empty() {
    let v = build_schedule(0, 5);
    assert!(v.is_empty());
}

#[test]
fn collector_appends_in_arrival_order() {
    let mut c = Collector::new();
    assert_eq!(c.len(), 0);
    c.append(&vec![1, 2]);
    c.append(&vec![]);
    c.append(&vec![3]);
    assert_eq!(c.len(), 3);
    assert_eq!(c.into_bytes(), vec![1, 2, 3]);
}

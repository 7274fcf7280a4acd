use spinnrd::debounce::Debounce;
use spinnrd::rotation::Rotation;

#[test]
fn changing_candidate_is_never_written() {
    let mut d = Debounce::new(0);
    let cands = [Some(Rotation::Left), Some(Rotation::Right), None, Some(Rotation::Normal), Some(Rotation::Left)];
    for (i, c) in cands.iter().enumerate() {
        assert_eq!(d.step(*c, (i as u64) * 150, 350), None);
    }
}

#[test]
fn steady_candidate_is_written_once_the_delay_has_passed() {
    let mut d = Debounce::new(0);
    assert_eq!(d.step(Some(Rotation::Inverted), 100, 350), None);
    assert_eq!(d.step(Some(Rotation::Inverted), 250, 350), None);
    assert_eq!(d.step(Some(Rotation::Inverted), 400, 350), None);
    let w = d.step(Some(Rotation::Inverted), 450, 350);
    assert_eq!(w, Some(Rotation::Inverted));
    assert_eq!(w.unwrap().name(), "inverted");
    assert_eq!(d.last, Some(Rotation::Inverted));
    assert_eq!(d.changed_at, 100);
}

#[test]
fn stable_candidate_is_rewritten_every_tick_after_the_delay() {
    let mut d = Debounce::new(0);
    d.step(Some(Rotation::Left), 0, 350);
    assert_eq!(d.step(Some(Rotation::Left), 350, 350), Some(Rotation::Left));
    assert_eq!(d.step(Some(Rotation::Left), 500, 350), Some(Rotation::Left));
}

#[test]
fn indeterminate_is_never_written() {
    let mut d = Debounce::new(0);
    assert_eq!(d.step(None, 1000, 350), None);
    assert_eq!(d.step(None, 5000, 350), None);
}

#[test]
fn clock_going_back_counts_as_no_time() {
    let mut d = Debounce::new(0);
    d.step(Some(Rotation::Right), 1000, 350);
    assert_eq!(d.step(Some(Rotation::Right), 10, 350), None);
}

use euro_calibration::lattice::Lattice;
use euro_calibration::search::{
    accepts, Candidate, Comparison, SearchStep, Sweep, BETA_COUNT, ROUND_LEN,
};
use euro_calibration::window::{monitored_bins, SampleWindow, WINDOW_LEN};

#[test]
fn window_starts_full_of_zeros() {
    let w = SampleWindow::new();
    assert_eq!(w.oldest(), 0);
    assert_eq!(w.count(), 0);
    assert!(!w.accumulating());
    assert_eq!(w.frames_past_window(), None);
}

#[test]
fn window_evicts_in_order() {
    let mut w = SampleWindow::new();
    for i in 1..=(WINDOW_LEN as u64) {
        assert_eq!(w.slide(i), 0);
    }
    assert_eq!(w.oldest(), 1);
    assert_eq!(w.slide(1000), 1);
    assert_eq!(w.slide(1001), 2);
    assert_eq!(w.oldest(), 3);
}

#[test]
fn window_variance_needs_more_than_one_window() {
    let mut w = SampleWindow::new();
    for i in 0..59u64 {
        w.slide(i);
    }
    assert!(!w.accumulating());
    w.slide(59);
    assert!(w.accumulating());
    assert_eq!(w.frames_past_window(), None);
    w.slide(60);
    assert_eq!(w.frames_past_window(), Some(1));
    w.slide(61);
    assert_eq!(w.frames_past_window(), Some(2));
}

#[test]
fn sixty_hz_monitors_twenty_bins() {
    let bins = monitored_bins(60);
    assert_eq!(bins.len(), 20);
    assert_eq!(bins[0], 30);
    assert_eq!(bins[19], 11);
    assert_eq!(monitored_bins(20).len(), 0);
}

#[test]
fn lattice_offsets() {
    assert!(Lattice::new(0, 3, 4).is_none());
    assert!(Lattice::new(usize::MAX, 2, 1).is_none());
    assert!(Lattice::new(usize::MAX / 2, 2, 3).is_none());
    let l = Lattice::new(2, 3, 4).unwrap();
    assert_eq!(l.len(), 24);
    assert_eq!(l.offset(0, 0, 0), Some(0));
    assert_eq!(l.offset(1, 2, 3), Some(23));
    assert_eq!(l.offset(1, 0, 2), Some(14));
    assert_eq!(l.offset(2, 0, 0), None);
    assert_eq!(l.offset(0, 3, 0), None);
    assert_eq!(l.offset(0, 0, 4), None);
}

#[test]
fn lattice_corners() {
    let l = Lattice::new(2, 3, 4).unwrap();
    let c = l.corners(0, 1, 1, 2, 2, 3).unwrap();
    assert_eq!(c, vec![6, 18, 10, 22, 7, 19, 11, 23]);
    assert_eq!(l.corners(0, 2, 1, 2, 2, 3), None);
    let same = l.corners(1, 1, 2, 2, 3, 3).unwrap();
    assert_eq!(same, vec![23; 8]);
}

#[test]
fn acceptance_rule() {
    let c = |b, l, p, s| Comparison {
        best_lag_within_bound: b,
        lag_within_bound: l,
        no_less_precise: p,
        no_slower: s,
    };
    assert!(accepts(&c(true, true, true, false)));
    assert!(!accepts(&c(true, false, true, true)));
    assert!(!accepts(&c(true, true, false, true)));
    assert!(accepts(&c(false, false, false, true)));
    assert!(!accepts(&c(false, true, true, false)));
}

#[test]
fn sweep_order_and_exhaustion() {
    let mut s = Sweep::new(1);
    assert_eq!(s.next_step(), SearchStep::Try(Candidate { cutoff_centi: 10, beta_pos: 0 }));
    assert_eq!(s.next_step(), SearchStep::Try(Candidate { cutoff_centi: 10, beta_pos: 1 }));
    for _ in 2..BETA_COUNT {
        s.next_step();
    }
    assert_eq!(s.next_step(), SearchStep::Try(Candidate { cutoff_centi: 11, beta_pos: 0 }));
    let mut last = SearchStep::Relax;
    for _ in (BETA_COUNT + 1)..ROUND_LEN {
        last = s.next_step();
    }
    assert_eq!(last, SearchStep::Try(Candidate { cutoff_centi: 399, beta_pos: 179 }));
    assert_eq!(s.next_step(), SearchStep::Exhausted);
    assert_eq!(s.next_step(), SearchStep::Exhausted);
}

#[test]
fn sweep_relaxes_then_finishes() {
    let yes = Comparison {
        best_lag_within_bound: false,
        lag_within_bound: true,
        no_less_precise: true,
        no_slower: true,
    };
    let mut s = Sweep::new(3);
    for _ in 0..ROUND_LEN {
        let step = s.next_step();
        assert!(matches!(step, SearchStep::Try(_)));
        assert!(!s.offer(false, &yes));
    }
    assert_eq!(s.next_step(), SearchStep::Relax);
    assert_eq!(s.round(), 1);
    assert_eq!(s.best(), None);
    for i in 0..ROUND_LEN {
        s.next_step();
        if i == 181 || i == 500 {
            assert!(s.offer(true, &yes));
        }
    }
    let expected = Candidate { cutoff_centi: 12, beta_pos: 140 };
    assert_eq!(s.best(), Some(expected));
    assert_eq!(s.next_step(), SearchStep::Finished(expected));
    assert_eq!(s.next_step(), SearchStep::Finished(expected));
}

use scripty_core::sequencer::{check_packet, Admission};

fn run(start: Option<u16>, seqs: &[u16]) -> Vec<Admission> {
    let mut last = start;
    seqs.iter().map(|s| check_packet(&mut last, *s)).collect()
}

#[test]
fn first_packet_is_admitted() {
    let mut last = None;
    assert_eq!(check_packet(&mut last, 500), Admission::Admitted);
    assert_eq!(last, Some(500));
}

#[test]
fn in_order_run_with_wraparound_has_no_gap() {
    let v = run(None, &[65533, 65534, 65535, 0, 1, 2]);
    assert!(v.iter().all(|a| *a == Admission::Admitted));
}

#[test]
fn single_skip_drops_one_packet_and_resyncs() {
    let v = run(None, &[10, 11, 13, 14, 15]);
    assert_eq!(
        v,
        vec![
            Admission::Admitted,
            Admission::Admitted,
            Admission::Gap { expected: 12, got: 13 },
            Admission::Admitted,
            Admission::Admitted,
        ]
    );
    let gaps = v.iter().filter(|a| matches!(a, Admission::Gap { .. })).count();
    assert_eq!(gaps, 1);
}

#[test]
fn skip_across_wrap_is_one_gap() {
    let v = run(Some(65534), &[0, 1]);
    assert_eq!(v, vec![Admission::Gap { expected: 65535, got: 0 }, Admission::Admitted]);
}

#[test]
fn repeated_number_is_a_gap() {
    let v = run(Some(7), &[7, 8]);
    assert_eq!(v, vec![Admission::Gap { expected: 8, got: 7 }, Admission::Admitted]);
}

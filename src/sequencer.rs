//! Per-speaker packet admission by RTP sequence number.
use vstd::prelude::*;

verus! {

/// What the sequencer decided for one packet.
#[derive(Clone, Copy, Debug, PartialEq, Eq, Structural)]
pub enum Admission {
    /// The packet continues the stream (or starts it) and is fed.
    Admitted,
    /// The packet does not follow the last one seen: it is dropped and the
    /// sequencer resynchronises on it. This is the one gap event.
    Gap { expected: u16, got: u16 },
}

/// The sequence number that follows `s`, wrapping over the `u16` range.
pub open spec fn next_seq(s: u16) -> u16 {
    if s == u16::MAX {
        0
    } else {
        (s + 1) as u16
    }
}

/// The decision for a packet numbered `seq` when `last` is the last number
/// recorded for its speaker.
pub open spec fn admission_of(last: Option<u16>, seq: u16) -> Admission {
    match last {
        None => Admission::Admitted,
        Some(l) => if seq == next_seq(l) {
            Admission::Admitted
        } else {
            Admission::Gap { expected: next_seq(l), got: seq }
        },
    }
}

/// The decisions for a run of packets, starting from `last`.
pub open spec fn admissions(last: Option<u16>, seqs: Seq<u16>) -> Seq<Admission>
    decreases seqs.len(),
{
    if seqs.len() == 0 {
        Seq::empty()
    } else {
        seq![admission_of(last, seqs[0])] + admissions(Some(seqs[0]), seqs.drop_first())
    }
}

/// How many gap events a run of decisions holds.
pub open spec fn gap_count(v: Seq<Admission>) -> nat
    decreases v.len(),
{
    if v.len() == 0 {
        0
    } else {
        (if v[0] is Gap { 1nat } else { 0nat }) + gap_count(v.drop_first())
    }
}

/// Each number follows the one before it, and the first follows `last`.
pub open spec fn continues(last: Option<u16>, seqs: Seq<u16>) -> bool {
    &&& (seqs.len() > 0 && last is Some) ==> seqs[0] == next_seq(last->0)
    &&& forall|i: int| 0 <= i < seqs.len() - 1 ==> #[trigger] seqs[i + 1] == next_seq(seqs[i])
}

/// Decides on the packet numbered `sequence` and records it as the last one
/// seen, whether it was admitted or not.
pub fn check_packet(last: &mut Option<u16>, sequence: u16) -> (r: Admission)
    ensures
        r == admission_of(*old(last), sequence),
        *final(last) == Some(sequence),
{
    let r = match *last {
        None => Admission::Admitted,
        Some(l) => {
            let expected = l.wrapping_add(1);
            if sequence == expected {
                Admission::Admitted
            } else {
                Admission::Gap { expected, got: sequence }
            }
        },
    };
    *last = Some(sequence);
    r
}

proof fn lemma_admissions_len(last: Option<u16>, seqs: Seq<u16>)
    ensures
        admissions(last, seqs).len() == seqs.len(),
    decreases seqs.len(),
{
    if seqs.len() > 0 {
        lemma_admissions_len(Some(seqs[0]), seqs.drop_first());
    }
}

/// A run of packets whose numbers each follow the one before, with wrap
/// around, is admitted whole: every packet is fed and no gap is reported.
pub proof fn lemma_in_order_run_admitted(last: Option<u16>, seqs: Seq<u16>)
    requires
        continues(last, seqs),
    ensures
        admissions(last, seqs).len() == seqs.len(),
        forall|i: int| 0 <= i < seqs.len() ==> #[trigger] admissions(last, seqs)[i] == Admission::Admitted,
        gap_count(admissions(last, seqs)) == 0,
    decreases seqs.len(),
{
    lemma_admissions_len(last, seqs);
    if seqs.len() > 0 {
        let rest = seqs.drop_first();
        assert forall|i: int| 0 <= i < rest.len() - 1 implies #[trigger] rest[i + 1] == next_seq(rest[i]) by {
            assert(seqs[i + 1 + 1] == next_seq(seqs[i + 1]));
        }
        if rest.len() > 0 {
            assert(seqs[1] == next_seq(seqs[0]));
        }
        lemma_in_order_run_admitted(Some(seqs[0]), rest);
        let v = admissions(last, seqs);
        assert(v.drop_first() =~= admissions(Some(seqs[0]), rest));
        assert forall|i: int| 0 <= i < seqs.len() implies #[trigger] v[i] == Admission::Admitted by {
            if i > 0 {
                assert(v[i] == v.drop_first()[i - 1]);
            }
        }
    }
}

proof fn lemma_admissions_append(last: Option<u16>, a: Seq<u16>, b: Seq<u16>)
    requires
        a.len() > 0,
    ensures
        admissions(last, a + b) =~= admissions(last, a) + admissions(Some(a.last()), b),
    decreases a.len(),
{
    let ab = a + b;
    assert(ab[0] == a[0]);
    assert(ab.drop_first() =~= a.drop_first() + b);
    if a.len() > 1 {
        lemma_admissions_append(Some(a[0]), a.drop_first(), b);
        assert(a.drop_first().last() == a.last());
    } else {
        assert(a.drop_first() =~= Seq::<u16>::empty());
        assert(a.drop_first() + b =~= b);
        assert(admissions(Some(a[0]), a.drop_first()) =~= Seq::<Admission>::empty());
    }
}

proof fn lemma_gap_count_append(v: Seq<Admission>, w: Seq<Admission>)
    ensures
        gap_count(v + w) == gap_count(v) + gap_count(w),
    decreases v.len(),
{
    if v.len() > 0 {
        assert((v + w).drop_first() =~= v.drop_first() + w);
        lemma_gap_count_append(v.drop_first(), w);
    } else {
        assert(v + w =~= w);
    }
}

/// When exactly one sequence number is skipped between two in-order runs,
/// the first packet after the skip is the only one dropped, the sequencer
/// resynchronises on it, and exactly one gap is reported.
pub proof fn lemma_single_skip_one_gap(last: Option<u16>, before: Seq<u16>, after: Seq<u16>)
    requires
        before.len() > 0,
        after.len() > 0,
        continues(last, before),
        continues(None, after),
        after[0] == next_seq(next_seq(before.last())),
    ensures
        admissions(last, before + after).len() == before.len() + after.len(),
        admissions(last, before + after)[before.len() as int] == (Admission::Gap {
            expected: next_seq(before.last()),
            got: after[0],
        }),
        forall|i: int|
            0 <= i < before.len() + after.len() && i != before.len() ==> #[trigger] admissions(
                last,
                before + after,
            )[i] == Admission::Admitted,
        gap_count(admissions(last, before + after)) == 1,
{
    lemma_admissions_append(last, before, after);
    lemma_in_order_run_admitted(last, before);
    let l = before.last();
    let rest = after.drop_first();
    assert(next_seq(next_seq(l)) != next_seq(l)) by {
        if l == u16::MAX {
        } else if l == u16::MAX - 1 {
        } else {
        }
    }
    assert forall|i: int| 0 <= i < rest.len() - 1 implies #[trigger] rest[i + 1] == next_seq(rest[i]) by {
        assert(after[i + 1 + 1] == next_seq(after[i + 1]));
    }
    if rest.len() > 0 {
        assert(after[1] == next_seq(after[0]));
    }
    lemma_in_order_run_admitted(Some(after[0]), rest);
    let va = admissions(last, before);
    let vb = admissions(Some(l), after);
    assert(vb.drop_first() =~= admissions(Some(after[0]), rest));
    lemma_admissions_len(Some(l), after);
    let v = admissions(last, before + after);
    assert forall|i: int|
        0 <= i < before.len() + after.len() && i != before.len() implies #[trigger] v[i]
        == Admission::Admitted by {
        if i < before.len() {
            assert(v[i] == va[i]);
        } else {
            assert(v[i] == vb[i - before.len()]);
            assert(vb[i - before.len()] == vb.drop_first()[i - before.len() - 1]);
        }
    }
    lemma_gap_count_append(va, vb);
    assert(gap_count(vb) == 1 + gap_count(vb.drop_first()));
}

} // verus!

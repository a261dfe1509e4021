//! PCM normalisation: payload-type table, stereo downmix and rate conversion.
use vstd::prelude::*;

verus! {

/// The sample rate the speech engine consumes.
pub const ENGINE_RATE_HZ: u32 = 16000;

/// The layout of the PCM carried by a packet.
#[derive(Clone, Copy, Debug, PartialEq, Eq, Structural)]
pub struct PcmFormat {
    pub rate_hz: u32,
    pub stereo: bool,
}

/// The canonical format of each static RTP payload type, by number.
pub open spec fn known_format(payload_type: u8) -> Option<PcmFormat> {
    if payload_type == 0 || payload_type == 3 || payload_type == 4 || payload_type == 5
        || payload_type == 7 || payload_type == 8 || payload_type == 9 || payload_type == 12
        || payload_type == 13 || payload_type == 15 || payload_type == 18 {
        Some(PcmFormat { rate_hz: 8000, stereo: false })
    } else if payload_type == 6 {
        Some(PcmFormat { rate_hz: 16000, stereo: false })
    } else if payload_type == 10 {
        Some(PcmFormat { rate_hz: 44100, stereo: true })
    } else if payload_type == 11 {
        Some(PcmFormat { rate_hz: 44100, stereo: false })
    } else if payload_type == 14 {
        Some(PcmFormat { rate_hz: 90000, stereo: false })
    } else if payload_type == 16 {
        Some(PcmFormat { rate_hz: 11025, stereo: false })
    } else if payload_type == 17 {
        Some(PcmFormat { rate_hz: 22050, stereo: false })
    } else {
        None
    }
}

/// The format assumed for a payload type that the table does not know.
pub open spec fn fallback_format() -> PcmFormat {
    PcmFormat { rate_hz: 48000, stereo: true }
}

/// Looks a payload type up in the table. `None` means the type is unknown:
/// the caller logs it and uses `fallback_pcm_format`.
pub fn known_pcm_format(payload_type: u8) -> (r: Option<PcmFormat>)
    ensures
        r == known_format(payload_type),
{
    match payload_type {
        0 | 3 | 4 | 5 | 7 | 8 | 9 | 12 | 13 | 15 | 18 => Some(PcmFormat { rate_hz: 8000, stereo: false }),
        6 => Some(PcmFormat { rate_hz: 16000, stereo: false }),
        10 => Some(PcmFormat { rate_hz: 44100, stereo: true }),
        11 => Some(PcmFormat { rate_hz: 44100, stereo: false }),
        14 => Some(PcmFormat { rate_hz: 90000, stereo: false }),
        16 => Some(PcmFormat { rate_hz: 11025, stereo: false }),
        17 => Some(PcmFormat { rate_hz: 22050, stereo: false }),
        _ => None,
    }
}

/// 48 kHz stereo, the format of the voice transport's own codec.
pub fn fallback_pcm_format() -> (r: PcmFormat)
    ensures
        r == fallback_format(),
{
    PcmFormat { rate_hz: 48000, stereo: true }
}

/// The format of a payload type, with the fallback for unknown types.
pub open spec fn format_of(payload_type: u8) -> PcmFormat {
    match known_format(payload_type) {
        Some(f) => f,
        None => fallback_format(),
    }
}

/// The arithmetic mean of two samples, rounded down.
pub open spec fn mean(a: i16, b: i16) -> i16 {
    ((a as int + b as int) / 2) as i16
}

/// Mono samples: stereo input is taken as interleaved left/right pairs and
/// each pair becomes its mean; a trailing half pair is dropped.
pub open spec fn mono_of(s: Seq<i16>, stereo: bool) -> Seq<i16> {
    if stereo {
        Seq::new(s.len() / 2, |i: int| mean(s[2 * i], s[2 * i + 1]))
    } else {
        s
    }
}

/// Rate conversion by sample selection: output sample `i` is the input
/// sample at the same instant, `i * from / to`, rounded down.
pub open spec fn rate_converted(m: Seq<i16>, from: u32, to: u32) -> Seq<i16> {
    Seq::new(
        (m.len() * to as int / from as int) as nat,
        |i: int| m[i * from as int / to as int],
    )
}

/// The whole normalisation: downmix first, then rate conversion.
pub open spec fn normalized(s: Seq<i16>, stereo: bool, from: u32, to: u32) -> Seq<i16> {
    rate_converted(mono_of(s, stereo), from, to)
}

/// Averages each interleaved pair when `stereo` holds, else copies.
pub fn downmix(samples: &Vec<i16>, stereo: bool) -> (r: Vec<i16>)
    ensures
        r@ == mono_of(samples@, stereo),
{
    let mut out: Vec<i16> = Vec::new();
    if !stereo {
        let mut i: usize = 0;
        while i < samples.len()
            invariant
                i <= samples.len(),
                out@ == samples@.subrange(0, i as int),
            decreases samples.len() - i,
        {
            out.push(samples[i]);
            i = i + 1;
        }
        assert(out@ =~= samples@);
        return out;
    }
    let pairs: usize = samples.len() / 2;
    let mut k: usize = 0;
    while k < pairs
        invariant
            pairs == samples.len() / 2,
            k <= pairs,
            out@ =~= Seq::new(k as nat, |i: int| mean(samples@[2 * i], samples@[2 * i + 1])),
        decreases pairs - k,
    {
        let a = samples[2 * k];
        let b = samples[2 * k + 1];
        let sum: i32 = a as i32 + b as i32;
        let shifted: u32 = (sum + 65536) as u32;
        let m: i32 = (shifted / 2) as i32 - 32768;
        assert(m as int == (a as int + b as int) / 2);
        out.push(m as i16);
        k = k + 1;
    }
    out
}

proof fn lemma_pick_in_range(i: int, len: int, from: int, to: int)
    requires
        0 <= i,
        0 <= len,
        0 < from,
        0 < to,
        i < len * to / from,
    ensures
        0 <= i * from / to < len,
{
    assert(0 <= i * from) by (nonlinear_arith)
        requires
            0 <= i,
            0 < from,
    ;
    vstd::arithmetic::div_mod::lemma_div_pos_is_pos(i * from, to);
    vstd::arithmetic::div_mod::lemma_fundamental_div_mod(len * to, from);
    vstd::arithmetic::div_mod::lemma_fundamental_div_mod(i * from, to);
    vstd::arithmetic::div_mod::lemma_mod_bound(len * to, from);
    vstd::arithmetic::div_mod::lemma_mod_bound(i * from, to);
    let q = len * to / from;
    assert((i + 1) * from <= q * from) by (nonlinear_arith)
        requires
            i + 1 <= q,
            0 < from,
    ;
    assert(i * from < len * to) by (nonlinear_arith)
        requires
            (i + 1) * from <= q * from,
            q * from <= len * to,
            0 < from,
    ;
    let p = i * from / to;
    assert(p < len) by (nonlinear_arith)
        requires
            p * to <= i * from,
            i * from < len * to,
            0 < to,
    ;
}

/// Converts mono samples from `from_hz` to `to_hz`.
pub fn convert_rate(mono: &Vec<i16>, from_hz: u32, to_hz: u32) -> (r: Vec<i16>)
    requires
        0 < from_hz,
        0 < to_hz,
        mono@.len() * to_hz as int / from_hz as int <= usize::MAX,
    ensures
        r@ == rate_converted(mono@, from_hz, to_hz),
{
    assert(mono.len() as u128 * to_hz as u128 <= u64::MAX as u128 * u32::MAX as u128) by (nonlinear_arith)
        requires
            mono.len() <= u64::MAX,
            to_hz <= u32::MAX,
    ;
    let n128: u128 = mono.len() as u128 * to_hz as u128 / from_hz as u128;
    let n: usize = n128 as usize;
    let mut out: Vec<i16> = Vec::new();
    let mut i: usize = 0;
    while i < n
        invariant
            n == mono@.len() * to_hz as int / from_hz as int,
            0 < from_hz,
            0 < to_hz,
            i <= n,
            out@ =~= Seq::new(i as nat, |j: int| mono@[j * from_hz as int / to_hz as int]),
        decreases n - i,
    {
        proof {
            lemma_pick_in_range(i as int, mono@.len() as int, from_hz as int, to_hz as int);
        }
        assert(i as u128 * from_hz as u128 <= u64::MAX as u128 * u32::MAX as u128) by (nonlinear_arith)
            requires
                i <= u64::MAX,
                from_hz <= u32::MAX,
        ;
        let prod: u128 = i as u128 * from_hz as u128;
        let q: u128 = prod / to_hz as u128;
        assert(q as int == i as int * from_hz as int / to_hz as int);
        assert(q < mono.len());
        let pick: usize = q as usize;
        let ghost before = out@;
        out.push(mono[pick]);
        assert(out@ == before.push(mono@[i as int * from_hz as int / to_hz as int]));
        assert(out@ =~= Seq::new((i + 1) as nat, |j: int| mono@[j * from_hz as int / to_hz as int]));
        i = i + 1;
    }
    out
}

/// Normalises PCM for the engine: downmix, then rate conversion
/// from `source_rate_hz` to `target_rate_hz`.
pub fn process_audio(samples: &Vec<i16>, source_rate_hz: u32, stereo: bool, target_rate_hz: u32) -> (r: Vec<i16>)
    requires
        0 < source_rate_hz,
        0 < target_rate_hz,
        samples@.len() * target_rate_hz as int / source_rate_hz as int <= usize::MAX,
    ensures
        r@ == normalized(samples@, stereo, source_rate_hz, target_rate_hz),
{
    let mono = downmix(samples, stereo);
    assert(mono@.len() * target_rate_hz as int / source_rate_hz as int
        <= samples@.len() * target_rate_hz as int / source_rate_hz as int) by {
        assert(mono@.len() * target_rate_hz as int <= samples@.len() * target_rate_hz as int) by (nonlinear_arith)
            requires
                mono@.len() <= samples@.len(),
                0 < target_rate_hz,
        ;
        vstd::arithmetic::div_mod::lemma_div_is_ordered(
            mono@.len() * target_rate_hz as int,
            samples@.len() * target_rate_hz as int,
            source_rate_hz as int,
        );
    }
    convert_rate(&mono, source_rate_hz, target_rate_hz)
}

/// Mono input at the engine's own rate comes out unchanged, sample for sample.
pub proof fn lemma_same_rate_mono_is_identity(s: Seq<i16>, rate_hz: u32)
    requires
        0 < rate_hz,
    ensures
        normalized(s, false, rate_hz, rate_hz) == s,
{
    let r = rate_hz as int;
    assert(s.len() * r / r == s.len()) by {
        vstd::arithmetic::div_mod::lemma_div_multiples_vanish(s.len() as int, r);
        assert(s.len() * r == r * s.len()) by (nonlinear_arith);
    }
    let out = normalized(s, false, rate_hz, rate_hz);
    assert forall|i: int| 0 <= i < s.len() implies out[i] == s[i] by {
        assert(i * r / r == i) by {
            vstd::arithmetic::div_mod::lemma_div_multiples_vanish(i, r);
            assert(i * r == r * i) by (nonlinear_arith);
        }
    }
    assert(out =~= s);
}

/// Stereo input is reduced to the mean of each left/right pair before the
/// rate conversion: at equal rates, output sample `i` is the mean of pair `i`.
pub proof fn lemma_stereo_downmixed_to_mean(s: Seq<i16>, rate_hz: u32)
    requires
        0 < rate_hz,
    ensures
        normalized(s, true, rate_hz, rate_hz).len() == s.len() / 2,
        forall|i: int|
            0 <= i < s.len() / 2 ==> #[trigger] normalized(s, true, rate_hz, rate_hz)[i] == mean(
                s[2 * i],
                s[2 * i + 1],
            ),
{
    lemma_same_rate_mono_is_identity(mono_of(s, true), rate_hz);
    assert(normalized(s, true, rate_hz, rate_hz) == normalized(mono_of(s, true), false, rate_hz, rate_hz));
}

} // verus!

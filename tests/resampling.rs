use scripty_core::resample::{
    convert_rate, downmix, fallback_pcm_format, known_pcm_format, process_audio, PcmFormat,
    ENGINE_RATE_HZ,
};

#[test]
fn mono_at_engine_rate_is_identity() {
    let input: Vec<i16> = vec![0, 1, -1, 32767, -32768, 1234, -4321];
    let out = process_audio(&input, 16000, false, 16000);
    assert_eq!(out, input);
}

#[test]
fn stereo_pairs_become_their_mean() {
    let input: Vec<i16> = vec![10, 20, -5, 6, 32767, 32767, -32768, -32768, 3];
    let out = process_audio(&input, 16000, true, 16000);
    assert_eq!(out, vec![15, 0, 32767, -32768]);
}

#[test]
fn mean_rounds_down() {
    assert_eq!(downmix(&vec![-3, 0, 1, 2], true), vec![-2, 1]);
}

#[test]
fn downsampling_48k_to_16k_keeps_every_third() {
    let input: Vec<i16> = (0..12).collect();
    assert_eq!(convert_rate(&input, 48000, 16000), vec![0, 3, 6, 9]);
}

#[test]
fn upsampling_8k_to_16k_repeats_samples() {
    assert_eq!(convert_rate(&vec![5, -7, 9], 8000, 16000), vec![5, 5, -7, -7, 9, 9]);
}

#[test]
fn stereo_48k_to_engine_rate() {
    let input: Vec<i16> = vec![2, 4, 6, 8, 10, 12, 14, 16, 18, 20, 22, 24];
    let out = process_audio(&input, 48000, true, ENGINE_RATE_HZ);
    assert_eq!(out, vec![3, 15]);
}

#[test]
fn empty_input_gives_empty_output() {
    assert!(process_audio(&Vec::new(), 48000, true, 16000).is_empty());
}

#[test]
fn payload_table() {
    assert_eq!(known_pcm_format(0), Some(PcmFormat { rate_hz: 8000, stereo: false }));
    assert_eq!(known_pcm_format(6), Some(PcmFormat { rate_hz: 16000, stereo: false }));
    assert_eq!(known_pcm_format(10), Some(PcmFormat { rate_hz: 44100, stereo: true }));
    assert_eq!(known_pcm_format(11), Some(PcmFormat { rate_hz: 44100, stereo: false }));
    assert_eq!(known_pcm_format(14), Some(PcmFormat { rate_hz: 90000, stereo: false }));
    assert_eq!(known_pcm_format(16), Some(PcmFormat { rate_hz: 11025, stereo: false }));
    assert_eq!(known_pcm_format(17), Some(PcmFormat { rate_hz: 22050, stereo: false }));
    assert_eq!(known_pcm_format(18), Some(PcmFormat { rate_hz: 8000, stereo: false }));
    assert_eq!(known_pcm_format(120), None);
    assert_eq!(fallback_pcm_format(), PcmFormat { rate_hz: 48000, stereo: true });
}

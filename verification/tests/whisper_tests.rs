use transcriber::whisper::{
    decoding_finished, initial_prompt, max_decode_steps, mel_filter_bank, no_speech_token,
    required_token, segment_spans, MelFilterBank, WhisperSetupError,
};

#[test]
fn spectrogram_is_cut_into_windows() {
    assert_eq!(segment_spans(7000, 3000), vec![(0, 3000), (3000, 3000), (6000, 1000)]);
    assert_eq!(segment_spans(3000, 3000), vec![(0, 3000)]);
    assert_eq!(segment_spans(0, 3000), vec![]);
}

#[test]
fn prompt_includes_english_tag_when_known() {
    assert_eq!(initial_prompt(1, Some(2), 3, 4), vec![1, 2, 3, 4]);
    assert_eq!(initial_prompt(1, None, 3, 4), vec![1, 3, 4]);
}

#[test]
fn decoding_stops_at_end_or_context_limit() {
    assert!(decoding_finished(50257, 50257, 10, 448));
    assert!(decoding_finished(1, 50257, 449, 448));
    assert!(!decoding_finished(1, 50257, 448, 448));
}

#[test]
fn mel_filter_banks() {
    assert_eq!(mel_filter_bank(80), Ok(MelFilterBank::Bins80));
    assert_eq!(mel_filter_bank(128), Ok(MelFilterBank::Bins128));
    assert_eq!(mel_filter_bank(64), Err(WhisperSetupError::UnexpectedMelBins(64)));
    assert_eq!(WhisperSetupError::UnexpectedMelBins(64).message(), "unexpected num_mel_bins 64");
}

#[test]
fn decoding_may_use_half_the_context() {
    assert_eq!(max_decode_steps(448), 224);
    assert_eq!(max_decode_steps(449), 224);
}

#[test]
fn special_tokens_are_looked_up() {
    assert_eq!(required_token("<|endoftext|>", Some(50257)), Ok(50257));
    let err = required_token("<|notimestamps|>", None).unwrap_err();
    assert_eq!(err, WhisperSetupError::MissingToken("<|notimestamps|>".to_string()));
    assert_eq!(err.message(), "no token-id for <|notimestamps|>");
    assert_eq!(no_speech_token(&vec![None, Some(50362), Some(7)]), 50362);
    assert_eq!(no_speech_token(&vec![None, None]), 0);
    assert_eq!(no_speech_token(&vec![]), 0);
}

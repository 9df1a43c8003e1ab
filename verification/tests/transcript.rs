use transcribe::transcript::{detected_language, transcript_file_name, transcript_output_dir, transcript_text};

#[test]
fn transcript_joins_readable_segments_and_trims() {
    let segs = vec![Some(" Hello".to_string()), None, Some(" world. ".to_string())];
    assert_eq!(transcript_text(&segs), "Hello world.");
    assert_eq!(transcript_text(&vec![]), "");
    assert_eq!(transcript_text(&vec![None, Some(" \n\t ".to_string())]), "");
    assert_eq!(transcript_text(&vec![Some("\u{3000}你好\u{2029}".to_string())]), "你好");
}

#[test]
fn language_defaults_to_unknown() {
    assert_eq!(detected_language(Some("en"), Some("de")), "en");
    assert_eq!(detected_language(None, Some("zh")), "zh");
    assert_eq!(detected_language(None, None), "unknown");
}

#[test]
fn local_transcript_names() {
    assert_eq!(transcript_file_name(Some("talk")), "talk.txt");
    assert_eq!(transcript_file_name(None), "transcript.txt");
}

#[test]
fn local_transcript_directory() {
    assert_eq!(transcript_output_dir(Some("/out".to_string()), Some("/src".to_string())), "/out");
    assert_eq!(transcript_output_dir(None, Some("/src".to_string())), "/src");
    assert_eq!(transcript_output_dir(None, Some("".to_string())), "");
    assert_eq!(transcript_output_dir(None, None), ".");
}

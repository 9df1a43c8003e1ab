use transcribe::models::{
    http_status_message, list_model_infos, plan_model_download, ModelFetch, model_download_url, model_info, model_not_found_message,
    whisper_models,
};

#[test]
fn catalogue() {
    let m = whisper_models();
    let v: Vec<(String, u64)> = m.iter().map(|e| (e.filename.clone(), e.size_bytes)).collect();
    assert_eq!(
        v,
        vec![
            ("ggml-small-q5_1.bin".to_string(), 199_229_440),
            ("ggml-medium-q5_0.bin".to_string(), 565_190_656),
            ("ggml-large-v3-turbo-q5_0.bin".to_string(), 601_968_640),
        ]
    );
}

#[test]
fn infos_report_downloaded_models_with_their_path() {
    let infos = list_model_infos(vec![None, Some("/d/ggml-medium-q5_0.bin".to_string()), None]);
    assert_eq!(infos.len(), 3);
    assert!(!infos[0].downloaded && infos[0].path.is_none());
    assert!(infos[1].downloaded);
    assert_eq!(infos[1].path.as_deref(), Some("/d/ggml-medium-q5_0.bin"));
    assert_eq!(infos[1].name, "ggml-medium-q5_0.bin");
    assert_eq!(infos[2].size_bytes, 601_968_640);
    let one = model_info(&whisper_models()[0], None);
    assert_eq!(one.name, "ggml-small-q5_1.bin");
    assert!(!one.downloaded);
}

#[test]
fn download_url_and_messages() {
    assert_eq!(
        model_download_url("ggml-small-q5_1.bin"),
        "https://huggingface.co/ggerganov/whisper.cpp/resolve/main/ggml-small-q5_1.bin"
    );
    assert_eq!(
        model_not_found_message("ggml-x.bin"),
        "Model 'ggml-x.bin' not found. Download it in Settings → Transcription."
    );
    assert_eq!(http_status_message("404 Not Found"), "HTTP 404 Not Found");
}

#[test]
fn infos_treat_missing_entries_as_not_downloaded() {
    let infos = list_model_infos(vec![Some("/d/ggml-small-q5_1.bin".to_string())]);
    assert_eq!(infos.len(), 3);
    assert!(infos[0].downloaded);
    assert!(!infos[1].downloaded && !infos[2].downloaded);
    let extra = list_model_infos(vec![None, None, None, Some("x".to_string())]);
    assert!(extra.iter().all(|i| !i.downloaded));
}

#[test]
fn download_only_missing_models() {
    assert_eq!(plan_model_download("ggml-small-q5_1.bin", true), ModelFetch::AlreadyPresent);
    assert_eq!(
        plan_model_download("ggml-small-q5_1.bin", false),
        ModelFetch::Fetch(
            "https://huggingface.co/ggerganov/whisper.cpp/resolve/main/ggml-small-q5_1.bin".to_string()
        )
    );
}

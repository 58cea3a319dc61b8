use convrt::{
    check_download_status, list_model_names, model_file_name, model_name_of_file, model_path,
    model_url, models_dir, partial_model_path, FinishAction, ModelSlot, ModelStatus, PipelineError,
    ResolveAction,
};

#[test]
fn cache_directory_under_data_root() {
    assert_eq!(models_dir("/home/u/.local/share/convrt"), "/home/u/.local/share/convrt/whisper_models");
}

#[test]
fn file_name_of_model() {
    assert_eq!(model_file_name("base"), "ggml-base.bin");
    assert_eq!(model_file_name("base.en"), "ggml-base.en.bin");
}

#[test]
fn url_of_model() {
    assert_eq!(
        model_url("tiny"),
        "https://huggingface.co/ggerganov/whisper.cpp/resolve/main/ggml-tiny.bin"
    );
}

#[test]
fn path_and_partial_path_of_model() {
    assert_eq!(model_path("/cache/whisper_models", "small"), "/cache/whisper_models/ggml-small.bin");
    assert_eq!(
        partial_model_path("/cache/whisper_models", "small"),
        "/cache/whisper_models/ggml-small.bin.part"
    );
}

#[test]
fn cache_file_names_to_model_names() {
    assert_eq!(model_name_of_file("ggml-base.bin"), Some("base".to_string()));
    assert_eq!(model_name_of_file("ggml-base.en.bin"), Some("base.en".to_string()));
    assert_eq!(model_name_of_file("ggml-ggml-x.bin"), Some("x".to_string()));
    assert_eq!(model_name_of_file("ggml-.bin"), Some("".to_string()));
    assert_eq!(model_name_of_file("base.bin"), None);
    assert_eq!(model_name_of_file("ggml-base.txt"), None);
    assert_eq!(model_name_of_file("ggml-base.bin.part"), None);
    assert_eq!(model_name_of_file(".bin"), None);
}

#[test]
fn listing_keeps_order_and_skips_other_files() {
    let files = vec![
        "ggml-tiny.bin".to_string(),
        "notes.txt".to_string(),
        "ggml-medium.bin.part".to_string(),
        "ggml-base.bin".to_string(),
    ];
    assert_eq!(list_model_names(&files), vec!["tiny".to_string(), "base".to_string()]);
    assert!(list_model_names(&Vec::new()).is_empty());
}

#[test]
fn download_status_success_range() {
    assert_eq!(check_download_status(200), Ok(()));
    assert_eq!(check_download_status(299), Ok(()));
    assert_eq!(check_download_status(199), Err(PipelineError::Network("HTTP error: 199".to_string())));
    assert_eq!(check_download_status(300), Err(PipelineError::Network("HTTP error: 300".to_string())));
    assert_eq!(check_download_status(404), Err(PipelineError::Network("HTTP error: 404".to_string())));
}

#[test]
fn second_resolution_uses_cache() {
    let mut slot = ModelSlot::new();
    assert_eq!(slot.request(false), ResolveAction::Download);
    assert_eq!(slot.finish(true), FinishAction::Commit);
    assert_eq!(slot.request(true), ResolveAction::UseCached);
    assert_eq!(slot.request(true), ResolveAction::UseCached);
    assert_eq!(slot.status, ModelStatus::Present);
}

#[test]
fn model_already_on_disk_needs_no_download() {
    let mut slot = ModelSlot::new();
    assert_eq!(slot.request(true), ResolveAction::UseCached);
    assert_eq!(slot.status, ModelStatus::Present);
}

#[test]
fn concurrent_resolutions_download_once() {
    let mut slot = ModelSlot::new();
    let actions: Vec<ResolveAction> = (0..6).map(|_| slot.request(false)).collect();
    assert_eq!(actions.iter().filter(|a| **a == ResolveAction::Download).count(), 1);
    assert_eq!(actions[0], ResolveAction::Download);
    assert!(actions[1..].iter().all(|a| *a == ResolveAction::Wait));
    assert_eq!(slot.finish(true), FinishAction::Commit);
    for _ in 0..6 {
        assert_eq!(slot.request(true), ResolveAction::UseCached);
    }
}

#[test]
fn failed_download_discards_partial_file() {
    let mut slot = ModelSlot::new();
    assert_eq!(slot.request(false), ResolveAction::Download);
    assert_eq!(slot.finish(false), FinishAction::Discard);
    assert_eq!(slot.status, ModelStatus::Absent);
    assert_eq!(slot.request(false), ResolveAction::Download);
    assert_eq!(slot.finish(true), FinishAction::Commit);
    assert_eq!(slot.finish(true), FinishAction::Ignore);
}

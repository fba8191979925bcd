use whisper_input::model::{default_model_dir, join_path, model_dir_for, model_paths, temp_download_path, ModelSize};

#[test]
fn filenames_match_expected_assets() {
    assert_eq!(ModelSize::Tiny.filename(), "ggml-tiny.en.bin");
    assert_eq!(ModelSize::Base.filename(), "ggml-base.en.bin");
    assert_eq!(ModelSize::Small.filename(), "ggml-small.en.bin");
    assert_eq!(ModelSize::Medium.filename(), "ggml-medium.en.bin");
    assert_eq!(ModelSize::Large.filename(), "ggml-large-v3.bin");
}

#[test]
fn download_url_points_at_whisper_cpp_assets() {
    assert_eq!(
        ModelSize::Base.download_url(),
        "https://huggingface.co/ggerganov/whisper.cpp/resolve/main/ggml-base.en.bin"
    );
    assert_eq!(
        ModelSize::Large.download_url(),
        "https://huggingface.co/ggerganov/whisper.cpp/resolve/main/ggml-large-v3.bin"
    );
}

#[test]
fn download_is_staged_next_to_the_model() {
    let paths = model_paths(ModelSize::Small, "/tmp/models");
    assert_eq!(paths.model_path, "/tmp/models/ggml-small.en.bin");
    assert_eq!(paths.temp_path, "/tmp/models/ggml-small.en.bin.download");
    assert_eq!(temp_download_path("model"), "model.download");
}

#[test]
fn staging_follows_path_file_name_rules() {
    // Trailing separators and "." components do not count as a file name.
    assert_eq!(temp_download_path("/tmp/models/"), "/tmp/models.download");
    assert_eq!(temp_download_path("a/b/"), "a/b.download");
    assert_eq!(temp_download_path("a/b/."), "a/b.download");
    assert_eq!(temp_download_path("a//b"), "a/b.download");
    assert_eq!(temp_download_path("//b"), "/b.download");
    assert_eq!(temp_download_path("./b"), "./b.download");
    // No file name: the fallback name is pushed onto the path.
    assert_eq!(temp_download_path("/"), "/model.bin.download");
    assert_eq!(temp_download_path(""), "model.bin.download");
    assert_eq!(temp_download_path("a/.."), "a/../model.bin.download");
    assert_eq!(temp_download_path("."), "./model.bin.download");
}

#[test]
fn joins_follow_path_rules() {
    assert_eq!(join_path("/a", "b"), "/a/b");
    assert_eq!(join_path("/a/", "b"), "/a/b");
    assert_eq!(join_path("", "b"), "b");
}

#[test]
fn model_dir_prefers_cache_then_home() {
    assert_eq!(model_dir_for(Some("/c"), Some("/h")), "/c/whisper_input/models");
    assert_eq!(model_dir_for(None, Some("/h")), "/h/.cache/whisper_input/models");
    assert_eq!(model_dir_for(None, None), ".whisper_input/models");
    assert!(default_model_dir().ends_with("whisper_input/models"));
}

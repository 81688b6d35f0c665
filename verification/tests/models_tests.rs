use podpipe::models::{
    check_diarization_models, embedding_model_present, file_is_usable, find_model_in,
    language_or_default, missing_speech_model_error,
};

#[test]
fn the_first_model_file_wins() {
    let names = vec![
        "notes.txt".to_string(),
        "ggml-small.bin".to_string(),
        "ggml-large-v3.bin".to_string(),
    ];
    let (model, index) = find_model_in(&names).expect("a model file is present");
    assert_eq!(model, "small");
    assert_eq!(index, 1);
}

#[test]
fn both_name_parts_are_required() {
    let names = vec![
        "ggml-small.txt".to_string(),
        "small.bin".to_string(),
        "ggml-".to_string(),
        ".bin".to_string(),
    ];
    assert!(find_model_in(&names).is_none());
    assert!(find_model_in(&Vec::new()).is_none());
}

#[test]
fn repeated_prefixes_and_suffixes_are_all_trimmed() {
    // trimming removes every copy of the prefix and of the suffix
    let names = vec!["ggml-ggml-tiny.bin.bin".to_string()];
    let (model, _) = find_model_in(&names).expect("a model file");
    assert_eq!(model, "tiny");
}

#[test]
fn model_files_must_be_present_and_non_empty() {
    assert!(!file_is_usable(None));
    assert!(!file_is_usable(Some(0)));
    assert!(file_is_usable(Some(1)));
}

#[test]
fn an_embedding_model_is_any_non_empty_onnx_file() {
    let names = vec!["readme.md".to_string(), "voices.onnx".to_string()];
    assert!(embedding_model_present(&names, &vec![10, 2048]));
    // an empty .onnx file does not count
    assert!(!embedding_model_present(&names, &vec![10, 0]));
    assert!(!embedding_model_present(&vec!["a.bin".to_string()], &vec![5]));
}

#[test]
fn missing_models_fail_fast_with_their_messages() {
    assert!(check_diarization_models(true, true).is_ok());
    assert_eq!(
        check_diarization_models(false, true).unwrap_err(),
        "Segmentierungsmodell nicht heruntergeladen. Bitte zuerst die Diarisierungsmodelle in den Einstellungen herunterladen."
    );
    assert_eq!(
        check_diarization_models(true, false).unwrap_err(),
        "Erkennungsmodell nicht heruntergeladen. Bitte zuerst die Diarisierungsmodelle in den Einstellungen herunterladen."
    );
    assert_eq!(
        missing_speech_model_error(),
        "Kein Whisper-Modell heruntergeladen. Bitte zuerst ein Modell in den Einstellungen herunterladen."
    );
}

#[test]
fn the_language_defaults_to_german() {
    assert_eq!(language_or_default(None), "de");
    assert_eq!(language_or_default(Some("en".to_string())), "en");
    // a stored empty setting is taken as it is
    assert_eq!(language_or_default(Some(String::new())), "");
}

use sotto::catalog::{find_model_info, get_available_models, load_selected_model, DEFAULT_MODEL};

#[test]
fn catalog_holds_every_model() {
    let models = get_available_models();
    assert_eq!(models.len(), 29);
    assert_eq!(models[0].name, "tiny");
    assert_eq!(models[0].size_mb, 75);
    assert_eq!(models[28].name, "large-v3-turbo-q8_0");
    assert_eq!(models[28].size_mb, 834);
}

#[test]
fn catalog_names_are_unique() {
    let models = get_available_models();
    for i in 0..models.len() {
        for j in (i + 1)..models.len() {
            assert_ne!(models[i].name, models[j].name);
            assert_ne!(models[i].filename, models[j].filename);
        }
    }
}

#[test]
fn catalog_files_follow_names() {
    for model in get_available_models() {
        assert_eq!(model.filename, format!("ggml-{}.bin", model.name));
        assert_eq!(
            model.url,
            format!("https://huggingface.co/ggerganov/whisper.cpp/resolve/main/{}", model.filename)
        );
    }
}

#[test]
fn find_known_model() {
    let model = find_model_info("tiny.en-q5_1").expect("known model");
    assert_eq!(model.name, "tiny.en-q5_1");
    assert_eq!(model.filename, "ggml-tiny.en-q5_1.bin");
    assert_eq!(
        model.url,
        "https://huggingface.co/ggerganov/whisper.cpp/resolve/main/ggml-tiny.en-q5_1.bin"
    );
    assert_eq!(model.size_mb, 31);
}

#[test]
fn find_every_catalog_model() {
    for model in get_available_models() {
        let found = find_model_info(model.name).expect("catalog model");
        assert_eq!(found.filename, model.filename);
        assert_eq!(found.size_mb, model.size_mb);
    }
}

#[test]
fn find_unknown_model() {
    assert!(find_model_info("x").is_none());
    assert!(find_model_info("").is_none());
    assert!(find_model_info("Tiny").is_none());
    assert!(find_model_info("tiny ").is_none());
}

#[test]
fn default_model_is_in_catalog() {
    assert_eq!(DEFAULT_MODEL, "tiny.en-q5_1");
    assert!(find_model_info(DEFAULT_MODEL).is_some());
}

#[test]
fn stored_selection_is_validated() {
    assert_eq!(load_selected_model(Some("base.en".to_string())), Some("base.en".to_string()));
    assert_eq!(load_selected_model(Some("no-such-model".to_string())), None);
    assert_eq!(load_selected_model(None), None);
}

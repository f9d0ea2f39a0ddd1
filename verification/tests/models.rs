use ta_ting::models::{
    cancel_download, deletion_folder, download_source, find_model, list_models, model_index,
    model_location, model_status, models, CancelRegistry, ModelError, ModelLocation,
};

#[test]
fn registry_contents() {
    let defs = models();
    assert_eq!(defs.len(), 2);
    assert_eq!(defs[0].id, "sherpa-zh");
    assert!(defs[0].is_bundled);
    assert_eq!(defs[1].id, "sherpa-en");
    assert_eq!(defs[1].model_stem, "epoch-99-avg-1");
    assert_eq!(model_index("sherpa-en"), Some(1));
    assert_eq!(model_index("sherpa-fr"), None);
    assert_eq!(find_model("sherpa-zh").unwrap().folder_name, "sherpa-onnx-zipformer-multi-zh-hans-2023-9-2");
    assert!(find_model("").is_none());
}

#[test]
fn listing_reports_status() {
    let none = list_models(&vec![]);
    assert_eq!(none.len(), 2);
    assert_eq!(none[0].status, "bundled");
    assert_eq!(none[1].status, "not_installed");
    assert_eq!(none[1].name, "ZipFormer English");
    assert_eq!(none[1].size_mb, 300);
    let some = list_models(&vec![
        "other".to_string(),
        "sherpa-onnx-zipformer-en-2023-06-26".to_string(),
    ]);
    assert_eq!(some[1].status, "installed");
    assert_eq!(some[0].status, "bundled");
    let d = find_model("sherpa-zh").unwrap();
    assert_eq!(model_status(&d, false), "bundled");
}

#[test]
fn locations() {
    match model_location("sherpa-zh") {
        Some((ModelLocation::Resource(p), stem)) => {
            assert_eq!(p, "resources/models/sherpa-zh/sherpa-onnx-zipformer-multi-zh-hans-2023-9-2");
            assert_eq!(stem, "epoch-20-avg-1");
        }
        _ => panic!("bundled model not found"),
    }
    match model_location("sherpa-en") {
        Some((ModelLocation::Downloaded(f), stem)) => {
            assert_eq!(f, "sherpa-onnx-zipformer-en-2023-06-26");
            assert_eq!(stem, "epoch-99-avg-1");
        }
        _ => panic!("downloadable model not found"),
    }
    assert!(model_location("nope").is_none());
}

#[test]
fn download_sources_and_errors() {
    let src = download_source("sherpa-en").unwrap();
    assert!(src.url.ends_with("sherpa-onnx-zipformer-en-2023-06-26.tar.bz2"));
    assert_eq!(src.archive_name, "sherpa-en.tar.bz2.tmp");
    assert_eq!(src.folder_name, "sherpa-onnx-zipformer-en-2023-06-26");
    match download_source("sherpa-zh") {
        Err(e @ ModelError::NotDownloadable(_)) => {
            assert_eq!(e.message(), "Model sherpa-zh is not downloadable")
        }
        _ => panic!("bundled model is downloadable"),
    }
    match download_source("xyz") {
        Err(e @ ModelError::UnknownModel(_)) => assert_eq!(e.message(), "Unknown model: xyz"),
        _ => panic!("unknown model accepted"),
    }
}

#[test]
fn deletion_rules() {
    assert_eq!(deletion_folder("sherpa-en").unwrap(), "sherpa-onnx-zipformer-en-2023-06-26");
    match deletion_folder("sherpa-zh") {
        Err(e @ ModelError::CannotDeleteBundled) => {
            assert_eq!(e.message(), "Cannot delete bundled model")
        }
        _ => panic!("bundled model deletable"),
    }
    assert!(matches!(deletion_folder("xyz"), Err(ModelError::UnknownModel(_))));
}

#[test]
fn cancel_registry_round_trip() {
    let mut reg: CancelRegistry<u32> = CancelRegistry::new();
    assert_eq!(cancel_download(&mut reg, "sherpa-en"), None);
    assert_eq!(reg.register("sherpa-en", 7), Ok(None));
    assert_eq!(reg.register("sherpa-en", 8), Ok(Some(7)));
    assert_eq!(reg.register("nope", 9), Err(9));
    assert_eq!(cancel_download(&mut reg, "sherpa-zh"), None);
    assert_eq!(cancel_download(&mut reg, "sherpa-en"), Some(8));
    assert_eq!(cancel_download(&mut reg, "sherpa-en"), None);
    assert_eq!(reg.register("sherpa-zh", 1), Ok(None));
    assert_eq!(reg.remove("sherpa-zh"), Some(1));
}

#[test]
fn cancel_twice_same_as_once() {
    let mut reg: CancelRegistry<u32> = CancelRegistry::new();
    reg.register("sherpa-en", 3).unwrap();
    reg.register("sherpa-zh", 4).unwrap();
    assert_eq!(cancel_download(&mut reg, "sherpa-en"), Some(3));
    assert_eq!(cancel_download(&mut reg, "sherpa-en"), None);
    assert_eq!(cancel_download(&mut reg, "sherpa-zh"), Some(4));
}

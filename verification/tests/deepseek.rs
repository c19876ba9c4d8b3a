use ahash::AHashMap;
use xberg::deepseek::{
    default_dtype_for, requested_dtype, BackendOptionsValue, CandleDeepseekOcrDtype,
    ConfidenceSemantics, DType, DeepseekOcrBackend, DeepseekOcrBackendOptions, Device,
    DevicePreference, EnginePoolKey, OcrBackendType, OcrConfig, DEFAULT_MODEL_ID,
};
use xberg::error::XbergError;
use xberg::recognition::{ImageRun, StepError};

/// A call whose steps report numbers as the errors underneath.
type Run = ImageRun<u8>;

fn with_options(options: DeepseekOcrBackendOptions) -> OcrConfig {
    OcrConfig { backend_options: Some(BackendOptionsValue::Decoded(options)), ..Default::default() }
}

#[test]
fn test_deepseek_ocr_backend_creation() {
    let backend = DeepseekOcrBackend::new();
    assert_eq!(backend.name(), "candle-deepseek-ocr");
    assert_eq!(backend.backend_type(), OcrBackendType::Candle);
}

#[test]
fn test_deepseek_ocr_emits_structured_markdown() {
    let backend = DeepseekOcrBackend::new();
    assert!(backend.emits_structured_markdown());
}

#[test]
fn test_deepseek_ocr_language_support() {
    let backend = DeepseekOcrBackend::new();
    assert!(backend.supports_language("eng"));
    assert!(backend.supports_language("zho"));
    assert!(backend.supports_language("jpn"));
    assert!(backend.supports_language("unknown"));
}

#[test]
fn test_deepseek_ocr_supported_languages() {
    let backend = DeepseekOcrBackend::new();
    let langs = backend.supported_languages();
    assert!(langs.contains(&"eng".to_string()));
    assert!(langs.contains(&"zho".to_string()));
    assert!(langs.contains(&"fra".to_string()));
}

#[test]
fn test_parse_options_defaults() {
    let config = OcrConfig::default();
    let options = DeepseekOcrBackend::new().parse_options(&config).unwrap();
    assert!(options.model_path.is_none());
    assert_eq!(options.device, DevicePreference::Auto);
    assert_eq!(options.version, 2);
    assert_eq!(options.dtype, None);
}

#[test]
fn test_parse_options_defaults_model_id() {
    let config = OcrConfig::default();
    let options = DeepseekOcrBackend::new().parse_options(&config).unwrap();
    assert_eq!(options.model_id, DEFAULT_MODEL_ID);
    assert_eq!(DEFAULT_MODEL_ID, "deepseek-ai/DeepSeek-OCR");
}

#[test]
fn test_parse_options_model_path() {
    let config = with_options(DeepseekOcrBackendOptions {
        model_path: Some("/models/deepseek".to_string()),
        ..Default::default()
    });
    let options = DeepseekOcrBackend::new().parse_options(&config).unwrap();
    assert_eq!(options.model_path.as_deref(), Some("/models/deepseek"));
}

#[test]
fn test_parse_options_custom_model_id_and_revision() {
    let config = with_options(DeepseekOcrBackendOptions {
        model_id: Some("example/deepseek-ocr".to_string()),
        hf_revision: Some("abc123".to_string()),
        ..Default::default()
    });
    let options = DeepseekOcrBackend::new().parse_options(&config).unwrap();
    assert_eq!(options.model_id, "example/deepseek-ocr");
    assert_eq!(options.hf_revision.as_deref(), Some("abc123"));
    assert!(options.model_path.is_none());
}

#[test]
fn test_parse_options_custom_device() {
    let config = with_options(DeepseekOcrBackendOptions {
        device: Some(DevicePreference::Cpu),
        ..Default::default()
    });
    let options = DeepseekOcrBackend::new().parse_options(&config).unwrap();
    assert_eq!(options.device, DevicePreference::Cpu);
}

#[test]
fn test_parse_options_rejects_unsupported_version() {
    let config = with_options(DeepseekOcrBackendOptions { version: Some(3), ..Default::default() });
    let error = DeepseekOcrBackend::new().parse_options(&config).unwrap_err();
    assert!(error.message().contains("backend_options.version"));
    assert_eq!(
        error.message(),
        "invalid candle-deepseek-ocr backend_options.version: expected 1 or 2, got 3"
    );
}

#[test]
fn test_parse_options_accepts_supported_version() {
    let config = with_options(DeepseekOcrBackendOptions { version: Some(1), ..Default::default() });
    let options = DeepseekOcrBackend::new().parse_options(&config).unwrap();
    assert_eq!(options.version, 1);
}

#[test]
fn test_parse_options_non_object_json_returns_contextual_error() {
    let config = OcrConfig {
        backend_options: Some(BackendOptionsValue::Malformed("expected an object".to_string())),
        ..Default::default()
    };
    let error = DeepseekOcrBackend::new().parse_options(&config).unwrap_err();
    assert!(error.message().contains("candle-deepseek-ocr backend_options"));
}

#[test]
fn test_parse_options_empty_object_returns_defaults() {
    let config = with_options(DeepseekOcrBackendOptions::default());
    let options = DeepseekOcrBackend::new().parse_options(&config).unwrap();
    assert!(options.model_path.is_none());
    assert_eq!(options.device, DevicePreference::Auto);
    assert_eq!(options.version, 2);
    assert_eq!(options.dtype, None);
}

#[test]
fn test_parse_options_explicit_dtype() {
    let config = with_options(DeepseekOcrBackendOptions {
        dtype: Some(CandleDeepseekOcrDtype::Bf16),
        ..Default::default()
    });
    let options = DeepseekOcrBackend::new().parse_options(&config).unwrap();
    assert_eq!(options.dtype, Some(DType::BF16));
}

#[test]
fn test_parse_options_auto_dtype_resolves_to_none() {
    let config = with_options(DeepseekOcrBackendOptions {
        dtype: Some(CandleDeepseekOcrDtype::Auto),
        ..Default::default()
    });
    let options = DeepseekOcrBackend::new().parse_options(&config).unwrap();
    assert_eq!(options.dtype, None);
}

#[test]
fn test_parse_options_constructor_dtype_used_when_options_dtype_absent() {
    let config = OcrConfig::default();
    let options = DeepseekOcrBackend::new()
        .with_dtype(DType::F16)
        .parse_options(&config)
        .unwrap();
    assert_eq!(options.dtype, Some(DType::F16));
}

#[test]
fn test_parse_options_explicit_dtype_overrides_constructor_dtype() {
    let config = with_options(DeepseekOcrBackendOptions {
        dtype: Some(CandleDeepseekOcrDtype::Bf16),
        ..Default::default()
    });
    let options = DeepseekOcrBackend::new()
        .with_dtype(DType::F16)
        .parse_options(&config)
        .unwrap();
    assert_eq!(options.dtype, Some(DType::BF16));
}

#[test]
fn default_dtype_for_cpu_is_f32() {
    assert_eq!(default_dtype_for(&Device::Cpu), DType::F32);
}

#[test]
fn default_dtype_for_accelerators() {
    assert_eq!(default_dtype_for(&Device::Cuda), DType::BF16);
    assert_eq!(default_dtype_for(&Device::Metal), DType::F16);
}

#[test]
fn requested_dtype_maps_each_explicit_variant() {
    assert_eq!(requested_dtype(None), None);
    assert_eq!(requested_dtype(Some(CandleDeepseekOcrDtype::Auto)), None);
    assert_eq!(requested_dtype(Some(CandleDeepseekOcrDtype::F32)), Some(DType::F32));
    assert_eq!(requested_dtype(Some(CandleDeepseekOcrDtype::F16)), Some(DType::F16));
    assert_eq!(requested_dtype(Some(CandleDeepseekOcrDtype::Bf16)), Some(DType::BF16));
}

#[test]
fn test_initialize_and_shutdown() {
    let backend = DeepseekOcrBackend::new();
    assert!(backend.initialize().is_ok());
    assert!(backend.shutdown().is_ok());
}

#[test]
fn engine_pool_reuses_equal_configs_and_isolates_distinct_configs() {
    let original = EnginePoolKey::new(DevicePreference::Cpu, DType::F32, "/models/v1", 1);
    let equal = EnginePoolKey::new(DevicePreference::Cpu, DType::F32, "/models/v1", 1);
    let mut pool = AHashMap::new();
    pool.insert(original, 7_u8);

    assert_eq!(pool.get(&equal), Some(&7));
    assert_eq!(
        pool.get(&EnginePoolKey::new(DevicePreference::Cpu, DType::F32, "/models/v2", 1)),
        None
    );
    assert_eq!(
        pool.get(&EnginePoolKey::new(DevicePreference::Cpu, DType::F32, "/models/v1", 2)),
        None
    );
    assert_eq!(
        pool.get(&EnginePoolKey::new(DevicePreference::Auto, DType::F32, "/models/v1", 1)),
        None
    );
}

#[test]
fn the_key_holds_the_path_itself() {
    let key = EnginePoolKey::new(DevicePreference::Cpu, DType::F32, "/models/v1", 1);
    assert_eq!(key.model_path, std::path::PathBuf::from("/models/v1"));
    assert_eq!(
        key,
        EnginePoolKey::new(DevicePreference::Cpu, DType::F32, "/models//v1/", 1)
    );
}

#[test]
fn the_backend_describes_itself() {
    let backend = DeepseekOcrBackend::default();
    assert_eq!(backend.version(), "0.1.0");
    assert_eq!(backend.confidence_semantics(), ConfidenceSemantics::Unreported);
    let languages = backend.supported_languages();
    assert_eq!(languages.len(), 28);
    assert_eq!(languages[0], "eng");
    assert_eq!(languages[27], "vi");
    assert_eq!(backend.parse_options(&OcrConfig::default()).unwrap().dtype, None);
}

#[test]
fn empty_options_are_rejected_in_order() {
    let empty = || Some(String::new());
    let message = |options: DeepseekOcrBackendOptions| {
        match DeepseekOcrBackend::new().parse_options(&with_options(options)).unwrap_err() {
            XbergError::Validation { message } => message,
            XbergError::Ocr { message } => panic!("{}", message),
        }
    };
    assert_eq!(
        message(DeepseekOcrBackendOptions {
            model_path: empty(),
            model_id: empty(),
            version: Some(9),
            ..Default::default()
        }),
        "invalid candle-deepseek-ocr backend_options.model_path: must not be empty"
    );
    assert!(message(DeepseekOcrBackendOptions { model_id: empty(), ..Default::default() })
        .contains("backend_options.model_id"));
    assert!(message(DeepseekOcrBackendOptions { hf_revision: empty(), ..Default::default() })
        .contains("backend_options.hf_revision"));
    assert!(message(DeepseekOcrBackendOptions { cache_dir: empty(), ..Default::default() })
        .contains("backend_options.cache_dir"));
    assert_eq!(
        message(DeepseekOcrBackendOptions { version: Some(4294967295), ..Default::default() }),
        "invalid candle-deepseek-ocr backend_options.version: expected 1 or 2, got 4294967295"
    );
}

#[test]
fn acceleration_settings_place_a_call_that_names_no_device() {
    let device = |requested: Option<DevicePreference>| {
        let config = OcrConfig {
            backend_options: Some(BackendOptionsValue::Decoded(DeepseekOcrBackendOptions {
                device: requested,
                ..Default::default()
            })),
            acceleration_device: Some(DevicePreference::Cuda),
        };
        DeepseekOcrBackend::new().parse_options(&config).unwrap().device
    };
    assert_eq!(device(None), DevicePreference::Cuda);
    assert_eq!(device(Some(DevicePreference::Auto)), DevicePreference::Cuda);
    assert_eq!(device(Some(DevicePreference::Cpu)), DevicePreference::Cpu);
    assert_eq!(device(Some(DevicePreference::Metal)), DevicePreference::Metal);
}

#[test]
fn the_cache_directory_is_handed_on_as_a_path() {
    let config = with_options(DeepseekOcrBackendOptions {
        cache_dir: Some("/cache".to_string()),
        ..Default::default()
    });
    let options = DeepseekOcrBackend::new().parse_options(&config).unwrap();
    assert_eq!(options.cache_dir, Some(std::path::PathBuf::from("/cache")));
}

#[test]
fn an_auto_precision_goes_before_the_one_of_the_backend() {
    let config = with_options(DeepseekOcrBackendOptions {
        dtype: Some(CandleDeepseekOcrDtype::Auto),
        ..Default::default()
    });
    let backend = DeepseekOcrBackend::new().with_dtype(DType::F16);
    assert_eq!(backend.parse_options(&config).unwrap().dtype, None);
    let run: Run = backend.start_image(&[1], &config);
    let run = run.weights_staged(Ok("/m".to_string())).device_selected(Ok(Device::Cuda));
    match run {
        ImageRun::Engine(key, _) => assert_eq!(key.dtype, DType::BF16),
        other => panic!("{:?}", other),
    }
}

#[test]
fn written_defaults_change_nothing() {
    let parse = |options: DeepseekOcrBackendOptions| {
        DeepseekOcrBackend::new()
            .with_dtype(DType::F16)
            .parse_options(&with_options(options))
            .unwrap()
    };
    let written = parse(DeepseekOcrBackendOptions {
        model_id: Some(DEFAULT_MODEL_ID.to_string()),
        device: Some(DevicePreference::Auto),
        version: Some(2),
        dtype: Some(CandleDeepseekOcrDtype::Auto),
        ..Default::default()
    });
    let left_out = parse(DeepseekOcrBackendOptions::default());
    assert_eq!(written.model_id, left_out.model_id);
    assert_eq!(written.device, left_out.device);
    assert_eq!(written.version, left_out.version);
    assert_eq!(written.dtype, None);
    assert_eq!(left_out.dtype, Some(DType::F16));
}

fn error_of(run: Run) -> (XbergError, Option<u8>) {
    match run {
        ImageRun::Done(Err(failure)) => (failure.error, failure.source),
        other => panic!("{:?}", other),
    }
}

fn ocr(message: &str) -> XbergError {
    XbergError::Ocr { message: message.to_string() }
}

#[test]
fn an_empty_image_is_rejected() {
    let run = DeepseekOcrBackend::new().start_image(&[], &OcrConfig::default());
    let message = "Empty image data provided to DeepSeek-OCR".to_string();
    assert_eq!(error_of(run), (XbergError::Validation { message }, None));
}

#[test]
fn unacceptable_options_end_a_call() {
    let config = with_options(DeepseekOcrBackendOptions { version: Some(0), ..Default::default() });
    let run = DeepseekOcrBackend::new().start_image(&[1], &config);
    assert!(matches!(error_of(run), (XbergError::Validation { .. }, None)));
}

#[test]
fn a_call_downloads_selects_initialises_and_reads() {
    let run: Run = DeepseekOcrBackend::new().start_image(&[1], &OcrConfig::default());
    match &run {
        ImageRun::Weights(options) => assert_eq!(options.model_id, DEFAULT_MODEL_ID),
        other => panic!("{:?}", other),
    }
    let run = run.weights_staged(Ok("/cache/model".to_string()));
    match &run {
        ImageRun::Device(options, path) => {
            assert_eq!(options.device, DevicePreference::Auto);
            assert_eq!(path, "/cache/model");
        }
        other => panic!("{:?}", other),
    }
    let run = run.device_selected(Ok(Device::Metal));
    match &run {
        ImageRun::Engine(key, device) => {
            assert_eq!(*device, Device::Metal);
            assert_eq!(
                *key,
                EnginePoolKey::new(DevicePreference::Auto, DType::F16, "/cache/model", 2)
            );
        }
        other => panic!("{:?}", other),
    }
    let run = run.engine_ready(Ok(()));
    assert!(matches!(run, ImageRun::Recognition));
    match run.recognized(Ok("# Title".to_string())).aborted("late".to_string()) {
        ImageRun::Done(Ok(text)) => {
            assert_eq!(text.content, "# Title");
            assert_eq!(text.mime_type, "text/markdown");
            assert_eq!(text.backend_name, "candle-deepseek-ocr");
            assert!(text.plain_text_task);
        }
        other => panic!("{:?}", other),
    }
}

#[test]
fn a_local_model_is_not_downloaded() {
    let config = with_options(DeepseekOcrBackendOptions {
        model_path: Some("/models/local".to_string()),
        dtype: Some(CandleDeepseekOcrDtype::F32),
        version: Some(1),
        ..Default::default()
    });
    let run: Run = DeepseekOcrBackend::new().start_image(&[1], &config);
    match run.device_selected(Ok(Device::Cuda)) {
        ImageRun::Engine(key, _) => assert_eq!(
            key,
            EnginePoolKey::new(DevicePreference::Auto, DType::F32, "/models/local", 1)
        ),
        other => panic!("{:?}", other),
    }
}

#[test]
fn every_step_reports_its_failure() {
    let start = || -> Run { DeepseekOcrBackend::new().start_image(&[1], &OcrConfig::default()) };
    let broken = || "broken".to_string();
    let failure = |source: u8| StepError { detail: broken(), source };
    assert_eq!(
        error_of(start().weights_staged(Err(broken()))),
        (ocr("DeepSeek-OCR weight download failed: broken"), None)
    );
    let located = || start().weights_staged(Ok("/m".to_string()));
    assert_eq!(
        error_of(located().device_selected(Err(failure(3)))),
        (ocr("Failed to select compute device: broken"), Some(3))
    );
    let selected = || located().device_selected(Ok(Device::Cpu));
    assert_eq!(
        error_of(selected().engine_ready(Err(failure(4)))),
        (ocr("DeepSeek-OCR engine initialisation failed: broken"), Some(4))
    );
    assert_eq!(
        error_of(selected().engine_ready(Ok(())).recognized(Err(failure(5)))),
        (ocr("DeepSeek-OCR inference failed: broken"), Some(5))
    );
    assert_eq!(
        error_of(selected().aborted(broken())),
        (ocr("DeepSeek-OCR task execution failed: broken"), None)
    );
    // An answer that nobody asked for changes nothing.
    assert!(matches!(start().engine_ready(Ok(())), ImageRun::Weights(_)));
}

use ohmygpu::api::{GenerationError, LoadError};
use ohmygpu::config::{get_config_value, set_config_value, Config};
use ohmygpu::daemon::daemon_status;
use ohmygpu::gpu::{check_gpu_requirements, detect_gpu, GpuBackend, GpuCheckResult, GpuInfo};
use ohmygpu::hub::{parse_repo, select_assets, select_files, GhAsset, GhRelease, HfModelInfo, HfSibling};
use ohmygpu::runners::{find_llama_command, is_available, llama_command_candidates};
use ohmygpu::strutil::{parse_u64, str_contains, str_ends_with, truncate, u64_to_string};
use ohmygpu::tui::{next_selection, previous_selection, Tab};

fn hf(siblings: Vec<&str>) -> HfModelInfo {
    HfModelInfo {
        id: "m".to_string(),
        pipeline_tag: None,
        downloads: 0,
        likes: 0,
        siblings: siblings
            .into_iter()
            .map(|s| HfSibling { rfilename: s.to_string(), size: None })
            .collect(),
    }
}

/// A requested file is taken alone; quantized files are preferred, the
/// balanced quantization first; otherwise the tensor and configuration files
/// are taken.
#[test]
fn file_selection() {
    let info = hf(vec!["a.gguf", "b-Q4_K_M.gguf", "c.safetensors"]);
    assert_eq!(select_files(&info, Some("x.bin")), vec!["x.bin"]);
    assert_eq!(select_files(&info, None), vec!["b-Q4_K_M.gguf"]);

    let no_q4 = hf(vec!["first.gguf", "second.gguf"]);
    assert_eq!(select_files(&no_q4, None), vec!["first.gguf"]);

    let plain = hf(vec![
        "model.safetensors",
        "config.json",
        "tokenizer.json",
        "tokenizer_config.json",
        "README.md",
        "weights.bin",
        "old.pt",
    ]);
    assert_eq!(
        select_files(&plain, None),
        vec![
            "model.safetensors",
            "config.json",
            "tokenizer.json",
            "tokenizer_config.json",
            "weights.bin",
            "old.pt",
        ]
    );
}

/// Release assets: the requested fragment filters; otherwise every weight
/// file is taken.
#[test]
fn asset_selection() {
    let release = GhRelease {
        tag_name: "v1".to_string(),
        assets: vec![
            GhAsset {
                name: "model-q4.gguf".to_string(),
                size: 1,
                browser_download_url: "u1".to_string(),
            },
            GhAsset {
                name: "README.md".to_string(),
                size: 2,
                browser_download_url: "u2".to_string(),
            },
            GhAsset {
                name: "weights.onnx".to_string(),
                size: 3,
                browser_download_url: "u3".to_string(),
            },
        ],
    };
    let all = select_assets(&release, None);
    let names: Vec<&str> = all.iter().map(|a| a.name.as_str()).collect();
    assert_eq!(names, vec!["model-q4.gguf", "weights.onnx"]);
    let picked = select_assets(&release, Some("q4"));
    assert_eq!(picked.len(), 1);
    assert_eq!(picked[0].name, "model-q4.gguf");
}

/// The forge prefix is stripped from model ids.
#[test]
fn repo_parsing() {
    assert_eq!(parse_repo("github:owner/repo"), "owner/repo");
    assert_eq!(parse_repo("owner/repo"), "owner/repo");
    assert_eq!(parse_repo("short"), "short");
}

/// Configuration round trip through the keyed get/set.
#[test]
fn config_get_set() {
    let mut c = Config::default();
    assert_eq!(get_config_value(&c, "daemon.port").unwrap(), "10692");
    assert_eq!(get_config_value(&c, "daemon.host").unwrap(), "127.0.0.1");
    assert_eq!(get_config_value(&c, "inference.temperature").unwrap(), "700");
    assert_eq!(get_config_value(&c, "inference.top_p").unwrap(), "900000");
    assert_eq!(get_config_value(&c, "inference.use_gpu").unwrap(), "true");
    assert_eq!(get_config_value(&c, "models.hf_token").unwrap(), "");
    assert!(get_config_value(&c, "nope").is_err());

    set_config_value(&mut c, "daemon.port", "8080").unwrap();
    assert_eq!(c.daemon.port, 8080);
    set_config_value(&mut c, "models.hf_token", "SECRET-REDACTED").unwrap();
    assert_eq!(get_config_value(&c, "models.hf_token").unwrap(), "***");
    set_config_value(&mut c, "models.hf_token", "").unwrap();
    assert!(c.models.hf_token.is_none());
    set_config_value(&mut c, "inference.use_gpu", "false").unwrap();
    assert!(!c.inference.use_gpu);

    assert!(set_config_value(&mut c, "daemon.port", "70000").is_err());
    assert_eq!(c.daemon.port, 8080);
    assert!(set_config_value(&mut c, "inference.max_tokens", "abc").is_err());
    assert!(set_config_value(&mut c, "nope", "1").is_err());
}

/// Decimal rendering and parsing agree.
#[test]
fn decimal_round_trip() {
    assert_eq!(u64_to_string(0), "0");
    assert_eq!(u64_to_string(10692), "10692");
    assert_eq!(u64_to_string(u64::MAX), u64::MAX.to_string());
    assert_eq!(parse_u64("0"), Some(0));
    assert_eq!(parse_u64("10692"), Some(10692));
    assert_eq!(parse_u64(&u64::MAX.to_string()), Some(u64::MAX));
    assert_eq!(parse_u64("18446744073709551616"), None);
    assert_eq!(parse_u64(""), None);
    assert_eq!(parse_u64("12a"), None);
    assert_eq!(parse_u64("-3"), None);
}

/// The string predicates behind the classifiers.
#[test]
fn string_predicates() {
    assert!(str_contains("model-Q4_K_M.gguf", "Q4_K_M"));
    assert!(!str_contains("model.gguf", "Q4_K_M"));
    assert!(str_contains("abc", ""));
    assert!(str_ends_with("model.gguf", ".gguf"));
    assert!(!str_ends_with("model.bin", ".gguf"));
    assert!(!str_ends_with("a", "long-suffix"));
}

/// Display truncation keeps short strings whole and cuts long ones to the
/// limit, ellipsis included.
#[test]
fn truncation() {
    assert_eq!(truncate("short", 10), "short");
    assert_eq!(truncate("exactly-10", 10), "exactly-10");
    assert_eq!(truncate("a-rather-long-name", 10), "a-rathe...");
}

/// Device choice and the requirement check.
#[test]
fn gpu_detection_and_check() {
    let metal = GpuInfo { backend: GpuBackend::Metal, vram_mb: 16384, name: "M".to_string() };
    let cuda = GpuInfo { backend: GpuBackend::Cuda, vram_mb: 4096, name: "C".to_string() };
    let chosen = detect_gpu(Some(metal.clone()), Some(cuda.clone()));
    assert_eq!(chosen.backend, GpuBackend::Metal);
    let chosen = detect_gpu(None, Some(cuda.clone()));
    assert_eq!(chosen.backend, GpuBackend::Cuda);
    let none = detect_gpu(None, None);
    assert_eq!(none.backend, GpuBackend::NoBackend);
    assert_eq!(none.name, "No GPU");

    match check_gpu_requirements(metal) {
        GpuCheckResult::Passed(i) => assert_eq!(i.vram_mb, 16384),
        _ => panic!("expected a pass"),
    }
    match check_gpu_requirements(cuda) {
        GpuCheckResult::LowVram(i) => assert_eq!(i.vram_mb, 4096),
        _ => panic!("expected the low-memory result"),
    }
    match check_gpu_requirements(none) {
        GpuCheckResult::NoGpu => {}
        _ => panic!("expected no device"),
    }
    assert_eq!(GpuBackend::Cuda.as_str(), "CUDA");
}

/// The daemon status conclusion over the probe outcomes.
#[test]
fn daemon_status_conclusion() {
    let up = daemon_status("http://localhost:10692".to_string(), Some(7), true, true);
    assert!(up.running);
    assert_eq!(up.pid, Some(7));
    let stale = daemon_status("http://localhost:10692".to_string(), Some(7), false, false);
    assert!(!stale.running);
}

/// Runner availability over the candidate probes.
#[test]
fn runner_probes() {
    let candidates = llama_command_candidates();
    assert_eq!(candidates.len(), 4);
    assert_eq!(candidates[0], "llama-cli");
    assert!(is_available(&vec![false, true, false, false]));
    assert!(!is_available(&vec![false, false, false, false]));
    assert_eq!(
        find_llama_command(&candidates, &vec![false, true, true, false]),
        Some("llama".to_string())
    );
    assert_eq!(find_llama_command(&candidates, &vec![false, false, false, false]), None);
}

/// Tab cycling and wrap-around selection.
#[test]
fn tui_navigation() {
    assert_eq!(Tab::Models.next(), Tab::Search);
    assert_eq!(Tab::Settings.next(), Tab::Models);
    assert_eq!(Tab::Models.previous(), Tab::Settings);
    assert_eq!(next_selection(0, 3), 1);
    assert_eq!(next_selection(2, 3), 0);
    assert_eq!(next_selection(0, 0), 0);
    assert_eq!(previous_selection(2, 3), 1);
    assert_eq!(previous_selection(0, 3), 2);
    assert_eq!(previous_selection(5, 0), 5);
}

/// The error renderings.
#[test]
fn error_messages() {
    assert_eq!(
        LoadError::NotFound("x".to_string()).message(),
        "model not found in registry: x"
    );
    assert!(LoadError::Config("bad".to_string()).message().contains("bad"));
    assert!(LoadError::Backend("oom".to_string()).message().contains("oom"));
    assert_eq!(GenerationError::NotLoaded.message(), "model not loaded");
    assert!(GenerationError::Tokenization("t".to_string()).message().contains("t"));
    assert!(GenerationError::Backend("b".to_string()).message().contains("b"));
    assert!(
        GenerationError::InvalidDimensions { width: 1000, height: 1024, factor: 16 }
            .message()
            .contains("divisible")
    );
}

use ohmygpu::api::{GenerationError, RuntimeStatus};
use ohmygpu::manager::ManagerState;
use ohmygpu::registry::{ModelInfo, ModelRegistry, ModelSource, ModelType};

fn info(name: &str, path: &str) -> ModelInfo {
    ModelInfo {
        name: name.to_string(),
        source: ModelSource::Local,
        model_type: ModelType::LLM,
        path: path.to_string(),
        size_bytes: 1,
        files: vec![],
        downloaded_at: 0,
    }
}

/// Two `ensure_loaded` calls for one name make exactly one backend load: the
/// first swaps and loads, the second hits the read-only fast path. Both
/// observe `Ready`.
#[test]
fn ensure_loaded_loads_once() {
    let mut m = ManagerState::new();
    let name = "A".to_string();
    let resolved = info("A", "/models/a");

    // First caller: no fast path, so prepare + backend load + complete.
    assert!(!m.fast_path(&name));
    let config = m.prepare_load(&name, Some(&resolved)).unwrap();
    assert_eq!(config.model_path, "/models/a");
    assert_eq!(m.status, RuntimeStatus::Loading);
    m.complete_load(&name, true);
    assert_eq!(m.status, RuntimeStatus::Ready);
    assert_eq!(m.load_calls, 1);

    // Second caller: the fast path answers; no further backend call.
    assert!(m.fast_path(&name));
    assert_eq!(m.load_calls, 1);
    assert!(m.is_model_loaded());
    assert_eq!(m.get_current_model().unwrap(), "A");
}

/// A swap to another model unloads the ready one first.
#[test]
fn swap_unloads_the_active_model() {
    let mut m = ManagerState::new();
    let a = "A".to_string();
    let b = "B".to_string();
    m.prepare_load(&a, Some(&info("A", "/models/a"))).unwrap();
    m.complete_load(&a, true);
    assert_eq!(m.unload_calls, 0);

    assert!(!m.fast_path(&b));
    m.prepare_load(&b, Some(&info("B", "/models/b"))).unwrap();
    assert_eq!(m.unload_calls, 1);
    m.complete_load(&b, true);
    assert_eq!(m.get_current_model().unwrap(), "B");
    assert_eq!(m.load_calls, 2);
}

/// An unresolved name fails with the not-found error and never enters
/// `Loading`.
#[test]
fn unknown_name_is_not_found() {
    let mut m = ManagerState::new();
    let name = "missing".to_string();
    let r = m.prepare_load(&name, None);
    assert!(r.is_err());
    assert_eq!(m.status, RuntimeStatus::Unloaded);
    assert_eq!(m.load_calls, 0);
}

/// A failed backend load leaves the status observably `Error`; the failure
/// costs the one load call that was made.
#[test]
fn failed_load_leaves_error() {
    let mut m = ManagerState::new();
    let name = "A".to_string();
    m.prepare_load(&name, Some(&info("A", "/models/a"))).unwrap();
    m.complete_load(&name, false);
    assert_eq!(m.status, RuntimeStatus::Error);
    assert_eq!(m.load_calls, 1);
    assert!(!m.fast_path(&name));
}

/// Unload is the only exit from `Ready`, and a no-op when nothing is loaded.
#[test]
fn unload_semantics() {
    let mut m = ManagerState::new();
    m.unload();
    assert_eq!(m.status, RuntimeStatus::Unloaded);
    assert_eq!(m.unload_calls, 0);
    let name = "A".to_string();
    m.prepare_load(&name, Some(&info("A", "/models/a"))).unwrap();
    m.complete_load(&name, true);
    m.unload();
    assert_eq!(m.status, RuntimeStatus::Unloaded);
    assert_eq!(m.unload_calls, 1);
    assert!(m.get_current_model().is_none());
}

/// The generation gate: work is admitted exactly when the runtime is ready.
#[test]
fn require_ready_gate() {
    assert!(ohmygpu::api::require_ready(RuntimeStatus::Ready).is_ok());
    for status in [RuntimeStatus::Unloaded, RuntimeStatus::Loading, RuntimeStatus::Error] {
        match ohmygpu::api::require_ready(status) {
            Err(GenerationError::NotLoaded) => {}
            _ => panic!("expected the not-loaded error"),
        }
    }
}

/// The registry keys entries by name: add replaces, get finds, remove hands
/// the entry back.
#[test]
fn registry_add_get_remove() {
    let mut reg = ModelRegistry::new();
    reg.add(info("a", "/one"));
    reg.add(info("b", "/two"));
    assert_eq!(reg.get(&"a".to_string()).unwrap().path, "/one");
    reg.add(info("a", "/three"));
    assert_eq!(reg.list().len(), 2);
    assert_eq!(reg.get(&"a".to_string()).unwrap().path, "/three");
    let removed = reg.remove(&"a".to_string()).unwrap();
    assert_eq!(removed.path, "/three");
    assert!(reg.get(&"a".to_string()).is_none());
    assert!(reg.remove(&"a".to_string()).is_none());
}

/// The folded on-disk name and the candidate paths a model may live under.
#[test]
fn model_path_candidates_forms() {
    let c = ohmygpu::registry::model_path_candidates("Tongyi-MAI/Z-Image-Turbo", "/store");
    assert_eq!(c.len(), 3);
    assert_eq!(c[0], "/store/Tongyi-MAI/Z-Image-Turbo");
    assert_eq!(c[1], "/store/Tongyi-MAI--Z-Image-Turbo");
    assert_eq!(c[2], "/store/models--Tongyi-MAI--Z-Image-Turbo");
}

/// The pipeline-tag classification of model kinds.
#[test]
fn pipeline_tag_classification() {
    assert_eq!(ModelType::from_pipeline_tag("text-generation"), ModelType::LLM);
    assert_eq!(ModelType::from_pipeline_tag("sentence-similarity"), ModelType::Embedding);
    assert_eq!(ModelType::from_pipeline_tag("text-to-image"), ModelType::ImageGeneration);
    assert_eq!(ModelType::from_pipeline_tag("object-detection"), ModelType::ImageClassification);
    assert_eq!(
        ModelType::from_pipeline_tag("automatic-speech-recognition"),
        ModelType::AudioTranscription
    );
    assert_eq!(ModelType::from_pipeline_tag("text-to-speech"), ModelType::AudioGeneration);
    assert_eq!(ModelType::from_pipeline_tag("whatever"), ModelType::Unknown);
    assert_eq!(ModelType::LLM.as_str(), "LLM");
    assert_eq!(ModelType::ImageGeneration.as_str(), "Image Gen");
}

use embedding_generator::registry::ModelRegistry;
use embedding_generator::server_config::DeviceKind;
use embedding_generator::server_config::EmbeddingModel;
use embedding_generator::server_config::EmbeddingModelKind;

#[test]
fn new_registry_is_empty() {
    let registry: ModelRegistry<u32> = ModelRegistry::new();
    assert!(registry.is_empty());
    assert_eq!(registry.len(), 0);
    assert_eq!(registry.get("all-minilm-l12-v2"), None);
    assert!(!registry.contains("all-minilm-l12-v2"));
}

#[test]
fn inserted_model_is_found_under_its_name() {
    let mut registry: ModelRegistry<u32> = ModelRegistry::new();
    registry.insert("all-minilm-l12-v2".to_string(), 12);
    registry.insert("t5-base".to_string(), 5);
    assert!(!registry.is_empty());
    assert_eq!(registry.len(), 2);
    assert_eq!(registry.get("all-minilm-l12-v2"), Some(&12));
    assert_eq!(registry.get("t5-base"), Some(&5));
    assert!(registry.contains("t5-base"));
    assert_eq!(registry.get("t5"), None);
    assert!(!registry.contains("t5"));
}

#[test]
fn insert_under_a_taken_name_replaces_the_model() {
    let mut registry: ModelRegistry<u32> = ModelRegistry::new();
    registry.insert("all-minilm-l12-v2".to_string(), 1);
    registry.insert("other".to_string(), 2);
    registry.insert("all-minilm-l12-v2".to_string(), 3);
    assert_eq!(registry.len(), 2);
    assert_eq!(registry.get("all-minilm-l12-v2"), Some(&3));
    assert_eq!(registry.get("other"), Some(&2));
}

#[test]
fn registry_names_are_case_sensitive() {
    let mut registry: ModelRegistry<u32> = ModelRegistry::new();
    registry.insert("Model".to_string(), 1);
    assert!(registry.contains("Model"));
    assert!(!registry.contains("model"));
    assert!(!registry.contains("MODEL"));
    registry.insert("model".to_string(), 2);
    assert_eq!(registry.len(), 2);
    assert_eq!(registry.get("Model"), Some(&1));
    assert_eq!(registry.get("model"), Some(&2));
}

#[test]
fn only_all_minilm_l12_v2_is_supported() {
    assert!(EmbeddingModelKind::AllMiniLmL12V2.is_supported());
    assert!(!EmbeddingModelKind::AllMiniLmL6V2.is_supported());
    assert!(!EmbeddingModelKind::AllMpnetBaseV2.is_supported());
    assert!(!EmbeddingModelKind::AllDistilrobertaV1.is_supported());
    assert!(!EmbeddingModelKind::T5Base.is_supported());
    assert!(!EmbeddingModelKind::OpenAIAda02.is_supported());
}

#[test]
fn canonical_name_of_each_kind() {
    assert_eq!(
        EmbeddingModelKind::AllMiniLmL12V2.canonical_name(),
        Some("all-minilm-l12-v2".to_string())
    );
    assert_eq!(EmbeddingModelKind::AllMiniLmL6V2.canonical_name(), None);
    assert_eq!(EmbeddingModelKind::AllMpnetBaseV2.canonical_name(), None);
    assert_eq!(EmbeddingModelKind::AllDistilrobertaV1.canonical_name(), None);
    assert_eq!(EmbeddingModelKind::T5Base.canonical_name(), None);
    assert_eq!(EmbeddingModelKind::OpenAIAda02.canonical_name(), None);
}

#[test]
fn configurations_compare_by_kind_and_device() {
    let cpu = EmbeddingModel {
        model_kind: EmbeddingModelKind::AllMiniLmL12V2,
        device_kind: DeviceKind::Cpu,
    };
    let gpu = EmbeddingModel {
        model_kind: EmbeddingModelKind::AllMiniLmL12V2,
        device_kind: DeviceKind::Gpu,
    };
    let copy = cpu;
    assert_eq!(cpu, copy);
    assert_ne!(cpu, gpu);
    assert_eq!(cpu.model_kind, gpu.model_kind);
}

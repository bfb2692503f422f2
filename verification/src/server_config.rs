//! What a deployment asks the embedding service to load.

use vstd::prelude::*;

verus! {

/// The embedding architectures a configuration can name.
#[derive(Clone, Copy, Debug, PartialEq, Eq, Structural)]
pub enum EmbeddingModelKind {
    AllMiniLmL12V2,
    AllMiniLmL6V2,
    AllMpnetBaseV2,
    AllDistilrobertaV1,
    T5Base,
    OpenAIAda02,
}

/// Where a loaded model computes.
#[derive(Clone, Copy, Debug, PartialEq, Eq, Structural)]
pub enum DeviceKind {
    Cpu,
    Gpu,
    Remote,
}

/// One model to load: which architecture, and on which device.
#[derive(Clone, Copy, Debug, PartialEq, Eq, Structural)]
pub struct EmbeddingModel {
    pub model_kind: EmbeddingModelKind,
    pub device_kind: DeviceKind,
}

impl EmbeddingModelKind {
    /// Whether the service knows how to load this architecture.
    pub open spec fn spec_is_supported(self) -> bool {
        self is AllMiniLmL12V2
    }

    /// The name under which a model of this architecture is registered and
    /// requested. It has a meaning for supported architectures only.
    pub open spec fn spec_canonical_name(self) -> Seq<char> {
        "all-minilm-l12-v2"@
    }

    /// Whether the service knows how to load this architecture.
    #[verifier::when_used_as_spec(spec_is_supported)]
    pub fn is_supported(self) -> (supported: bool)
        ensures
            supported == self.spec_is_supported(),
    {
        match self {
            EmbeddingModelKind::AllMiniLmL12V2 => true,
            _ => false,
        }
    }

    /// The registered name of this architecture, or `None` where the
    /// architecture is not supported.
    pub fn canonical_name(self) -> (name: Option<String>)
        ensures
            name is Some <==> self.spec_is_supported(),
            name matches Some(n) ==> n@ == self.spec_canonical_name(),
    {
        match self {
            EmbeddingModelKind::AllMiniLmL12V2 => Some("all-minilm-l12-v2".to_owned()),
            _ => None,
        }
    }
}

} // verus!

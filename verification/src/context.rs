//! What the loader knows before it starts.
use vstd::prelude::*;

use crate::config::ModelConfig;
use crate::weights::KvCacheDtype;

verus! {

/// The model's configuration, which experts are held here, and how each layer
/// caches its keys and values.
#[derive(Debug)]
pub struct LayerContext<'a, Q, R> {
    pub config: &'a ModelConfig<Q, R>,
    pub local_experts: Vec<bool>,
    pub kv_dtypes: Vec<KvCacheDtype>,
}

impl<'a, Q, R> LayerContext<'a, Q, R> {
    /// It is said of every expert whether it is held here.
    pub open spec fn wf(self) -> bool {
        self.local_experts@.len() == self.config.num_experts
    }

    /// The cache type of a layer: the listed one, else `Bf16`.
    pub open spec fn spec_kv_dtype(self, layer: usize) -> KvCacheDtype {
        if layer < self.kv_dtypes@.len() {
            self.kv_dtypes@[layer as int]
        } else {
            KvCacheDtype::Bf16
        }
    }

    /// The context of a configuration.
    pub fn new(
        config: &'a ModelConfig<Q, R>,
        local_experts: Vec<bool>,
        kv_dtypes: Vec<KvCacheDtype>,
    ) -> (res: LayerContext<'a, Q, R>)
        requires
            local_experts@.len() == config.num_experts,
        ensures
            res.wf(),
            res.config == config,
            res.local_experts == local_experts,
            res.kv_dtypes == kv_dtypes,
    {
        LayerContext { config, local_experts, kv_dtypes }
    }

    /// The cache type of a layer.
    pub fn kv_dtype(&self, layer: usize) -> (res: KvCacheDtype)
        ensures
            res == self.spec_kv_dtype(layer),
            layer < self.kv_dtypes@.len() ==> res == self.kv_dtypes@[layer as int],
            layer >= self.kv_dtypes@.len() ==> res == KvCacheDtype::Bf16,
    {
        if layer < self.kv_dtypes.len() {
            self.kv_dtypes[layer]
        } else {
            KvCacheDtype::Bf16
        }
    }
}

/// Each layer has its own cache type: that of its place in the list, or else
/// `Bf16`.
pub proof fn layers_have_their_own_caches<Q, R>(context: LayerContext<Q, R>)
    ensures
        forall|layer: usize|
            layer < context.kv_dtypes@.len() ==> #[trigger] context.spec_kv_dtype(layer)
                == context.kv_dtypes@[layer as int],
        forall|layer: usize|
            layer >= context.kv_dtypes@.len() ==> #[trigger] context.spec_kv_dtype(layer) is Bf16,
{
}

} // verus!

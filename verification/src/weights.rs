//! Weights as the loader passes them on: by where they are, never by what they
//! hold.
use vstd::prelude::*;

verus! {

/// An address in device memory.
#[derive(Clone, Copy, Debug, PartialEq, Eq, Structural)]
pub struct DevicePtr {
    pub addr: u64,
}

impl DevicePtr {
    pub open spec fn spec_null() -> DevicePtr {
        DevicePtr { addr: 0 }
    }

    /// The address of nothing.
    pub fn null() -> (res: DevicePtr)
        ensures
            res == DevicePtr::spec_null(),
    {
        DevicePtr { addr: 0 }
    }
}

/// A weight in full precision.
#[derive(Clone, Copy, Debug, PartialEq, Eq, Structural)]
pub struct DenseWeight {
    pub weight: DevicePtr,
}

impl DenseWeight {
    pub open spec fn spec_null() -> DenseWeight {
        DenseWeight { weight: DevicePtr::spec_null() }
    }

    /// No weight.
    pub fn null() -> (res: DenseWeight)
        ensures
            res == DenseWeight::spec_null(),
    {
        DenseWeight { weight: DevicePtr::null() }
    }
}

/// A weight in NVFP4, known to the runtime by a number.
#[derive(Clone, Copy, Debug, PartialEq, Eq, Structural)]
pub enum QuantizedWeight {
    Null,
    Loaded(u64),
}

/// The projections of an expert.
#[derive(Clone, Copy, Debug, PartialEq, Eq, Structural)]
pub struct ExpertWeight {
    pub gate_proj: QuantizedWeight,
    pub up_proj: QuantizedWeight,
    pub down_proj: QuantizedWeight,
}

impl ExpertWeight {
    pub open spec fn spec_null() -> ExpertWeight {
        ExpertWeight {
            gate_proj: QuantizedWeight::Null,
            up_proj: QuantizedWeight::Null,
            down_proj: QuantizedWeight::Null,
        }
    }

    /// An expert that lives elsewhere.
    pub fn null() -> (res: ExpertWeight)
        ensures
            res == ExpertWeight::spec_null(),
    {
        ExpertWeight {
            gate_proj: QuantizedWeight::Null,
            up_proj: QuantizedWeight::Null,
            down_proj: QuantizedWeight::Null,
        }
    }
}

/// An optional part of a layer, known to the runtime by a number.
#[derive(Clone, Copy, Debug, PartialEq, Eq, Structural)]
pub struct LayerPart {
    pub handle: u64,
}

/// The weights of a mixture of experts.
#[derive(Clone, Copy, Debug, PartialEq, Eq)]
pub struct MoeWeightsOf<Experts> {
    pub gate: DenseWeight,
    pub shared_expert: ExpertWeight,
    pub shared_expert_gate: DenseWeight,
    pub experts: Experts,
    pub router_pre_norm: Option<DenseWeight>,
    pub correction_bias: Option<DenseWeight>,
}

pub type MoeWeights = MoeWeightsOf<Vec<ExpertWeight>>;

/// The weights of a grouped-query attention, of which a latent attention has
/// none. The scales are whole numbers.
#[derive(Clone, Copy, Debug, PartialEq, Eq)]
pub struct AttentionWeights {
    pub q_proj: DenseWeight,
    pub k_proj: DenseWeight,
    pub v_proj: DenseWeight,
    pub o_proj: QuantizedWeight,
    pub q_norm: DenseWeight,
    pub k_norm: DenseWeight,
    pub q_norm_full: Option<DenseWeight>,
    pub k_norm_full: Option<DenseWeight>,
    pub k_scale: u32,
    pub v_scale: u32,
}

/// The weights of a multi-head latent attention.
#[derive(Clone, Copy, Debug, PartialEq, Eq)]
pub struct MlaWeights {
    pub wq_a: DenseWeight,
    pub wq_a_nvfp4: Option<QuantizedWeight>,
    pub wq_b: DenseWeight,
    pub wq_b_nvfp4: Option<QuantizedWeight>,
    pub q_a_norm: DenseWeight,
    pub wkv_a: DenseWeight,
    pub wkv_a_nvfp4: Option<QuantizedWeight>,
    pub wkv_b: DenseWeight,
    pub kv_a_norm: DenseWeight,
    pub wkv_a_rope: DenseWeight,
    pub wkv_a_merged: DenseWeight,
    pub wo: DenseWeight,
    pub wo_nvfp4: Option<QuantizedWeight>,
    pub w_uk_t: DenseWeight,
    pub w_uv: DenseWeight,
    pub wq_b_rope: DenseWeight,
    pub w_qk_absorbed: DenseWeight,
    pub w_uk_block_diag: DenseWeight,
    pub w_uv_block_diag: DenseWeight,
    pub yarn_inv_freq: DevicePtr,
    pub q_lora_rank: usize,
    pub kv_lora_rank: usize,
    pub nope: usize,
    pub rope: usize,
    pub v_dim: usize,
}

/// How the keys and values of a layer are cached. The loader knows the
/// fallback; any other type is known to the runtime by a number.
#[derive(Clone, Copy, Debug, PartialEq, Eq, Structural)]
pub enum KvCacheDtype {
    Bf16,
    Other(u32),
}

} // verus!

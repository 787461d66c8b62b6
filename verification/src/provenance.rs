//! Where the weights of a loaded model come from.
//!
//! A load is a conversation with the runtime. The laws here say of every
//! conversation that a load can hold that each weight of each layer is what the
//! runtime answered when it was asked for that weight under its name.
use vstd::prelude::*;

use crate::assemble::{
    assembly_stays_wf, next_local_is_first, AssembleModel, AssembleStep,
};
use crate::attention::{AttentionModel, AttentionRunOf, AttentionStep, LayerInputs};
use crate::config::ModelConfig;
use crate::context::LayerContext;
use crate::load_layers::{
    frequencies_are_handed_on, loads_end, loads_stay_wf, LoadModel, LoadStageOf,
};
use crate::request::{
    Kernel, Progress, ReplyModel, ReplyOf, RequestModel, RequestOf, Toolkit,
};
use crate::tensor::{LayerTensor, Projection, Tensor};
use crate::weights::{
    AttentionWeights, DenseWeight, DevicePtr, ExpertWeight, KvCacheDtype, MlaWeights, MoeWeightsOf,
    QuantizedWeight,
};

verus! {

/// What was asked, and what was answered; nothing where the request failed.
pub type Log<'a, Q, R> = Seq<(RequestModel<'a, Q, R>, Option<ReplyModel>)>;

/// A request was made and answered.
pub open spec fn answered<Q, R>(
    log: Log<Q, R>,
    request: RequestModel<Q, R>,
    reply: ReplyModel,
) -> bool {
    log.contains((request, Some(reply)))
}

/// What the log keeps of an outcome.
pub open spec fn kept<E>(outcome: Result<ReplyModel, E>) -> Option<ReplyModel> {
    match outcome {
        Ok(reply) => Some(reply),
        Err(_) => None,
    }
}

/// What was answered stays answered.
proof fn log_grows<Q, R>(log: Log<Q, R>, entry: (RequestModel<Q, R>, Option<ReplyModel>))
    ensures
        forall|request: RequestModel<Q, R>, reply: ReplyModel| #[trigger]
            answered(log, request, reply) ==> answered(log.push(entry), request, reply),
        forall|other: (RequestModel<Q, R>, Option<ReplyModel>)| #[trigger]
            log.contains(other) ==> log.push(entry).contains(other),
        log.push(entry).contains(entry),
        entry.1 matches Some(reply) ==> answered(log.push(entry), entry.0, reply),
{
    assert forall|other: (RequestModel<Q, R>, Option<ReplyModel>)| #[trigger]
        log.contains(other) implies log.push(entry).contains(other) by {
        let at = choose|at: int| 0 <= at < log.len() && log[at] == other;
        assert(log.push(entry)[at] == other);
    }
    assert(log.push(entry)[log.len() as int] == entry);
}

/// Of the attention steps up to those that are `left`, everything loaded is
/// what the runtime answered.
pub open spec fn attention_sourced<Q, R>(
    run: AttentionModel<Q, R>,
    left: nat,
    log: Log<Q, R>,
) -> bool {
    let parts = run.parts;
    let inputs = run.parts.inputs;
    &&& left < 21 ==> answered(
        log,
        RequestOf::Dense(Tensor::Layer { layer: run.layer, tensor: LayerTensor::AttnNorm }),
        ReplyOf::Dense(inputs.input_norm),
    )
    &&& left < 20 ==> answered(
        log,
        RequestOf::Dense(Tensor::Layer { layer: run.layer, tensor: LayerTensor::FfnNorm }),
        ReplyOf::Dense(inputs.post_attn_norm),
    )
    &&& left < 19 ==> answered(
        log,
        RequestOf::DenseAuto(Tensor::Layer { layer: run.layer, tensor: LayerTensor::WqA }),
        ReplyOf::Dense(inputs.wq_a),
    )
    &&& left < 18 ==> quantized_from(
        log,
        RequestOf::Quantize {
            weight: inputs.wq_a,
            rows: run.config.q_lora_rank,
            cols: run.config.hidden_size,
            tools: run.tools,
        },
        inputs.wq_a_nvfp4,
    )
    &&& left < 17 ==> answered(
        log,
        RequestOf::DenseAuto(Tensor::Layer { layer: run.layer, tensor: LayerTensor::WqB }),
        ReplyOf::Dense(inputs.wq_b),
    )
    &&& left < 16 ==> run.config.num_attention_heads * run.config.head_dim <= usize::MAX
    &&& left < 16 ==> quantized_from(
        log,
        RequestOf::Quantize {
            weight: inputs.wq_b,
            rows: (run.config.num_attention_heads * run.config.head_dim) as usize,
            cols: run.config.q_lora_rank,
            tools: run.tools,
        },
        inputs.wq_b_nvfp4,
    )
    &&& left < 15 ==> answered(
        log,
        RequestOf::Dense(Tensor::Layer { layer: run.layer, tensor: LayerTensor::QNorm }),
        ReplyOf::Dense(inputs.q_a_norm),
    )
    &&& left < 14 ==> answered(
        log,
        RequestOf::DenseAuto(Tensor::Layer { layer: run.layer, tensor: LayerTensor::Wkv }),
        ReplyOf::Dense(inputs.wkv_a),
    )
    &&& left < 13 ==> matrix_of(
        log,
        Tensor::Layer { layer: run.layer, tensor: LayerTensor::Wkv },
        parts.wkv_a_rows,
        parts.wkv_a_cols,
    )
    &&& left < 12 ==> quantized_from(
        log,
        RequestOf::Quantize {
            weight: inputs.wkv_a,
            rows: parts.wkv_a_rows,
            cols: parts.wkv_a_cols,
            tools: run.tools,
        },
        inputs.wkv_a_nvfp4,
    )
    &&& left < 11 ==> answered(
        log,
        RequestOf::DenseAuto(Tensor::Layer { layer: run.layer, tensor: LayerTensor::WoA }),
        ReplyOf::Dense(inputs.wkv_b),
    )
    &&& left < 10 ==> answered(
        log,
        RequestOf::Shape {
            tensor: Tensor::Layer { layer: run.layer, tensor: LayerTensor::WoA },
            rank: 0,
        },
        ReplyOf::Shape(parts.wkv_b_shape),
    )
    &&& left < 9 ==> answered(
        log,
        RequestOf::Dense(Tensor::Layer { layer: run.layer, tensor: LayerTensor::KvNorm }),
        ReplyOf::Dense(inputs.kv_a_norm),
    )
    &&& left < 8 ==> answered(
        log,
        RequestOf::DenseAuto(Tensor::Layer { layer: run.layer, tensor: LayerTensor::WoB }),
        ReplyOf::Dense(inputs.o_dense),
    )
    &&& left < 7 ==> matrix_of(
        log,
        Tensor::Layer { layer: run.layer, tensor: LayerTensor::WoB },
        parts.o_rows,
        parts.o_cols,
    )
    &&& left < 6 ==> quantized_from(
        log,
        RequestOf::Quantize {
            weight: inputs.o_dense,
            rows: parts.o_rows,
            cols: parts.o_cols,
            tools: run.tools,
        },
        inputs.o_nvfp4,
    )
    &&& left < 5 ==> answered(
        log,
        RequestOf::Shape {
            tensor: Tensor::Layer { layer: run.layer, tensor: LayerTensor::WqB },
            rank: 0,
        },
        ReplyOf::Shape(parts.wq_b_shape),
    )
    &&& left < 4 ==> answered(
        log,
        RequestOf::PerHeadViews {
            wkv_b: inputs.wkv_b,
            wkv_b_shape: parts.wkv_b_shape,
            wq_b: inputs.wq_b,
            wq_b_shape: parts.wq_b_shape,
            config: run.config,
        },
        ReplyOf::PerHead {
            w_uk_t: inputs.w_uk_t,
            w_uv: inputs.w_uv,
            wq_b_rope: inputs.wq_b_rope,
            w_uk_host: parts.w_uk_host,
        },
    )
    &&& left < 3 ==> answered(
        log,
        RequestOf::QkAbsorbed {
            wq_b: inputs.wq_b,
            wq_b_shape: parts.wq_b_shape,
            w_uk_t: inputs.w_uk_t,
            config: run.config,
        },
        ReplyOf::Dense(inputs.w_qk_absorbed),
    )
    &&& left < 2 ==> answered(
        log,
        RequestOf::BlockDiagonals {
            w_uk_host: parts.w_uk_host,
            w_uv: inputs.w_uv,
            config: run.config,
        },
        ReplyOf::Pair(inputs.w_uk_block_diag, inputs.w_uv_block_diag),
    )
    &&& left < 1 ==> answered(
        log,
        RequestOf::YarnInvFreq { current: run.yarn_inv_freq, config: run.config },
        ReplyOf::Pointer(inputs.yarn_inv_freq),
    )
}

/// A quantised weight is what the runtime made of a matrix.
pub open spec fn quantized_from<Q, R>(
    log: Log<Q, R>,
    request: RequestModel<Q, R>,
    weight: Option<QuantizedWeight>,
) -> bool {
    weight matches Some(QuantizedWeight::Loaded(number)) && answered(
        log,
        request,
        ReplyOf::Quantized(number),
    )
}

/// A stored tensor has these as its first two dimensions.
pub open spec fn matrix_of<Q, R>(log: Log<Q, R>, tensor: Tensor, rows: usize, cols: usize) -> bool {
    exists|dims: Seq<usize>|
        {
            &&& #[trigger] answered(
                log,
                RequestOf::Shape { tensor, rank: 2 },
                ReplyOf::Shape(dims),
            )
            &&& dims.len() >= 2
            &&& dims[0] == rows
            &&& dims[1] == cols
        }
}

proof fn attention_stays_sourced<Q, R>(
    run: AttentionModel<Q, R>,
    left: nat,
    log: Log<Q, R>,
    entry: (RequestModel<Q, R>, Option<ReplyModel>),
)
    requires
        attention_sourced(run, left, log),
    ensures
        attention_sourced(run, left, log.push(entry)),
{
    log_grows(log, entry);
}

proof fn attention_step_is_sourced<Q, R>(
    run: AttentionModel<Q, R>,
    reply: ReplyModel,
    log: Log<Q, R>,
)
    requires
        run.wf(),
        attention_sourced(run, run.step.left(), log),
        run.record(reply) is Some,
    ensures
        attention_sourced(
            AttentionRunOf { parts: run.record(reply)->0, ..run },
            (run.step.left() - 1) as nat,
            log.push((run.request(), Some(reply))),
        ),
{
    log_grows(log, (run.request(), Some(reply)));
}

/// A layer's attention is loaded from the checkpoint.
pub open spec fn inputs_sourced<Q, R>(
    context: LayerContext<Q, R>,
    layer: usize,
    inputs: LayerInputs,
    log: Log<Q, R>,
) -> bool {
    exists|run: AttentionModel<Q, R>|
        {
            &&& run.layer == layer
            &&& run.config == context.config
            &&& run.parts.inputs == inputs
            &&& tools_sourced(run.tools, log)
            &&& #[trigger] attention_sourced(run, 0, log)
        }
}

/// The tools of a quantisation are those of the runtime.
pub open spec fn tools_sourced<Q, R>(tools: Toolkit, log: Log<Q, R>) -> bool {
    &&& answered(log, RequestOf::Kernel(Kernel::GlobalAbsmax), ReplyOf::Handle(tools.absmax))
    &&& answered(log, RequestOf::Kernel(Kernel::QuantizeBf16), ReplyOf::Handle(tools.quantize))
    &&& answered(log, RequestOf::DefaultStream, ReplyOf::Handle(tools.stream))
}

/// A projection is the one stored under its name.
pub open spec fn projection_sourced<Q, R>(
    tensor: Tensor,
    weight: QuantizedWeight,
    log: Log<Q, R>,
) -> bool {
    weight matches QuantizedWeight::Loaded(number) && answered(
        log,
        RequestOf::QuantizedV2(tensor),
        ReplyOf::Quantized(number),
    )
}

/// The name of an expert's projection; of the shared expert's where no index
/// is given.
pub open spec fn expert_tensor(
    layer: usize,
    index: Option<nat>,
    projection: Projection,
) -> Tensor {
    Tensor::Layer {
        layer,
        tensor: match index {
            Some(index) => LayerTensor::Expert { index: index as usize, projection },
            None => LayerTensor::SharedExpert { projection },
        },
    }
}

/// An expert's projections up to the one that is next are those stored under
/// their names.
pub open spec fn expert_sourced<Q, R>(
    layer: usize,
    index: Option<nat>,
    next: Option<Projection>,
    expert: ExpertWeight,
    log: Log<Q, R>,
) -> bool {
    &&& next != Some(Projection::W1) ==> projection_sourced(
        expert_tensor(layer, index, Projection::W1),
        expert.gate_proj,
        log,
    )
    &&& next == Some(Projection::W2) || next is None ==> projection_sourced(
        expert_tensor(layer, index, Projection::W3),
        expert.up_proj,
        log,
    )
    &&& next is None ==> projection_sourced(
        expert_tensor(layer, index, Projection::W2),
        expert.down_proj,
        log,
    )
}

/// The rotary projection is the stored one, or else a fresh buffer of zeros: two
/// bytes for each element of a matrix with a row for each rotated dimension.
pub open spec fn rope_sourced<Q, R>(
    config: &ModelConfig<Q, R>,
    layer: usize,
    ptr: DevicePtr,
    log: Log<Q, R>,
) -> bool {
    let lookup: RequestModel<Q, R> = RequestOf::Lookup(
        Tensor::Layer { layer, tensor: LayerTensor::WkvRope },
    );
    ||| answered(log, lookup, ReplyOf::Pointer(ptr))
    ||| exists|bytes: usize|
        {
            &&& bytes == config.qk_rope_head_dim * config.hidden_size * 2
            &&& log.contains((lookup, None))
            &&& #[trigger] answered(log, RequestOf::Alloc { bytes }, ReplyOf::Pointer(ptr))
            &&& answered(log, RequestOf::Memset { ptr, value: 0, bytes }, ReplyOf::Done)
        }
}

/// The mixture of experts of a layer: its router, its experts and its shared
/// expert are those stored under their names, an expert held elsewhere is null,
/// and the shared expert is ungated.
pub open spec fn mixture_sourced<Q, R>(
    context: LayerContext<Q, R>,
    layer: usize,
    weights: MoeWeightsOf<Seq<ExpertWeight>>,
    log: Log<Q, R>,
) -> bool {
    &&& answered(
        log,
        RequestOf::Dense(Tensor::Layer { layer, tensor: LayerTensor::Gate }),
        ReplyOf::Dense(weights.gate),
    )
    &&& weights.experts.len() == context.config.num_experts
    &&& forall|e: int|
        0 <= e < weights.experts.len() ==> if context.local_experts@[e] {
            expert_sourced(layer, Some(e as nat), None, #[trigger] weights.experts[e], log)
        } else {
            weights.experts[e] == ExpertWeight {
                gate_proj: QuantizedWeight::Null,
                up_proj: QuantizedWeight::Null,
                down_proj: QuantizedWeight::Null,
            }
        }
    &&& expert_sourced(layer, None, None, weights.shared_expert, log)
    &&& weights.shared_expert_gate == DenseWeight { weight: DevicePtr { addr: 0 } }
    &&& weights.router_pre_norm is None
    &&& weights.correction_bias is None
}

/// The weights that a mixture is built with, at the end of its loading.
pub open spec fn mixture_of<Q, R>(run: AssembleModel<Q, R>) -> MoeWeightsOf<Seq<ExpertWeight>> {
    MoeWeightsOf {
        gate: run.gate,
        shared_expert: run.expert,
        shared_expert_gate: DenseWeight { weight: DevicePtr { addr: 0 } },
        experts: run.experts,
        router_pre_norm: None,
        correction_bias: None,
    }
}

/// The latent attention that a layer is given: what it was assembled from, the
/// rotary projection, and the sizes of the model. The merged projection is the
/// key and value one.
pub open spec fn latent_attention_of<Q, R>(
    config: &ModelConfig<Q, R>,
    inputs: LayerInputs,
    rope: DevicePtr,
) -> MlaWeights {
    MlaWeights {
        wq_a: inputs.wq_a,
        wq_a_nvfp4: inputs.wq_a_nvfp4,
        wq_b: inputs.wq_b,
        wq_b_nvfp4: inputs.wq_b_nvfp4,
        q_a_norm: inputs.q_a_norm,
        wkv_a: inputs.wkv_a,
        wkv_a_nvfp4: inputs.wkv_a_nvfp4,
        wkv_b: inputs.wkv_b,
        kv_a_norm: inputs.kv_a_norm,
        wkv_a_rope: DenseWeight { weight: rope },
        wkv_a_merged: inputs.wkv_a,
        wo: inputs.o_dense,
        wo_nvfp4: inputs.o_nvfp4,
        w_uk_t: inputs.w_uk_t,
        w_uv: inputs.w_uv,
        wq_b_rope: inputs.wq_b_rope,
        w_qk_absorbed: inputs.w_qk_absorbed,
        w_uk_block_diag: inputs.w_uk_block_diag,
        w_uv_block_diag: inputs.w_uv_block_diag,
        yarn_inv_freq: inputs.yarn_inv_freq,
        q_lora_rank: config.q_lora_rank,
        kv_lora_rank: config.kv_lora_rank,
        nope: config.qk_nope_head_dim,
        rope: config.qk_rope_head_dim,
        v_dim: config.v_head_dim,
    }
}

/// The request that a layer is built by: no projections, norms or scales of a
/// grouped-query attention, and the cache type that is listed for the layer.
pub open spec fn layer_request<'a, Q, R>(
    context: LayerContext<'a, Q, R>,
    layer_idx: usize,
    inputs: LayerInputs,
    moe: u64,
) -> RequestModel<'a, Q, R> {
    let null = DenseWeight { weight: DevicePtr { addr: 0 } };
    RequestOf::NewLayer {
        input_norm: inputs.input_norm,
        attention: AttentionWeights {
            q_proj: null,
            k_proj: null,
            v_proj: null,
            o_proj: QuantizedWeight::Null,
            q_norm: null,
            k_norm: null,
            q_norm_full: None,
            k_norm_full: None,
            k_scale: 1,
            v_scale: 1,
        },
        post_attn_norm: inputs.post_attn_norm,
        moe,
        layer_idx,
        optional_parts: (None, None, None),
        kv_dtype: if layer_idx < context.kv_dtypes@.len() {
            context.kv_dtypes@[layer_idx as int]
        } else {
            KvCacheDtype::Bf16
        },
        setting: 0,
        config: context.config,
    }
}

/// The place of a step in the order of assembly.
pub open spec fn place(step: AssembleStep) -> nat {
    match step {
        AssembleStep::Gate => 0,
        AssembleStep::AbsmaxKernel => 1,
        AssembleStep::QuantizeKernel => 2,
        AssembleStep::Stream => 3,
        AssembleStep::GateNvfp4 => 4,
        AssembleStep::Expert(_) => 5,
        AssembleStep::SharedExpert(_) => 6,
        AssembleStep::Moe => 7,
        AssembleStep::WkvRope => 8,
        AssembleStep::RopeAlloc => 9,
        AssembleStep::RopeFill => 10,
        AssembleStep::Layer => 11,
        AssembleStep::SetMla => 12,
    }
}

/// Everything assembled so far, besides what the layer was assembled from, is
/// what the runtime answered.
pub open spec fn assembly_sourced<Q, R>(run: AssembleModel<Q, R>, log: Log<Q, R>) -> bool {
    let config = run.context.config;
    let local = run.context.local_experts@;
    let at = place(run.step);
    let lookup: RequestModel<Q, R> = RequestOf::Lookup(
        Tensor::Layer { layer: run.layer_idx, tensor: LayerTensor::WkvRope },
    );
    &&& at > 0 ==> answered(
        log,
        RequestOf::Dense(Tensor::Layer { layer: run.layer_idx, tensor: LayerTensor::Gate }),
        ReplyOf::Dense(run.gate),
    )
    &&& at > 1 ==> answered(
        log,
        RequestOf::Kernel(Kernel::GlobalAbsmax),
        ReplyOf::Handle(run.tools.absmax),
    )
    &&& at > 2 ==> answered(
        log,
        RequestOf::Kernel(Kernel::QuantizeBf16),
        ReplyOf::Handle(run.tools.quantize),
    )
    &&& at > 3 ==> answered(log, RequestOf::DefaultStream, ReplyOf::Handle(run.tools.stream))
    &&& at > 4 ==> quantized_from(
        log,
        RequestOf::Quantize {
            weight: run.gate,
            rows: config.num_experts,
            cols: config.hidden_size,
            tools: run.tools,
        },
        Some(run.gate_nvfp4),
    )
    &&& forall|e: int|
        0 <= e < run.experts.len() && local[e] ==> expert_sourced(
            run.layer_idx,
            Some(e as nat),
            None,
            #[trigger] run.experts[e],
            log,
        )
    &&& run.step matches AssembleStep::Expert(projection) ==> expert_sourced(
        run.layer_idx,
        Some(run.experts.len()),
        Some(projection),
        run.expert,
        log,
    )
    &&& run.step matches AssembleStep::SharedExpert(projection) ==> expert_sourced(
        run.layer_idx,
        None,
        Some(projection),
        run.expert,
        log,
    )
    &&& at > 6 ==> expert_sourced(run.layer_idx, None, None, run.expert, log)
    &&& at > 7 ==> mixture_sourced(*run.context, run.layer_idx, mixture_of(run), log)
    &&& at > 7 ==> answered(
        log,
        RequestOf::NewMoe {
            weights: mixture_of(run),
            num_experts: config.num_experts,
            gate_nvfp4: Some(run.gate_nvfp4),
            config,
        },
        ReplyOf::Handle(run.moe),
    )
    &&& at == 9 || at == 10 ==> log.contains((lookup, None))
    &&& at == 10 ==> exists|bytes: usize|
        {
            &&& bytes == config.qk_rope_head_dim * config.hidden_size * 2
            &&& #[trigger] answered(
                log,
                RequestOf::Alloc { bytes },
                ReplyOf::Pointer(run.wkv_a_rope.weight),
            )
        }
    &&& at > 10 ==> rope_sourced(config, run.layer_idx, run.wkv_a_rope.weight, log)
    &&& at > 11 ==> answered(
        log,
        layer_request(*run.context, run.layer_idx, run.inputs, run.moe),
        ReplyOf::Handle(run.layer),
    )
}

/// A layer was assembled from what the checkpoint stores under its names.
pub open spec fn layer_sourced<Q, R>(
    context: LayerContext<Q, R>,
    layer_idx: usize,
    layer: u64,
    log: Log<Q, R>,
) -> bool {
    exists|run: AssembleModel<Q, R>|
        {
            &&& *run.context == context
            &&& run.layer_idx == layer_idx
            &&& run.layer == layer
            &&& run.step == AssembleStep::SetMla
            &&& run.wf()
            &&& inputs_sourced(context, layer_idx, run.inputs, log)
            &&& #[trigger] assembly_sourced(run, log)
            &&& answered(
                log,
                RequestOf::SetMla {
                    layer,
                    mla: latent_attention_of(
                        context.config,
                        run.inputs,
                        run.wkv_a_rope.weight,
                    ),
                },
                ReplyOf::Done,
            )
        }
}

proof fn inputs_stay_sourced<Q, R>(
    context: LayerContext<Q, R>,
    layer: usize,
    inputs: LayerInputs,
    log: Log<Q, R>,
    entry: (RequestModel<Q, R>, Option<ReplyModel>),
)
    requires
        inputs_sourced(context, layer, inputs, log),
    ensures
        inputs_sourced(context, layer, inputs, log.push(entry)),
{
    let run = choose|run: AttentionModel<Q, R>|
        {
            &&& run.layer == layer
            &&& run.config == context.config
            &&& run.parts.inputs == inputs
            &&& tools_sourced(run.tools, log)
            &&& #[trigger] attention_sourced(run, 0, log)
        };
    attention_stays_sourced(run, 0, log, entry);
    log_grows(log, entry);
}

proof fn assembly_stays_sourced<Q, R>(
    run: AssembleModel<Q, R>,
    log: Log<Q, R>,
    entry: (RequestModel<Q, R>, Option<ReplyModel>),
)
    requires
        assembly_sourced(run, log),
    ensures
        assembly_sourced(run, log.push(entry)),
{
    log_grows(log, entry);
}

proof fn layer_stays_sourced<Q, R>(
    context: LayerContext<Q, R>,
    layer_idx: usize,
    layer: u64,
    log: Log<Q, R>,
    entry: (RequestModel<Q, R>, Option<ReplyModel>),
)
    requires
        layer_sourced(context, layer_idx, layer, log),
    ensures
        layer_sourced(context, layer_idx, layer, log.push(entry)),
{
    let run = choose|run: AssembleModel<Q, R>|
        {
            &&& *run.context == context
            &&& run.layer_idx == layer_idx
            &&& run.layer == layer
            &&& run.step == AssembleStep::SetMla
            &&& run.wf()
            &&& inputs_sourced(context, layer_idx, run.inputs, log)
            &&& #[trigger] assembly_sourced(run, log)
            &&& answered(
                log,
                RequestOf::SetMla {
                    layer,
                    mla: latent_attention_of(
                        context.config,
                        run.inputs,
                        run.wkv_a_rope.weight,
                    ),
                },
                ReplyOf::Done,
            )
        };
    assembly_stays_sourced(run, log, entry);
    inputs_stay_sourced(context, layer_idx, run.inputs, log, entry);
    log_grows(log, entry);
}

/// One step of an assembly takes over what the runtime answers, and nothing
/// else.
proof fn assembly_step_is_sourced<Q, R, E>(
    run: AssembleModel<Q, R>,
    outcome: Result<ReplyModel, E>,
    log: Log<Q, R>,
)
    requires
        run.wf(),
        assembly_sourced(run, log),
    ensures
        run.after(outcome) matches Progress::Ask(next) ==> assembly_sourced(
            next,
            log.push((run.request(), kept(outcome))),
        ),
{
    let entry = (run.request(), kept(outcome));
    log_grows(log, entry);
    let local = run.context.local_experts@;
    if let Progress::Ask(next) = run.after(outcome) {
        let longer = log.push(entry);
        let bytes = (run.context.config.qk_rope_head_dim * run.context.config.hidden_size
            * 2) as usize;
        if run.step == AssembleStep::Moe {
            assert(mixture_sourced(*run.context, run.layer_idx, mixture_of(run), longer));
        }
        if place(run.step) > 7 {
            assert(mixture_of(next) == mixture_of(run));
            assert(mixture_sourced(*run.context, run.layer_idx, mixture_of(run), longer));
        }
        if run.step == AssembleStep::RopeAlloc {
            assert(run.request() == RequestModel::<Q, R>::Alloc {
                bytes,
            });
            assert(answered(
                longer,
                RequestOf::Alloc { bytes },
                ReplyOf::Pointer(next.wkv_a_rope.weight),
            ));
        }
        if run.step == AssembleStep::RopeFill {
            assert(answered(
                log,
                RequestOf::Alloc { bytes },
                ReplyOf::Pointer(run.wkv_a_rope.weight),
            ));
            assert(answered(
                longer,
                RequestOf::Alloc { bytes },
                ReplyOf::Pointer(next.wkv_a_rope.weight),
            ));
        }
        if run.step == AssembleStep::GateNvfp4 {
            next_local_is_first(local, run.experts.len());
        }
        if run.step == AssembleStep::Expert(Projection::W2) {
            next_local_is_first(local, run.experts.len() + 1);
        }
        assert forall|e: int| 0 <= e < next.experts.len() && local[e] implies expert_sourced(
            next.layer_idx,
            Some(e as nat),
            None,
            #[trigger] next.experts[e],
            log.push(entry),
        ) by {
            if e < run.experts.len() {
                assert(next.experts[e] == run.experts[e]);
            }
        }
    }
}

/// Everything a load has so far is what the runtime answered.
pub open spec fn load_sourced<Q, R>(run: LoadModel<Q, R>, log: Log<Q, R>) -> bool {
    &&& match run.stage {
        LoadStageOf::AbsmaxKernel => true,
        LoadStageOf::QuantizeKernel => answered(
            log,
            RequestOf::Kernel(Kernel::GlobalAbsmax),
            ReplyOf::Handle(run.tools.absmax),
        ),
        LoadStageOf::Stream => {
            &&& answered(
                log,
                RequestOf::Kernel(Kernel::GlobalAbsmax),
                ReplyOf::Handle(run.tools.absmax),
            )
            &&& answered(
                log,
                RequestOf::Kernel(Kernel::QuantizeBf16),
                ReplyOf::Handle(run.tools.quantize),
            )
        },
        LoadStageOf::Attention(attention) => {
            &&& tools_sourced(run.tools, log)
            &&& attention_sourced(attention, attention.step.left(), log)
        },
        LoadStageOf::Assembly(assembly) => {
            &&& tools_sourced(run.tools, log)
            &&& inputs_sourced(*run.context, assembly.layer_idx, assembly.inputs, log)
            &&& assembly_sourced(assembly, log)
        },
    }
    &&& if run.layers.len() == 0 && !(run.stage is Assembly) {
        run.yarn_inv_freq == DevicePtr::spec_null()
    } else {
        frequencies_sourced(run.context.config, run.yarn_inv_freq, log)
    }
    &&& forall|j: int|
        0 <= j < run.layers.len() ==> layer_sourced(
            *run.context,
            j as usize,
            #[trigger] run.layers[j],
            log,
        )
}

/// The inverse frequencies are those that the runtime made.
pub open spec fn frequencies_sourced<Q, R>(
    config: &ModelConfig<Q, R>,
    ptr: DevicePtr,
    log: Log<Q, R>,
) -> bool {
    exists|current: DevicePtr| #[trigger]
        answered(log, RequestOf::YarnInvFreq { current, config }, ReplyOf::Pointer(ptr))
}

/// One exchange takes a load from a state to the next.
pub open spec fn leads_to<Q, R>(
    before: LoadModel<Q, R>,
    outcome: Result<ReplyModel, ()>,
    entry: (RequestModel<Q, R>, Option<ReplyModel>),
    run: LoadModel<Q, R>,
) -> bool {
    &&& entry == (before.request(), kept(outcome))
    &&& before.after(outcome) == Progress::<LoadModel<Q, R>, Seq<u64>, ()>::Ask(run)
}

/// A load can reach a state by a conversation.
pub open spec fn reached<Q, R>(
    context: &LayerContext<Q, R>,
    log: Log<Q, R>,
    run: LoadModel<Q, R>,
) -> bool
    decreases log.len(),
{
    if log.len() == 0 {
        run == LoadModel::<Q, R>::start(context)
    } else {
        exists|before: LoadModel<Q, R>, outcome: Result<ReplyModel, ()>|
            #[trigger] leads_to(before, outcome, log.last(), run) && reached(
                context,
                log.drop_last(),
                before,
            )
    }
}

/// One step of a load keeps it well formed, takes over what the runtime
/// answers and nothing else, and ends only with all layers complete.
proof fn load_step_is_sourced<Q, R, E>(
    run: LoadModel<Q, R>,
    outcome: Result<ReplyModel, E>,
    log: Log<Q, R>,
)
    requires
        run.wf(),
        load_sourced(run, log),
    ensures
        run.after(outcome) matches Progress::Ask(next) ==> {
            &&& next.wf()
            &&& next.context == run.context
            &&& load_sourced(next, log.push((run.request(), kept(outcome))))
        },
        run.after(outcome) matches Progress::Done(layers) ==> {
            &&& layers.len() == run.context.config.num_hidden_layers
            &&& forall|j: int|
                0 <= j < layers.len() ==> layer_sourced(
                    *run.context,
                    j as usize,
                    #[trigger] layers[j],
                    log.push((run.request(), kept(outcome))),
                )
        },
{
    let entry = (run.request(), kept(outcome));
    let longer = log.push(entry);
    log_grows(log, entry);
    assert forall|j: int| 0 <= j < run.layers.len() implies layer_sourced(
        *run.context,
        j as usize,
        #[trigger] run.layers[j],
        longer,
    ) by {
        layer_stays_sourced(*run.context, j as usize, run.layers[j], log, entry);
    }
    match run.stage {
        LoadStageOf::Attention(attention) => {
            if let Ok(reply) = outcome {
                if attention.record(reply) is Some {
                    attention_step_is_sourced(attention, reply, log);
                    let done = AttentionRunOf { parts: attention.record(reply)->0, ..attention };
                    if attention.step == AttentionStep::YarnInvFreq {
                        assert(attention_sourced(done, 0, longer));
                        assert(inputs_sourced(
                            *run.context,
                            attention.layer,
                            done.parts.inputs,
                            longer,
                        ));
                        assert(answered(
                            longer,
                            RequestOf::YarnInvFreq {
                                current: attention.yarn_inv_freq,
                                config: attention.config,
                            },
                            ReplyOf::Pointer(done.parts.inputs.yarn_inv_freq),
                        ));
                    }
                }
            }
        },
        LoadStageOf::Assembly(assembly) => {
            assembly_stays_wf(assembly, outcome);
            assembly_step_is_sourced(assembly, outcome, log);
            inputs_stay_sourced(
                *run.context,
                assembly.layer_idx,
                assembly.inputs,
                log,
                entry,
            );
            if let Progress::Done(layer) = assembly.after(outcome) {
                assembly_stays_sourced(assembly, log, entry);
                assert(assembly_sourced(assembly, longer));
                assert(layer_sourced(*run.context, assembly.layer_idx, layer, longer));
            }
        },
        _ => {},
    }
}

/// Whatever conversation a load has held, it is well formed, and everything it
/// has is what the runtime answered when it was asked for it.
pub proof fn loads_hold_what_was_answered<Q, R>(
    context: &LayerContext<Q, R>,
    log: Log<Q, R>,
    run: LoadModel<Q, R>,
)
    requires
        context.wf(),
        reached(context, log, run),
    ensures
        run.wf(),
        *run.context == *context,
        load_sourced(run, log),
    decreases log.len(),
{
    if log.len() > 0 {
        let (before, outcome) = choose|before: LoadModel<Q, R>, outcome: Result<ReplyModel, ()>|
            #[trigger] leads_to(before, outcome, log.last(), run) && reached(
                context,
                log.drop_last(),
                before,
            );
        loads_hold_what_was_answered(context, log.drop_last(), before);
        load_step_is_sourced(before, outcome, log.drop_last());
        assert(log.drop_last().push(log.last()) =~= log);
    }
}

/// A load that is done has one layer for each layer of the model, in order, and
/// each was assembled from what the checkpoint stores under that layer's names.
pub proof fn finished_loads_hold_every_layer<Q, R>(
    context: &LayerContext<Q, R>,
    log: Log<Q, R>,
    run: LoadModel<Q, R>,
    outcome: Result<ReplyModel, ()>,
    layers: Seq<u64>,
)
    requires
        context.wf(),
        reached(context, log, run),
        run.after(outcome) == Progress::<LoadModel<Q, R>, Seq<u64>, ()>::Done(layers),
    ensures
        layers.len() == context.config.num_hidden_layers,
        forall|j: int|
            0 <= j < layers.len() ==> layer_sourced(
                *context,
                j as usize,
                #[trigger] layers[j],
                log.push((run.request(), kept(outcome))),
            ),
{
    loads_hold_what_was_answered(context, log, run);
    load_step_is_sourced(run, outcome, log);
}

/// No conversation is longer than the layers of the model allow.
pub proof fn conversations_are_bounded<Q, R>(
    context: &LayerContext<Q, R>,
    log: Log<Q, R>,
    run: LoadModel<Q, R>,
)
    requires
        context.wf(),
        reached(context, log, run),
    ensures
        log.len() + run.left() <= LoadModel::<Q, R>::start(
            context,
        ).left(),
    decreases log.len(),
{
    if log.len() > 0 {
        let (before, outcome) = choose|before: LoadModel<Q, R>, outcome: Result<ReplyModel, ()>|
            #[trigger] leads_to(before, outcome, log.last(), run) && reached(
                context,
                log.drop_last(),
                before,
            );
        conversations_are_bounded(context, log.drop_last(), before);
        loads_hold_what_was_answered(context, log.drop_last(), before);
        loads_end(before, outcome);
    }
}

/// One exchange takes an assembly from a state to the next.
pub open spec fn assembly_leads_to<Q, R>(
    before: AssembleModel<Q, R>,
    outcome: Result<ReplyModel, ()>,
    entry: (RequestModel<Q, R>, Option<ReplyModel>),
    run: AssembleModel<Q, R>,
) -> bool {
    &&& entry == (before.request(), kept(outcome))
    &&& before.after(outcome) == Progress::<AssembleModel<Q, R>, u64, ()>::Ask(run)
}

/// An assembly can reach a state by a conversation.
pub open spec fn assembly_reached<Q, R>(
    layer_idx: usize,
    inputs: LayerInputs,
    context: &LayerContext<Q, R>,
    log: Log<Q, R>,
    run: AssembleModel<Q, R>,
) -> bool
    decreases log.len(),
{
    if log.len() == 0 {
        run == AssembleModel::<Q, R>::start(layer_idx, inputs, context)
    } else {
        exists|before: AssembleModel<Q, R>, outcome: Result<ReplyModel, ()>|
            #[trigger] assembly_leads_to(before, outcome, log.last(), run) && assembly_reached(
                layer_idx,
                inputs,
                context,
                log.drop_last(),
                before,
            )
    }
}

/// Whatever conversation an assembly has held, it is well formed, it keeps what
/// it was begun with, and everything else it has is what the runtime answered
/// when it was asked for it.
pub proof fn assemblies_hold_what_was_answered<Q, R>(
    layer_idx: usize,
    inputs: LayerInputs,
    context: &LayerContext<Q, R>,
    log: Log<Q, R>,
    run: AssembleModel<Q, R>,
)
    requires
        context.wf(),
        assembly_reached(layer_idx, inputs, context, log, run),
    ensures
        run.wf(),
        *run.context == *context,
        run.layer_idx == layer_idx,
        run.inputs == inputs,
        assembly_sourced(run, log),
    decreases log.len(),
{
    if log.len() > 0 {
        let (before, outcome) = choose|
            before: AssembleModel<Q, R>,
            outcome: Result<ReplyModel, ()>,
        |
            #[trigger] assembly_leads_to(before, outcome, log.last(), run) && assembly_reached(
                layer_idx,
                inputs,
                context,
                log.drop_last(),
                before,
            );
        assemblies_hold_what_was_answered(layer_idx, inputs, context, log.drop_last(), before);
        assembly_stays_wf(before, outcome);
        assembly_step_is_sourced(before, outcome, log.drop_last());
        assert(log.drop_last().push(log.last()) =~= log);
    }
}

/// An assembly that is done hands out the layer that the runtime built, after
/// the layer was given its latent attention: the weights that the assembly was
/// begun with, and the rotary projection.
pub proof fn finished_assemblies_are_complete<Q, R>(
    layer_idx: usize,
    inputs: LayerInputs,
    context: &LayerContext<Q, R>,
    log: Log<Q, R>,
    run: AssembleModel<Q, R>,
    outcome: Result<ReplyModel, ()>,
    layer: u64,
)
    requires
        context.wf(),
        assembly_reached(layer_idx, inputs, context, log, run),
        run.after(outcome) == Progress::<AssembleModel<Q, R>, u64, ()>::Done(layer),
    ensures
        run.step == AssembleStep::SetMla,
        run.layer == layer,
        run.has_all_experts(),
        run.inputs == inputs,
        assembly_sourced(run, log),
        answered(
            log.push((run.request(), kept(outcome))),
            RequestOf::SetMla {
                layer,
                mla: latent_attention_of(context.config, inputs, run.wkv_a_rope.weight),
            },
            ReplyOf::Done,
        ),
{
    assemblies_hold_what_was_answered(layer_idx, inputs, context, log, run);
    log_grows(log, (run.request(), kept(outcome)));
}

/// The runtime makes the inverse frequencies once: it answers with a table,
/// and where it was handed one, with that one.
pub open spec fn keeps_frequencies<Q, R>(log: Log<Q, R>) -> bool {
    forall|current: DevicePtr, config: &ModelConfig<Q, R>, ptr: DevicePtr| #[trigger]
        answered(log, RequestOf::YarnInvFreq { current, config }, ReplyOf::Pointer(ptr)) ==> {
            &&& ptr != DevicePtr::spec_null()
            &&& current != DevicePtr::spec_null() ==> ptr == current
        }
}

/// A layer that is given its latent attention is given these frequencies.
pub open spec fn gives_frequencies<Q, R>(request: RequestModel<Q, R>, ptr: DevicePtr) -> bool {
    request matches RequestOf::SetMla { mla, .. } ==> {
        &&& mla.yarn_inv_freq == ptr
        &&& ptr != DevicePtr::spec_null()
    }
}

/// One exchange hands on a table that is there, and a layer is only assembled
/// with one.
proof fn frequencies_stay<Q, R>(
    before: LoadModel<Q, R>,
    outcome: Result<ReplyModel, ()>,
    run: LoadModel<Q, R>,
)
    requires
        before.wf(),
        before.after(outcome) == Progress::<LoadModel<Q, R>, Seq<u64>, ()>::Ask(run),
        before.layers.len() > 0 || before.stage is Assembly ==> before.yarn_inv_freq
            != DevicePtr::spec_null(),
        before.request() is YarnInvFreq ==> run.yarn_inv_freq != DevicePtr::spec_null(),
    ensures
        run.layers.len() > 0 || run.stage is Assembly ==> run.yarn_inv_freq
            != DevicePtr::spec_null(),
        gives_frequencies(run.request(), run.yarn_inv_freq),
{
    loads_stay_wf(before, outcome);
    frequencies_are_handed_on(before, outcome);
}

/// With a runtime that makes the inverse frequencies once, all layers of a load
/// are given the same table.
pub proof fn layers_share_the_frequencies<Q, R>(
    context: &LayerContext<Q, R>,
    log: Log<Q, R>,
    run: LoadModel<Q, R>,
)
    requires
        context.wf(),
        reached(context, log, run),
        keeps_frequencies(log),
    ensures
        forall|entry: (RequestModel<Q, R>, Option<ReplyModel>)| #[trigger]
            log.contains(entry) ==> gives_frequencies(entry.0, run.yarn_inv_freq),
        gives_frequencies(run.request(), run.yarn_inv_freq),
        run.layers.len() > 0 || run.stage is Assembly ==> run.yarn_inv_freq
            != DevicePtr::spec_null(),
    decreases log.len(),
{
    if log.len() > 0 {
        let (before, outcome) = choose|before: LoadModel<Q, R>, outcome: Result<ReplyModel, ()>|
            #[trigger] leads_to(before, outcome, log.last(), run) && reached(
                context,
                log.drop_last(),
                before,
            );
        let earlier = log.drop_last();
        assert(earlier.push(log.last()) =~= log);
        log_grows(earlier, log.last());
        assert(before.wf()) by {
            loads_hold_what_was_answered(context, earlier, before);
        }
        layers_share_the_frequencies(context, earlier, before);
        frequencies_are_handed_on(before, outcome);
        if let RequestOf::YarnInvFreq { current, config } = before.request() {
            assert(answered(
                log,
                RequestOf::YarnInvFreq { current, config },
                ReplyOf::Pointer(run.yarn_inv_freq),
            ));
        }
        frequencies_stay(before, outcome, run);
        assert forall|entry: (RequestModel<Q, R>, Option<ReplyModel>)| #[trigger]
            log.contains(entry) implies gives_frequencies(entry.0, run.yarn_inv_freq) by {
            if entry != log.last() {
                let at = choose|at: int| 0 <= at < log.len() && log[at] == entry;
                assert(earlier[at] == entry);
                assert(earlier.contains(entry));
            }
        }
    }
}

/// The mixture of experts that a load asks to be built, whatever the layer and
/// whatever came before, is made of what the checkpoint stores under that layer's
/// names: the router, each expert held here by its three projections, and the
/// shared expert. An expert held elsewhere is null.
pub proof fn mixtures_hold_what_was_answered<Q, R>(
    context: &LayerContext<Q, R>,
    log: Log<Q, R>,
    run: LoadModel<Q, R>,
)
    requires
        context.wf(),
        reached(context, log, run),
    ensures
        run.request() matches RequestOf::NewMoe { weights, num_experts, gate_nvfp4, config } ==> {
            &&& mixture_sourced(*context, run.layers.len() as usize, weights, log)
            &&& num_experts == context.config.num_experts
            &&& gate_nvfp4 is Some
            &&& config == context.config
        },
{
    loads_hold_what_was_answered(context, log, run);
}

} // verus!

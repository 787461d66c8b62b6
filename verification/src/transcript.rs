//! What a load asks for, in order, and what it makes of the answers.
//!
//! The laws here follow a conversation from its beginning. Each says which
//! request comes after which answer, whatever the answers are, and what the
//! conversation comes to in the end.
use vstd::prelude::*;

use crate::assemble::{next_local_is_first, AssembleModel};
use crate::attention::{AttentionModel, LayerInputs};
use crate::config::ModelConfig;
use crate::context::LayerContext;
use crate::load_layers::{LoadModel, LoadRunOf, LoadStageOf};
use crate::request::{
    answers, ErrorContext, Kernel, LoadError, Progress, ReplyModel, ReplyOf, RequestModel,
    RequestOf, Toolkit,
};
use crate::tensor::{LayerTensor, Projection, Tensor};
use crate::weight_loader::{LmHeadRun, LmHeadStage, SearchRun, Sought};
use crate::weights::{
    AttentionWeights, DenseWeight, DevicePtr, ExpertWeight, KvCacheDtype, MlaWeights, MoeWeightsOf,
    QuantizedWeight,
};

verus! {

/// The load of an attention after one more answer, where it goes on.
pub open spec fn attention_after<'a, Q, R>(
    run: AttentionModel<'a, Q, R>,
    reply: ReplyModel,
) -> AttentionModel<'a, Q, R> {
    run.after::<()>(Ok(reply))->Ask_0
}

/// What an attention is begun with stays with it.
pub open spec fn same_attention<Q, R>(
    before: AttentionModel<Q, R>,
    after: AttentionModel<Q, R>,
) -> bool {
    &&& after.layer == before.layer
    &&& after.config == before.config
    &&& after.tools == before.tools
    &&& after.yarn_inv_freq == before.yarn_inv_freq
}

/// An attention is begun with its norms and its first query projection, which has
/// the latent width as rows.
pub proof fn attentions_begin_with_the_norms<Q, R>(
    layer: usize,
    config: &ModelConfig<Q, R>,
    tools: Toolkit,
    current: DevicePtr,
    weights: (DenseWeight, DenseWeight, DenseWeight),
    number: u64,
)
    ensures
        ({
            let start = AttentionModel::<Q, R>::start(layer, config, tools, current);
            let normed = attention_after(start, ReplyOf::Dense(weights.0));
            let post_normed = attention_after(normed, ReplyOf::Dense(weights.1));
            let query_a = attention_after(post_normed, ReplyOf::Dense(weights.2));
            let quantised = attention_after(query_a, ReplyOf::Quantized(number));
            &&& start.request() == RequestModel::<Q, R>::Dense(
                Tensor::Layer { layer, tensor: LayerTensor::AttnNorm },
            )
            &&& normed.request() == RequestModel::<Q, R>::Dense(
                Tensor::Layer { layer, tensor: LayerTensor::FfnNorm },
            )
            &&& post_normed.request() == RequestModel::<Q, R>::DenseAuto(
                Tensor::Layer { layer, tensor: LayerTensor::WqA },
            )
            &&& query_a.request() == (RequestModel::<Q, R>::Quantize {
                weight: weights.2,
                rows: config.q_lora_rank,
                cols: config.hidden_size,
                tools,
            })
            &&& quantised.request() == RequestModel::<Q, R>::DenseAuto(
                Tensor::Layer { layer, tensor: LayerTensor::WqB },
            )
            &&& quantised.layer == layer
            &&& quantised.config == config
            &&& quantised.tools == tools
            &&& quantised.yarn_inv_freq == current
            &&& quantised.parts.inputs.input_norm == weights.0
            &&& quantised.parts.inputs.post_attn_norm == weights.1
            &&& quantised.parts.inputs.wq_a == weights.2
            &&& quantised.parts.inputs.wq_a_nvfp4 == Some(QuantizedWeight::Loaded(number))
        }),
{
}

/// The second query projection comes next, with as many rows as all heads
/// together are wide, and then the norm of the queries.
pub proof fn queries_are_loaded_in_order<Q, R>(
    run: AttentionModel<Q, R>,
    weights: (DenseWeight, DenseWeight),
    number: u64,
    rows: usize,
)
    requires
        run.request() == RequestModel::<Q, R>::DenseAuto(
            Tensor::Layer { layer: run.layer, tensor: LayerTensor::WqB },
        ),
        rows == run.config.num_attention_heads * run.config.head_dim,
    ensures
        ({
            let query_b = attention_after(run, ReplyOf::Dense(weights.0));
            let quantised = attention_after(query_b, ReplyOf::Quantized(number));
            let queried = attention_after(quantised, ReplyOf::Dense(weights.1));
            &&& query_b.request() == (RequestModel::<Q, R>::Quantize {
                weight: weights.0,
                rows,
                cols: run.config.q_lora_rank,
                tools: run.tools,
            })
            &&& quantised.request() == RequestModel::<Q, R>::Dense(
                Tensor::Layer { layer: run.layer, tensor: LayerTensor::QNorm },
            )
            &&& queried.request() == RequestModel::<Q, R>::DenseAuto(
                Tensor::Layer { layer: run.layer, tensor: LayerTensor::Wkv },
            )
            &&& same_attention(run, queried)
            &&& queried.parts.inputs == (LayerInputs {
                wq_b: weights.0,
                wq_b_nvfp4: Some(QuantizedWeight::Loaded(number)),
                q_a_norm: weights.1,
                ..run.parts.inputs
            })
        }),
{
}

/// The key and value projections come next: the first is quantised at its stored
/// size, and the second is `wo_a`, whose shape is kept.
pub proof fn keys_and_values_are_loaded_in_order<Q, R>(
    run: AttentionModel<Q, R>,
    weights: (DenseWeight, DenseWeight, DenseWeight),
    number: u64,
    shape: Seq<usize>,
    wkv_b_shape: Seq<usize>,
)
    requires
        run.request() == RequestModel::<Q, R>::DenseAuto(
            Tensor::Layer { layer: run.layer, tensor: LayerTensor::Wkv },
        ),
        shape.len() >= 2,
    ensures
        ({
            let kv_a = attention_after(run, ReplyOf::Dense(weights.0));
            let kv_a_sized = attention_after(kv_a, ReplyOf::Shape(shape));
            let kv_a_4 = attention_after(kv_a_sized, ReplyOf::Quantized(number));
            let kv_b = attention_after(kv_a_4, ReplyOf::Dense(weights.1));
            let kv_b_sized = attention_after(kv_b, ReplyOf::Shape(wkv_b_shape));
            let kv_normed = attention_after(kv_b_sized, ReplyOf::Dense(weights.2));
            &&& kv_a.request() == (RequestModel::<Q, R>::Shape {
                tensor: Tensor::Layer { layer: run.layer, tensor: LayerTensor::Wkv },
                rank: 2,
            })
            &&& kv_a_sized.request() == (RequestModel::<Q, R>::Quantize {
                weight: weights.0,
                rows: shape[0],
                cols: shape[1],
                tools: run.tools,
            })
            &&& kv_a_4.request() == RequestModel::<Q, R>::DenseAuto(
                Tensor::Layer { layer: run.layer, tensor: LayerTensor::WoA },
            )
            &&& kv_b.request() == (RequestModel::<Q, R>::Shape {
                tensor: Tensor::Layer { layer: run.layer, tensor: LayerTensor::WoA },
                rank: 0,
            })
            &&& kv_b_sized.request() == RequestModel::<Q, R>::Dense(
                Tensor::Layer { layer: run.layer, tensor: LayerTensor::KvNorm },
            )
            &&& kv_normed.request() == RequestModel::<Q, R>::DenseAuto(
                Tensor::Layer { layer: run.layer, tensor: LayerTensor::WoB },
            )
            &&& same_attention(run, kv_normed)
            &&& kv_normed.parts.inputs == (LayerInputs {
                wkv_a: weights.0,
                wkv_a_nvfp4: Some(QuantizedWeight::Loaded(number)),
                wkv_b: weights.1,
                kv_a_norm: weights.2,
                ..run.parts.inputs
            })
            &&& kv_normed.parts.wkv_b_shape == wkv_b_shape
        }),
{
}

/// The output projection, `wo_b`, comes next, quantised at its stored size, and
/// then the shape of the second query projection.
pub proof fn outputs_are_loaded_in_order<Q, R>(
    run: AttentionModel<Q, R>,
    weight: DenseWeight,
    number: u64,
    shape: Seq<usize>,
    wq_b_shape: Seq<usize>,
)
    requires
        run.request() == RequestModel::<Q, R>::DenseAuto(
            Tensor::Layer { layer: run.layer, tensor: LayerTensor::WoB },
        ),
        shape.len() >= 2,
    ensures
        ({
            let out = attention_after(run, ReplyOf::Dense(weight));
            let out_sized = attention_after(out, ReplyOf::Shape(shape));
            let out_4 = attention_after(out_sized, ReplyOf::Quantized(number));
            let sized = attention_after(out_4, ReplyOf::Shape(wq_b_shape));
            &&& out.request() == (RequestModel::<Q, R>::Shape {
                tensor: Tensor::Layer { layer: run.layer, tensor: LayerTensor::WoB },
                rank: 2,
            })
            &&& out_sized.request() == (RequestModel::<Q, R>::Quantize {
                weight,
                rows: shape[0],
                cols: shape[1],
                tools: run.tools,
            })
            &&& out_4.request() == (RequestModel::<Q, R>::Shape {
                tensor: Tensor::Layer { layer: run.layer, tensor: LayerTensor::WqB },
                rank: 0,
            })
            &&& sized.request() is PerHeadViews
            &&& same_attention(run, sized)
            &&& sized.parts.inputs == (LayerInputs {
                o_dense: weight,
                o_nvfp4: Some(QuantizedWeight::Loaded(number)),
                ..run.parts.inputs
            })
            &&& sized.parts.wkv_b_shape == run.parts.wkv_b_shape
            &&& sized.parts.wq_b_shape == wq_b_shape
        }),
{
}

/// What is derived comes last: the views by head are made of the second key and
/// value projection and the second query projection, with their stored shapes;
/// the absorbed query and the block diagonals are made of those views; and the
/// frequencies are asked for with those that there are. Each answer is put in its
/// place, and the load is done with all of them.
pub proof fn views_are_derived_in_order<Q, R>(
    run: AttentionModel<Q, R>,
    views: (DenseWeight, DenseWeight, DenseWeight, u64),
    absorbed: DenseWeight,
    diagonals: (DenseWeight, DenseWeight),
    frequencies: DevicePtr,
)
    requires
        run.request() is PerHeadViews,
    ensures
        ({
            let inputs = run.parts.inputs;
            let config = run.config;
            let wq_b_shape = run.parts.wq_b_shape;
            let viewed = attention_after(run, ReplyOf::PerHead {
                    w_uk_t: views.0,
                    w_uv: views.1,
                    wq_b_rope: views.2,
                    w_uk_host: views.3,
                });
            let soaked = attention_after(viewed, ReplyOf::Dense(absorbed));
            let blocked = attention_after(soaked, ReplyOf::Pair(diagonals.0, diagonals.1));
            &&& run.request() == (RequestModel::<Q, R>::PerHeadViews {
                wkv_b: inputs.wkv_b,
                wkv_b_shape: run.parts.wkv_b_shape,
                wq_b: inputs.wq_b,
                wq_b_shape,
                config,
            })
            &&& viewed.request() == (RequestModel::<Q, R>::QkAbsorbed {
                wq_b: inputs.wq_b,
                wq_b_shape,
                w_uk_t: views.0,
                config,
            })
            &&& soaked.request() == (RequestModel::<Q, R>::BlockDiagonals {
                w_uk_host: views.3,
                w_uv: views.1,
                config,
            })
            &&& blocked.request() == (RequestModel::<Q, R>::YarnInvFreq {
                current: run.yarn_inv_freq,
                config,
            })
            &&& blocked.after::<()>(Ok(ReplyOf::Pointer(frequencies))) matches Progress::Done(done)
                && done == (LayerInputs {
                w_uk_t: views.0,
                w_uv: views.1,
                wq_b_rope: views.2,
                w_qk_absorbed: absorbed,
                w_uk_block_diag: diagonals.0,
                w_uv_block_diag: diagonals.1,
                yarn_inv_freq: frequencies,
                ..inputs
            })
        }),
{
}

/// A load of an attention fails with the runtime's error, without more to say,
/// and before rows of queries beyond the machine's integers are asked for.
pub proof fn attentions_fail_as_told<Q, R, E>(
    layer: usize,
    config: &ModelConfig<Q, R>,
    tools: Toolkit,
    current: DevicePtr,
    weights: (DenseWeight, DenseWeight, DenseWeight, DenseWeight),
    number: u64,
    run: AttentionModel<Q, R>,
    cause: E,
)
    ensures
        run.after::<E>(Err(cause)) matches Progress::Failed(
            LoadError::Runtime { context: None, cause: told },
        ) && told == cause,
        config.num_attention_heads * config.head_dim > usize::MAX ==> {
            let start = AttentionModel::<Q, R>::start(layer, config, tools, current);
            let normed = attention_after(start, ReplyOf::Dense(weights.0));
            let post_normed = attention_after(normed, ReplyOf::Dense(weights.1));
            let query_a = attention_after(post_normed, ReplyOf::Dense(weights.2));
            let query_a_4 = attention_after(query_a, ReplyOf::Quantized(number));
            query_a_4.after::<()>(Ok(ReplyOf::Dense(weights.3))) matches Progress::Failed(
                LoadError::SizeOverflow,
            )
        },
{
}

/// An assembly after one more answer, where it goes on.
pub open spec fn assembly_after<'a, Q, R>(
    run: AssembleModel<'a, Q, R>,
    reply: ReplyModel,
) -> AssembleModel<'a, Q, R> {
    run.after::<()>(Ok(reply))->Ask_0
}

/// What an assembly is begun with stays with it.
pub open spec fn same_assembly<Q, R>(
    before: AssembleModel<Q, R>,
    after: AssembleModel<Q, R>,
) -> bool {
    &&& after.context == before.context
    &&& after.layer_idx == before.layer_idx
    &&& after.inputs == before.inputs
}

/// An assembly has settled the experts before the next one that is held here,
/// and asks for that one; or it has settled all, and asks for the shared one.
/// From `from` on, those that are settled are held elsewhere, and are null.
pub open spec fn asks_for_next_expert<Q, R>(run: AssembleModel<Q, R>, from: nat) -> bool {
    let layer = run.layer_idx;
    let local = run.context.local_experts@;
    let next = run.experts.len();
    &&& from <= next <= local.len()
    &&& forall|e: int|
        from <= e < next ==> !local[e] && #[trigger] run.experts[e] == (ExpertWeight {
            gate_proj: QuantizedWeight::Null,
            up_proj: QuantizedWeight::Null,
            down_proj: QuantizedWeight::Null,
        })
    &&& if next < local.len() {
        &&& local[next as int]
        &&& run.request() == RequestModel::<Q, R>::QuantizedV2(
            Tensor::Layer {
                layer,
                tensor: LayerTensor::Expert { index: next as usize, projection: Projection::W1 },
            },
        )
    } else {
        run.request() == RequestModel::<Q, R>::QuantizedV2(
            Tensor::Layer {
                layer,
                tensor: LayerTensor::SharedExpert { projection: Projection::W1 },
            },
        )
    }
}

/// An assembly begins with the router, which it quantises with the tools that
/// it asks for, and goes on to the first expert that is held here.
pub proof fn assemblies_begin_with_the_router<Q, R>(
    layer_idx: usize,
    inputs: LayerInputs,
    context: &LayerContext<Q, R>,
    gate: DenseWeight,
    tools: Toolkit,
    number: u64,
)
    requires
        context.wf(),
    ensures
        ({
            let start = AssembleModel::<Q, R>::start(layer_idx, inputs, context);
            let routed = assembly_after(start, ReplyOf::Dense(gate));
            let measured = assembly_after(routed, ReplyOf::Handle(tools.absmax));
            let equipped = assembly_after(measured, ReplyOf::Handle(tools.quantize));
            let streamed = assembly_after(equipped, ReplyOf::Handle(tools.stream));
            let quantised = assembly_after(streamed, ReplyOf::Quantized(number));
            &&& start.request() == RequestModel::<Q, R>::Dense(
                Tensor::Layer { layer: layer_idx, tensor: LayerTensor::Gate },
            )
            &&& routed.request() == RequestModel::<Q, R>::Kernel(Kernel::GlobalAbsmax)
            &&& measured.request() == RequestModel::<Q, R>::Kernel(Kernel::QuantizeBf16)
            &&& equipped.request() is DefaultStream
            &&& streamed.request() == (RequestModel::<Q, R>::Quantize {
                weight: gate,
                rows: context.config.num_experts,
                cols: context.config.hidden_size,
                tools,
            })
            &&& quantised.context == context
            &&& quantised.layer_idx == layer_idx
            &&& quantised.inputs == inputs
            &&& quantised.gate == gate
            &&& quantised.gate_nvfp4 == QuantizedWeight::Loaded(number)
            &&& quantised.wf()
            &&& asks_for_next_expert(quantised, 0)
        }),
{
    next_local_is_first(context.local_experts@, 0);
}

/// An expert is loaded by its first, third and second projection, which gate,
/// widen and narrow; the assembly then goes on to the next expert held here.
pub proof fn experts_are_loaded_in_order<Q, R>(
    run: AssembleModel<Q, R>,
    gate_proj: u64,
    up_proj: u64,
    down_proj: u64,
)
    requires
        run.wf(),
        run.experts.len() < run.context.local_experts@.len(),
        asks_for_next_expert(run, run.experts.len()),
    ensures
        ({
            let index = run.experts.len() as usize;
            let gated = assembly_after(run, ReplyOf::Quantized(gate_proj));
            let widened = assembly_after(gated, ReplyOf::Quantized(up_proj));
            let narrowed = assembly_after(widened, ReplyOf::Quantized(down_proj));
            &&& gated.request() == RequestModel::<Q, R>::QuantizedV2(
                Tensor::Layer {
                    layer: run.layer_idx,
                    tensor: LayerTensor::Expert { index, projection: Projection::W3 },
                },
            )
            &&& widened.request() == RequestModel::<Q, R>::QuantizedV2(
                Tensor::Layer {
                    layer: run.layer_idx,
                    tensor: LayerTensor::Expert { index, projection: Projection::W2 },
                },
            )
            &&& same_assembly(run, narrowed)
            &&& narrowed.gate == run.gate
            &&& narrowed.gate_nvfp4 == run.gate_nvfp4
            &&& narrowed.experts.len() > index
            &&& narrowed.experts.take(index as int) == run.experts
            &&& narrowed.experts[index as int] == (ExpertWeight {
                gate_proj: QuantizedWeight::Loaded(gate_proj),
                up_proj: QuantizedWeight::Loaded(up_proj),
                down_proj: QuantizedWeight::Loaded(down_proj),
            })
            &&& narrowed.wf()
            &&& asks_for_next_expert(narrowed, (index + 1) as nat)
        }),
{
    let index = run.experts.len() as usize;
    let gated = assembly_after(run, ReplyOf::Quantized(gate_proj));
    let widened = assembly_after(gated, ReplyOf::Quantized(up_proj));
    let narrowed = assembly_after(widened, ReplyOf::Quantized(down_proj));
    next_local_is_first(run.context.local_experts@, run.experts.len() + 1);
    assert(narrowed.experts.take(index as int) =~= run.experts);
}

/// The shared expert is loaded after all others, and the mixture is then built
/// from the router, the experts and the shared expert, each as it was loaded.
/// The stored rotary projection is looked for next.
pub proof fn mixtures_are_built_in_order<Q, R>(
    run: AssembleModel<Q, R>,
    gate_proj: u64,
    up_proj: u64,
    down_proj: u64,
    moe: u64,
)
    requires
        run.wf(),
        run.experts.len() == run.context.local_experts@.len(),
        asks_for_next_expert(run, run.experts.len()),
    ensures
        ({
            let layer = run.layer_idx;
            let gated = assembly_after(run, ReplyOf::Quantized(gate_proj));
            let widened = assembly_after(gated, ReplyOf::Quantized(up_proj));
            let narrowed = assembly_after(widened, ReplyOf::Quantized(down_proj));
            let mixed = assembly_after(narrowed, ReplyOf::Handle(moe));
            &&& gated.request() == RequestModel::<Q, R>::QuantizedV2(
                Tensor::Layer {
                    layer,
                    tensor: LayerTensor::SharedExpert { projection: Projection::W3 },
                },
            )
            &&& widened.request() == RequestModel::<Q, R>::QuantizedV2(
                Tensor::Layer {
                    layer,
                    tensor: LayerTensor::SharedExpert { projection: Projection::W2 },
                },
            )
            &&& narrowed.request() == (RequestModel::<Q, R>::NewMoe {
                weights: MoeWeightsOf {
                    gate: run.gate,
                    shared_expert: ExpertWeight {
                        gate_proj: QuantizedWeight::Loaded(gate_proj),
                        up_proj: QuantizedWeight::Loaded(up_proj),
                        down_proj: QuantizedWeight::Loaded(down_proj),
                    },
                    shared_expert_gate: DenseWeight { weight: DevicePtr { addr: 0 } },
                    experts: run.experts,
                    router_pre_norm: None,
                    correction_bias: None,
                },
                num_experts: run.context.config.num_experts,
                gate_nvfp4: Some(run.gate_nvfp4),
                config: run.context.config,
            })
            &&& same_assembly(run, mixed)
            &&& mixed.wf()
            &&& mixed.moe == moe
            &&& mixed.request() == RequestModel::<Q, R>::Lookup(
                Tensor::Layer { layer, tensor: LayerTensor::WkvRope },
            )
        }),
{
}

/// An assembly has its rotary projection, and asks for the layer to be built:
/// with the cache type listed for its place, and without any part of its own.
pub open spec fn asks_for_the_layer<Q, R>(
    before: AssembleModel<Q, R>,
    run: AssembleModel<Q, R>,
    rope: DevicePtr,
) -> bool {
    let null = DenseWeight { weight: DevicePtr { addr: 0 } };
    &&& run.wf()
    &&& same_assembly(before, run)
    &&& run.wkv_a_rope == (DenseWeight { weight: rope })
    &&& run.request() == (RequestModel::<Q, R>::NewLayer {
        input_norm: before.inputs.input_norm,
        attention: AttentionWeights {
            q_proj: null,
            k_proj: null,
            v_proj: null,
            o_proj: QuantizedWeight::Null,
            q_norm: null,
            k_norm: null,
            q_norm_full: None,
            k_norm_full: None,
            k_scale: 1,
            v_scale: 1,
        },
        post_attn_norm: before.inputs.post_attn_norm,
        moe: before.moe,
        layer_idx: before.layer_idx,
        optional_parts: (None, None, None),
        kv_dtype: if before.layer_idx < before.context.kv_dtypes@.len() {
            before.context.kv_dtypes@[before.layer_idx as int]
        } else {
            KvCacheDtype::Bf16
        },
        setting: 0,
        config: before.context.config,
    })
}

/// A stored rotary projection is taken. One that is not stored is made: memory
/// for a row of the hidden width for each rotated dimension, at two bytes an
/// element, all of which is set to zero. Where that is beyond the machine's
/// integers, the assembly fails.
pub proof fn rotary_projections_are_stored_or_zero<Q, R, E>(
    run: AssembleModel<Q, R>,
    cause: E,
    rope: DevicePtr,
)
    requires
        run.wf(),
        run.request() is Lookup,
    ensures
        asks_for_the_layer(run, assembly_after(run, ReplyOf::Pointer(rope)), rope),
        ({
            let elements = run.context.config.qk_rope_head_dim * run.context.config.hidden_size;
            if elements * 2 > usize::MAX {
                run.after::<E>(Err(cause)) matches Progress::Failed(LoadError::SizeOverflow)
            } else {
                let bytes = (elements * 2) as usize;
                let missed = run.after::<E>(Err(cause))->Ask_0;
                let allocated = assembly_after(missed, ReplyOf::Pointer(rope));
                let filled = assembly_after(allocated, ReplyOf::Done);
                &&& run.after::<E>(Err(cause)) is Ask
                &&& missed.request() == (RequestModel::<Q, R>::Alloc { bytes })
                &&& allocated.request() == (RequestModel::<Q, R>::Memset {
                    ptr: rope,
                    value: 0,
                    bytes,
                })
                &&& asks_for_the_layer(run, filled, rope)
            }
        }),
{
}

/// A layer that is built is given its latent attention: the weights that the
/// assembly was begun with, each in its place, the rotary projection, and the
/// sizes of the model. The assembly is then done with that layer.
pub proof fn layers_are_given_their_attention<Q, R>(run: AssembleModel<Q, R>, layer: u64)
    requires
        run.wf(),
        run.request() is NewLayer,
    ensures
        ({
            let built = assembly_after(run, ReplyOf::Handle(layer));
            let inputs = run.inputs;
            let config = run.context.config;
            &&& built.request() == (RequestModel::<Q, R>::SetMla {
                layer,
                mla: MlaWeights {
                    wq_a: inputs.wq_a,
                    wq_a_nvfp4: inputs.wq_a_nvfp4,
                    wq_b: inputs.wq_b,
                    wq_b_nvfp4: inputs.wq_b_nvfp4,
                    q_a_norm: inputs.q_a_norm,
                    wkv_a: inputs.wkv_a,
                    wkv_a_nvfp4: inputs.wkv_a_nvfp4,
                    wkv_b: inputs.wkv_b,
                    kv_a_norm: inputs.kv_a_norm,
                    wkv_a_rope: run.wkv_a_rope,
                    wkv_a_merged: inputs.wkv_a,
                    wo: inputs.o_dense,
                    wo_nvfp4: inputs.o_nvfp4,
                    w_uk_t: inputs.w_uk_t,
                    w_uv: inputs.w_uv,
                    wq_b_rope: inputs.wq_b_rope,
                    w_qk_absorbed: inputs.w_qk_absorbed,
                    w_uk_block_diag: inputs.w_uk_block_diag,
                    w_uv_block_diag: inputs.w_uv_block_diag,
                    yarn_inv_freq: inputs.yarn_inv_freq,
                    q_lora_rank: config.q_lora_rank,
                    kv_lora_rank: config.kv_lora_rank,
                    nope: config.qk_nope_head_dim,
                    rope: config.qk_rope_head_dim,
                    v_dim: config.v_head_dim,
                },
            })
            &&& built.after::<()>(Ok(ReplyOf::Done)) matches Progress::Done(done) && done == layer
        }),
{
}

/// What a request was for is told with its failure: the expert and the projection
/// of a request for one, the projection of the shared expert, and nothing for any
/// other request. Only a rotary projection may be missing.
pub open spec fn failure_of<Q, R>(request: RequestModel<Q, R>) -> Option<ErrorContext> {
    match request {
        RequestOf::QuantizedV2(
            Tensor::Layer { tensor: LayerTensor::Expert { index, projection }, .. },
        ) => Some(ErrorContext::Expert { index, projection }),
        RequestOf::QuantizedV2(
            Tensor::Layer { tensor: LayerTensor::SharedExpert { projection }, .. },
        ) => Some(ErrorContext::SharedExpert { projection }),
        _ => None,
    }
}

/// An assembly that fails tells what the failed request was for.
pub proof fn assemblies_fail_as_told<Q, R, E>(run: AssembleModel<Q, R>, cause: E)
    requires
        run.wf(),
        !(run.request() is Lookup),
    ensures
        run.after::<E>(Err(cause)) matches Progress::Failed(
            LoadError::Runtime { context, cause: told },
        ) && told == cause && context == failure_of(run.request()),
{
}

/// A load that fails tells what the failed request was for.
pub proof fn loads_fail_as_told<Q, R, E>(run: LoadModel<Q, R>, cause: E)
    requires
        run.wf(),
        !(run.request() is Lookup),
    ensures
        run.after::<E>(Err(cause)) matches Progress::Failed(
            LoadError::Runtime { context, cause: told },
        ) && told == cause && context == failure_of(run.request()),
{
}

/// A load begins with its tools, and then with the first layer; it has no table
/// of frequencies yet. A model without layers is loaded.
pub proof fn loads_begin_with_the_tools<Q, R>(context: &LayerContext<Q, R>, tools: Toolkit)
    ensures
        ({
            let start = LoadModel::<Q, R>::start(context);
            let measured = start.after::<()>(Ok(ReplyOf::Handle(tools.absmax)))->Ask_0;
            let equipped = measured.after::<()>(Ok(ReplyOf::Handle(tools.quantize)))->Ask_0;
            let streamed = equipped.after::<()>(Ok(ReplyOf::Handle(tools.stream)));
            &&& start.request() == RequestModel::<Q, R>::Kernel(Kernel::GlobalAbsmax)
            &&& measured.request() == RequestModel::<Q, R>::Kernel(Kernel::QuantizeBf16)
            &&& equipped.request() is DefaultStream
            &&& if context.config.num_hidden_layers == 0 {
                streamed matches Progress::Done(layers) && layers.len() == 0
            } else {
                streamed matches Progress::Ask(run) && {
                    &&& run.context == context
                    &&& run.layers.len() == 0
                    &&& run.stage == LoadStageOf::<Seq<usize>, Seq<ExpertWeight>, Q, R>::Attention(
                        AttentionModel::<Q, R>::start(
                            0,
                            context.config,
                            tools,
                            DevicePtr { addr: 0 },
                        ),
                    )
                    &&& run.tools == tools
                    &&& run.yarn_inv_freq == (DevicePtr { addr: 0 })
                }
            }
        }),
{
}

/// A layer is assembled from its own attention, right after that is loaded. What
/// is complete, and the tools, stay; the frequencies are those just answered.
pub proof fn attentions_are_assembled<Q, R, E>(
    run: LoadModel<Q, R>,
    attention: AttentionModel<Q, R>,
    outcome: Result<ReplyModel, E>,
)
    requires
        run.wf(),
        run.stage == LoadStageOf::<Seq<usize>, Seq<ExpertWeight>, Q, R>::Attention(attention),
    ensures
        run.request() == attention.request(),
        match attention.after(outcome) {
            Progress::Ask(next) => run.after(outcome) == Progress::<_, Seq<u64>, E>::Ask(
                LoadRunOf { stage: LoadStageOf::Attention(next), ..run },
            ),
            Progress::Done(inputs) => run.after(outcome) matches Progress::Ask(next) && {
                &&& next.context == run.context
                &&& next.layers == run.layers
                &&& next.tools == run.tools
                &&& next.yarn_inv_freq == inputs.yarn_inv_freq
                &&& next.stage == LoadStageOf::<Seq<usize>, Seq<ExpertWeight>, Q, R>::Assembly(
                    AssembleModel::<Q, R>::start(
                        run.layers.len() as usize,
                        inputs,
                        run.context,
                    ),
                )
            },
            Progress::Failed(error) => run.after(outcome) == Progress::<
                LoadModel<Q, R>,
                Seq<u64>,
                E,
            >::Failed(error),
        },
{
}

/// A layer that is assembled is put behind those before it. The next layer's
/// attention is then begun, with the same tools and the frequencies as they are
/// left; after the last layer, the load is done with all of them.
pub proof fn layers_are_put_in_order<Q, R, E>(
    run: LoadModel<Q, R>,
    assembly: AssembleModel<Q, R>,
    outcome: Result<ReplyModel, E>,
)
    requires
        run.wf(),
        run.stage == LoadStageOf::<Seq<usize>, Seq<ExpertWeight>, Q, R>::Assembly(assembly),
    ensures
        run.request() == assembly.request(),
        match assembly.after(outcome) {
            Progress::Ask(next) => run.after(outcome) == Progress::<_, Seq<u64>, E>::Ask(
                LoadRunOf { stage: LoadStageOf::Assembly(next), ..run },
            ),
            Progress::Done(layer) => if run.layers.len() + 1
                == run.context.config.num_hidden_layers {
                run.after(outcome) matches Progress::Done(layers) && layers == run.layers.push(
                    layer,
                )
            } else {
                run.after(outcome) matches Progress::Ask(next) && {
                    &&& next.context == run.context
                    &&& next.layers == run.layers.push(layer)
                    &&& next.tools == run.tools
                    &&& next.yarn_inv_freq == run.yarn_inv_freq
                    &&& next.stage == LoadStageOf::<
                        Seq<usize>,
                        Seq<ExpertWeight>,
                        Q,
                        R,
                    >::Attention(
                        AttentionModel::<Q, R>::start(
                            (run.layers.len() + 1) as usize,
                            run.context.config,
                            run.tools,
                            run.yarn_inv_freq,
                        ),
                    )
                }
            },
            Progress::Failed(error) => run.after(outcome) == Progress::<
                LoadModel<Q, R>,
                Seq<u64>,
                E,
            >::Failed(error),
        },
{
}

/// A search tries three names in order, passes over the failures of the first
/// two, tells that of the third, and takes the first weight that it is given.
pub open spec fn tries_in_order<Q, R, E>(
    sought: Sought,
    names: (Tensor, Tensor, Tensor),
    missing: ErrorContext,
    causes: (E, E, E),
    weight: DenseWeight,
) -> bool {
    let first = SearchRun { sought, attempt: 0 };
    let second = first.after::<E>(Err(causes.0))->Ask_0;
    let third = second.after::<E>(Err(causes.1))->Ask_0;
    let found = Progress::<SearchRun, DenseWeight, E>::Done(weight);
    let given = Ok::<ReplyModel, E>(ReplyOf::Dense(weight));
    &&& first.spec_request::<Q, R>() == RequestModel::<Q, R>::Dense(names.0)
    &&& first.after(given) == found
    &&& first.after::<E>(Err(causes.0)) is Ask
    &&& second.spec_request::<Q, R>() == RequestModel::<Q, R>::Dense(names.1)
    &&& second.after(given) == found
    &&& second.after::<E>(Err(causes.1)) is Ask
    &&& third.spec_request::<Q, R>() == RequestModel::<Q, R>::Dense(names.2)
    &&& third.after(given) == found
    &&& third.after::<E>(Err(causes.2)) matches Progress::Failed(
        LoadError::Runtime { context: Some(context), cause },
    ) && context == missing && cause == causes.2
}

/// The names under which the embedding and the final norm are looked for, in
/// order, and what is told where there is none.
pub proof fn searches_try_their_names<Q, R, E>(causes: (E, E, E), weight: DenseWeight)
    ensures
        tries_in_order::<Q, R, E>(
            Sought::Embedding,
            (Tensor::Embed, Tensor::ModelEmbedTokens, Tensor::EmbedTokens),
            ErrorContext::Embedding,
            causes,
            weight,
        ),
        tries_in_order::<Q, R, E>(
            Sought::FinalNorm,
            (Tensor::Norm, Tensor::ModelNorm, Tensor::FinalNorm),
            ErrorContext::FinalNorm,
            causes,
            weight,
        ),
{
}

/// The output projection is looked for as `head.weight`, then as
/// `lm_head.weight`. A name that is stored is loaded, and its failure is final.
/// Where none is stored, a tied model takes its embedding, and any other fails.
pub proof fn output_projections_are_looked_for_in_order<Q, R, E>(
    tied: bool,
    weight: DenseWeight,
    cause: E,
)
    ensures
        ({
            let start = LmHeadRun { tie_word_embeddings: tied, stage: LmHeadStage::FindHead };
            let head = start.after::<E>(Ok(ReplyOf::Flag(true)))->Ask_0;
            let other = start.after::<E>(Ok(ReplyOf::Flag(false)))->Ask_0;
            let lm_head = other.after::<E>(Ok(ReplyOf::Flag(true)))->Ask_0;
            let neither = other.after::<E>(Ok(ReplyOf::Flag(false)));
            let given = Ok::<ReplyModel, E>(ReplyOf::Dense(weight));
            let found = Progress::<LmHeadRun, DenseWeight, E>::Done(weight);
            let failed = Progress::<LmHeadRun, DenseWeight, E>::Failed(
                LoadError::Runtime { context: None, cause },
            );
            &&& start.spec_request::<Q, R>() == RequestModel::<Q, R>::Contains(Tensor::Head)
            &&& start.after::<E>(Err(cause)) == failed
            &&& head.spec_request::<Q, R>() == RequestModel::<Q, R>::Dense(Tensor::Head)
            &&& head.after(given) == found
            &&& head.after::<E>(Err(cause)) == failed
            &&& other.spec_request::<Q, R>() == RequestModel::<Q, R>::Contains(Tensor::LmHead)
            &&& other.after::<E>(Err(cause)) == failed
            &&& lm_head.spec_request::<Q, R>() == RequestModel::<Q, R>::Dense(Tensor::LmHead)
            &&& lm_head.after(given) == found
            &&& lm_head.after::<E>(Err(cause)) == failed
            &&& if tied {
                neither matches Progress::Ask(embedding) && embedding.stage == LmHeadStage::Tied(
                    SearchRun { sought: Sought::Embedding, attempt: 0 },
                )
            } else {
                neither matches Progress::Failed(LoadError::NoLmHead)
            }
        }),
{
}

/// A tied output projection is what the search for the embedding comes to.
pub proof fn tied_projections_are_embeddings<Q, R, E>(
    tied: bool,
    search: SearchRun,
    outcome: Result<ReplyModel, E>,
)
    ensures
        ({
            let run = LmHeadRun {
                tie_word_embeddings: tied,
                stage: LmHeadStage::Tied(search),
            };
            &&& run.spec_request::<Q, R>() == search.spec_request::<Q, R>()
            &&& match search.after(outcome) {
                Progress::Ask(next) => run.after(outcome) matches Progress::Ask(tied_next)
                    && tied_next.stage == LmHeadStage::Tied(next),
                Progress::Done(weight) => run.after(outcome) matches Progress::Done(taken) && taken
                    == weight,
                Progress::Failed(error) => run.after(outcome) matches Progress::Failed(told) && told
                    == error,
            }
        }),
{
}

/// A search and a load of the output projection refuse a reply that does not
/// answer the request.
pub proof fn searches_refuse_what_is_no_answer<Q, R, E>(
    search: SearchRun,
    head: LmHeadRun,
    reply: ReplyModel,
)
    ensures
        !answers(reply, search.spec_request::<Q, R>()) ==> (search.after::<E>(
            Ok(reply),
        ) matches Progress::Failed(LoadError::UnfitReply)),
        !answers(reply, head.spec_request::<Q, R>()) ==> (head.after::<E>(
            Ok(reply),
        ) matches Progress::Failed(LoadError::UnfitReply)),
{
}

/// What an attention comes to is handed over as it is.
pub proof fn inputs_are_handed_over_whole(inputs: LayerInputs)
    ensures
        inputs@ == inputs,
{
}

} // verus!

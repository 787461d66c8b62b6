//! What a load asks of the runtime, and what the runtime answers.
//!
//! A load is a conversation. A run holds where the load stands; it names the
//! [`Request`] that comes next, and takes the outcome to its next state. The
//! runtime behind the conversation reads the checkpoint and works on the device.
use vstd::prelude::*;

use crate::config::ModelConfig;
use crate::decimal::{decimal, to_decimal};
use crate::tensor::{Projection, Tensor};
use crate::weights::{
    AttentionWeights, DenseWeight, DevicePtr, ExpertWeight, KvCacheDtype, LayerPart, MlaWeights,
    MoeWeightsOf, QuantizedWeight,
};

verus! {

/// A kernel of the `quantize_nvfp4` module.
#[derive(Clone, Copy, Debug, PartialEq, Eq, Structural)]
pub enum Kernel {
    GlobalAbsmax,
    QuantizeBf16,
}

impl Kernel {
    /// The module that the kernel is in.
    pub fn module(&self) -> (res: &'static str)
        ensures
            res@ == "quantize_nvfp4"@,
    {
        "quantize_nvfp4"
    }

    /// The name of the kernel in its module.
    pub fn name(&self) -> (res: &'static str)
        ensures
            res@ == (match self {
                Kernel::GlobalAbsmax => "nvfp4_global_absmax"@,
                Kernel::QuantizeBf16 => "quantize_bf16_to_nvfp4"@,
            }),
    {
        match self {
            Kernel::GlobalAbsmax => "nvfp4_global_absmax",
            Kernel::QuantizeBf16 => "quantize_bf16_to_nvfp4",
        }
    }
}

/// The kernels and the stream that a quantisation runs on.
#[derive(Clone, Copy, Debug, PartialEq, Eq, Structural)]
pub struct Toolkit {
    pub absmax: u64,
    pub quantize: u64,
    pub stream: u64,
}

/// A piece of work for the runtime. Where the work depends on the model, the
/// request carries its configuration.
#[derive(Debug)]
pub enum RequestOf<'a, Dims, Experts, Q, R> {
    /// Find a kernel. Answered by a handle.
    Kernel(Kernel),
    /// The device's default stream. Answered by a handle.
    DefaultStream,
    /// Whether the checkpoint has a tensor. Answered by a flag.
    Contains(Tensor),
    /// A tensor in full precision. Answered by a dense weight.
    Dense(Tensor),
    /// A tensor, brought to full precision where needed. Answered by a dense
    /// weight.
    DenseAuto(Tensor),
    /// A tensor stored in NVFP4. Answered by a quantised weight.
    QuantizedV2(Tensor),
    /// The shape of a tensor with at least `rank` dimensions. Answered by a
    /// shape.
    Shape { tensor: Tensor, rank: usize },
    /// Where a tensor is. Answered by a pointer.
    Lookup(Tensor),
    /// Quantise a matrix to NVFP4. Answered by a quantised weight.
    Quantize { weight: DenseWeight, rows: usize, cols: usize, tools: Toolkit },
    /// Split the latent projections by head. Answered by per-head views.
    PerHeadViews {
        wkv_b: DenseWeight,
        wkv_b_shape: Dims,
        wq_b: DenseWeight,
        wq_b_shape: Dims,
        config: &'a ModelConfig<Q, R>,
    },
    /// Absorb the key projection into the query. Answered by a dense weight.
    QkAbsorbed {
        wq_b: DenseWeight,
        wq_b_shape: Dims,
        w_uk_t: DenseWeight,
        config: &'a ModelConfig<Q, R>,
    },
    /// The block diagonals of the key and value projections. Answered by a
    /// pair of dense weights.
    BlockDiagonals { w_uk_host: u64, w_uv: DenseWeight, config: &'a ModelConfig<Q, R> },
    /// The inverse frequencies, made once and then kept. Answered by a pointer.
    YarnInvFreq { current: DevicePtr, config: &'a ModelConfig<Q, R> },
    /// Device memory. Answered by a pointer.
    Alloc { bytes: usize },
    /// Fill device memory. Answered when it is done.
    Memset { ptr: DevicePtr, value: u8, bytes: usize },
    /// Build a mixture of experts. Answered by a handle.
    NewMoe {
        weights: MoeWeightsOf<Experts>,
        num_experts: usize,
        gate_nvfp4: Option<QuantizedWeight>,
        config: &'a ModelConfig<Q, R>,
    },
    /// Build an ungated attention layer over a mixture of experts, with the
    /// optional parts that are given and with a number that further selects how
    /// it works. Answered by a handle.
    NewLayer {
        input_norm: DenseWeight,
        attention: AttentionWeights,
        post_attn_norm: DenseWeight,
        moe: u64,
        layer_idx: usize,
        optional_parts: (Option<LayerPart>, Option<LayerPart>, Option<LayerPart>),
        kv_dtype: KvCacheDtype,
        setting: usize,
        config: &'a ModelConfig<Q, R>,
    },
    /// Give a layer its latent attention. Answered when it is done.
    SetMla { layer: u64, mla: MlaWeights },
}

pub type Request<'a, Q, R> = RequestOf<'a, Vec<usize>, Vec<ExpertWeight>, Q, R>;

/// The mathematical model of a [`Request`].
pub type RequestModel<'a, Q, R> = RequestOf<'a, Seq<usize>, Seq<ExpertWeight>, Q, R>;

impl<'a, Q, R> View for RequestOf<'a, Vec<usize>, Vec<ExpertWeight>, Q, R> {
    type V = RequestModel<'a, Q, R>;

    open spec fn view(&self) -> RequestModel<'a, Q, R> {
        match *self {
            RequestOf::Kernel(kernel) => RequestOf::Kernel(kernel),
            RequestOf::DefaultStream => RequestOf::DefaultStream,
            RequestOf::Contains(tensor) => RequestOf::Contains(tensor),
            RequestOf::Dense(tensor) => RequestOf::Dense(tensor),
            RequestOf::DenseAuto(tensor) => RequestOf::DenseAuto(tensor),
            RequestOf::QuantizedV2(tensor) => RequestOf::QuantizedV2(tensor),
            RequestOf::Shape { tensor, rank } => RequestOf::Shape { tensor, rank },
            RequestOf::Lookup(tensor) => RequestOf::Lookup(tensor),
            RequestOf::Quantize { weight, rows, cols, tools } => RequestOf::Quantize {
                weight,
                rows,
                cols,
                tools,
            },
            RequestOf::PerHeadViews { wkv_b, wkv_b_shape, wq_b, wq_b_shape, config } =>
            RequestOf::PerHeadViews {
                wkv_b,
                wkv_b_shape: wkv_b_shape@,
                wq_b,
                wq_b_shape: wq_b_shape@,
                config,
            },
            RequestOf::QkAbsorbed { wq_b, wq_b_shape, w_uk_t, config } => RequestOf::QkAbsorbed {
                wq_b,
                wq_b_shape: wq_b_shape@,
                w_uk_t,
                config,
            },
            RequestOf::BlockDiagonals { w_uk_host, w_uv, config } => RequestOf::BlockDiagonals {
                w_uk_host,
                w_uv,
                config,
            },
            RequestOf::YarnInvFreq { current, config } => RequestOf::YarnInvFreq {
                current,
                config,
            },
            RequestOf::Alloc { bytes } => RequestOf::Alloc { bytes },
            RequestOf::Memset { ptr, value, bytes } => RequestOf::Memset { ptr, value, bytes },
            RequestOf::NewMoe { weights, num_experts, gate_nvfp4, config } => RequestOf::NewMoe {
                weights: MoeWeightsOf {
                    gate: weights.gate,
                    shared_expert: weights.shared_expert,
                    shared_expert_gate: weights.shared_expert_gate,
                    experts: weights.experts@,
                    router_pre_norm: weights.router_pre_norm,
                    correction_bias: weights.correction_bias,
                },
                num_experts,
                gate_nvfp4,
                config,
            },
            RequestOf::NewLayer {
                input_norm,
                attention,
                post_attn_norm,
                moe,
                layer_idx,
                optional_parts,
                kv_dtype,
                setting,
                config,
            } => RequestOf::NewLayer {
                input_norm,
                attention,
                post_attn_norm,
                moe,
                layer_idx,
                optional_parts,
                kv_dtype,
                setting,
                config,
            },
            RequestOf::SetMla { layer, mla } => RequestOf::SetMla { layer, mla },
        }
    }
}

impl<'a, Dims, Experts, Q, R> RequestOf<'a, Dims, Experts, Q, R> {
    /// The tensor that a request reads from the checkpoint.
    pub open spec fn tensor(self) -> Option<Tensor> {
        match self {
            RequestOf::Contains(tensor) => Some(tensor),
            RequestOf::Dense(tensor) => Some(tensor),
            RequestOf::DenseAuto(tensor) => Some(tensor),
            RequestOf::QuantizedV2(tensor) => Some(tensor),
            RequestOf::Shape { tensor, .. } => Some(tensor),
            RequestOf::Lookup(tensor) => Some(tensor),
            _ => None,
        }
    }

    /// The configuration that a request carries.
    pub open spec fn config(self) -> Option<&'a ModelConfig<Q, R>> {
        match self {
            RequestOf::PerHeadViews { config, .. } => Some(config),
            RequestOf::QkAbsorbed { config, .. } => Some(config),
            RequestOf::BlockDiagonals { config, .. } => Some(config),
            RequestOf::YarnInvFreq { config, .. } => Some(config),
            RequestOf::NewMoe { config, .. } => Some(config),
            RequestOf::NewLayer { config, .. } => Some(config),
            _ => None,
        }
    }

    /// The same request with another configuration, where it carries one.
    pub open spec fn with_config(self, config: &'a ModelConfig<Q, R>) -> Self {
        match self {
            RequestOf::PerHeadViews { wkv_b, wkv_b_shape, wq_b, wq_b_shape, .. } =>
            RequestOf::PerHeadViews { wkv_b, wkv_b_shape, wq_b, wq_b_shape, config },
            RequestOf::QkAbsorbed { wq_b, wq_b_shape, w_uk_t, .. } => RequestOf::QkAbsorbed {
                wq_b,
                wq_b_shape,
                w_uk_t,
                config,
            },
            RequestOf::BlockDiagonals { w_uk_host, w_uv, .. } => RequestOf::BlockDiagonals {
                w_uk_host,
                w_uv,
                config,
            },
            RequestOf::YarnInvFreq { current, .. } => RequestOf::YarnInvFreq { current, config },
            RequestOf::NewMoe { weights, num_experts, gate_nvfp4, .. } => RequestOf::NewMoe {
                weights,
                num_experts,
                gate_nvfp4,
                config,
            },
            RequestOf::NewLayer {
                input_norm,
                attention,
                post_attn_norm,
                moe,
                layer_idx,
                optional_parts,
                kv_dtype,
                setting,
                ..
            } => RequestOf::NewLayer {
                input_norm,
                attention,
                post_attn_norm,
                moe,
                layer_idx,
                optional_parts,
                kv_dtype,
                setting,
                config,
            },
            request => request,
        }
    }
}

/// What the runtime answers to a request.
#[derive(Debug)]
pub enum ReplyOf<Dims> {
    Handle(u64),
    Flag(bool),
    Dense(DenseWeight),
    Quantized(u64),
    Shape(Dims),
    PerHead {
        w_uk_t: DenseWeight,
        w_uv: DenseWeight,
        wq_b_rope: DenseWeight,
        w_uk_host: u64,
    },
    Pair(DenseWeight, DenseWeight),
    Pointer(DevicePtr),
    Done,
}

pub type Reply = ReplyOf<Vec<usize>>;

/// The mathematical model of a [`Reply`].
pub type ReplyModel = ReplyOf<Seq<usize>>;

impl View for ReplyOf<Vec<usize>> {
    type V = ReplyModel;

    open spec fn view(&self) -> ReplyModel {
        match *self {
            ReplyOf::Handle(handle) => ReplyOf::Handle(handle),
            ReplyOf::Flag(flag) => ReplyOf::Flag(flag),
            ReplyOf::Dense(weight) => ReplyOf::Dense(weight),
            ReplyOf::Quantized(weight) => ReplyOf::Quantized(weight),
            ReplyOf::Shape(dims) => ReplyOf::Shape(dims@),
            ReplyOf::PerHead { w_uk_t, w_uv, wq_b_rope, w_uk_host } => ReplyOf::PerHead {
                w_uk_t,
                w_uv,
                wq_b_rope,
                w_uk_host,
            },
            ReplyOf::Pair(first, second) => ReplyOf::Pair(first, second),
            ReplyOf::Pointer(ptr) => ReplyOf::Pointer(ptr),
            ReplyOf::Done => ReplyOf::Done,
        }
    }
}

/// A reply is of the kind that a request is answered by.
pub open spec fn answers<Q, R>(reply: ReplyModel, request: RequestModel<Q, R>) -> bool {
    match request {
        RequestOf::Kernel(_) => reply is Handle,
        RequestOf::DefaultStream => reply is Handle,
        RequestOf::Contains(_) => reply is Flag,
        RequestOf::Dense(_) => reply is Dense,
        RequestOf::DenseAuto(_) => reply is Dense,
        RequestOf::QuantizedV2(_) => reply is Quantized,
        RequestOf::Shape { rank, .. } => reply matches ReplyOf::Shape(dims) && dims.len() >= rank,
        RequestOf::Lookup(_) => reply is Pointer,
        RequestOf::Quantize { .. } => reply is Quantized,
        RequestOf::PerHeadViews { .. } => reply is PerHead,
        RequestOf::QkAbsorbed { .. } => reply is Dense,
        RequestOf::BlockDiagonals { .. } => reply is Pair,
        RequestOf::YarnInvFreq { .. } => reply is Pointer,
        RequestOf::Alloc { .. } => reply is Pointer,
        RequestOf::Memset { .. } => reply is Done,
        RequestOf::NewMoe { .. } => reply is Handle,
        RequestOf::NewLayer { .. } => reply is Handle,
        RequestOf::SetMla { .. } => reply is Done,
    }
}

/// The outcome of a request, with the reply taken by its model.
pub open spec fn outcome_model<E>(outcome: Result<Reply, E>) -> Result<ReplyModel, E> {
    match outcome {
        Ok(reply) => Ok(reply@),
        Err(cause) => Err(cause),
    }
}

/// What a failed request was for.
#[derive(Clone, Copy, Debug, PartialEq, Eq, Structural)]
pub enum ErrorContext {
    Expert { index: usize, projection: Projection },
    SharedExpert { projection: Projection },
    Embedding,
    FinalNorm,
}

impl ErrorContext {
    pub open spec fn spec_message(self) -> Seq<char> {
        match self {
            ErrorContext::Expert { index, projection } => "DeepSeek-V4 expert "@ + (decimal(
                index as nat,
            ) + (": "@ + projection.spec_name())),
            ErrorContext::SharedExpert { projection } => "DeepSeek-V4 shared expert: "@
                + projection.spec_name(),
            ErrorContext::Embedding =>
            "DeepSeek-V4: no embedding tensor found (tried embed.weight, model.embed_tokens.weight, embed_tokens.weight)"@,
            ErrorContext::FinalNorm =>
            "DeepSeek-V4: no final norm tensor found (tried norm.weight, model.norm.weight, final_norm.weight)"@,
        }
    }

    /// Says what the failed request was for.
    pub fn message(&self) -> (res: String)
        ensures
            res@ == self.spec_message(),
    {
        match self {
            ErrorContext::Expert { index, projection } => {
                let mut message = "DeepSeek-V4 expert ".to_owned();
                message.append(to_decimal(*index).as_str());
                message.append(": ");
                message.append(projection.name());
                assert(message@ =~= self.spec_message());
                message
            },
            ErrorContext::SharedExpert { projection } => {
                let mut message = "DeepSeek-V4 shared expert: ".to_owned();
                message.append(projection.name());
                message
            },
            ErrorContext::Embedding =>
            "DeepSeek-V4: no embedding tensor found (tried embed.weight, model.embed_tokens.weight, embed_tokens.weight)".to_owned(),
            ErrorContext::FinalNorm =>
            "DeepSeek-V4: no final norm tensor found (tried norm.weight, model.norm.weight, final_norm.weight)".to_owned(),
        }
    }
}

/// Why a load failed. `E` is the runtime's error.
#[derive(Debug, PartialEq, Eq)]
pub enum LoadError<E> {
    /// The runtime failed a request.
    Runtime { context: Option<ErrorContext>, cause: E },
    /// The checkpoint has no output projection.
    NoLmHead,
    /// A size is beyond the machine's integers.
    SizeOverflow,
    /// The runtime's reply does not answer the request: it is of another kind,
    /// or a shape of too few dimensions.
    UnfitReply,
}

impl<E> LoadError<E> {
    /// What the error says, beyond the runtime's own error.
    pub fn message(&self) -> (res: Option<String>)
        ensures
            match self {
                LoadError::Runtime { context: Some(context), .. } => res matches Some(message)
                    && message@ == context.spec_message(),
                LoadError::Runtime { context: None, .. } => res is None,
                LoadError::NoLmHead => res matches Some(message) && message@
                    == "DeepSeek-V4: lm_head not found (tried head.weight, lm_head.weight)"@,
                LoadError::SizeOverflow => res matches Some(message) && message@
                    == "attempt to multiply with overflow"@,
                LoadError::UnfitReply => res matches Some(message) && message@
                    == "DeepSeek-V4: the runtime's reply does not answer the request"@,
            },
    {
        match self {
            LoadError::Runtime { context: Some(context), .. } => Some(context.message()),
            LoadError::Runtime { context: None, .. } => None,
            LoadError::NoLmHead => Some(
                "DeepSeek-V4: lm_head not found (tried head.weight, lm_head.weight)".to_owned(),
            ),
            LoadError::SizeOverflow => Some("attempt to multiply with overflow".to_owned()),
            LoadError::UnfitReply => Some(
                "DeepSeek-V4: the runtime's reply does not answer the request".to_owned(),
            ),
        }
    }
}

/// Where a run stands after an outcome.
#[derive(Debug)]
pub enum Progress<Run, Product, E> {
    /// The run goes on, with its next request.
    Ask(Run),
    /// The load is complete.
    Done(Product),
    /// The load failed, and asks for nothing more.
    Failed(LoadError<E>),
}

impl<Run: View, Product: View, E> Progress<Run, Product, E> {
    /// The mathematical model of where a run stands.
    pub open spec fn model(self) -> Progress<Run::V, Product::V, E> {
        match self {
            Progress::Ask(run) => Progress::Ask(run@),
            Progress::Done(product) => Progress::Done(product@),
            Progress::Failed(error) => Progress::Failed(error),
        }
    }
}

/// What a failure to load an expert is reported as: it names the expert and the
/// projection.
pub proof fn expert_failures_say(index: usize)
    ensures
        ({
            let said = |projection: Projection|
                (ErrorContext::Expert { index, projection }).spec_message();
            let expert = "DeepSeek-V4 expert "@ + decimal(index as nat);
            &&& said(Projection::W1) == expert + ": w1"@
            &&& said(Projection::W2) == expert + ": w2"@
            &&& said(Projection::W3) == expert + ": w3"@
        }),
        ({
            let said = |projection: Projection|
                (ErrorContext::SharedExpert { projection }).spec_message();
            &&& said(Projection::W1) == "DeepSeek-V4 shared expert: w1"@
            &&& said(Projection::W2) == "DeepSeek-V4 shared expert: w2"@
            &&& said(Projection::W3) == "DeepSeek-V4 shared expert: w3"@
        }),
        ErrorContext::Embedding.spec_message()
            == "DeepSeek-V4: no embedding tensor found (tried embed.weight, model.embed_tokens.weight, embed_tokens.weight)"@,
        ErrorContext::FinalNorm.spec_message()
            == "DeepSeek-V4: no final norm tensor found (tried norm.weight, model.norm.weight, final_norm.weight)"@,
{
    reveal_strlit(": ");
    reveal_strlit("DeepSeek-V4 shared expert: ");
    reveal_strlit("w1");
    reveal_strlit(": w1");
    reveal_strlit("DeepSeek-V4 shared expert: w1");
    assert((ErrorContext::Expert { index, projection: Projection::W1 }).spec_message()
        =~= "DeepSeek-V4 expert "@ + decimal(index as nat) + ": w1"@);
    assert((ErrorContext::SharedExpert { projection: Projection::W1 }).spec_message()
        =~= "DeepSeek-V4 shared expert: w1"@);
    reveal_strlit("w2");
    reveal_strlit(": w2");
    reveal_strlit("DeepSeek-V4 shared expert: w2");
    assert((ErrorContext::Expert { index, projection: Projection::W2 }).spec_message()
        =~= "DeepSeek-V4 expert "@ + decimal(index as nat) + ": w2"@);
    assert((ErrorContext::SharedExpert { projection: Projection::W2 }).spec_message()
        =~= "DeepSeek-V4 shared expert: w2"@);
    reveal_strlit("w3");
    reveal_strlit(": w3");
    reveal_strlit("DeepSeek-V4 shared expert: w3");
    assert((ErrorContext::Expert { index, projection: Projection::W3 }).spec_message()
        =~= "DeepSeek-V4 expert "@ + decimal(index as nat) + ": w3"@);
    assert((ErrorContext::SharedExpert { projection: Projection::W3 }).spec_message()
        =~= "DeepSeek-V4 shared expert: w3"@);
}

/// A request is handed over as it is: the model of each kind of request has the
/// same parts, with lists by their elements.
pub proof fn requests_are_handed_over_whole<Q, R>(request: Request<Q, R>)
    ensures
        match request {
            RequestOf::Kernel(kernel) => request@ matches RequestOf::Kernel(k) && k == kernel,
            RequestOf::DefaultStream => request@ is DefaultStream,
            RequestOf::Contains(tensor) => request@ matches RequestOf::Contains(t) && t == tensor,
            RequestOf::Dense(tensor) => request@ matches RequestOf::Dense(t) && t == tensor,
            RequestOf::DenseAuto(tensor) => request@ matches RequestOf::DenseAuto(t) && t
                == tensor,
            RequestOf::QuantizedV2(tensor) => request@ matches RequestOf::QuantizedV2(t) && t
                == tensor,
            RequestOf::Shape { tensor, rank } => request@ == RequestModel::<Q, R>::Shape {
                tensor,
                rank,
            },
            RequestOf::Lookup(tensor) => request@ matches RequestOf::Lookup(t) && t == tensor,
            RequestOf::Quantize { weight, rows, cols, tools } => request@ == RequestModel::<
                Q,
                R,
            >::Quantize { weight, rows, cols, tools },
            RequestOf::PerHeadViews { wkv_b, wkv_b_shape, wq_b, wq_b_shape, config } => request@
                == RequestModel::<Q, R>::PerHeadViews {
                wkv_b,
                wkv_b_shape: wkv_b_shape@,
                wq_b,
                wq_b_shape: wq_b_shape@,
                config,
            },
            RequestOf::QkAbsorbed { wq_b, wq_b_shape, w_uk_t, config } => request@
                == RequestModel::<Q, R>::QkAbsorbed {
                wq_b,
                wq_b_shape: wq_b_shape@,
                w_uk_t,
                config,
            },
            RequestOf::BlockDiagonals { w_uk_host, w_uv, config } => request@ == RequestModel::<
                Q,
                R,
            >::BlockDiagonals { w_uk_host, w_uv, config },
            RequestOf::YarnInvFreq { current, config } => request@ == RequestModel::<
                Q,
                R,
            >::YarnInvFreq { current, config },
            RequestOf::Alloc { bytes } => request@ == RequestModel::<Q, R>::Alloc { bytes },
            RequestOf::Memset { ptr, value, bytes } => request@ == RequestModel::<Q, R>::Memset {
                ptr,
                value,
                bytes,
            },
            RequestOf::NewMoe { weights, num_experts, gate_nvfp4, config } => request@
                == RequestModel::<Q, R>::NewMoe {
                weights: MoeWeightsOf {
                    gate: weights.gate,
                    shared_expert: weights.shared_expert,
                    shared_expert_gate: weights.shared_expert_gate,
                    experts: weights.experts@,
                    router_pre_norm: weights.router_pre_norm,
                    correction_bias: weights.correction_bias,
                },
                num_experts,
                gate_nvfp4,
                config,
            },
            RequestOf::NewLayer {
                input_norm,
                attention,
                post_attn_norm,
                moe,
                layer_idx,
                optional_parts,
                kv_dtype,
                setting,
                config,
            } => request@ == RequestModel::<Q, R>::NewLayer {
                input_norm,
                attention,
                post_attn_norm,
                moe,
                layer_idx,
                optional_parts,
                kv_dtype,
                setting,
                config,
            },
            RequestOf::SetMla { layer, mla } => request@ == RequestModel::<Q, R>::SetMla {
                layer,
                mla,
            },
        },
{
}

/// A reply is taken over as it is, and so is an error.
pub proof fn outcomes_are_taken_over_whole<E>(outcome: Result<Reply, E>)
    ensures
        match outcome {
            Ok(ReplyOf::Handle(handle)) => outcome_model(outcome) == Ok::<ReplyModel, E>(
                ReplyOf::Handle(handle),
            ),
            Ok(ReplyOf::Flag(flag)) => outcome_model(outcome) == Ok::<ReplyModel, E>(
                ReplyOf::Flag(flag),
            ),
            Ok(ReplyOf::Dense(weight)) => outcome_model(outcome) == Ok::<ReplyModel, E>(
                ReplyOf::Dense(weight),
            ),
            Ok(ReplyOf::Quantized(weight)) => outcome_model(outcome) == Ok::<ReplyModel, E>(
                ReplyOf::Quantized(weight),
            ),
            Ok(ReplyOf::Shape(dims)) => outcome_model(outcome) == Ok::<ReplyModel, E>(
                ReplyOf::Shape(dims@),
            ),
            Ok(ReplyOf::PerHead { w_uk_t, w_uv, wq_b_rope, w_uk_host }) => outcome_model(outcome)
                == Ok::<ReplyModel, E>(ReplyOf::PerHead { w_uk_t, w_uv, wq_b_rope, w_uk_host }),
            Ok(ReplyOf::Pair(first, second)) => outcome_model(outcome) == Ok::<ReplyModel, E>(
                ReplyOf::Pair(first, second),
            ),
            Ok(ReplyOf::Pointer(ptr)) => outcome_model(outcome) == Ok::<ReplyModel, E>(
                ReplyOf::Pointer(ptr),
            ),
            Ok(ReplyOf::Done) => outcome_model(outcome) == Ok::<ReplyModel, E>(ReplyOf::Done),
            Err(cause) => outcome_model(outcome) == Err::<ReplyModel, E>(cause),
        },
{
}

/// Where a run stands is told as it is.
pub proof fn progress_is_told_whole<Run: View, Product: View, E>(
    progress: Progress<Run, Product, E>,
)
    ensures
        match progress {
            Progress::Ask(run) => progress.model() == Progress::<Run::V, Product::V, E>::Ask(run@),
            Progress::Done(product) => progress.model() == Progress::<Run::V, Product::V, E>::Done(
                product@,
            ),
            Progress::Failed(error) => progress.model() == Progress::<
                Run::V,
                Product::V,
                E,
            >::Failed(error),
        },
{
}

} // verus!

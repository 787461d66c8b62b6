//! The assembly of one layer: its experts, its attention, and the layer itself.
use vstd::prelude::*;

use crate::attention::LayerInputs;
use crate::config::{same_but_ratios, same_sizes};
use crate::context::LayerContext;
use crate::request::{
    answers, outcome_model, ErrorContext, Kernel, LoadError, Progress, Reply, ReplyModel, ReplyOf,
    Request, RequestModel, RequestOf, Toolkit,
};
use crate::tensor::{LayerTensor, Projection, Tensor};
use crate::weights::{
    AttentionWeights, DenseWeight, ExpertWeight, MlaWeights, MoeWeightsOf, QuantizedWeight,
};

verus! {

/// The next piece of a layer, in the order of assembly.
#[derive(Clone, Copy, Debug, PartialEq, Eq, Structural)]
pub enum AssembleStep {
    Gate,
    AbsmaxKernel,
    QuantizeKernel,
    Stream,
    GateNvfp4,
    /// A projection of the first expert that is not settled yet.
    Expert(Projection),
    SharedExpert(Projection),
    Moe,
    WkvRope,
    RopeAlloc,
    RopeFill,
    Layer,
    SetMla,
}

/// An assembly of one layer.
#[derive(Debug)]
#[verifier::ext_equal]
pub struct AssembleRunOf<'a, Experts, Q, R> {
    pub context: &'a LayerContext<'a, Q, R>,
    pub layer_idx: usize,
    pub inputs: LayerInputs,
    pub step: AssembleStep,
    pub gate: DenseWeight,
    pub tools: Toolkit,
    pub gate_nvfp4: QuantizedWeight,
    /// The experts that are settled, from the first one on.
    pub experts: Experts,
    /// The expert that is being loaded.
    pub expert: ExpertWeight,
    pub moe: u64,
    pub wkv_a_rope: DenseWeight,
    pub layer: u64,
}

pub type AssembleRun<'a, Q, R> = AssembleRunOf<'a, Vec<ExpertWeight>, Q, R>;

/// The mathematical model of an [`AssembleRun`].
pub type AssembleModel<'a, Q, R> = AssembleRunOf<'a, Seq<ExpertWeight>, Q, R>;

impl<'a, Q, R> View for AssembleRunOf<'a, Vec<ExpertWeight>, Q, R> {
    type V = AssembleModel<'a, Q, R>;

    open spec fn view(&self) -> AssembleModel<'a, Q, R> {
        AssembleRunOf {
            context: self.context,
            layer_idx: self.layer_idx,
            inputs: self.inputs,
            step: self.step,
            gate: self.gate,
            tools: self.tools,
            gate_nvfp4: self.gate_nvfp4,
            experts: self.experts@,
            expert: self.expert,
            moe: self.moe,
            wkv_a_rope: self.wkv_a_rope,
            layer: self.layer,
        }
    }
}

/// The first expert held here, from `from` on; their number where there is none.
pub open spec fn next_local(local: Seq<bool>, from: nat) -> nat
    decreases local.len() - from,
{
    if from >= local.len() {
        local.len()
    } else if local[from as int] {
        from
    } else {
        next_local(local, from + 1)
    }
}

/// Every projection of an expert is loaded.
pub open spec fn is_loaded(expert: ExpertWeight) -> bool {
    &&& expert.gate_proj is Loaded
    &&& expert.up_proj is Loaded
    &&& expert.down_proj is Loaded
}

/// Experts held here are loaded, and the others are null.
pub open spec fn settled_by_place(experts: Seq<ExpertWeight>, local: Seq<bool>) -> bool {
    forall|e: int|
        0 <= e < experts.len() ==> if local[e] {
            is_loaded(#[trigger] experts[e])
        } else {
            experts[e] == ExpertWeight::spec_null()
        }
}

/// An attention without projections, norms or scales of its own.
pub open spec fn no_attention() -> AttentionWeights {
    let null = DenseWeight::spec_null();
    AttentionWeights {
        q_proj: null,
        k_proj: null,
        v_proj: null,
        o_proj: QuantizedWeight::Null,
        q_norm: null,
        k_norm: null,
        q_norm_full: None,
        k_norm_full: None,
        k_scale: 1,
        v_scale: 1,
    }
}

impl<'a, Q, R> AssembleRunOf<'a, Seq<ExpertWeight>, Q, R> {
    /// The assembly of a layer before anything is loaded.
    pub open spec fn start(
        layer_idx: usize,
        inputs: LayerInputs,
        context: &'a LayerContext<'a, Q, R>,
    ) -> AssembleModel<'a, Q, R> {
        AssembleRunOf {
            context,
            layer_idx,
            inputs,
            step: AssembleStep::Gate,
            gate: DenseWeight::spec_null(),
            tools: Toolkit { absmax: 0, quantize: 0, stream: 0 },
            gate_nvfp4: QuantizedWeight::Null,
            experts: Seq::empty(),
            expert: ExpertWeight::spec_null(),
            moe: 0,
            wkv_a_rope: DenseWeight::spec_null(),
            layer: 0,
        }
    }

    /// Every expert is settled, and the shared expert is loaded.
    pub open spec fn has_all_experts(self) -> bool {
        &&& self.experts.len() == self.context.config.num_experts
        &&& is_loaded(self.expert)
    }

    /// What is loaded fits the step that is next.
    pub open spec fn wf(self) -> bool {
        let local = self.context.local_experts@;
        &&& self.context.wf()
        &&& self.experts.len() <= local.len()
        &&& settled_by_place(self.experts, local)
        &&& match self.step {
            AssembleStep::Gate => self.experts.len() == 0,
            AssembleStep::AbsmaxKernel => self.experts.len() == 0,
            AssembleStep::QuantizeKernel => self.experts.len() == 0,
            AssembleStep::Stream => self.experts.len() == 0,
            AssembleStep::GateNvfp4 => self.experts.len() == 0,
            AssembleStep::Expert(projection) => {
                &&& self.experts.len() < local.len()
                &&& local[self.experts.len() as int]
                &&& projection != Projection::W1 ==> self.expert.gate_proj is Loaded
                &&& projection == Projection::W2 ==> self.expert.up_proj is Loaded
            },
            AssembleStep::SharedExpert(projection) => {
                &&& self.experts.len() == local.len()
                &&& projection != Projection::W1 ==> self.expert.gate_proj is Loaded
                &&& projection == Projection::W2 ==> self.expert.up_proj is Loaded
            },
            AssembleStep::RopeAlloc => {
                &&& self.has_all_experts()
                &&& self.context.config.rope_bytes() <= usize::MAX
            },
            AssembleStep::RopeFill => {
                &&& self.has_all_experts()
                &&& self.context.config.rope_bytes() <= usize::MAX
            },
            _ => self.has_all_experts(),
        }
    }

    pub open spec fn tensor(self, tensor: LayerTensor) -> Tensor {
        Tensor::Layer { layer: self.layer_idx, tensor }
    }

    /// The weights of the mixture of experts. The shared expert is ungated.
    pub open spec fn moe_weights(self) -> MoeWeightsOf<Seq<ExpertWeight>> {
        MoeWeightsOf {
            gate: self.gate,
            shared_expert: self.expert,
            shared_expert_gate: DenseWeight::spec_null(),
            experts: self.experts,
            router_pre_norm: None,
            correction_bias: None,
        }
    }

    /// The weights of the latent attention.
    pub open spec fn mla_weights(self) -> MlaWeights {
        MlaWeights {
            wq_a: self.inputs.wq_a,
            wq_a_nvfp4: self.inputs.wq_a_nvfp4,
            wq_b: self.inputs.wq_b,
            wq_b_nvfp4: self.inputs.wq_b_nvfp4,
            q_a_norm: self.inputs.q_a_norm,
            wkv_a: self.inputs.wkv_a,
            wkv_a_nvfp4: self.inputs.wkv_a_nvfp4,
            wkv_b: self.inputs.wkv_b,
            kv_a_norm: self.inputs.kv_a_norm,
            wkv_a_rope: self.wkv_a_rope,
            wkv_a_merged: self.inputs.wkv_a,
            wo: self.inputs.o_dense,
            wo_nvfp4: self.inputs.o_nvfp4,
            w_uk_t: self.inputs.w_uk_t,
            w_uv: self.inputs.w_uv,
            wq_b_rope: self.inputs.wq_b_rope,
            w_qk_absorbed: self.inputs.w_qk_absorbed,
            w_uk_block_diag: self.inputs.w_uk_block_diag,
            w_uv_block_diag: self.inputs.w_uv_block_diag,
            yarn_inv_freq: self.inputs.yarn_inv_freq,
            q_lora_rank: self.context.config.q_lora_rank,
            kv_lora_rank: self.context.config.kv_lora_rank,
            nope: self.context.config.qk_nope_head_dim,
            rope: self.context.config.qk_rope_head_dim,
            v_dim: self.context.config.v_head_dim,
        }
    }

    /// The next request.
    pub open spec fn request(self) -> RequestModel<'a, Q, R> {
        let config = self.context.config;
        match self.step {
            AssembleStep::Gate => RequestOf::Dense(self.tensor(LayerTensor::Gate)),
            AssembleStep::AbsmaxKernel => RequestOf::Kernel(Kernel::GlobalAbsmax),
            AssembleStep::QuantizeKernel => RequestOf::Kernel(Kernel::QuantizeBf16),
            AssembleStep::Stream => RequestOf::DefaultStream,
            AssembleStep::GateNvfp4 => RequestOf::Quantize {
                weight: self.gate,
                rows: config.num_experts,
                cols: config.hidden_size,
                tools: self.tools,
            },
            AssembleStep::Expert(projection) => RequestOf::QuantizedV2(
                self.tensor(
                    LayerTensor::Expert { index: self.experts.len() as usize, projection },
                ),
            ),
            AssembleStep::SharedExpert(projection) => RequestOf::QuantizedV2(
                self.tensor(LayerTensor::SharedExpert { projection }),
            ),
            AssembleStep::Moe => RequestOf::NewMoe {
                weights: self.moe_weights(),
                num_experts: config.num_experts,
                gate_nvfp4: Some(self.gate_nvfp4),
                config,
            },
            AssembleStep::WkvRope => RequestOf::Lookup(self.tensor(LayerTensor::WkvRope)),
            AssembleStep::RopeAlloc => RequestOf::Alloc { bytes: config.rope_bytes() as usize },
            AssembleStep::RopeFill => RequestOf::Memset {
                ptr: self.wkv_a_rope.weight,
                value: 0,
                bytes: config.rope_bytes() as usize,
            },
            AssembleStep::Layer => RequestOf::NewLayer {
                input_norm: self.inputs.input_norm,
                attention: no_attention(),
                post_attn_norm: self.inputs.post_attn_norm,
                moe: self.moe,
                layer_idx: self.layer_idx,
                optional_parts: (None, None, None),
                kv_dtype: self.context.spec_kv_dtype(self.layer_idx),
                setting: 0,
                config,
            },
            AssembleStep::SetMla => RequestOf::SetMla {
                layer: self.layer,
                mla: self.mla_weights(),
            },
        }
    }

    /// Settles the experts that are held elsewhere, up to the next one to load.
    pub open spec fn settle(self) -> AssembleModel<'a, Q, R> {
        let local = self.context.local_experts@;
        let next = next_local(local, self.experts.len());
        AssembleRunOf {
            experts: self.experts + Seq::new(
                (next - self.experts.len()) as nat,
                |e: int| ExpertWeight::spec_null(),
            ),
            expert: ExpertWeight::spec_null(),
            step: if next < local.len() {
                AssembleStep::Expert(Projection::W1)
            } else {
                AssembleStep::SharedExpert(Projection::W1)
            },
            ..self
        }
    }

    /// The assembly once a reply has arrived; nothing where the reply does not
    /// answer the request. The answer to the last request completes the layer.
    pub open spec fn record(self, reply: ReplyModel) -> Option<AssembleModel<'a, Q, R>> {
        match (self.step, reply) {
            (AssembleStep::Gate, ReplyOf::Dense(weight)) => Some(
                AssembleRunOf { gate: weight, step: AssembleStep::AbsmaxKernel, ..self },
            ),
            (AssembleStep::AbsmaxKernel, ReplyOf::Handle(kernel)) => Some(
                AssembleRunOf {
                    tools: Toolkit { absmax: kernel, ..self.tools },
                    step: AssembleStep::QuantizeKernel,
                    ..self
                },
            ),
            (AssembleStep::QuantizeKernel, ReplyOf::Handle(kernel)) => Some(
                AssembleRunOf {
                    tools: Toolkit { quantize: kernel, ..self.tools },
                    step: AssembleStep::Stream,
                    ..self
                },
            ),
            (AssembleStep::Stream, ReplyOf::Handle(stream)) => Some(
                AssembleRunOf {
                    tools: Toolkit { stream, ..self.tools },
                    step: AssembleStep::GateNvfp4,
                    ..self
                },
            ),
            (AssembleStep::GateNvfp4, ReplyOf::Quantized(weight)) => Some(
                (AssembleRunOf { gate_nvfp4: QuantizedWeight::Loaded(weight), ..self }).settle(),
            ),
            (AssembleStep::Expert(projection), ReplyOf::Quantized(weight)) => {
                let expert = with_projection(self.expert, projection, weight);
                match after_projection(projection) {
                    Some(next) => Some(
                        AssembleRunOf { expert, step: AssembleStep::Expert(next), ..self },
                    ),
                    None => Some(
                        (AssembleRunOf { experts: self.experts.push(expert), ..self }).settle(),
                    ),
                }
            },
            (AssembleStep::SharedExpert(projection), ReplyOf::Quantized(weight)) => Some(
                AssembleRunOf {
                    expert: with_projection(self.expert, projection, weight),
                    step: match after_projection(projection) {
                        Some(next) => AssembleStep::SharedExpert(next),
                        None => AssembleStep::Moe,
                    },
                    ..self
                },
            ),
            (AssembleStep::Moe, ReplyOf::Handle(moe)) => Some(
                AssembleRunOf { moe, step: AssembleStep::WkvRope, ..self },
            ),
            (AssembleStep::WkvRope, ReplyOf::Pointer(ptr)) => Some(
                AssembleRunOf {
                    wkv_a_rope: DenseWeight { weight: ptr },
                    step: AssembleStep::Layer,
                    ..self
                },
            ),
            (AssembleStep::RopeAlloc, ReplyOf::Pointer(ptr)) => Some(
                AssembleRunOf {
                    wkv_a_rope: DenseWeight { weight: ptr },
                    step: AssembleStep::RopeFill,
                    ..self
                },
            ),
            (AssembleStep::RopeFill, ReplyOf::Done) => Some(
                AssembleRunOf { step: AssembleStep::Layer, ..self },
            ),
            (AssembleStep::Layer, ReplyOf::Handle(layer)) => Some(
                AssembleRunOf { layer, step: AssembleStep::SetMla, ..self },
            ),
            (AssembleStep::SetMla, ReplyOf::Done) => Some(self),
            _ => None,
        }
    }

    /// What a failure of the next request is reported as.
    pub open spec fn error_context(self) -> Option<ErrorContext> {
        match self.step {
            AssembleStep::Expert(projection) => Some(
                ErrorContext::Expert { index: self.experts.len() as usize, projection },
            ),
            AssembleStep::SharedExpert(projection) => Some(
                ErrorContext::SharedExpert { projection },
            ),
            _ => None,
        }
    }

    /// Where the assembly stands after an outcome. A rotary projection that is
    /// not in the checkpoint is made of zeros.
    pub open spec fn after<E>(self, outcome: Result<ReplyModel, E>) -> Progress<
        AssembleModel<'a, Q, R>,
        u64,
        E,
    > {
        match outcome {
            Err(cause) => if self.step != AssembleStep::WkvRope {
                Progress::Failed(LoadError::Runtime { context: self.error_context(), cause })
            } else if self.context.config.rope_bytes() <= usize::MAX {
                Progress::Ask(AssembleRunOf { step: AssembleStep::RopeAlloc, ..self })
            } else {
                Progress::Failed(LoadError::SizeOverflow)
            },
            Ok(reply) => match self.record(reply) {
                None => Progress::Failed(LoadError::UnfitReply),
                Some(next) => if self.step == AssembleStep::SetMla {
                    Progress::Done(next.layer)
                } else {
                    Progress::Ask(next)
                },
            },
        }
    }
}

/// The order in which the projections of an expert are loaded.
pub open spec fn after_projection(projection: Projection) -> Option<Projection> {
    match projection {
        Projection::W1 => Some(Projection::W3),
        Projection::W3 => Some(Projection::W2),
        Projection::W2 => None,
    }
}

/// An expert with one more projection.
pub open spec fn with_projection(
    expert: ExpertWeight,
    projection: Projection,
    weight: u64,
) -> ExpertWeight {
    match projection {
        Projection::W1 => ExpertWeight { gate_proj: QuantizedWeight::Loaded(weight), ..expert },
        Projection::W3 => ExpertWeight { up_proj: QuantizedWeight::Loaded(weight), ..expert },
        Projection::W2 => ExpertWeight { down_proj: QuantizedWeight::Loaded(weight), ..expert },
    }
}

/// Where the next local expert is, and that none comes before it.
pub proof fn next_local_is_first(local: Seq<bool>, from: nat)
    requires
        from <= local.len(),
    ensures
        from <= next_local(local, from) <= local.len(),
        next_local(local, from) < local.len() ==> local[next_local(local, from) as int],
        forall|e: int| from <= e < next_local(local, from) ==> !local[e],
    decreases local.len() - from,
{
    if from < local.len() && !local[from as int] {
        next_local_is_first(local, from + 1);
    }
}

fn load_projection(expert: ExpertWeight, projection: Projection, weight: u64) -> (res: ExpertWeight)
    ensures
        res == with_projection(expert, projection, weight),
{
    let mut expert = expert;
    match projection {
        Projection::W1 => expert.gate_proj = QuantizedWeight::Loaded(weight),
        Projection::W3 => expert.up_proj = QuantizedWeight::Loaded(weight),
        Projection::W2 => expert.down_proj = QuantizedWeight::Loaded(weight),
    }
    expert
}

fn next_projection(projection: Projection) -> (res: Option<Projection>)
    ensures
        res == after_projection(projection),
{
    match projection {
        Projection::W1 => Some(Projection::W3),
        Projection::W3 => Some(Projection::W2),
        Projection::W2 => None,
    }
}

/// Settling the experts that are held elsewhere leaves the assembly at the next
/// expert held here, or else at the shared one.
proof fn settle_is_wf<Q, R>(run: AssembleModel<Q, R>)
    requires
        run.context.wf(),
        run.experts.len() <= run.context.local_experts@.len(),
        settled_by_place(run.experts, run.context.local_experts@),
    ensures
        run.settle().wf(),
        run.settle().experts.len() == next_local(run.context.local_experts@, run.experts.len()),
{
    next_local_is_first(run.context.local_experts@, run.experts.len());
}

/// An assembly in progress stays well formed whatever the runtime answers.
pub proof fn assembly_stays_wf<Q, R, E>(run: AssembleModel<Q, R>, outcome: Result<ReplyModel, E>)
    requires
        run.wf(),
    ensures
        run.after(outcome) matches Progress::Ask(next) ==> next.wf(),
{
    if let Ok(reply) = outcome {
        match (run.step, reply) {
            (AssembleStep::GateNvfp4, ReplyOf::Quantized(weight)) => {
                settle_is_wf(AssembleRunOf { gate_nvfp4: QuantizedWeight::Loaded(weight), ..run });
            },
            (AssembleStep::Expert(Projection::W2), ReplyOf::Quantized(weight)) => {
                let expert = with_projection(run.expert, Projection::W2, weight);
                settle_is_wf(AssembleRunOf { experts: run.experts.push(expert), ..run });
            },
            _ => {},
        }
    }
}

/// Begins to assemble a layer.
pub fn assemble_layer<'a, Q, R>(
    layer_idx: usize,
    inputs: LayerInputs,
    context: &'a LayerContext<'a, Q, R>,
) -> (res: AssembleRun<'a, Q, R>)
    requires
        context.wf(),
    ensures
        res@ == AssembleModel::<Q, R>::start(layer_idx, inputs, context),
        res@.wf(),
{
    AssembleRunOf {
        context,
        layer_idx,
        inputs,
        step: AssembleStep::Gate,
        gate: DenseWeight::null(),
        tools: Toolkit { absmax: 0, quantize: 0, stream: 0 },
        gate_nvfp4: QuantizedWeight::Null,
        experts: Vec::new(),
        expert: ExpertWeight::null(),
        moe: 0,
        wkv_a_rope: DenseWeight::null(),
        layer: 0,
    }
}

impl<'a, Q, R> AssembleRunOf<'a, Vec<ExpertWeight>, Q, R> {
    fn tensor(&self, tensor: LayerTensor) -> (res: Tensor)
        ensures
            res == self@.tensor(tensor),
    {
        Tensor::Layer { layer: self.layer_idx, tensor }
    }

    fn moe_weights(&self) -> (res: MoeWeightsOf<Vec<ExpertWeight>>)
        ensures
            self@.moe_weights() == (MoeWeightsOf {
                gate: res.gate,
                shared_expert: res.shared_expert,
                shared_expert_gate: res.shared_expert_gate,
                experts: res.experts@,
                router_pre_norm: res.router_pre_norm,
                correction_bias: res.correction_bias,
            }),
    {
        let experts = self.experts.clone();
        assert(experts@ =~= self.experts@);
        MoeWeightsOf {
            gate: self.gate,
            shared_expert: self.expert,
            shared_expert_gate: DenseWeight::null(),
            experts,
            router_pre_norm: None,
            correction_bias: None,
        }
    }

    fn mla_weights(&self) -> (res: MlaWeights)
        ensures
            res == self@.mla_weights(),
    {
        MlaWeights {
            wq_a: self.inputs.wq_a,
            wq_a_nvfp4: self.inputs.wq_a_nvfp4,
            wq_b: self.inputs.wq_b,
            wq_b_nvfp4: self.inputs.wq_b_nvfp4,
            q_a_norm: self.inputs.q_a_norm,
            wkv_a: self.inputs.wkv_a,
            wkv_a_nvfp4: self.inputs.wkv_a_nvfp4,
            wkv_b: self.inputs.wkv_b,
            kv_a_norm: self.inputs.kv_a_norm,
            wkv_a_rope: self.wkv_a_rope,
            wkv_a_merged: self.inputs.wkv_a,
            wo: self.inputs.o_dense,
            wo_nvfp4: self.inputs.o_nvfp4,
            w_uk_t: self.inputs.w_uk_t,
            w_uv: self.inputs.w_uv,
            wq_b_rope: self.inputs.wq_b_rope,
            w_qk_absorbed: self.inputs.w_qk_absorbed,
            w_uk_block_diag: self.inputs.w_uk_block_diag,
            w_uv_block_diag: self.inputs.w_uv_block_diag,
            yarn_inv_freq: self.inputs.yarn_inv_freq,
            q_lora_rank: self.context.config.q_lora_rank,
            kv_lora_rank: self.context.config.kv_lora_rank,
            nope: self.context.config.qk_nope_head_dim,
            rope: self.context.config.qk_rope_head_dim,
            v_dim: self.context.config.v_head_dim,
        }
    }

    /// The bytes of the rotary projection, where they are a machine integer.
    fn rope_bytes(&self) -> (res: Option<usize>)
        ensures
            match res {
                Some(bytes) => bytes == self.context.config.rope_bytes(),
                None => self.context.config.rope_bytes() > usize::MAX,
            },
    {
        let config = self.context.config;
        let elements = config.qk_rope_head_dim.checked_mul(config.hidden_size);
        match elements {
            Some(elements) => elements.checked_mul(2),
            None => None,
        }
    }

    /// The next request.
    pub fn request(&self) -> (res: Request<'a, Q, R>)
        requires
            self@.wf(),
        ensures
            res@ == self@.request(),
    {
        let config = self.context.config;
        match self.step {
            AssembleStep::Gate => RequestOf::Dense(self.tensor(LayerTensor::Gate)),
            AssembleStep::AbsmaxKernel => RequestOf::Kernel(Kernel::GlobalAbsmax),
            AssembleStep::QuantizeKernel => RequestOf::Kernel(Kernel::QuantizeBf16),
            AssembleStep::Stream => RequestOf::DefaultStream,
            AssembleStep::GateNvfp4 => RequestOf::Quantize {
                weight: self.gate,
                rows: config.num_experts,
                cols: config.hidden_size,
                tools: self.tools,
            },
            AssembleStep::Expert(projection) => RequestOf::QuantizedV2(
                self.tensor(LayerTensor::Expert { index: self.experts.len(), projection }),
            ),
            AssembleStep::SharedExpert(projection) => RequestOf::QuantizedV2(
                self.tensor(LayerTensor::SharedExpert { projection }),
            ),
            AssembleStep::Moe => RequestOf::NewMoe {
                weights: self.moe_weights(),
                num_experts: config.num_experts,
                gate_nvfp4: Some(self.gate_nvfp4),
                config,
            },
            AssembleStep::WkvRope => RequestOf::Lookup(self.tensor(LayerTensor::WkvRope)),
            AssembleStep::RopeAlloc => RequestOf::Alloc {
                bytes: config.qk_rope_head_dim * config.hidden_size * 2,
            },
            AssembleStep::RopeFill => RequestOf::Memset {
                ptr: self.wkv_a_rope.weight,
                value: 0,
                bytes: config.qk_rope_head_dim * config.hidden_size * 2,
            },
            AssembleStep::Layer => {
                let null = DenseWeight::null();
                RequestOf::NewLayer {
                    input_norm: self.inputs.input_norm,
                    attention: AttentionWeights {
                        q_proj: null,
                        k_proj: null,
                        v_proj: null,
                        o_proj: QuantizedWeight::Null,
                        q_norm: null,
                        k_norm: null,
                        q_norm_full: None,
                        k_norm_full: None,
                        k_scale: 1,
                        v_scale: 1,
                    },
                    post_attn_norm: self.inputs.post_attn_norm,
                    moe: self.moe,
                    layer_idx: self.layer_idx,
                    optional_parts: (None, None, None),
                    kv_dtype: self.context.kv_dtype(self.layer_idx),
                    setting: 0,
                    config,
                }
            },
            AssembleStep::SetMla => RequestOf::SetMla {
                layer: self.layer,
                mla: self.mla_weights(),
            },
        }
    }

    fn settle(self) -> (res: AssembleRun<'a, Q, R>)
        requires
            self.context.wf(),
            self@.experts.len() <= self.context.local_experts@.len(),
            settled_by_place(self@.experts, self.context.local_experts@),
        ensures
            res@ == self@.settle(),
            res@.wf(),
    {
        let ghost local = self.context.local_experts@;
        let ghost from = self@.experts.len();
        proof {
            next_local_is_first(local, from);
        }
        let mut run = self;
        while run.experts.len() < run.context.local_experts.len()
            && !run.context.local_experts[run.experts.len()]
            invariant
                local == self.context.local_experts@,
                from == self@.experts.len(),
                run@ == (AssembleRunOf { experts: run.experts@, ..self@ }),
                from <= run.experts@.len() <= next_local(local, from) <= local.len(),
                forall|e: int| from <= e < next_local(local, from) ==> !local[e],
                next_local(local, from) < local.len() ==> local[next_local(local, from) as int],
                run.experts@ == self.experts@ + Seq::new(
                    (run.experts@.len() - from) as nat,
                    |e: int| ExpertWeight::spec_null(),
                ),
            decreases local.len() - run.experts@.len(),
        {
            run.experts.push(ExpertWeight::null());
            assert(run.experts@ =~= self.experts@ + Seq::new(
                (run.experts@.len() - from) as nat,
                |e: int| ExpertWeight::spec_null(),
            ));
        }
        run.expert = ExpertWeight::null();
        run.step = if run.experts.len() < run.context.local_experts.len() {
            AssembleStep::Expert(Projection::W1)
        } else {
            AssembleStep::SharedExpert(Projection::W1)
        };
        run
    }

    fn record(self, reply: Reply) -> (res: Option<AssembleRun<'a, Q, R>>)
        requires
            self@.wf(),
        ensures
            self@.record(reply@) == (match res {
                Some(next) => Some(next@),
                None => None,
            }),
            res matches Some(next) ==> next@.wf(),
    {
        let mut run = self;
        match (run.step, reply) {
            (AssembleStep::Gate, ReplyOf::Dense(weight)) => {
                run.gate = weight;
                run.step = AssembleStep::AbsmaxKernel;
            },
            (AssembleStep::AbsmaxKernel, ReplyOf::Handle(kernel)) => {
                run.tools.absmax = kernel;
                run.step = AssembleStep::QuantizeKernel;
            },
            (AssembleStep::QuantizeKernel, ReplyOf::Handle(kernel)) => {
                run.tools.quantize = kernel;
                run.step = AssembleStep::Stream;
            },
            (AssembleStep::Stream, ReplyOf::Handle(stream)) => {
                run.tools.stream = stream;
                run.step = AssembleStep::GateNvfp4;
            },
            (AssembleStep::GateNvfp4, ReplyOf::Quantized(weight)) => {
                run.gate_nvfp4 = QuantizedWeight::Loaded(weight);
                return Some(run.settle());
            },
            (AssembleStep::Expert(projection), ReplyOf::Quantized(weight)) => {
                let expert = load_projection(run.expert, projection, weight);
                match next_projection(projection) {
                    Some(next) => {
                        run.expert = expert;
                        run.step = AssembleStep::Expert(next);
                    },
                    None => {
                        run.experts.push(expert);
                        return Some(run.settle());
                    },
                }
            },
            (AssembleStep::SharedExpert(projection), ReplyOf::Quantized(weight)) => {
                run.expert = load_projection(run.expert, projection, weight);
                run.step = match next_projection(projection) {
                    Some(next) => AssembleStep::SharedExpert(next),
                    None => AssembleStep::Moe,
                };
            },
            (AssembleStep::Moe, ReplyOf::Handle(moe)) => {
                run.moe = moe;
                run.step = AssembleStep::WkvRope;
            },
            (AssembleStep::WkvRope, ReplyOf::Pointer(ptr)) => {
                run.wkv_a_rope = DenseWeight { weight: ptr };
                run.step = AssembleStep::Layer;
            },
            (AssembleStep::RopeAlloc, ReplyOf::Pointer(ptr)) => {
                run.wkv_a_rope = DenseWeight { weight: ptr };
                run.step = AssembleStep::RopeFill;
            },
            (AssembleStep::RopeFill, ReplyOf::Done) => {
                run.step = AssembleStep::Layer;
            },
            (AssembleStep::Layer, ReplyOf::Handle(layer)) => {
                run.layer = layer;
                run.step = AssembleStep::SetMla;
            },
            (AssembleStep::SetMla, ReplyOf::Done) => {},
            _ => {
                return None;
            },
        }
        Some(run)
    }

    /// Takes the outcome of the last request.
    pub fn step<E>(self, outcome: Result<Reply, E>) -> (res: Progress<
        AssembleRun<'a, Q, R>,
        u64,
        E,
    >)
        requires
            self@.wf(),
        ensures
            res.model() == self@.after(outcome_model(outcome)),
            res matches Progress::Ask(next) ==> next@.wf(),
    {
        let reply = match outcome {
            Ok(reply) => reply,
            Err(cause) => {
                let context = match self.step {
                    AssembleStep::Expert(projection) => Some(
                        ErrorContext::Expert { index: self.experts.len(), projection },
                    ),
                    AssembleStep::SharedExpert(projection) => Some(
                        ErrorContext::SharedExpert { projection },
                    ),
                    _ => None,
                };
                if self.step != AssembleStep::WkvRope {
                    return Progress::Failed(LoadError::Runtime { context, cause });
                }
                if self.rope_bytes().is_none() {
                    return Progress::Failed(LoadError::SizeOverflow);
                }
                let mut run = self;
                run.step = AssembleStep::RopeAlloc;
                return Progress::Ask(run);
            },
        };
        let last = self.step == AssembleStep::SetMla;
        match self.record(reply) {
            None => Progress::Failed(LoadError::UnfitReply),
            Some(next) => if last {
                Progress::Done(next.layer)
            } else {
                Progress::Ask(next)
            },
        }
    }
}

/// The mixture of experts that a layer is built with has every expert of the
/// model: those held here are loaded, the others are null. The shared expert is
/// loaded wherever the others are held, and has no gate.
pub proof fn mixtures_are_complete<Q, R>(run: AssembleModel<Q, R>)
    requires
        run.wf(),
        run.step == AssembleStep::Moe,
    ensures
        run.request() matches RequestOf::NewMoe { weights, num_experts, gate_nvfp4, config } && {
            &&& config == run.context.config
            &&& num_experts == run.context.config.num_experts
            &&& weights.experts.len() == num_experts
            &&& settled_by_place(weights.experts, run.context.local_experts@)
            &&& is_loaded(weights.shared_expert)
            &&& weights.shared_expert_gate == DenseWeight::spec_null()
            &&& gate_nvfp4 == Some(run.gate_nvfp4)
        },
{
}

/// An expert that is held elsewhere is never asked for, and no tensor of another
/// layer is.
pub proof fn assemblies_ask_for_their_own<Q, R>(run: AssembleModel<Q, R>)
    requires
        run.wf(),
    ensures
        run.request().tensor() matches Some(tensor) ==> {
            &&& tensor matches Tensor::Layer { layer, .. } && layer == run.layer_idx
            &&& tensor matches Tensor::Layer {
                tensor: LayerTensor::Expert { index, .. },
                ..
            } ==> index < run.context.config.num_experts
                && run.context.local_experts@[index as int]
        },
{
}

impl<'a, Q, R> AssembleRunOf<'a, Seq<ExpertWeight>, Q, R> {
    /// The most requests that an assembly can still make.
    pub open spec fn left(self) -> nat {
        let experts = self.context.config.num_experts;
        match self.step {
            AssembleStep::Gate => 14 + 3 * experts as nat,
            AssembleStep::AbsmaxKernel => 13 + 3 * experts as nat,
            AssembleStep::QuantizeKernel => 12 + 3 * experts as nat,
            AssembleStep::Stream => 11 + 3 * experts as nat,
            AssembleStep::GateNvfp4 => 10 + 3 * experts as nat,
            AssembleStep::Expert(projection) => (match projection {
                Projection::W1 => 9 + 3 * (experts - self.experts.len()),
                Projection::W3 => 8 + 3 * (experts - self.experts.len()),
                Projection::W2 => 7 + 3 * (experts - self.experts.len()),
            }) as nat,
            AssembleStep::SharedExpert(projection) => match projection {
                Projection::W1 => 9,
                Projection::W3 => 8,
                Projection::W2 => 7,
            },
            AssembleStep::Moe => 6,
            AssembleStep::WkvRope => 5,
            AssembleStep::RopeAlloc => 4,
            AssembleStep::RopeFill => 3,
            AssembleStep::Layer => 2,
            AssembleStep::SetMla => 1,
        }
    }
}

/// Every exchange brings an assembly nearer to its end.
pub proof fn assemblies_end<Q, R, E>(run: AssembleModel<Q, R>, outcome: Result<ReplyModel, E>)
    requires
        run.wf(),
    ensures
        run.after(outcome) matches Progress::Ask(next) ==> next.left() < run.left(),
{
    let local = run.context.local_experts@;
    if run.step == AssembleStep::GateNvfp4 {
        next_local_is_first(local, run.experts.len());
    }
    if run.step == AssembleStep::Expert(Projection::W2) {
        next_local_is_first(local, run.experts.len() + 1);
    }
}

/// A reply is taken if and only if it answers the request.
pub proof fn assemblies_take_answers<Q, R>(run: AssembleModel<Q, R>, reply: ReplyModel)
    ensures
        run.record(reply) is Some <==> answers(reply, run.request()),
{
}

impl<'a, Q, R> AssembleRunOf<'a, Seq<ExpertWeight>, Q, R> {
    /// How an assembly ends when `runtime` says what each request comes to. The
    /// same request may come to something else in a later exchange; `exchange`
    /// is the number of the next one.
    pub open spec fn outcome<E>(
        self,
        runtime: spec_fn(nat, RequestModel<'a, Q, R>) -> Result<ReplyModel, E>,
        exchange: nat,
    ) -> Result<u64, LoadError<E>>
        decreases self.left(),
        when self.wf()
    {
        let outcome = runtime(exchange, self.request());
        proof {
            assemblies_end(self, outcome);
        }
        match self.after(outcome) {
            Progress::Ask(next) => next.outcome(runtime, exchange + 1),
            Progress::Done(layer) => Ok(layer),
            Progress::Failed(error) => Err(error),
        }
    }

    /// The same assembly in another context.
    pub open spec fn in_context(
        self,
        context: &'a LayerContext<'a, Q, R>,
    ) -> AssembleModel<'a, Q, R> {
        AssembleRunOf { context, ..self }
    }
}

/// An assembly whose every request is answered ends with a layer. A rotary
/// projection may be missing, where the zeros for it have a size.
pub proof fn answered_assemblies_finish<'a, Q, R, E>(
    run: AssembleModel<'a, Q, R>,
    runtime: spec_fn(nat, RequestModel<'a, Q, R>) -> Result<ReplyModel, E>,
    exchange: nat,
)
    requires
        run.wf(),
        forall|at: nat, request: RequestModel<Q, R>|
            match #[trigger] runtime(at, request) {
                Ok(reply) => answers(reply, request),
                Err(_) => request is Lookup && run.context.config.qk_rope_head_dim
                    * run.context.config.hidden_size * 2 <= usize::MAX,
            },
    ensures
        run.outcome(runtime, exchange) is Ok,
    decreases run.left(),
{
    let outcome = runtime(exchange, run.request());
    if let Ok(reply) = outcome {
        assemblies_take_answers(run, reply);
    }
    assembly_stays_wf(run, outcome);
    assemblies_end(run, outcome);
    if let Progress::Ask(next) = run.after(outcome) {
        answered_assemblies_finish(next, runtime, exchange + 1);
    }
}

/// A tensor of a layer that is there to be loaded: not that of an expert held
/// elsewhere.
pub open spec fn is_held<Q, R>(tensor: LayerTensor, context: LayerContext<Q, R>) -> bool {
    tensor matches LayerTensor::Expert { index, .. } ==> index < context.local_experts@.len()
        && context.local_experts@[index as int]
}

/// A request that carries no configuration but the model's, and reads no tensor
/// but those of one layer that are held here.
pub open spec fn concerns_layer<Q, R>(
    request: RequestModel<Q, R>,
    layer_idx: usize,
    context: LayerContext<Q, R>,
) -> bool {
    &&& request.config() matches Some(config) ==> config == context.config
    &&& request.tensor() matches Some(tensor) ==> (tensor matches Tensor::Layer { layer, tensor }
        && layer == layer_idx && is_held(tensor, context))
}

/// An assembly asks for the same and goes on alike in two contexts with the same
/// sizes, experts and cache type.
pub proof fn assemblies_step_alike<'a, Q, R, E>(
    run: AssembleModel<'a, Q, R>,
    other: &'a LayerContext<'a, Q, R>,
    outcome: Result<ReplyModel, E>,
)
    requires
        run.wf(),
        same_sizes(*run.context.config, *other.config),
        other.local_experts@ == run.context.local_experts@,
        other.spec_kv_dtype(run.layer_idx) == run.context.spec_kv_dtype(run.layer_idx),
    ensures
        run.in_context(other).wf(),
        run.in_context(other).request() == run.request().with_config(other.config),
        concerns_layer(run.request(), run.layer_idx, *run.context),
        run.in_context(other).after(outcome) == (match run.after(outcome) {
            Progress::Ask(next) => Progress::Ask(next.in_context(other)),
            Progress::Done(layer) => Progress::Done(layer),
            Progress::Failed(error) => Progress::Failed(error),
        }),
        run.after(outcome) matches Progress::Ask(next) ==> next.context == run.context
            && next.layer_idx == run.layer_idx,
{
}

/// An assembly ends alike from any of its states on.
proof fn assemblies_end_alike<'a, Q, R, E>(
    run: AssembleModel<'a, Q, R>,
    other: &'a LayerContext<'a, Q, R>,
    runtime: spec_fn(nat, RequestModel<'a, Q, R>) -> Result<ReplyModel, E>,
    other_runtime: spec_fn(nat, RequestModel<'a, Q, R>) -> Result<ReplyModel, E>,
    exchange: nat,
)
    requires
        run.wf(),
        same_sizes(*run.context.config, *other.config),
        other.local_experts@ == run.context.local_experts@,
        other.spec_kv_dtype(run.layer_idx) == run.context.spec_kv_dtype(run.layer_idx),
        forall|at: nat, request: RequestModel<'a, Q, R>|
            concerns_layer(request, run.layer_idx, *run.context) ==> #[trigger] runtime(at, request)
                == other_runtime(at, request.with_config(other.config)),
    ensures
        run.in_context(other).outcome(other_runtime, exchange) == run.outcome(runtime, exchange),
    decreases run.left(),
{
    let outcome = runtime(exchange, run.request());
    assemblies_step_alike(run, other, outcome);
    assembly_stays_wf(run, outcome);
    assemblies_end(run, outcome);
    if let Progress::Ask(next) = run.after(outcome) {
        assemblies_end_alike(next, other, runtime, other_runtime, exchange + 1);
    }
}

/// How an assembly ends depends on nothing but its layer: not on tensors of
/// other layers or of experts held elsewhere, nor on the cache types of other
/// layers.
pub proof fn assemblies_depend_on_their_layer<'a, Q, R, E>(
    layer_idx: usize,
    inputs: LayerInputs,
    context: &'a LayerContext<'a, Q, R>,
    other: &'a LayerContext<'a, Q, R>,
    runtime: spec_fn(nat, RequestModel<'a, Q, R>) -> Result<ReplyModel, E>,
    other_runtime: spec_fn(nat, RequestModel<'a, Q, R>) -> Result<ReplyModel, E>,
)
    requires
        context.wf(),
        other.config == context.config,
        other.local_experts@ == context.local_experts@,
        other.spec_kv_dtype(layer_idx) == context.spec_kv_dtype(layer_idx),
        forall|at: nat, request: RequestModel<'a, Q, R>|
            concerns_layer(request, layer_idx, *context) ==> #[trigger] runtime(at, request)
                == other_runtime(at, request),
    ensures
        AssembleModel::<Q, R>::start(layer_idx, inputs, other).outcome(other_runtime, 0)
            == AssembleModel::<Q, R>::start(layer_idx, inputs, context).outcome(runtime, 0),
{
    assert forall|at: nat, request: RequestModel<'a, Q, R>|
        concerns_layer(request, layer_idx, *context) implies #[trigger] runtime(at, request)
        == other_runtime(at, request.with_config(other.config)) by {
        assert(request.with_config(other.config) == request);
    }
    assemblies_end_alike(
        AssembleModel::<Q, R>::start(layer_idx, inputs, context),
        other,
        runtime,
        other_runtime,
        0,
    );
}

/// How an assembly ends does not depend on the compression ratios, where the
/// runtime's answers do not.
pub proof fn assemblies_ignore_ratios<'a, Q, R, E>(
    layer_idx: usize,
    inputs: LayerInputs,
    context: &'a LayerContext<'a, Q, R>,
    other: &'a LayerContext<'a, Q, R>,
    runtime: spec_fn(nat, RequestModel<'a, Q, R>) -> Result<ReplyModel, E>,
    other_runtime: spec_fn(nat, RequestModel<'a, Q, R>) -> Result<ReplyModel, E>,
)
    requires
        context.wf(),
        same_but_ratios(*context.config, *other.config),
        other.local_experts@ == context.local_experts@,
        other.spec_kv_dtype(layer_idx) == context.spec_kv_dtype(layer_idx),
        forall|at: nat, request: RequestModel<'a, Q, R>|
            concerns_layer(request, layer_idx, *context) ==> #[trigger] runtime(at, request)
                == other_runtime(at, request.with_config(other.config)),
    ensures
        AssembleModel::<Q, R>::start(layer_idx, inputs, other).outcome(other_runtime, 0)
            == AssembleModel::<Q, R>::start(layer_idx, inputs, context).outcome(runtime, 0),
{
    assemblies_end_alike(
        AssembleModel::<Q, R>::start(layer_idx, inputs, context),
        other,
        runtime,
        other_runtime,
        0,
    );
}

} // verus!

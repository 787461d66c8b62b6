//! The attention weights of one layer.
use vstd::prelude::*;

use crate::config::ModelConfig;
use crate::request::{
    answers, outcome_model, LoadError, Progress, Reply, ReplyModel, ReplyOf, Request, RequestModel,
    RequestOf, Toolkit,
};
use crate::tensor::{LayerTensor, Tensor};
use crate::weights::{DenseWeight, DevicePtr, QuantizedWeight};

verus! {

/// What a layer is assembled from, besides its experts.
#[derive(Clone, Copy, Debug, PartialEq, Eq)]
pub struct LayerInputs {
    pub input_norm: DenseWeight,
    pub post_attn_norm: DenseWeight,
    pub wq_a: DenseWeight,
    pub wq_a_nvfp4: Option<QuantizedWeight>,
    pub wq_b: DenseWeight,
    pub wq_b_nvfp4: Option<QuantizedWeight>,
    pub q_a_norm: DenseWeight,
    pub wkv_a: DenseWeight,
    pub wkv_a_nvfp4: Option<QuantizedWeight>,
    pub wkv_b: DenseWeight,
    pub kv_a_norm: DenseWeight,
    pub o_dense: DenseWeight,
    pub o_nvfp4: Option<QuantizedWeight>,
    pub w_uk_t: DenseWeight,
    pub w_uv: DenseWeight,
    pub wq_b_rope: DenseWeight,
    pub w_qk_absorbed: DenseWeight,
    pub w_uk_block_diag: DenseWeight,
    pub w_uv_block_diag: DenseWeight,
    pub yarn_inv_freq: DevicePtr,
}

impl View for LayerInputs {
    type V = LayerInputs;

    open spec fn view(&self) -> LayerInputs {
        *self
    }
}

impl LayerInputs {
    pub open spec fn spec_empty() -> LayerInputs {
        let null = DenseWeight::spec_null();
        LayerInputs {
            input_norm: null,
            post_attn_norm: null,
            wq_a: null,
            wq_a_nvfp4: None,
            wq_b: null,
            wq_b_nvfp4: None,
            q_a_norm: null,
            wkv_a: null,
            wkv_a_nvfp4: None,
            wkv_b: null,
            kv_a_norm: null,
            o_dense: null,
            o_nvfp4: None,
            w_uk_t: null,
            w_uv: null,
            wq_b_rope: null,
            w_qk_absorbed: null,
            w_uk_block_diag: null,
            w_uv_block_diag: null,
            yarn_inv_freq: DevicePtr::spec_null(),
        }
    }

    /// Nothing loaded yet.
    pub fn empty() -> (res: LayerInputs)
        ensures
            res == LayerInputs::spec_empty(),
    {
        let null = DenseWeight::null();
        LayerInputs {
            input_norm: null,
            post_attn_norm: null,
            wq_a: null,
            wq_a_nvfp4: None,
            wq_b: null,
            wq_b_nvfp4: None,
            q_a_norm: null,
            wkv_a: null,
            wkv_a_nvfp4: None,
            wkv_b: null,
            kv_a_norm: null,
            o_dense: null,
            o_nvfp4: None,
            w_uk_t: null,
            w_uv: null,
            wq_b_rope: null,
            w_qk_absorbed: null,
            w_uk_block_diag: null,
            w_uv_block_diag: null,
            yarn_inv_freq: DevicePtr::null(),
        }
    }
}

/// What has been loaded so far, with what only later requests need.
#[derive(Debug)]
#[verifier::ext_equal]
pub struct PartsOf<Dims> {
    pub inputs: LayerInputs,
    pub wkv_a_rows: usize,
    pub wkv_a_cols: usize,
    pub wkv_b_shape: Dims,
    pub o_rows: usize,
    pub o_cols: usize,
    pub wq_b_shape: Dims,
    pub w_uk_host: u64,
}

/// The next piece of a layer's attention, in the order of loading.
#[derive(Clone, Copy, Debug, PartialEq, Eq, Structural)]
pub enum AttentionStep {
    InputNorm,
    PostAttnNorm,
    WqA,
    WqANvfp4,
    WqB,
    WqBNvfp4,
    QNorm,
    WkvA,
    WkvAShape,
    WkvANvfp4,
    WkvB,
    WkvBShape,
    KvNorm,
    O,
    OShape,
    ONvfp4,
    WqBShape,
    PerHeadViews,
    QkAbsorbed,
    BlockDiagonals,
    YarnInvFreq,
}

impl AttentionStep {
    pub open spec fn spec_next(self) -> Option<AttentionStep> {
        match self {
            AttentionStep::InputNorm => Some(AttentionStep::PostAttnNorm),
            AttentionStep::PostAttnNorm => Some(AttentionStep::WqA),
            AttentionStep::WqA => Some(AttentionStep::WqANvfp4),
            AttentionStep::WqANvfp4 => Some(AttentionStep::WqB),
            AttentionStep::WqB => Some(AttentionStep::WqBNvfp4),
            AttentionStep::WqBNvfp4 => Some(AttentionStep::QNorm),
            AttentionStep::QNorm => Some(AttentionStep::WkvA),
            AttentionStep::WkvA => Some(AttentionStep::WkvAShape),
            AttentionStep::WkvAShape => Some(AttentionStep::WkvANvfp4),
            AttentionStep::WkvANvfp4 => Some(AttentionStep::WkvB),
            AttentionStep::WkvB => Some(AttentionStep::WkvBShape),
            AttentionStep::WkvBShape => Some(AttentionStep::KvNorm),
            AttentionStep::KvNorm => Some(AttentionStep::O),
            AttentionStep::O => Some(AttentionStep::OShape),
            AttentionStep::OShape => Some(AttentionStep::ONvfp4),
            AttentionStep::ONvfp4 => Some(AttentionStep::WqBShape),
            AttentionStep::WqBShape => Some(AttentionStep::PerHeadViews),
            AttentionStep::PerHeadViews => Some(AttentionStep::QkAbsorbed),
            AttentionStep::QkAbsorbed => Some(AttentionStep::BlockDiagonals),
            AttentionStep::BlockDiagonals => Some(AttentionStep::YarnInvFreq),
            AttentionStep::YarnInvFreq => None,
        }
    }

    /// The step after this one.
    pub fn next(&self) -> (res: Option<AttentionStep>)
        ensures
            res == self.spec_next(),
    {
        match self {
            AttentionStep::InputNorm => Some(AttentionStep::PostAttnNorm),
            AttentionStep::PostAttnNorm => Some(AttentionStep::WqA),
            AttentionStep::WqA => Some(AttentionStep::WqANvfp4),
            AttentionStep::WqANvfp4 => Some(AttentionStep::WqB),
            AttentionStep::WqB => Some(AttentionStep::WqBNvfp4),
            AttentionStep::WqBNvfp4 => Some(AttentionStep::QNorm),
            AttentionStep::QNorm => Some(AttentionStep::WkvA),
            AttentionStep::WkvA => Some(AttentionStep::WkvAShape),
            AttentionStep::WkvAShape => Some(AttentionStep::WkvANvfp4),
            AttentionStep::WkvANvfp4 => Some(AttentionStep::WkvB),
            AttentionStep::WkvB => Some(AttentionStep::WkvBShape),
            AttentionStep::WkvBShape => Some(AttentionStep::KvNorm),
            AttentionStep::KvNorm => Some(AttentionStep::O),
            AttentionStep::O => Some(AttentionStep::OShape),
            AttentionStep::OShape => Some(AttentionStep::ONvfp4),
            AttentionStep::ONvfp4 => Some(AttentionStep::WqBShape),
            AttentionStep::WqBShape => Some(AttentionStep::PerHeadViews),
            AttentionStep::PerHeadViews => Some(AttentionStep::QkAbsorbed),
            AttentionStep::QkAbsorbed => Some(AttentionStep::BlockDiagonals),
            AttentionStep::BlockDiagonals => Some(AttentionStep::YarnInvFreq),
            AttentionStep::YarnInvFreq => None,
        }
    }

    /// How many steps are left, this one counted.
    pub open spec fn left(self) -> nat {
        match self {
            AttentionStep::InputNorm => 21,
            AttentionStep::PostAttnNorm => 20,
            AttentionStep::WqA => 19,
            AttentionStep::WqANvfp4 => 18,
            AttentionStep::WqB => 17,
            AttentionStep::WqBNvfp4 => 16,
            AttentionStep::QNorm => 15,
            AttentionStep::WkvA => 14,
            AttentionStep::WkvAShape => 13,
            AttentionStep::WkvANvfp4 => 12,
            AttentionStep::WkvB => 11,
            AttentionStep::WkvBShape => 10,
            AttentionStep::KvNorm => 9,
            AttentionStep::O => 8,
            AttentionStep::OShape => 7,
            AttentionStep::ONvfp4 => 6,
            AttentionStep::WqBShape => 5,
            AttentionStep::PerHeadViews => 4,
            AttentionStep::QkAbsorbed => 3,
            AttentionStep::BlockDiagonals => 2,
            AttentionStep::YarnInvFreq => 1,
        }
    }
}

/// A load of one layer's attention.
#[derive(Debug)]
#[verifier::ext_equal]
pub struct AttentionRunOf<'a, Dims, Q, R> {
    pub layer: usize,
    pub config: &'a ModelConfig<Q, R>,
    pub tools: Toolkit,
    /// The inverse frequencies as earlier layers left them.
    pub yarn_inv_freq: DevicePtr,
    pub step: AttentionStep,
    pub parts: PartsOf<Dims>,
}

pub type AttentionRun<'a, Q, R> = AttentionRunOf<'a, Vec<usize>, Q, R>;

/// The mathematical model of an [`AttentionRun`].
pub type AttentionModel<'a, Q, R> = AttentionRunOf<'a, Seq<usize>, Q, R>;

impl View for PartsOf<Vec<usize>> {
    type V = PartsOf<Seq<usize>>;

    open spec fn view(&self) -> PartsOf<Seq<usize>> {
        PartsOf {
            inputs: self.inputs,
            wkv_a_rows: self.wkv_a_rows,
            wkv_a_cols: self.wkv_a_cols,
            wkv_b_shape: self.wkv_b_shape@,
            o_rows: self.o_rows,
            o_cols: self.o_cols,
            wq_b_shape: self.wq_b_shape@,
            w_uk_host: self.w_uk_host,
        }
    }
}

impl<'a, Q, R> View for AttentionRunOf<'a, Vec<usize>, Q, R> {
    type V = AttentionModel<'a, Q, R>;

    open spec fn view(&self) -> AttentionModel<'a, Q, R> {
        AttentionRunOf {
            layer: self.layer,
            config: self.config,
            tools: self.tools,
            yarn_inv_freq: self.yarn_inv_freq,
            step: self.step,
            parts: self.parts@,
        }
    }
}

impl<'a, Q, R> AttentionRunOf<'a, Seq<usize>, Q, R> {
    /// The load of a layer's attention before anything is loaded.
    pub open spec fn start(
        layer: usize,
        config: &'a ModelConfig<Q, R>,
        tools: Toolkit,
        yarn_inv_freq: DevicePtr,
    ) -> AttentionModel<'a, Q, R> {
        AttentionRunOf {
            layer,
            config,
            tools,
            yarn_inv_freq,
            step: AttentionStep::InputNorm,
            parts: PartsOf {
                inputs: LayerInputs::spec_empty(),
                wkv_a_rows: 0,
                wkv_a_cols: 0,
                wkv_b_shape: Seq::empty(),
                o_rows: 0,
                o_cols: 0,
                wq_b_shape: Seq::empty(),
                w_uk_host: 0,
            },
        }
    }

    /// The sizes that the next request names are machine integers.
    pub open spec fn wf(self) -> bool {
        self.step == AttentionStep::WqBNvfp4 ==> self.config.query_rows() <= usize::MAX
    }

    pub open spec fn tensor(self, tensor: LayerTensor) -> Tensor {
        Tensor::Layer { layer: self.layer, tensor }
    }

    /// The next request.
    pub open spec fn request(self) -> RequestModel<'a, Q, R> {
        let inputs = self.parts.inputs;
        match self.step {
            AttentionStep::InputNorm => RequestOf::Dense(self.tensor(LayerTensor::AttnNorm)),
            AttentionStep::PostAttnNorm => RequestOf::Dense(self.tensor(LayerTensor::FfnNorm)),
            AttentionStep::WqA => RequestOf::DenseAuto(self.tensor(LayerTensor::WqA)),
            AttentionStep::WqANvfp4 => RequestOf::Quantize {
                weight: inputs.wq_a,
                rows: self.config.q_lora_rank,
                cols: self.config.hidden_size,
                tools: self.tools,
            },
            AttentionStep::WqB => RequestOf::DenseAuto(self.tensor(LayerTensor::WqB)),
            AttentionStep::WqBNvfp4 => RequestOf::Quantize {
                weight: inputs.wq_b,
                rows: self.config.query_rows() as usize,
                cols: self.config.q_lora_rank,
                tools: self.tools,
            },
            AttentionStep::QNorm => RequestOf::Dense(self.tensor(LayerTensor::QNorm)),
            AttentionStep::WkvA => RequestOf::DenseAuto(self.tensor(LayerTensor::Wkv)),
            AttentionStep::WkvAShape => RequestOf::Shape {
                tensor: self.tensor(LayerTensor::Wkv),
                rank: 2,
            },
            AttentionStep::WkvANvfp4 => RequestOf::Quantize {
                weight: inputs.wkv_a,
                rows: self.parts.wkv_a_rows,
                cols: self.parts.wkv_a_cols,
                tools: self.tools,
            },
            AttentionStep::WkvB => RequestOf::DenseAuto(self.tensor(LayerTensor::WoA)),
            AttentionStep::WkvBShape => RequestOf::Shape {
                tensor: self.tensor(LayerTensor::WoA),
                rank: 0,
            },
            AttentionStep::KvNorm => RequestOf::Dense(self.tensor(LayerTensor::KvNorm)),
            AttentionStep::O => RequestOf::DenseAuto(self.tensor(LayerTensor::WoB)),
            AttentionStep::OShape => RequestOf::Shape {
                tensor: self.tensor(LayerTensor::WoB),
                rank: 2,
            },
            AttentionStep::ONvfp4 => RequestOf::Quantize {
                weight: inputs.o_dense,
                rows: self.parts.o_rows,
                cols: self.parts.o_cols,
                tools: self.tools,
            },
            AttentionStep::WqBShape => RequestOf::Shape {
                tensor: self.tensor(LayerTensor::WqB),
                rank: 0,
            },
            AttentionStep::PerHeadViews => RequestOf::PerHeadViews {
                wkv_b: inputs.wkv_b,
                wkv_b_shape: self.parts.wkv_b_shape,
                wq_b: inputs.wq_b,
                wq_b_shape: self.parts.wq_b_shape,
                config: self.config,
            },
            AttentionStep::QkAbsorbed => RequestOf::QkAbsorbed {
                wq_b: inputs.wq_b,
                wq_b_shape: self.parts.wq_b_shape,
                w_uk_t: inputs.w_uk_t,
                config: self.config,
            },
            AttentionStep::BlockDiagonals => RequestOf::BlockDiagonals {
                w_uk_host: self.parts.w_uk_host,
                w_uv: inputs.w_uv,
                config: self.config,
            },
            AttentionStep::YarnInvFreq => RequestOf::YarnInvFreq {
                current: self.yarn_inv_freq,
                config: self.config,
            },
        }
    }

    /// What is loaded once a reply has arrived; nothing where the reply does
    /// not answer the request.
    pub open spec fn record(self, reply: ReplyModel) -> Option<PartsOf<Seq<usize>>> {
        let parts = self.parts;
        let inputs = self.parts.inputs;
        match (self.step, reply) {
            (AttentionStep::InputNorm, ReplyOf::Dense(weight)) => Some(
                PartsOf { inputs: LayerInputs { input_norm: weight, ..inputs }, ..parts },
            ),
            (AttentionStep::PostAttnNorm, ReplyOf::Dense(weight)) => Some(
                PartsOf { inputs: LayerInputs { post_attn_norm: weight, ..inputs }, ..parts },
            ),
            (AttentionStep::WqA, ReplyOf::Dense(weight)) => Some(
                PartsOf { inputs: LayerInputs { wq_a: weight, ..inputs }, ..parts },
            ),
            (AttentionStep::WqANvfp4, ReplyOf::Quantized(weight)) => Some(
                PartsOf {
                    inputs: LayerInputs {
                        wq_a_nvfp4: Some(QuantizedWeight::Loaded(weight)),
                        ..inputs
                    },
                    ..parts
                },
            ),
            (AttentionStep::WqB, ReplyOf::Dense(weight)) => Some(
                PartsOf { inputs: LayerInputs { wq_b: weight, ..inputs }, ..parts },
            ),
            (AttentionStep::WqBNvfp4, ReplyOf::Quantized(weight)) => Some(
                PartsOf {
                    inputs: LayerInputs {
                        wq_b_nvfp4: Some(QuantizedWeight::Loaded(weight)),
                        ..inputs
                    },
                    ..parts
                },
            ),
            (AttentionStep::QNorm, ReplyOf::Dense(weight)) => Some(
                PartsOf { inputs: LayerInputs { q_a_norm: weight, ..inputs }, ..parts },
            ),
            (AttentionStep::WkvA, ReplyOf::Dense(weight)) => Some(
                PartsOf { inputs: LayerInputs { wkv_a: weight, ..inputs }, ..parts },
            ),
            (AttentionStep::WkvAShape, ReplyOf::Shape(dims)) => if dims.len() >= 2 {
                Some(PartsOf { wkv_a_rows: dims[0], wkv_a_cols: dims[1], ..parts })
            } else {
                None
            },
            (AttentionStep::WkvANvfp4, ReplyOf::Quantized(weight)) => Some(
                PartsOf {
                    inputs: LayerInputs {
                        wkv_a_nvfp4: Some(QuantizedWeight::Loaded(weight)),
                        ..inputs
                    },
                    ..parts
                },
            ),
            (AttentionStep::WkvB, ReplyOf::Dense(weight)) => Some(
                PartsOf { inputs: LayerInputs { wkv_b: weight, ..inputs }, ..parts },
            ),
            (AttentionStep::WkvBShape, ReplyOf::Shape(dims)) => Some(
                PartsOf { wkv_b_shape: dims, ..parts },
            ),
            (AttentionStep::KvNorm, ReplyOf::Dense(weight)) => Some(
                PartsOf { inputs: LayerInputs { kv_a_norm: weight, ..inputs }, ..parts },
            ),
            (AttentionStep::O, ReplyOf::Dense(weight)) => Some(
                PartsOf { inputs: LayerInputs { o_dense: weight, ..inputs }, ..parts },
            ),
            (AttentionStep::OShape, ReplyOf::Shape(dims)) => if dims.len() >= 2 {
                Some(PartsOf { o_rows: dims[0], o_cols: dims[1], ..parts })
            } else {
                None
            },
            (AttentionStep::ONvfp4, ReplyOf::Quantized(weight)) => Some(
                PartsOf {
                    inputs: LayerInputs {
                        o_nvfp4: Some(QuantizedWeight::Loaded(weight)),
                        ..inputs
                    },
                    ..parts
                },
            ),
            (AttentionStep::WqBShape, ReplyOf::Shape(dims)) => Some(
                PartsOf { wq_b_shape: dims, ..parts },
            ),
            (
                AttentionStep::PerHeadViews,
                ReplyOf::PerHead { w_uk_t, w_uv, wq_b_rope, w_uk_host },
            ) => Some(
                PartsOf {
                    inputs: LayerInputs { w_uk_t, w_uv, wq_b_rope, ..inputs },
                    w_uk_host,
                    ..parts
                },
            ),
            (AttentionStep::QkAbsorbed, ReplyOf::Dense(weight)) => Some(
                PartsOf { inputs: LayerInputs { w_qk_absorbed: weight, ..inputs }, ..parts },
            ),
            (AttentionStep::BlockDiagonals, ReplyOf::Pair(uk, uv)) => Some(
                PartsOf {
                    inputs: LayerInputs { w_uk_block_diag: uk, w_uv_block_diag: uv, ..inputs },
                    ..parts
                },
            ),
            (AttentionStep::YarnInvFreq, ReplyOf::Pointer(ptr)) => Some(
                PartsOf { inputs: LayerInputs { yarn_inv_freq: ptr, ..inputs }, ..parts },
            ),
            _ => None,
        }
    }

    /// Where the load stands after an outcome.
    pub open spec fn after<E>(self, outcome: Result<ReplyModel, E>) -> Progress<
        AttentionModel<'a, Q, R>,
        LayerInputs,
        E,
    > {
        match outcome {
            Err(cause) => Progress::Failed(LoadError::Runtime { context: None, cause }),
            Ok(reply) => match self.record(reply) {
                None => Progress::Failed(LoadError::UnfitReply),
                Some(parts) => match self.step.spec_next() {
                    None => Progress::Done(parts.inputs),
                    Some(step) => {
                        let next = AttentionRunOf { step, parts, ..self };
                        if next.wf() {
                            Progress::Ask(next)
                        } else {
                            Progress::Failed(LoadError::SizeOverflow)
                        }
                    },
                },
            },
        }
    }
}

impl<'a, Q, R> AttentionRunOf<'a, Vec<usize>, Q, R> {
    /// Begins to load a layer's attention.
    pub fn new(
        layer: usize,
        config: &'a ModelConfig<Q, R>,
        tools: Toolkit,
        yarn_inv_freq: DevicePtr,
    ) -> (res: AttentionRun<'a, Q, R>)
        ensures
            res@ == AttentionModel::<Q, R>::start(layer, config, tools, yarn_inv_freq),
            res@.wf(),
    {
        AttentionRunOf {
            layer,
            config,
            tools,
            yarn_inv_freq,
            step: AttentionStep::InputNorm,
            parts: PartsOf {
                inputs: LayerInputs::empty(),
                wkv_a_rows: 0,
                wkv_a_cols: 0,
                wkv_b_shape: Vec::new(),
                o_rows: 0,
                o_cols: 0,
                wq_b_shape: Vec::new(),
                w_uk_host: 0,
            },
        }
    }

    fn tensor(&self, tensor: LayerTensor) -> (res: Tensor)
        ensures
            res == self@.tensor(tensor),
    {
        Tensor::Layer { layer: self.layer, tensor }
    }

    /// The next request.
    pub fn request(&self) -> (res: Request<'a, Q, R>)
        requires
            self@.wf(),
        ensures
            res@ == self@.request(),
    {
        let inputs = self.parts.inputs;
        match self.step {
            AttentionStep::InputNorm => RequestOf::Dense(self.tensor(LayerTensor::AttnNorm)),
            AttentionStep::PostAttnNorm => RequestOf::Dense(self.tensor(LayerTensor::FfnNorm)),
            AttentionStep::WqA => RequestOf::DenseAuto(self.tensor(LayerTensor::WqA)),
            AttentionStep::WqANvfp4 => RequestOf::Quantize {
                weight: inputs.wq_a,
                rows: self.config.q_lora_rank,
                cols: self.config.hidden_size,
                tools: self.tools,
            },
            AttentionStep::WqB => RequestOf::DenseAuto(self.tensor(LayerTensor::WqB)),
            AttentionStep::WqBNvfp4 => RequestOf::Quantize {
                weight: inputs.wq_b,
                rows: self.config.num_attention_heads * self.config.head_dim,
                cols: self.config.q_lora_rank,
                tools: self.tools,
            },
            AttentionStep::QNorm => RequestOf::Dense(self.tensor(LayerTensor::QNorm)),
            AttentionStep::WkvA => RequestOf::DenseAuto(self.tensor(LayerTensor::Wkv)),
            AttentionStep::WkvAShape => RequestOf::Shape {
                tensor: self.tensor(LayerTensor::Wkv),
                rank: 2,
            },
            AttentionStep::WkvANvfp4 => RequestOf::Quantize {
                weight: inputs.wkv_a,
                rows: self.parts.wkv_a_rows,
                cols: self.parts.wkv_a_cols,
                tools: self.tools,
            },
            AttentionStep::WkvB => RequestOf::DenseAuto(self.tensor(LayerTensor::WoA)),
            AttentionStep::WkvBShape => RequestOf::Shape {
                tensor: self.tensor(LayerTensor::WoA),
                rank: 0,
            },
            AttentionStep::KvNorm => RequestOf::Dense(self.tensor(LayerTensor::KvNorm)),
            AttentionStep::O => RequestOf::DenseAuto(self.tensor(LayerTensor::WoB)),
            AttentionStep::OShape => RequestOf::Shape {
                tensor: self.tensor(LayerTensor::WoB),
                rank: 2,
            },
            AttentionStep::ONvfp4 => RequestOf::Quantize {
                weight: inputs.o_dense,
                rows: self.parts.o_rows,
                cols: self.parts.o_cols,
                tools: self.tools,
            },
            AttentionStep::WqBShape => RequestOf::Shape {
                tensor: self.tensor(LayerTensor::WqB),
                rank: 0,
            },
            AttentionStep::PerHeadViews => {
                let wkv_b_shape = self.parts.wkv_b_shape.clone();
                let wq_b_shape = self.parts.wq_b_shape.clone();
                assert(wkv_b_shape@ =~= self.parts.wkv_b_shape@);
                assert(wq_b_shape@ =~= self.parts.wq_b_shape@);
                RequestOf::PerHeadViews {
                    wkv_b: inputs.wkv_b,
                    wkv_b_shape,
                    wq_b: inputs.wq_b,
                    wq_b_shape,
                    config: self.config,
                }
            },
            AttentionStep::QkAbsorbed => {
                let wq_b_shape = self.parts.wq_b_shape.clone();
                assert(wq_b_shape@ =~= self.parts.wq_b_shape@);
                RequestOf::QkAbsorbed {
                    wq_b: inputs.wq_b,
                    wq_b_shape,
                    w_uk_t: inputs.w_uk_t,
                    config: self.config,
                }
            },
            AttentionStep::BlockDiagonals => RequestOf::BlockDiagonals {
                w_uk_host: self.parts.w_uk_host,
                w_uv: inputs.w_uv,
                config: self.config,
            },
            AttentionStep::YarnInvFreq => RequestOf::YarnInvFreq {
                current: self.yarn_inv_freq,
                config: self.config,
            },
        }
    }

    fn record(self, reply: Reply) -> (res: Option<PartsOf<Vec<usize>>>)
        ensures
            self@.record(reply@) == (match res {
                Some(parts) => Some(parts@),
                None => None,
            }),
    {
        let mut parts = self.parts;
        match (self.step, reply) {
            (AttentionStep::InputNorm, ReplyOf::Dense(weight)) => {
                parts.inputs.input_norm = weight;
            },
            (AttentionStep::PostAttnNorm, ReplyOf::Dense(weight)) => {
                parts.inputs.post_attn_norm = weight;
            },
            (AttentionStep::WqA, ReplyOf::Dense(weight)) => {
                parts.inputs.wq_a = weight;
            },
            (AttentionStep::WqANvfp4, ReplyOf::Quantized(weight)) => {
                parts.inputs.wq_a_nvfp4 = Some(QuantizedWeight::Loaded(weight));
            },
            (AttentionStep::WqB, ReplyOf::Dense(weight)) => {
                parts.inputs.wq_b = weight;
            },
            (AttentionStep::WqBNvfp4, ReplyOf::Quantized(weight)) => {
                parts.inputs.wq_b_nvfp4 = Some(QuantizedWeight::Loaded(weight));
            },
            (AttentionStep::QNorm, ReplyOf::Dense(weight)) => {
                parts.inputs.q_a_norm = weight;
            },
            (AttentionStep::WkvA, ReplyOf::Dense(weight)) => {
                parts.inputs.wkv_a = weight;
            },
            (AttentionStep::WkvAShape, ReplyOf::Shape(dims)) => {
                if dims.len() < 2 {
                    return None;
                }
                parts.wkv_a_rows = dims[0];
                parts.wkv_a_cols = dims[1];
            },
            (AttentionStep::WkvANvfp4, ReplyOf::Quantized(weight)) => {
                parts.inputs.wkv_a_nvfp4 = Some(QuantizedWeight::Loaded(weight));
            },
            (AttentionStep::WkvB, ReplyOf::Dense(weight)) => {
                parts.inputs.wkv_b = weight;
            },
            (AttentionStep::WkvBShape, ReplyOf::Shape(dims)) => {
                parts.wkv_b_shape = dims;
            },
            (AttentionStep::KvNorm, ReplyOf::Dense(weight)) => {
                parts.inputs.kv_a_norm = weight;
            },
            (AttentionStep::O, ReplyOf::Dense(weight)) => {
                parts.inputs.o_dense = weight;
            },
            (AttentionStep::OShape, ReplyOf::Shape(dims)) => {
                if dims.len() < 2 {
                    return None;
                }
                parts.o_rows = dims[0];
                parts.o_cols = dims[1];
            },
            (AttentionStep::ONvfp4, ReplyOf::Quantized(weight)) => {
                parts.inputs.o_nvfp4 = Some(QuantizedWeight::Loaded(weight));
            },
            (AttentionStep::WqBShape, ReplyOf::Shape(dims)) => {
                parts.wq_b_shape = dims;
            },
            (
                AttentionStep::PerHeadViews,
                ReplyOf::PerHead { w_uk_t, w_uv, wq_b_rope, w_uk_host },
            ) => {
                parts.inputs.w_uk_t = w_uk_t;
                parts.inputs.w_uv = w_uv;
                parts.inputs.wq_b_rope = wq_b_rope;
                parts.w_uk_host = w_uk_host;
            },
            (AttentionStep::QkAbsorbed, ReplyOf::Dense(weight)) => {
                parts.inputs.w_qk_absorbed = weight;
            },
            (AttentionStep::BlockDiagonals, ReplyOf::Pair(uk, uv)) => {
                parts.inputs.w_uk_block_diag = uk;
                parts.inputs.w_uv_block_diag = uv;
            },
            (AttentionStep::YarnInvFreq, ReplyOf::Pointer(ptr)) => {
                parts.inputs.yarn_inv_freq = ptr;
            },
            _ => {
                return None;
            },
        }
        Some(parts)
    }

    /// Takes the outcome of the last request.
    pub fn step<E>(self, outcome: Result<Reply, E>) -> (res: Progress<
        AttentionRun<'a, Q, R>,
        LayerInputs,
        E,
    >)
        ensures
            res.model() == self@.after(outcome_model(outcome)),
            res matches Progress::Ask(next) ==> next@.wf(),
    {
        let reply = match outcome {
            Ok(reply) => reply,
            Err(cause) => return Progress::Failed(LoadError::Runtime { context: None, cause }),
        };
        let layer = self.layer;
        let config = self.config;
        let tools = self.tools;
        let yarn_inv_freq = self.yarn_inv_freq;
        let next = self.step.next();
        let parts = match self.record(reply) {
            Some(parts) => parts,
            None => return Progress::Failed(LoadError::UnfitReply),
        };
        match next {
            None => Progress::Done(parts.inputs),
            Some(step) => {
                if step == AttentionStep::WqBNvfp4 && config.num_attention_heads.checked_mul(
                    config.head_dim,
                ).is_none() {
                    return Progress::Failed(LoadError::SizeOverflow);
                }
                Progress::Ask(AttentionRunOf { layer, config, tools, yarn_inv_freq, step, parts })
            },
        }
    }
}

/// Every exchange brings the load of an attention nearer to its end.
pub proof fn attentions_end<Q, R, E>(run: AttentionModel<Q, R>, outcome: Result<ReplyModel, E>)
    ensures
        run.after(outcome) matches Progress::Ask(next) ==> next.step.left() < run.step.left(),
{
}

/// A reply is taken if and only if it answers the request.
pub proof fn attentions_take_answers<Q, R>(run: AttentionModel<Q, R>, reply: ReplyModel)
    ensures
        run.record(reply) is Some <==> answers(reply, run.request()),
{
}

} // verus!

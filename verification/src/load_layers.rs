//! The load of all layers of a model.
use vstd::prelude::*;

use crate::assemble::{
    assemble_layer, assemblies_end, assemblies_step_alike, assemblies_take_answers,
    assembly_stays_wf, is_held, AssembleModel, AssembleRunOf,
};
use crate::attention::{
    attentions_end, attentions_take_answers, AttentionModel, AttentionRun, AttentionRunOf,
};
use crate::config::{same_but_ratios, same_sizes};
use crate::context::LayerContext;
use crate::request::{
    answers, outcome_model, Kernel, LoadError, Progress, Reply, ReplyModel, ReplyOf, Request,
    RequestModel, RequestOf, Toolkit,
};
use crate::tensor::Tensor;
use crate::weights::{DevicePtr, ExpertWeight};

verus! {

/// What a load of all layers is at: first its tools, then layer by layer the
/// attention and the assembly.
#[derive(Debug)]
#[verifier::ext_equal]
pub enum LoadStageOf<'a, Dims, Experts, Q, R> {
    AbsmaxKernel,
    QuantizeKernel,
    Stream,
    Attention(AttentionRunOf<'a, Dims, Q, R>),
    Assembly(AssembleRunOf<'a, Experts, Q, R>),
}

/// A load of all layers.
#[derive(Debug)]
#[verifier::ext_equal]
pub struct LoadRunOf<'a, Dims, Experts, Layers, Q, R> {
    pub context: &'a LayerContext<'a, Q, R>,
    pub stage: LoadStageOf<'a, Dims, Experts, Q, R>,
    pub tools: Toolkit,
    /// The inverse frequencies, which all layers share.
    pub yarn_inv_freq: DevicePtr,
    /// The layers that are complete, from the first one on.
    pub layers: Layers,
}

pub type LoadRun<'a, Q, R> = LoadRunOf<'a, Vec<usize>, Vec<ExpertWeight>, Vec<u64>, Q, R>;

/// The mathematical model of a [`LoadRun`].
pub type LoadModel<'a, Q, R> = LoadRunOf<'a, Seq<usize>, Seq<ExpertWeight>, Seq<u64>, Q, R>;

impl<'a, Q, R> View for LoadStageOf<'a, Vec<usize>, Vec<ExpertWeight>, Q, R> {
    type V = LoadStageOf<'a, Seq<usize>, Seq<ExpertWeight>, Q, R>;

    open spec fn view(&self) -> LoadStageOf<'a, Seq<usize>, Seq<ExpertWeight>, Q, R> {
        match *self {
            LoadStageOf::AbsmaxKernel => LoadStageOf::AbsmaxKernel,
            LoadStageOf::QuantizeKernel => LoadStageOf::QuantizeKernel,
            LoadStageOf::Stream => LoadStageOf::Stream,
            LoadStageOf::Attention(run) => LoadStageOf::Attention(run@),
            LoadStageOf::Assembly(run) => LoadStageOf::Assembly(run@),
        }
    }
}

impl<'a, Q, R> View for LoadRunOf<'a, Vec<usize>, Vec<ExpertWeight>, Vec<u64>, Q, R> {
    type V = LoadModel<'a, Q, R>;

    open spec fn view(&self) -> LoadModel<'a, Q, R> {
        LoadRunOf {
            context: self.context,
            stage: self.stage@,
            tools: self.tools,
            yarn_inv_freq: self.yarn_inv_freq,
            layers: self.layers@,
        }
    }
}

impl<'a, Q, R> LoadRunOf<'a, Seq<usize>, Seq<ExpertWeight>, Seq<u64>, Q, R> {
    /// The load before anything is loaded.
    pub open spec fn start(context: &'a LayerContext<'a, Q, R>) -> LoadModel<'a, Q, R> {
        LoadRunOf {
            context,
            stage: LoadStageOf::AbsmaxKernel,
            tools: Toolkit { absmax: 0, quantize: 0, stream: 0 },
            yarn_inv_freq: DevicePtr::spec_null(),
            layers: Seq::empty(),
        }
    }

    /// The layer at work is the one after those that are complete.
    pub open spec fn wf(self) -> bool {
        &&& self.context.wf()
        &&& match self.stage {
            LoadStageOf::Attention(run) => {
                &&& run.wf()
                &&& self.layers.len() < self.context.config.num_hidden_layers
                &&& run.layer == self.layers.len()
                &&& run.config == self.context.config
                &&& run.tools == self.tools
                &&& run.yarn_inv_freq == self.yarn_inv_freq
            },
            LoadStageOf::Assembly(run) => {
                &&& run.wf()
                &&& self.layers.len() < self.context.config.num_hidden_layers
                &&& run.layer_idx == self.layers.len()
                &&& run.context == self.context
                &&& run.inputs.yarn_inv_freq == self.yarn_inv_freq
            },
            _ => self.layers.len() == 0,
        }
    }

    /// The next request.
    pub open spec fn request(self) -> RequestModel<'a, Q, R> {
        match self.stage {
            LoadStageOf::AbsmaxKernel => RequestOf::Kernel(Kernel::GlobalAbsmax),
            LoadStageOf::QuantizeKernel => RequestOf::Kernel(Kernel::QuantizeBf16),
            LoadStageOf::Stream => RequestOf::DefaultStream,
            LoadStageOf::Attention(run) => run.request(),
            LoadStageOf::Assembly(run) => run.request(),
        }
    }

    /// Goes on to the next layer, or ends where there is none.
    pub open spec fn next_layer<E>(self) -> Progress<LoadModel<'a, Q, R>, Seq<u64>, E> {
        if self.layers.len() < self.context.config.num_hidden_layers {
            Progress::Ask(
                LoadRunOf {
                    stage: LoadStageOf::Attention(
                        AttentionModel::<Q, R>::start(
                            self.layers.len() as usize,
                            self.context.config,
                            self.tools,
                            self.yarn_inv_freq,
                        ),
                    ),
                    ..self
                },
            )
        } else {
            Progress::Done(self.layers)
        }
    }

    /// Where the load stands after an outcome.
    pub open spec fn after<E>(self, outcome: Result<ReplyModel, E>) -> Progress<
        LoadModel<'a, Q, R>,
        Seq<u64>,
        E,
    > {
        match self.stage {
            LoadStageOf::Attention(run) => match run.after(outcome) {
                Progress::Ask(next) => Progress::Ask(
                    LoadRunOf { stage: LoadStageOf::Attention(next), ..self },
                ),
                Progress::Done(inputs) => Progress::Ask(
                    LoadRunOf {
                        stage: LoadStageOf::Assembly(
                            AssembleModel::<Q, R>::start(
                                run.layer,
                                inputs,
                                self.context,
                            ),
                        ),
                        yarn_inv_freq: inputs.yarn_inv_freq,
                        ..self
                    },
                ),
                Progress::Failed(error) => Progress::Failed(error),
            },
            LoadStageOf::Assembly(run) => match run.after(outcome) {
                Progress::Ask(next) => Progress::Ask(
                    LoadRunOf { stage: LoadStageOf::Assembly(next), ..self },
                ),
                Progress::Done(layer) => (LoadRunOf {
                    layers: self.layers.push(layer),
                    ..self
                }).next_layer(),
                Progress::Failed(error) => Progress::Failed(error),
            },
            _ => match (self.stage, outcome) {
                (_, Err(cause)) => Progress::Failed(LoadError::Runtime { context: None, cause }),
                (LoadStageOf::AbsmaxKernel, Ok(ReplyOf::Handle(kernel))) => Progress::Ask(
                    LoadRunOf {
                        stage: LoadStageOf::QuantizeKernel,
                        tools: Toolkit { absmax: kernel, ..self.tools },
                        ..self
                    },
                ),
                (LoadStageOf::QuantizeKernel, Ok(ReplyOf::Handle(kernel))) => Progress::Ask(
                    LoadRunOf {
                        stage: LoadStageOf::Stream,
                        tools: Toolkit { quantize: kernel, ..self.tools },
                        ..self
                    },
                ),
                (LoadStageOf::Stream, Ok(ReplyOf::Handle(stream))) => (LoadRunOf {
                    tools: Toolkit { stream, ..self.tools },
                    ..self
                }).next_layer(),
                _ => Progress::Failed(LoadError::UnfitReply),
            },
        }
    }
}

/// Begins to load all layers of a model.
pub fn load_all_layers<'a, Q, R>(context: &'a LayerContext<'a, Q, R>) -> (res: LoadRun<'a, Q, R>)
    requires
        context.wf(),
    ensures
        res@ == LoadModel::<Q, R>::start(context),
        res@.wf(),
{
    LoadRunOf {
        context,
        stage: LoadStageOf::AbsmaxKernel,
        tools: Toolkit { absmax: 0, quantize: 0, stream: 0 },
        yarn_inv_freq: DevicePtr::null(),
        layers: Vec::new(),
    }
}

impl<'a, Q, R> LoadRunOf<'a, Vec<usize>, Vec<ExpertWeight>, Vec<u64>, Q, R> {
    /// The next request.
    pub fn request(&self) -> (res: Request<'a, Q, R>)
        requires
            self@.wf(),
        ensures
            res@ == self@.request(),
    {
        match &self.stage {
            LoadStageOf::AbsmaxKernel => RequestOf::Kernel(Kernel::GlobalAbsmax),
            LoadStageOf::QuantizeKernel => RequestOf::Kernel(Kernel::QuantizeBf16),
            LoadStageOf::Stream => RequestOf::DefaultStream,
            LoadStageOf::Attention(run) => run.request(),
            LoadStageOf::Assembly(run) => run.request(),
        }
    }

    /// The next layer's attention, or the layers where all are complete.
    fn next_layer<E>(
        context: &'a LayerContext<'a, Q, R>,
        tools: Toolkit,
        yarn_inv_freq: DevicePtr,
        layers: Vec<u64>,
    ) -> (res: Progress<LoadRun<'a, Q, R>, Vec<u64>, E>)
        requires
            context.wf(),
            layers@.len() <= context.config.num_hidden_layers,
        ensures
            forall|stage: LoadStageOf<'a, Seq<usize>, Seq<ExpertWeight>, Q, R>|
                res.model() == #[trigger] (LoadRunOf {
                    context,
                    stage,
                    tools,
                    yarn_inv_freq,
                    layers: layers@,
                }).next_layer::<E>(),
            res matches Progress::Ask(next) ==> next@.wf(),
            res matches Progress::Done(done) ==> done@.len() == context.config.num_hidden_layers,
    {
        if layers.len() < context.config.num_hidden_layers {
            let run = AttentionRun::new(
                layers.len(),
                context.config,
                tools,
                yarn_inv_freq,
            );
            Progress::Ask(
                LoadRunOf {
                    context,
                    stage: LoadStageOf::Attention(run),
                    tools,
                    yarn_inv_freq,
                    layers,
                },
            )
        } else {
            Progress::Done(layers)
        }
    }

    /// Takes the outcome of the last request. A load that is done has all the
    /// layers of the model.
    pub fn step<E>(self, outcome: Result<Reply, E>) -> (res: Progress<
        LoadRun<'a, Q, R>,
        Vec<u64>,
        E,
    >)
        requires
            self@.wf(),
        ensures
            res.model() == self@.after(outcome_model(outcome)),
            res matches Progress::Ask(next) ==> next@.wf() && next.context == self.context,
            res matches Progress::Done(layers) ==> layers@.len()
                == self.context.config.num_hidden_layers,
    {
        let context = self.context;
        let mut tools = self.tools;
        let yarn_inv_freq = self.yarn_inv_freq;
        let mut layers = self.layers;
        match self.stage {
            LoadStageOf::Attention(run) => {
                let layer = run.layer;
                match run.step(outcome) {
                    Progress::Ask(next) => Progress::Ask(
                        LoadRunOf {
                            context,
                            stage: LoadStageOf::Attention(next),
                            tools,
                            yarn_inv_freq,
                            layers,
                        },
                    ),
                    Progress::Done(inputs) => Progress::Ask(
                        LoadRunOf {
                            context,
                            stage: LoadStageOf::Assembly(assemble_layer(layer, inputs, context)),
                            tools,
                            yarn_inv_freq: inputs.yarn_inv_freq,
                            layers,
                        },
                    ),
                    Progress::Failed(error) => Progress::Failed(error),
                }
            },
            LoadStageOf::Assembly(run) => match run.step(outcome) {
                Progress::Ask(next) => Progress::Ask(
                    LoadRunOf {
                        context,
                        stage: LoadStageOf::Assembly(next),
                        tools,
                        yarn_inv_freq,
                        layers,
                    },
                ),
                Progress::Done(layer) => {
                    layers.push(layer);
                    Self::next_layer(context, tools, yarn_inv_freq, layers)
                },
                Progress::Failed(error) => Progress::Failed(error),
            },
            setup => {
                let reply = match outcome {
                    Ok(reply) => reply,
                    Err(cause) => return Progress::Failed(
                        LoadError::Runtime { context: None, cause },
                    ),
                };
                match (setup, reply) {
                    (LoadStageOf::AbsmaxKernel, ReplyOf::Handle(kernel)) => {
                        tools.absmax = kernel;
                        Progress::Ask(
                            LoadRunOf {
                                context,
                                stage: LoadStageOf::QuantizeKernel,
                                tools,
                                yarn_inv_freq,
                                layers,
                            },
                        )
                    },
                    (LoadStageOf::QuantizeKernel, ReplyOf::Handle(kernel)) => {
                        tools.quantize = kernel;
                        Progress::Ask(
                            LoadRunOf {
                                context,
                                stage: LoadStageOf::Stream,
                                tools,
                                yarn_inv_freq,
                                layers,
                            },
                        )
                    },
                    (LoadStageOf::Stream, ReplyOf::Handle(stream)) => {
                        tools.stream = stream;
                        Self::next_layer(context, tools, yarn_inv_freq, layers)
                    },
                    _ => Progress::Failed(LoadError::UnfitReply),
                }
            },
        }
    }
}

/// A request that fails ends the load with the runtime's error; only a rotary
/// projection may be missing.
pub proof fn failures_end_a_load<Q, R, E>(run: LoadModel<Q, R>, cause: E)
    requires
        run.wf(),
        !(run.request() is Lookup),
    ensures
        run.after::<E>(Err(cause)) matches Progress::Failed(LoadError::Runtime { cause: told, .. })
            && told == cause,
{
}

/// The tensors that a load asks for are those of the layer after the complete
/// ones.
pub proof fn loads_ask_layer_by_layer<Q, R>(run: LoadModel<Q, R>)
    requires
        run.wf(),
    ensures
        run.request().tensor() matches Some(tensor) ==> (tensor matches Tensor::Layer { layer, .. }
            && layer == run.layers.len()),
{
}

/// Complete layers are kept, and at most one is added at a time.
pub proof fn complete_layers_are_kept<Q, R, E>(run: LoadModel<Q, R>, outcome: Result<ReplyModel, E>)
    requires
        run.wf(),
    ensures
        run.after(outcome) matches Progress::Ask(next) ==> {
            ||| next.layers == run.layers
            ||| next.layers.len() == run.layers.len() + 1 && next.layers.drop_last() == run.layers
        },
{
    if let Progress::Ask(next) = run.after(outcome) {
        if next.layers.len() == run.layers.len() + 1 {
            assert(next.layers.drop_last() =~= run.layers);
        }
    }
}

/// The inverse frequencies are handed on: each layer asks with those it was
/// handed, and hands on those it was answered.
pub proof fn frequencies_are_handed_on<Q, R, E>(
    run: LoadModel<Q, R>,
    outcome: Result<ReplyModel, E>,
)
    requires
        run.wf(),
    ensures
        run.request() matches RequestOf::YarnInvFreq { current, .. } ==> current
            == run.yarn_inv_freq,
        run.after(outcome) matches Progress::Ask(next) ==> if run.request() is YarnInvFreq {
            outcome == Ok::<ReplyModel, E>(ReplyOf::Pointer(next.yarn_inv_freq))
        } else {
            next.yarn_inv_freq == run.yarn_inv_freq
        },
{
}

impl<'a, Q, R> LoadRunOf<'a, Seq<usize>, Seq<ExpertWeight>, Seq<u64>, Q, R> {
    /// The most requests that one layer takes.
    pub open spec fn requests_per_layer(self) -> nat {
        35 + 3 * self.context.config.num_experts as nat
    }

    /// The most requests that the layers after the one at work take.
    pub open spec fn left_after_layer(self) -> nat {
        let layers = self.context.config.num_hidden_layers - self.layers.len() - 1;
        (layers * self.requests_per_layer()) as nat
    }

    /// The most requests that a load can still make.
    pub open spec fn left(self) -> nat {
        let layers = self.context.config.num_hidden_layers as nat * self.requests_per_layer();
        match self.stage {
            LoadStageOf::AbsmaxKernel => 3 + layers,
            LoadStageOf::QuantizeKernel => 2 + layers,
            LoadStageOf::Stream => 1 + layers,
            LoadStageOf::Attention(run) => run.step.left() + 14 + 3
                * self.context.config.num_experts as nat + self.left_after_layer(),
            LoadStageOf::Assembly(run) => run.left() + self.left_after_layer(),
        }
    }
}

/// Every exchange brings a load nearer to its end.
pub proof fn loads_end<Q, R, E>(run: LoadModel<Q, R>, outcome: Result<ReplyModel, E>)
    requires
        run.wf(),
    ensures
        run.after(outcome) matches Progress::Ask(next) ==> next.left() < run.left(),
{
    let per_layer = run.requests_per_layer() as int;
    let remaining = run.context.config.num_hidden_layers - run.layers.len();
    assert((remaining - 1) * per_layer == remaining * per_layer - per_layer) by (nonlinear_arith);
    assert((remaining - 2) * per_layer == remaining * per_layer - 2 * per_layer)
        by (nonlinear_arith);
    match run.stage {
        LoadStageOf::Attention(attention) => attentions_end(attention, outcome),
        LoadStageOf::Assembly(assembly) => assemblies_end(assembly, outcome),
        _ => {},
    }
    assert(remaining >= 1 ==> (remaining - 1) * per_layer >= 0) by (nonlinear_arith)
        requires
            per_layer >= 0,
    ;
    assert(remaining >= 2 ==> (remaining - 2) * per_layer >= 0) by (nonlinear_arith)
        requires
            per_layer >= 0,
    ;
}

/// A load fails only where the runtime failed a request other than that for a
/// rotary projection, where its reply does not answer the request, or where a
/// size that is needed next is beyond the machine's integers.
pub proof fn loads_fail_for_a_reason<Q, R, E>(run: LoadModel<Q, R>, outcome: Result<ReplyModel, E>)
    requires
        run.wf(),
    ensures
        match run.after(outcome) {
            Progress::Failed(LoadError::Runtime { cause, .. }) => outcome == Err::<ReplyModel, E>(
                cause,
            ) && !(run.request() is Lookup),
            Progress::Failed(LoadError::UnfitReply) => outcome matches Ok(reply) && !answers(
                reply,
                run.request(),
            ),
            Progress::Failed(LoadError::SizeOverflow) => match outcome {
                Ok(_) => run.context.config.num_attention_heads
                    * run.context.config.head_dim > usize::MAX,
                Err(_) => run.request() is Lookup && run.context.config.qk_rope_head_dim
                    * run.context.config.hidden_size * 2 > usize::MAX,
            },
            Progress::Failed(LoadError::NoLmHead) => false,
            _ => match outcome {
                Ok(reply) => answers(reply, run.request()),
                Err(_) => run.request() is Lookup,
            },
        },
{
    if let Ok(reply) = outcome {
        match run.stage {
            LoadStageOf::Attention(attention) => attentions_take_answers(attention, reply),
            LoadStageOf::Assembly(assembly) => assemblies_take_answers(assembly, reply),
            _ => {},
        }
    }
}

/// A load in progress stays well formed whatever the runtime answers, and one
/// that is done has all the layers of the model.
pub proof fn loads_stay_wf<Q, R, E>(run: LoadModel<Q, R>, outcome: Result<ReplyModel, E>)
    requires
        run.wf(),
    ensures
        run.after(outcome) matches Progress::Ask(next) ==> next.wf() && next.context
            == run.context,
        run.after(outcome) matches Progress::Done(layers) ==> layers.len()
            == run.context.config.num_hidden_layers,
{
    if let LoadStageOf::Assembly(assembly) = run.stage {
        assembly_stays_wf(assembly, outcome);
    }
}

impl<'a, Q, R> LoadRunOf<'a, Seq<usize>, Seq<ExpertWeight>, Seq<u64>, Q, R> {
    /// How a load ends when `runtime` says what each request comes to. The same
    /// request may come to something else in a later exchange; `exchange` is
    /// the number of the next one.
    pub open spec fn outcome<E>(
        self,
        runtime: spec_fn(nat, RequestModel<'a, Q, R>) -> Result<ReplyModel, E>,
        exchange: nat,
    ) -> Result<Seq<u64>, LoadError<E>>
        decreases self.left(),
        when self.wf()
    {
        let outcome = runtime(exchange, self.request());
        proof {
            loads_end(self, outcome);
        }
        match self.after(outcome) {
            Progress::Ask(next) => next.outcome(runtime, exchange + 1),
            Progress::Done(layers) => Ok(layers),
            Progress::Failed(error) => Err(error),
        }
    }
}

/// A load whose every request is answered ends with all the layers of the
/// model. A rotary projection may be missing, where the zeros for it have a
/// size.
pub proof fn answered_loads_finish<'a, Q, R, E>(
    run: LoadModel<'a, Q, R>,
    runtime: spec_fn(nat, RequestModel<'a, Q, R>) -> Result<ReplyModel, E>,
    exchange: nat,
)
    requires
        run.wf(),
        run.context.config.num_attention_heads * run.context.config.head_dim <= usize::MAX,
        forall|at: nat, request: RequestModel<Q, R>|
            match #[trigger] runtime(at, request) {
                Ok(reply) => answers(reply, request),
                Err(_) => request is Lookup && run.context.config.qk_rope_head_dim
                    * run.context.config.hidden_size * 2 <= usize::MAX,
            },
    ensures
        run.outcome(runtime, exchange) matches Ok(layers) && layers.len()
            == run.context.config.num_hidden_layers,
    decreases run.left(),
{
    let outcome = runtime(exchange, run.request());
    loads_fail_for_a_reason(run, outcome);
    loads_stay_wf(run, outcome);
    loads_end(run, outcome);
    if let Progress::Ask(next) = run.after(outcome) {
        answered_loads_finish(next, runtime, exchange + 1);
    }
}

/// Two contexts cache the keys and values of every layer alike.
pub open spec fn same_caches<Q, R>(context: LayerContext<Q, R>, other: LayerContext<Q, R>) -> bool {
    forall|layer: usize|
        layer < context.config.num_hidden_layers ==> #[trigger] other.spec_kv_dtype(layer)
            == context.spec_kv_dtype(layer)
}

/// A request that carries no configuration but the model's, and reads no tensor
/// but those of the model's layers that are held here.
pub open spec fn concerns_model<Q, R>(
    request: RequestModel<Q, R>,
    context: LayerContext<Q, R>,
) -> bool {
    &&& request.config() matches Some(config) ==> config == context.config
    &&& request.tensor() matches Some(tensor) ==> (tensor matches Tensor::Layer { layer, tensor }
        && layer < context.config.num_hidden_layers && is_held(tensor, context))
}

impl<'a, Q, R> LoadRunOf<'a, Seq<usize>, Seq<ExpertWeight>, Seq<u64>, Q, R> {
    /// The same load in another context.
    spec fn in_context(self, context: &'a LayerContext<'a, Q, R>) -> LoadModel<'a, Q, R> {
        LoadRunOf {
            context,
            stage: match self.stage {
                LoadStageOf::Attention(run) => LoadStageOf::Attention(
                    AttentionRunOf { config: context.config, ..run },
                ),
                LoadStageOf::Assembly(run) => LoadStageOf::Assembly(run.in_context(context)),
                stage => stage,
            },
            ..self
        }
    }
}

/// A load asks for the same and goes on alike in two contexts with the same
/// sizes, experts and cache types.
proof fn loads_step_alike<'a, Q, R, E>(
    run: LoadModel<'a, Q, R>,
    other: &'a LayerContext<'a, Q, R>,
    outcome: Result<ReplyModel, E>,
)
    requires
        run.wf(),
        same_sizes(*run.context.config, *other.config),
        other.local_experts@ == run.context.local_experts@,
        same_caches(*run.context, *other),
    ensures
        run.in_context(other).wf(),
        run.in_context(other).request() == run.request().with_config(other.config),
        concerns_model(run.request(), *run.context),
        run.in_context(other).after(outcome) == (match run.after(outcome) {
            Progress::Ask(next) => Progress::Ask(next.in_context(other)),
            Progress::Done(layers) => Progress::Done(layers),
            Progress::Failed(error) => Progress::Failed(error),
        }),
{
    if let LoadStageOf::Assembly(assembly) = run.stage {
        assemblies_step_alike(assembly, other, outcome);
    }
}

/// A load ends alike from any of its states on.
proof fn loads_end_alike<'a, Q, R, E>(
    run: LoadModel<'a, Q, R>,
    other: &'a LayerContext<'a, Q, R>,
    runtime: spec_fn(nat, RequestModel<'a, Q, R>) -> Result<ReplyModel, E>,
    other_runtime: spec_fn(nat, RequestModel<'a, Q, R>) -> Result<ReplyModel, E>,
    exchange: nat,
)
    requires
        run.wf(),
        same_sizes(*run.context.config, *other.config),
        other.local_experts@ == run.context.local_experts@,
        same_caches(*run.context, *other),
        forall|at: nat, request: RequestModel<'a, Q, R>|
            concerns_model(request, *run.context) ==> #[trigger] runtime(at, request)
                == other_runtime(at, request.with_config(other.config)),
    ensures
        run.in_context(other).outcome(other_runtime, exchange) == run.outcome(runtime, exchange),
    decreases run.left(),
{
    let outcome = runtime(exchange, run.request());
    loads_step_alike(run, other, outcome);
    loads_stay_wf(run, outcome);
    loads_end(run, outcome);
    if let Progress::Ask(next) = run.after(outcome) {
        loads_end_alike(next, other, runtime, other_runtime, exchange + 1);
    }
}

/// How a load ends depends on nothing but the model: not on tensors outside its
/// layers or of experts held elsewhere, nor on cache types listed beyond its
/// last layer.
pub proof fn loads_depend_on_their_model<'a, Q, R, E>(
    context: &'a LayerContext<'a, Q, R>,
    other: &'a LayerContext<'a, Q, R>,
    runtime: spec_fn(nat, RequestModel<'a, Q, R>) -> Result<ReplyModel, E>,
    other_runtime: spec_fn(nat, RequestModel<'a, Q, R>) -> Result<ReplyModel, E>,
)
    requires
        context.wf(),
        other.config == context.config,
        other.local_experts@ == context.local_experts@,
        same_caches(*context, *other),
        forall|at: nat, request: RequestModel<'a, Q, R>|
            concerns_model(request, *context) ==> #[trigger] runtime(at, request) == other_runtime(
                at,
                request,
            ),
    ensures
        LoadModel::<Q, R>::start(other).outcome(other_runtime, 0) == LoadModel::<Q, R>::start(
            context,
        ).outcome(runtime, 0),
{
    assert forall|at: nat, request: RequestModel<'a, Q, R>|
        concerns_model(request, *context) implies #[trigger] runtime(at, request)
        == other_runtime(at, request.with_config(other.config)) by {
        assert(request.with_config(other.config) == request);
    }
    loads_end_alike(LoadModel::<Q, R>::start(context), other, runtime, other_runtime, 0);
}

/// The compression ratios are kept in the configuration and otherwise ignored:
/// how a load ends does not depend on them, where the runtime's answers do not.
pub proof fn loads_ignore_ratios<'a, Q, R, E>(
    context: &'a LayerContext<'a, Q, R>,
    other: &'a LayerContext<'a, Q, R>,
    runtime: spec_fn(nat, RequestModel<'a, Q, R>) -> Result<ReplyModel, E>,
    other_runtime: spec_fn(nat, RequestModel<'a, Q, R>) -> Result<ReplyModel, E>,
)
    requires
        context.wf(),
        same_but_ratios(*context.config, *other.config),
        other.local_experts@ == context.local_experts@,
        same_caches(*context, *other),
        forall|at: nat, request: RequestModel<'a, Q, R>|
            concerns_model(request, *context) ==> #[trigger] runtime(at, request) == other_runtime(
                at,
                request.with_config(other.config),
            ),
    ensures
        LoadModel::<Q, R>::start(other).outcome(other_runtime, 0) == LoadModel::<Q, R>::start(
            context,
        ).outcome(runtime, 0),
{
    loads_end_alike(LoadModel::<Q, R>::start(context), other, runtime, other_runtime, 0);
}

} // verus!

//! What callers can rely on: which calls are allowed, and what comes back, for
//! each function of the library that a caller begins or goes on with.
use vstd::prelude::*;

use crate::assemble::{assemble_layer, AssembleModel, AssembleRun};
use crate::attention::{AttentionModel, AttentionRun, LayerInputs};
use crate::config::{
    complete, completed, fields_of, rope_width_fits, scoring_is_replaced, shared_width_fits,
    DocumentFields, ModelConfig,
};
use crate::context::LayerContext;
use crate::decimal::{decimal, to_decimal};
use crate::json::{json_of, parsed};
use crate::load_layers::{load_all_layers, LoadModel, LoadRun};
use crate::parse::{parse_deepseek_v4, parses_to, ParseError};
use crate::request::{
    outcome_model, ErrorContext, Kernel, LoadError, Progress, Reply, Request, Toolkit,
};
use crate::tensor::{LayerTensor, Projection, Tensor};
use crate::weight_loader::{DeepSeekV4WeightLoader, LmHeadRun, LmHeadStage, SearchRun, Sought};
use crate::weights::{DenseWeight, DevicePtr, ExpertWeight, KvCacheDtype, QuantizedWeight};

verus! {

/// A configuration is completed wherever its widths fit, and a document is
/// always read.
pub proof fn configurations_are_completed<Q, R>(
    config: ModelConfig<Q, R>,
    fields: &DocumentFields,
    quantization: Option<Q>,
    done: ModelConfig<Q, R>,
    document: &serde_json::Value,
    read: DocumentFields,
)
    ensures
        shared_width_fits(config@, fields@) && rope_width_fits(config@) ==> call_requires(
            complete::<Q, R>,
            (config, fields, quantization),
        ),
        call_ensures(complete::<Q, R>, (config, fields, quantization), done) ==> done@
            == completed(config@, fields@, quantization),
        call_requires(DocumentFields::read, (document,)),
        call_ensures(DocumentFields::read, (document,), read) ==> read@ == fields_of(
            json_of(*document),
        ),
{
}

/// A routing function is replaced if and only if it is `sqrtsoftplus`.
pub proof fn one_routing_function_is_replaced(requested: &String, replaced: bool)
    ensures
        call_requires(scoring_is_replaced, (requested,)),
        call_ensures(scoring_is_replaced, (requested,), replaced) ==> (replaced <==> requested@
            == "sqrtsoftplus"@),
{
}

/// What a failed parse says.
pub proof fn parse_errors_say<D, F>(error: &ParseError<D, F>, said: Option<String>)
    requires
        call_ensures(ParseError::<D, F>::message, (error,), said),
    ensures
        match error {
            ParseError::InvalidJson(_) => said is Some && said->0@
                == "Invalid JSON in DeepSeek-V4 config.json"@,
            ParseError::Reserialize(_) => said is Some && said->0@
                == "Failed to re-serialize DeepSeek-V4 config"@,
            ParseError::Decode(_) => said is Some && said->0@
                == "Failed to parse deepseek_v4 config.json"@,
            ParseError::SharedWidthOverflow => said is Some && said->0@
                == "attempt to multiply with overflow"@,
            ParseError::RopeWiderThanHead => said is Some && said->0@
                == "attempt to subtract with overflow"@,
            ParseError::Finalize(_) => said is None,
        },
{
}

/// What a failed load says.
pub proof fn load_errors_say<E>(
    error: &LoadError<E>,
    said: Option<String>,
    context: &ErrorContext,
    told: String,
)
    ensures
        call_ensures(ErrorContext::message, (context,), told) ==> told@ == context.spec_message(),
        call_ensures(LoadError::<E>::message, (error,), said) ==> match error {
            LoadError::Runtime { context: Some(context), .. } => said is Some && said->0@
                == context.spec_message(),
            LoadError::Runtime { context: None, .. } => said is None,
            LoadError::NoLmHead => said is Some && said->0@
                == "DeepSeek-V4: lm_head not found (tried head.weight, lm_head.weight)"@,
            LoadError::SizeOverflow => said is Some && said->0@
                == "attempt to multiply with overflow"@,
            LoadError::UnfitReply => said is Some && said->0@
                == "DeepSeek-V4: the runtime's reply does not answer the request"@,
        },
{
}

/// Numbers are written in decimal, and tensors and kernels are called by their
/// names.
pub proof fn names_are_given(
    n: usize,
    numeral: String,
    tensor: &Tensor,
    name: String,
    part: &LayerTensor,
    projection: &Projection,
    short: &'static str,
)
    ensures
        call_ensures(to_decimal, (n,), numeral) ==> numeral@ == decimal(n as nat),
        call_ensures(Tensor::name, (tensor,), name) ==> name@ == tensor.spec_name(),
        call_ensures(LayerTensor::name, (part,), name) ==> name@ == part.spec_name(),
        call_ensures(Projection::name, (projection,), short) ==> short@ == projection.spec_name(),
        call_ensures(Kernel::module, (&Kernel::GlobalAbsmax,), short) ==> short@
            == "quantize_nvfp4"@,
        call_ensures(Kernel::module, (&Kernel::QuantizeBf16,), short) ==> short@
            == "quantize_nvfp4"@,
        call_ensures(Kernel::name, (&Kernel::GlobalAbsmax,), short) ==> short@
            == "nvfp4_global_absmax"@,
        call_ensures(Kernel::name, (&Kernel::QuantizeBf16,), short) ==> short@
            == "quantize_bf16_to_nvfp4"@,
{
}

/// A null pointer is at zero, a null weight is at one, and a null expert has no
/// projection.
pub proof fn nulls_are_nothing(ptr: DevicePtr, weight: DenseWeight, expert: ExpertWeight)
    ensures
        call_ensures(DevicePtr::null, (), ptr) ==> ptr.addr == 0,
        call_ensures(DenseWeight::null, (), weight) ==> weight.weight.addr == 0,
        call_ensures(ExpertWeight::null, (), expert) ==> expert.gate_proj == QuantizedWeight::Null
            && expert.up_proj == QuantizedWeight::Null && expert.down_proj
            == QuantizedWeight::Null,
{
}

/// A context is made of what it is given, and knows the cache type of each
/// layer.
pub proof fn contexts_are_made<'a, Q, R>(
    config: &'a ModelConfig<Q, R>,
    local_experts: Vec<bool>,
    kv_dtypes: Vec<KvCacheDtype>,
    made: LayerContext<'a, Q, R>,
    context: &LayerContext<'a, Q, R>,
    layer: usize,
    dtype: KvCacheDtype,
)
    ensures
        local_experts@.len() == config.num_experts ==> call_requires(
            LayerContext::<'a, Q, R>::new,
            (config, local_experts, kv_dtypes),
        ),
        call_ensures(
            LayerContext::<'a, Q, R>::new,
            (config, local_experts, kv_dtypes),
            made,
        ) ==> made.config == config && made.local_experts == local_experts && made.kv_dtypes
            == kv_dtypes,
        local_experts@.len() == config.num_experts ==> (LayerContext {
            config,
            local_experts,
            kv_dtypes,
        }).wf(),
        call_requires(LayerContext::<'a, Q, R>::kv_dtype, (context, layer)),
        call_ensures(LayerContext::<'a, Q, R>::kv_dtype, (context, layer), dtype) ==> dtype == (
        if layer < context.kv_dtypes@.len() {
            context.kv_dtypes@[layer as int]
        } else {
            KvCacheDtype::Bf16
        }),
{
}

/// The loads of a model, of a layer and of an attention can be begun, and are
/// begun at their start.
pub proof fn loads_are_begun<'a, Q, R>(
    loader: &DeepSeekV4WeightLoader,
    context: &'a LayerContext<'a, Q, R>,
    layer: usize,
    inputs: LayerInputs,
    tools: Toolkit,
    current: DevicePtr,
    load: LoadRun<'a, Q, R>,
    assembly: AssembleRun<'a, Q, R>,
    attention: AttentionRun<'a, Q, R>,
)
    requires
        context.wf(),
    ensures
        call_requires(load_all_layers::<Q, R>, (context,)),
        call_ensures(load_all_layers::<Q, R>, (context,), load) ==> load@ == LoadModel::<
            Q,
            R,
        >::start(context) && load@.wf(),
        call_requires(DeepSeekV4WeightLoader::load_layers::<Q, R>, (loader, context)),
        call_ensures(DeepSeekV4WeightLoader::load_layers::<Q, R>, (loader, context), load)
            ==> load@ == LoadModel::<Q, R>::start(context) && load@.wf(),
        call_requires(assemble_layer::<Q, R>, (layer, inputs, context)),
        call_ensures(assemble_layer::<Q, R>, (layer, inputs, context), assembly) ==> assembly@
            == AssembleModel::<Q, R>::start(layer, inputs, context) && assembly@.wf(),
        call_requires(AttentionRun::<'a, Q, R>::new, (layer, context.config, tools, current)),
        call_ensures(
            AttentionRun::<'a, Q, R>::new,
            (layer, context.config, tools, current),
            attention,
        ) ==> attention@ == AttentionModel::<Q, R>::start(layer, context.config, tools, current)
            && attention@.wf(),
{
}

/// A run names its next request, takes its outcome, and can then go on.
pub proof fn runs_go_on<'a, Q, R, E>(
    load: LoadRun<'a, Q, R>,
    assembly: AssembleRun<'a, Q, R>,
    attention: AttentionRun<'a, Q, R>,
    request: Request<'a, Q, R>,
    outcome: Result<Reply, E>,
    loaded: Progress<LoadRun<'a, Q, R>, Vec<u64>, E>,
    assembled: Progress<AssembleRun<'a, Q, R>, u64, E>,
    attended: Progress<AttentionRun<'a, Q, R>, LayerInputs, E>,
)
    ensures
        load@.wf() ==> call_requires(LoadRun::<'a, Q, R>::request, (&load,)),
        call_ensures(LoadRun::<'a, Q, R>::request, (&load,), request) ==> request@
            == load@.request(),
        load@.wf() ==> call_requires(LoadRun::<'a, Q, R>::step::<E>, (load, outcome)),
        call_ensures(LoadRun::<'a, Q, R>::step::<E>, (load, outcome), loaded) ==> loaded.model()
            == load@.after(outcome_model(outcome)) && (loaded matches Progress::Ask(next)
            ==> next@.wf()),
        assembly@.wf() ==> call_requires(AssembleRun::<'a, Q, R>::request, (&assembly,)),
        call_ensures(AssembleRun::<'a, Q, R>::request, (&assembly,), request) ==> request@
            == assembly@.request(),
        assembly@.wf() ==> call_requires(AssembleRun::<'a, Q, R>::step::<E>, (assembly, outcome)),
        call_ensures(AssembleRun::<'a, Q, R>::step::<E>, (assembly, outcome), assembled)
            ==> assembled.model() == assembly@.after(outcome_model(outcome)) && (
        assembled matches Progress::Ask(next) ==> next@.wf()),
        attention@.wf() ==> call_requires(AttentionRun::<'a, Q, R>::request, (&attention,)),
        call_ensures(AttentionRun::<'a, Q, R>::request, (&attention,), request) ==> request@
            == attention@.request(),
        call_requires(AttentionRun::<'a, Q, R>::step::<E>, (attention, outcome)),
        call_ensures(AttentionRun::<'a, Q, R>::step::<E>, (attention, outcome), attended)
            ==> attended.model() == attention@.after(outcome_model(outcome)) && (
        attended matches Progress::Ask(next) ==> next@.wf()),
{
}

/// A search and a load of the output projection name their next request, take
/// its outcome, and can then go on.
pub proof fn searches_go_on<'a, Q, R, E>(
    search: SearchRun,
    head: LmHeadRun,
    request: Request<'a, Q, R>,
    outcome: Result<Reply, E>,
    searched: Progress<SearchRun, DenseWeight, E>,
    headed: Progress<LmHeadRun, DenseWeight, E>,
)
    ensures
        search.wf() ==> call_requires(SearchRun::request::<Q, R>, (&search,)),
        call_ensures(SearchRun::request::<Q, R>, (&search,), request) ==> request@
            == search.spec_request::<Q, R>(),
        search.wf() ==> call_requires(SearchRun::step::<E>, (search, outcome)),
        call_ensures(SearchRun::step::<E>, (search, outcome), searched) ==> searched
            == search.after(outcome_model(outcome)) && (searched matches Progress::Ask(next)
            ==> next.wf()),
        head.wf() ==> call_requires(LmHeadRun::request::<Q, R>, (&head,)),
        call_ensures(LmHeadRun::request::<Q, R>, (&head,), request) ==> request@
            == head.spec_request::<Q, R>(),
        head.wf() ==> call_requires(LmHeadRun::step::<E>, (head, outcome)),
        call_ensures(LmHeadRun::step::<E>, (head, outcome), headed) ==> headed == head.after(
            outcome_model(outcome),
        ) && (headed matches Progress::Ask(next) ==> next.wf()),
{
}

/// What the loader begins with, and what it does without: the heads are not split
/// over devices, and no weights for predicting several tokens are loaded.
pub proof fn loaders_begin<Q, R, M>(
    loader: &DeepSeekV4WeightLoader,
    config: &ModelConfig<Q, R>,
    splits: bool,
    search: SearchRun,
    head: LmHeadRun,
    several: Option<M>,
)
    ensures
        call_requires(DeepSeekV4WeightLoader::supports_tp, (loader,)),
        call_ensures(DeepSeekV4WeightLoader::supports_tp, (loader,), splits) ==> !splits,
        call_requires(DeepSeekV4WeightLoader::load_embedding, (loader,)),
        call_ensures(DeepSeekV4WeightLoader::load_embedding, (loader,), search) ==> search.sought
            == Sought::Embedding && search.attempt == 0 && search.wf(),
        call_requires(DeepSeekV4WeightLoader::load_final_norm, (loader,)),
        call_ensures(DeepSeekV4WeightLoader::load_final_norm, (loader,), search) ==> search.sought
            == Sought::FinalNorm && search.attempt == 0 && search.wf(),
        call_requires(DeepSeekV4WeightLoader::load_lm_head::<Q, R>, (loader, config)),
        call_ensures(DeepSeekV4WeightLoader::load_lm_head::<Q, R>, (loader, config), head)
            ==> head.stage == LmHeadStage::FindHead && head.tie_word_embeddings
            == config.tie_word_embeddings && head.wf(),
        call_ensures(DeepSeekV4WeightLoader::load_mtp_weights::<M>, (loader,), several)
            ==> several is None,
{
}

/// Nothing is loaded of an attention before its load: every weight is null, and
/// nothing is quantised.
pub proof fn empty_inputs_are_nothing(inputs: LayerInputs)
    requires
        call_ensures(LayerInputs::empty, (), inputs),
    ensures
        ({
            let null = DenseWeight { weight: DevicePtr { addr: 0 } };
            inputs == LayerInputs {
                input_norm: null,
                post_attn_norm: null,
                wq_a: null,
                wq_a_nvfp4: None,
                wq_b: null,
                wq_b_nvfp4: None,
                q_a_norm: null,
                wkv_a: null,
                wkv_a_nvfp4: None,
                wkv_b: null,
                kv_a_norm: null,
                o_dense: null,
                o_nvfp4: None,
                w_uk_t: null,
                w_uv: null,
                wq_b_rope: null,
                w_qk_absorbed: null,
                w_uk_block_diag: null,
                w_uv_block_diag: null,
                yarn_inv_freq: DevicePtr { addr: 0 },
            }
        }),
{
}

/// A text that is no JSON document is refused, no document fails to be written
/// back, and every document is parsed as [`parses_to`] says.
pub proof fn texts_are_parsed<Q, R, D, F, Decode, Quantization, Finalize>(
    json: &str,
    decode: Decode,
    quantize: Quantization,
    finalize: Finalize,
    res: Result<ModelConfig<Q, R>, ParseError<D, F>>,
) where
    Decode: FnOnce(&str) -> Result<ModelConfig<Q, R>, D>,
    Quantization: FnOnce(&serde_json::Value) -> Option<Q>,
    Finalize: FnOnce(ModelConfig<Q, R>, &serde_json::Value) -> Result<ModelConfig<Q, R>, F>,

    requires
        call_ensures(
            parse_deepseek_v4::<Q, R, D, F, Decode, Quantization, Finalize>,
            (json, decode, quantize, finalize),
            res,
        ),
    ensures
        parsed(json@) is None <==> res matches Err(ParseError::InvalidJson(_)),
        !(res matches Err(ParseError::Reserialize(_))),
        parsed(json@) matches Some(document) ==> parses_to(
            document,
            decode,
            quantize,
            finalize,
            res,
        ),
{
}

} // verus!

//! The model configuration, and how a DeepSeek-V4 configuration is completed
//! from what its document says.
use vstd::prelude::*;

use crate::json::{as_float_bits, float_bits, json_of, member, Json, JsonNumber};

verus! {

/// The latent width of the key/value projection where the document gives none.
pub const DEFAULT_KV_LORA_RANK: usize = 512;

/// The latent width of the query projection where the document gives none.
pub const DEFAULT_Q_LORA_RANK: usize = 1536;

/// How a layer attends. A way other than in full is known by a number.
#[derive(Clone, Copy, Debug, PartialEq, Eq, Structural)]
pub enum LayerType {
    FullAttention,
    Other(u32),
}

/// The share of each head that is rotated.
#[derive(Clone, Copy, Debug, PartialEq, Eq, Structural)]
pub enum RotaryFactor {
    /// The bits of a binary64.
    Given(u64),
    /// The quotient of two widths.
    Ratio { rotated: usize, whole: usize },
}

/// The configuration of a model. `Q` is the description of how its weights are
/// quantised, and `R` is whatever else was decoded; both are carried through
/// unread. The three `yarn_` parameters without a unit are the bits of a
/// binary64.
#[derive(Debug)]
pub struct ModelConfig<Q, R> {
    pub model_type: String,
    pub weight_prefix: String,
    pub nested_config: bool,
    pub attn_gated: bool,
    pub hidden_size: usize,
    pub num_hidden_layers: usize,
    pub num_attention_heads: usize,
    pub head_dim: usize,
    pub q_lora_rank: usize,
    pub kv_lora_rank: usize,
    pub qk_nope_head_dim: usize,
    pub qk_rope_head_dim: usize,
    pub v_head_dim: usize,
    pub partial_rotary_factor: RotaryFactor,
    pub layer_types: Vec<LayerType>,
    pub num_experts: usize,
    pub n_routed_experts: usize,
    pub moe_intermediate_size: usize,
    pub shared_expert_intermediate_size: usize,
    pub scoring_func: String,
    pub use_routing_bias: bool,
    pub num_mtp_modules: usize,
    pub mtp_transformer_layers: usize,
    pub quantization_config: Option<Q>,
    pub compress_ratios: Vec<usize>,
    pub num_hash_layers: usize,
    pub yarn_factor: u64,
    pub yarn_beta_fast: u64,
    pub yarn_beta_slow: u64,
    pub yarn_original_max_position_embeddings: usize,
    pub tie_word_embeddings: bool,
    pub rest: R,
}

/// The mathematical model of a [`ModelConfig`].
#[verifier::ext_equal]
pub struct ConfigModel<Q, R> {
    pub model_type: Seq<char>,
    pub weight_prefix: Seq<char>,
    pub nested_config: bool,
    pub attn_gated: bool,
    pub hidden_size: usize,
    pub num_hidden_layers: usize,
    pub num_attention_heads: usize,
    pub head_dim: usize,
    pub q_lora_rank: usize,
    pub kv_lora_rank: usize,
    pub qk_nope_head_dim: usize,
    pub qk_rope_head_dim: usize,
    pub v_head_dim: usize,
    pub partial_rotary_factor: RotaryFactor,
    pub layer_types: Seq<LayerType>,
    pub num_experts: usize,
    pub n_routed_experts: usize,
    pub moe_intermediate_size: usize,
    pub shared_expert_intermediate_size: usize,
    pub scoring_func: Seq<char>,
    pub use_routing_bias: bool,
    pub num_mtp_modules: usize,
    pub mtp_transformer_layers: usize,
    pub quantization_config: Option<Q>,
    pub compress_ratios: Seq<usize>,
    pub num_hash_layers: usize,
    pub yarn_factor: u64,
    pub yarn_beta_fast: u64,
    pub yarn_beta_slow: u64,
    pub yarn_original_max_position_embeddings: usize,
    pub tie_word_embeddings: bool,
    pub rest: R,
}

impl<Q, R> View for ModelConfig<Q, R> {
    type V = ConfigModel<Q, R>;

    open spec fn view(&self) -> ConfigModel<Q, R> {
        ConfigModel {
            model_type: self.model_type@,
            weight_prefix: self.weight_prefix@,
            nested_config: self.nested_config,
            attn_gated: self.attn_gated,
            hidden_size: self.hidden_size,
            num_hidden_layers: self.num_hidden_layers,
            num_attention_heads: self.num_attention_heads,
            head_dim: self.head_dim,
            q_lora_rank: self.q_lora_rank,
            kv_lora_rank: self.kv_lora_rank,
            qk_nope_head_dim: self.qk_nope_head_dim,
            qk_rope_head_dim: self.qk_rope_head_dim,
            v_head_dim: self.v_head_dim,
            partial_rotary_factor: self.partial_rotary_factor,
            layer_types: self.layer_types@,
            num_experts: self.num_experts,
            n_routed_experts: self.n_routed_experts,
            moe_intermediate_size: self.moe_intermediate_size,
            shared_expert_intermediate_size: self.shared_expert_intermediate_size,
            scoring_func: self.scoring_func@,
            use_routing_bias: self.use_routing_bias,
            num_mtp_modules: self.num_mtp_modules,
            mtp_transformer_layers: self.mtp_transformer_layers,
            quantization_config: self.quantization_config,
            compress_ratios: self.compress_ratios@,
            num_hash_layers: self.num_hash_layers,
            yarn_factor: self.yarn_factor,
            yarn_beta_fast: self.yarn_beta_fast,
            yarn_beta_slow: self.yarn_beta_slow,
            yarn_original_max_position_embeddings: self.yarn_original_max_position_embeddings,
            tie_word_embeddings: self.tie_word_embeddings,
            rest: self.rest,
        }
    }
}

/// Two configurations give a loader the same sizes.
pub open spec fn same_sizes<Q, R>(config: ModelConfig<Q, R>, other: ModelConfig<Q, R>) -> bool {
    &&& other.num_hidden_layers == config.num_hidden_layers
    &&& other.num_experts == config.num_experts
    &&& other.hidden_size == config.hidden_size
    &&& other.num_attention_heads == config.num_attention_heads
    &&& other.head_dim == config.head_dim
    &&& other.q_lora_rank == config.q_lora_rank
    &&& other.kv_lora_rank == config.kv_lora_rank
    &&& other.qk_nope_head_dim == config.qk_nope_head_dim
    &&& other.qk_rope_head_dim == config.qk_rope_head_dim
    &&& other.v_head_dim == config.v_head_dim
}

/// Two configurations differ in nothing but their compression ratios.
pub open spec fn same_but_ratios<Q, R>(
    config: ModelConfig<Q, R>,
    other: ModelConfig<Q, R>,
) -> bool {
    other@ == (ConfigModel { compress_ratios: other@.compress_ratios, ..config@ })
}

impl<Q, R> ModelConfig<Q, R> {
    /// The rows of the second query projection.
    pub open spec fn query_rows(self) -> nat {
        self.num_attention_heads as nat * self.head_dim as nat
    }

    /// The bytes of a rotary projection at two bytes an element.
    pub open spec fn rope_bytes(self) -> nat {
        self.qk_rope_head_dim as nat * self.hidden_size as nat * 2
    }
}

/// What a configuration document says beyond the fields that are decoded into
/// a [`ModelConfig`]. The three `rope_` parameters without a unit are the bits
/// of a binary64.
#[derive(Debug)]
pub struct DocumentFields {
    pub n_shared_experts: Option<u64>,
    pub topk_method: Option<String>,
    pub num_nextn_predict_layers: Option<u64>,
    pub compress_ratios: Option<Vec<u64>>,
    pub num_hash_layers: Option<u64>,
    pub rope_factor: Option<u64>,
    pub rope_beta_fast: Option<u64>,
    pub rope_beta_slow: Option<u64>,
    pub rope_original_max_position_embeddings: Option<u64>,
}

/// The mathematical model of [`DocumentFields`].
#[verifier::ext_equal]
pub struct FieldsModel {
    pub n_shared_experts: Option<u64>,
    pub topk_method: Option<Seq<char>>,
    pub num_nextn_predict_layers: Option<u64>,
    pub compress_ratios: Option<Seq<u64>>,
    pub num_hash_layers: Option<u64>,
    pub rope_factor: Option<u64>,
    pub rope_beta_fast: Option<u64>,
    pub rope_beta_slow: Option<u64>,
    pub rope_original_max_position_embeddings: Option<u64>,
}

impl View for DocumentFields {
    type V = FieldsModel;

    open spec fn view(&self) -> FieldsModel {
        FieldsModel {
            n_shared_experts: self.n_shared_experts,
            topk_method: match self.topk_method {
                Some(method) => Some(method@),
                None => None,
            },
            num_nextn_predict_layers: self.num_nextn_predict_layers,
            compress_ratios: match self.compress_ratios {
                Some(ratios) => Some(ratios@),
                None => None,
            },
            num_hash_layers: self.num_hash_layers,
            rope_factor: self.rope_factor,
            rope_beta_fast: self.rope_beta_fast,
            rope_beta_slow: self.rope_beta_slow,
            rope_original_max_position_embeddings: self.rope_original_max_position_embeddings,
        }
    }
}

/// The elements of an array that are non-negative integers, in order.
pub open spec fn unsigned_elements(items: Seq<Json>) -> Seq<u64> {
    items.filter(|item: Json| item.unsigned() is Some).map_values(
        |item: Json| item.unsigned()->0,
    )
}

/// The bits of the number that a document is.
pub open spec fn number_bits(document: Json) -> Option<u64> {
    match document {
        Json::Number(number) => Some(float_bits(number)),
        _ => None,
    }
}

/// The unsigned integer under `key`.
pub open spec fn unsigned_member(document: Json, key: Seq<char>) -> Option<u64> {
    match document.member(key) {
        Some(found) => found.unsigned(),
        None => None,
    }
}

/// The bits of the number under `key`.
pub open spec fn number_member(document: Json, key: Seq<char>) -> Option<u64> {
    match document.member(key) {
        Some(found) => number_bits(found),
        None => None,
    }
}

/// What a document says about scaled rotary embeddings, if anything.
pub open spec fn rope_parameters(document: Json) -> Json {
    match document.member("rope_parameters"@) {
        Some(found) => found,
        None => Json::Null,
    }
}

/// What a configuration document says.
pub open spec fn fields_of(document: Json) -> FieldsModel {
    let rope = rope_parameters(document);
    FieldsModel {
        n_shared_experts: unsigned_member(document, "n_shared_experts"@),
        topk_method: match document.member("topk_method"@) {
            Some(found) => found.text(),
            None => None,
        },
        num_nextn_predict_layers: unsigned_member(document, "num_nextn_predict_layers"@),
        compress_ratios: match document.member("compress_ratios"@) {
            Some(Json::Array(items)) => Some(unsigned_elements(items)),
            _ => None,
        },
        num_hash_layers: unsigned_member(document, "num_hash_layers"@),
        rope_factor: number_member(rope, "factor"@),
        rope_beta_fast: number_member(rope, "beta_fast"@),
        rope_beta_slow: number_member(rope, "beta_slow"@),
        rope_original_max_position_embeddings: unsigned_member(
            rope,
            "original_max_position_embeddings"@,
        ),
    }
}

fn read_unsigned(document: &serde_json::Value, key: &str) -> (res: Option<u64>)
    ensures
        res == unsigned_member(json_of(*document), key@),
{
    match member(document, key) {
        Some(found) => found.as_u64(),
        None => None,
    }
}

fn read_number(document: &serde_json::Value, key: &str) -> (res: Option<u64>)
    ensures
        res == number_member(json_of(*document), key@),
{
    match member(document, key) {
        Some(found) => as_float_bits(found),
        None => None,
    }
}

fn read_unsigned_elements(items: &Vec<serde_json::Value>) -> (res: Vec<u64>)
    ensures
        res@ == unsigned_elements(items@.map_values(|item: serde_json::Value| json_of(item))),
{
    let ghost documents = items@.map_values(|item: serde_json::Value| json_of(item));
    let mut numbers: Vec<u64> = Vec::new();
    let mut at: usize = 0;
    while at < items.len()
        invariant
            at <= items.len(),
            documents == items@.map_values(|item: serde_json::Value| json_of(item)),
            numbers@ == unsigned_elements(documents.take(at as int)),
        decreases items.len() - at,
    {
        proof {
            let next = documents.take(at + 1);
            assert(next.drop_last() =~= documents.take(at as int));
            assert(next.last() == json_of(items@[at as int]));
            reveal_with_fuel(Seq::filter, 2);
        }
        if let Some(number) = items[at].as_u64() {
            numbers.push(number);
        }
        at = at + 1;
        assert(numbers@ =~= unsigned_elements(documents.take(at as int)));
    }
    assert(documents.take(at as int) =~= documents);
    numbers
}

impl DocumentFields {
    /// Reads what a configuration document says.
    pub fn read(document: &serde_json::Value) -> (fields: DocumentFields)
        ensures
            fields@ == fields_of(json_of(*document)),
    {
        let topk_method: Option<String> = match member(document, "topk_method") {
            Some(found) => match found.as_str() {
                Some(method) => Some(method.to_owned()),
                None => None,
            },
            None => None,
        };
        let compress_ratios: Option<Vec<u64>> = match member(document, "compress_ratios") {
            Some(found) => match found.as_array() {
                Some(items) => Some(read_unsigned_elements(items)),
                None => None,
            },
            None => None,
        };
        let mut fields = DocumentFields {
            n_shared_experts: read_unsigned(document, "n_shared_experts"),
            topk_method,
            num_nextn_predict_layers: read_unsigned(document, "num_nextn_predict_layers"),
            compress_ratios,
            num_hash_layers: read_unsigned(document, "num_hash_layers"),
            rope_factor: None,
            rope_beta_fast: None,
            rope_beta_slow: None,
            rope_original_max_position_embeddings: None,
        };
        if let Some(rope) = member(document, "rope_parameters") {
            fields.rope_factor = read_number(rope, "factor");
            fields.rope_beta_fast = read_number(rope, "beta_fast");
            fields.rope_beta_slow = read_number(rope, "beta_slow");
            fields.rope_original_max_position_embeddings =
            read_unsigned(rope, "original_max_position_embeddings");
        }
        fields
    }
}

/// The number of shared experts that a document announces.
pub open spec fn shared_experts(fields: FieldsModel) -> usize {
    said_or(fields.n_shared_experts, 0)
}

/// Whether the width of the shared experts is derived from their number.
pub open spec fn derives_shared_width<Q, R>(
    config: ConfigModel<Q, R>,
    fields: FieldsModel,
) -> bool {
    config.shared_expert_intermediate_size == 0 && shared_experts(fields) > 0
}

/// The width of a head: the given one, else an even split of the hidden width.
pub open spec fn resolved_head_dim<Q, R>(config: ConfigModel<Q, R>) -> usize {
    if config.head_dim == 0 && config.num_attention_heads > 0 {
        config.hidden_size / config.num_attention_heads
    } else {
        config.head_dim
    }
}

/// Whether the unrotated width of a head is derived from the rotated one.
pub open spec fn derives_nope_width<Q, R>(config: ConfigModel<Q, R>) -> bool {
    config.qk_nope_head_dim == 0 && resolved_head_dim(config) > 0 && config.qk_rope_head_dim > 0
}

/// The derived width of the shared experts is a machine integer.
pub open spec fn shared_width_fits<Q, R>(config: ConfigModel<Q, R>, fields: FieldsModel) -> bool {
    derives_shared_width(config, fields) ==> shared_experts(fields) * config.moe_intermediate_size
        <= usize::MAX
}

/// The rotated part of a head is no wider than the head it is taken from.
pub open spec fn rope_width_fits<Q, R>(config: ConfigModel<Q, R>) -> bool {
    derives_nope_width(config) ==> config.qk_rope_head_dim <= resolved_head_dim(config)
}

/// The value of a field: what the document says, else what was decoded.
pub open spec fn said_or(said: Option<u64>, decoded: usize) -> usize {
    match said {
        Some(n) => n as usize,
        None => decoded,
    }
}

/// The bits of a parameter: what the document says, else what was decoded.
pub open spec fn said_bits_or(said: Option<u64>, decoded: u64) -> u64 {
    match said {
        Some(bits) => bits,
        None => decoded,
    }
}

/// A width, or `fallback` where it was left at zero.
pub open spec fn filled_width(width: usize, fallback: usize) -> usize {
    if width == 0 {
        fallback
    } else {
        width
    }
}

/// The routing function that stands for a requested one: `sigmoid` is the
/// nearest to `sqrtsoftplus`, which is not supported.
pub open spec fn supported_scoring_func(requested: Seq<char>) -> Seq<char> {
    if requested == "sqrtsoftplus"@ {
        "sigmoid"@
    } else {
        requested
    }
}

/// A configuration as decoded, completed by what its document says.
/// `quantization` is used where none was decoded.
pub open spec fn completed<Q, R>(
    config: ConfigModel<Q, R>,
    fields: FieldsModel,
    quantization: Option<Q>,
) -> ConfigModel<Q, R> {
    let head_dim = resolved_head_dim(config);
    ConfigModel {
        model_type: "deepseek_v4"@,
        weight_prefix: "model"@,
        nested_config: false,
        attn_gated: false,
        hidden_size: config.hidden_size,
        num_hidden_layers: config.num_hidden_layers,
        num_attention_heads: config.num_attention_heads,
        head_dim,
        q_lora_rank: filled_width(config.q_lora_rank, DEFAULT_Q_LORA_RANK),
        kv_lora_rank: filled_width(config.kv_lora_rank, DEFAULT_KV_LORA_RANK),
        qk_nope_head_dim: if derives_nope_width(config) {
            (head_dim - config.qk_rope_head_dim) as usize
        } else {
            config.qk_nope_head_dim
        },
        qk_rope_head_dim: config.qk_rope_head_dim,
        v_head_dim: filled_width(config.v_head_dim, head_dim),
        partial_rotary_factor: if config.qk_rope_head_dim > 0 && head_dim > 0 {
            RotaryFactor::Ratio { rotated: config.qk_rope_head_dim, whole: head_dim }
        } else {
            config.partial_rotary_factor
        },
        layer_types: Seq::new(
            config.num_hidden_layers as nat,
            |layer: int| LayerType::FullAttention,
        ),
        num_experts: filled_width(config.num_experts, config.n_routed_experts),
        n_routed_experts: config.n_routed_experts,
        moe_intermediate_size: config.moe_intermediate_size,
        shared_expert_intermediate_size: if derives_shared_width(config, fields) {
            (shared_experts(fields) * config.moe_intermediate_size) as usize
        } else {
            config.shared_expert_intermediate_size
        },
        scoring_func: supported_scoring_func(config.scoring_func),
        use_routing_bias: config.use_routing_bias || fields.topk_method == Some("noaux_tc"@),
        num_mtp_modules: said_or(fields.num_nextn_predict_layers, config.num_mtp_modules),
        mtp_transformer_layers: if fields.num_nextn_predict_layers is Some {
            1
        } else {
            config.mtp_transformer_layers
        },
        quantization_config: match config.quantization_config {
            Some(decoded) => Some(decoded),
            None => quantization,
        },
        compress_ratios: match fields.compress_ratios {
            Some(ratios) => ratios.map_values(|ratio: u64| ratio as usize),
            None => config.compress_ratios,
        },
        num_hash_layers: said_or(fields.num_hash_layers, config.num_hash_layers),
        yarn_factor: said_bits_or(fields.rope_factor, config.yarn_factor),
        yarn_beta_fast: said_bits_or(fields.rope_beta_fast, config.yarn_beta_fast),
        yarn_beta_slow: said_bits_or(fields.rope_beta_slow, config.yarn_beta_slow),
        yarn_original_max_position_embeddings: said_or(
            fields.rope_original_max_position_embeddings,
            config.yarn_original_max_position_embeddings,
        ),
        tie_word_embeddings: config.tie_word_embeddings,
        rest: config.rest,
    }
}

fn narrowed(numbers: &Vec<u64>) -> (res: Vec<usize>)
    ensures
        res@ == numbers@.map_values(|number: u64| number as usize),
{
    let mut widths: Vec<usize> = Vec::new();
    let mut at: usize = 0;
    while at < numbers.len()
        invariant
            at <= numbers.len(),
            widths@ == numbers@.take(at as int).map_values(|number: u64| number as usize),
        decreases numbers.len() - at,
    {
        widths.push(#[verifier::truncate] (numbers[at] as usize));
        at = at + 1;
        assert(widths@ =~= numbers@.take(at as int).map_values(|number: u64| number as usize));
    }
    assert(numbers@.take(at as int) =~= numbers@);
    widths
}

fn full_attention(layers: usize) -> (types: Vec<LayerType>)
    ensures
        types@ == Seq::new(layers as nat, |layer: int| LayerType::FullAttention),
{
    let mut types: Vec<LayerType> = Vec::new();
    let mut at: usize = 0;
    while at < layers
        invariant
            at <= layers,
            types@ == Seq::new(at as nat, |layer: int| LayerType::FullAttention),
        decreases layers - at,
    {
        types.push(LayerType::FullAttention);
        at = at + 1;
        assert(types@ =~= Seq::new(at as nat, |layer: int| LayerType::FullAttention));
    }
    types
}

pub(crate) fn said_width(said: Option<u64>, decoded: usize) -> (res: usize)
    ensures
        res == said_or(said, decoded),
{
    match said {
        Some(n) => #[verifier::truncate] (n as usize),
        None => decoded,
    }
}

fn said_bits(said: Option<u64>, decoded: u64) -> (res: u64)
    ensures
        res == said_bits_or(said, decoded),
{
    match said {
        Some(bits) => bits,
        None => decoded,
    }
}

fn filled(width: usize, fallback: usize) -> (res: usize)
    ensures
        res == filled_width(width, fallback),
{
    if width == 0 {
        fallback
    } else {
        width
    }
}

/// Whether another routing function stands for a requested one, so that the
/// model's output differs from what it was trained for.
pub fn scoring_is_replaced(requested: &String) -> (res: bool)
    ensures
        res == (supported_scoring_func(requested@) != requested@),
        res == (requested@ == "sqrtsoftplus"@),
{
    proof {
        reveal_strlit("sigmoid");
        reveal_strlit("sqrtsoftplus");
        assert("sigmoid"@.len() != "sqrtsoftplus"@.len());
    }
    *requested == "sqrtsoftplus".to_owned()
}

fn supported_scoring(requested: String) -> (res: String)
    ensures
        res@ == supported_scoring_func(requested@),
{
    if scoring_is_replaced(&requested) {
        "sigmoid".to_owned()
    } else {
        requested
    }
}

fn balances_without_loss(topk_method: &Option<String>) -> (res: bool)
    ensures
        res == (topk_method matches Some(method) && method@ == "noaux_tc"@),
{
    match topk_method {
        Some(method) => *method == "noaux_tc".to_owned(),
        None => false,
    }
}

/// Completes a decoded configuration by what its document says.
pub fn complete<Q, R>(
    config: ModelConfig<Q, R>,
    fields: &DocumentFields,
    quantization: Option<Q>,
) -> (res: ModelConfig<Q, R>)
    requires
        shared_width_fits(config@, fields@),
        rope_width_fits(config@),
    ensures
        res@ == completed(config@, fields@, quantization),
{
    let head_dim: usize = if config.head_dim == 0 && config.num_attention_heads > 0 {
        config.hidden_size / config.num_attention_heads
    } else {
        config.head_dim
    };
    let n_shared_experts: usize = said_width(fields.n_shared_experts, 0);
    let shared_expert_intermediate_size: usize = if config.shared_expert_intermediate_size == 0
        && n_shared_experts > 0 {
        n_shared_experts * config.moe_intermediate_size
    } else {
        config.shared_expert_intermediate_size
    };
    let qk_nope_head_dim: usize = if config.qk_nope_head_dim == 0 && head_dim > 0
        && config.qk_rope_head_dim > 0 {
        head_dim - config.qk_rope_head_dim
    } else {
        config.qk_nope_head_dim
    };
    let partial_rotary_factor = if config.qk_rope_head_dim > 0 && head_dim > 0 {
        RotaryFactor::Ratio { rotated: config.qk_rope_head_dim, whole: head_dim }
    } else {
        config.partial_rotary_factor
    };
    ModelConfig {
        model_type: "deepseek_v4".to_owned(),
        weight_prefix: "model".to_owned(),
        nested_config: false,
        attn_gated: false,
        hidden_size: config.hidden_size,
        num_hidden_layers: config.num_hidden_layers,
        num_attention_heads: config.num_attention_heads,
        head_dim,
        q_lora_rank: filled(config.q_lora_rank, DEFAULT_Q_LORA_RANK),
        kv_lora_rank: filled(config.kv_lora_rank, DEFAULT_KV_LORA_RANK),
        qk_nope_head_dim,
        qk_rope_head_dim: config.qk_rope_head_dim,
        v_head_dim: filled(config.v_head_dim, head_dim),
        partial_rotary_factor,
        layer_types: full_attention(config.num_hidden_layers),
        num_experts: filled(config.num_experts, config.n_routed_experts),
        n_routed_experts: config.n_routed_experts,
        moe_intermediate_size: config.moe_intermediate_size,
        shared_expert_intermediate_size,
        scoring_func: supported_scoring(config.scoring_func),
        use_routing_bias: config.use_routing_bias || balances_without_loss(&fields.topk_method),
        num_mtp_modules: said_width(fields.num_nextn_predict_layers, config.num_mtp_modules),
        mtp_transformer_layers: if fields.num_nextn_predict_layers.is_some() {
            1
        } else {
            config.mtp_transformer_layers
        },
        quantization_config: match config.quantization_config {
            Some(decoded) => Some(decoded),
            None => quantization,
        },
        compress_ratios: match &fields.compress_ratios {
            Some(ratios) => narrowed(ratios),
            None => config.compress_ratios,
        },
        num_hash_layers: said_width(fields.num_hash_layers, config.num_hash_layers),
        yarn_factor: said_bits(fields.rope_factor, config.yarn_factor),
        yarn_beta_fast: said_bits(fields.rope_beta_fast, config.yarn_beta_fast),
        yarn_beta_slow: said_bits(fields.rope_beta_slow, config.yarn_beta_slow),
        yarn_original_max_position_embeddings: said_width(
            fields.rope_original_max_position_embeddings,
            config.yarn_original_max_position_embeddings,
        ),
        tie_word_embeddings: config.tie_word_embeddings,
        rest: config.rest,
    }
}

/// Completing a configuration again changes nothing.
pub proof fn completing_twice_is_completing_once<Q, R>(
    config: ConfigModel<Q, R>,
    fields: FieldsModel,
    quantization: Option<Q>,
)
    requires
        shared_width_fits(config, fields),
        rope_width_fits(config),
    ensures
        ({
            let once = completed(config, fields, quantization);
            &&& shared_width_fits(once, fields)
            &&& rope_width_fits(once)
            &&& completed(once, fields, quantization) == once
        }),
{
    let once = completed(config, fields, quantization);
    let twice = completed(once, fields, quantization);
    assert(once.scoring_func != "sqrtsoftplus"@) by {
        reveal_strlit("sigmoid");
        reveal_strlit("sqrtsoftplus");
        assert("sigmoid"@.len() != "sqrtsoftplus"@.len());
    }
    assert(resolved_head_dim(once) == resolved_head_dim(config));
    assert(twice.layer_types =~= once.layer_types);
    assert(twice.compress_ratios =~= once.compress_ratios);
}

/// A size that the configuration gives is never overridden by a fallback, and
/// what is read nowhere is kept.
pub proof fn given_sizes_are_kept<Q, R>(
    config: ConfigModel<Q, R>,
    fields: FieldsModel,
    quantization: Option<Q>,
)
    ensures
        ({
            let done = completed(config, fields, quantization);
            &&& done.hidden_size == config.hidden_size
            &&& done.num_hidden_layers == config.num_hidden_layers
            &&& done.num_attention_heads == config.num_attention_heads
            &&& done.moe_intermediate_size == config.moe_intermediate_size
            &&& done.qk_rope_head_dim == config.qk_rope_head_dim
            &&& config.head_dim != 0 ==> done.head_dim == config.head_dim
            &&& config.q_lora_rank != 0 ==> done.q_lora_rank == config.q_lora_rank
            &&& config.kv_lora_rank != 0 ==> done.kv_lora_rank == config.kv_lora_rank
            &&& config.qk_nope_head_dim != 0 ==> done.qk_nope_head_dim == config.qk_nope_head_dim
            &&& config.v_head_dim != 0 ==> done.v_head_dim == config.v_head_dim
            &&& config.num_experts != 0 ==> done.num_experts == config.num_experts
            &&& config.shared_expert_intermediate_size != 0
                ==> done.shared_expert_intermediate_size == config.shared_expert_intermediate_size
            &&& config.quantization_config is Some ==> done.quantization_config
                == config.quantization_config
            &&& done.tie_word_embeddings == config.tie_word_embeddings
            &&& done.rest == config.rest
        }),
{
}

/// A completed configuration is one that can be loaded: the latent widths are
/// set, every layer attends in full, a supported function routes, and a head
/// whose unrotated width was derived is split into its two parts without rest.
pub proof fn completed_configurations_can_be_loaded<Q, R>(
    config: ConfigModel<Q, R>,
    fields: FieldsModel,
    quantization: Option<Q>,
)
    requires
        rope_width_fits(config),
    ensures
        ({
            let done = completed(config, fields, quantization);
            &&& done.kv_lora_rank > 0
            &&& done.q_lora_rank > 0
            &&& done.scoring_func != "sqrtsoftplus"@
            &&& done.layer_types.len() == done.num_hidden_layers
            &&& forall|layer: int|
                0 <= layer < done.layer_types.len() ==> #[trigger] done.layer_types[layer]
                    == LayerType::FullAttention
            &&& derives_nope_width(config) ==> done.qk_nope_head_dim + done.qk_rope_head_dim
                == done.head_dim
            &&& done.model_type == "deepseek_v4"@
            &&& !done.attn_gated
        }),
{
    reveal_strlit("sigmoid");
    reveal_strlit("sqrtsoftplus");
    assert("sigmoid"@.len() != "sqrtsoftplus"@.len());
}

/// The width of a head that the configuration leaves out is the most that every
/// head can have of the hidden width; one that it gives stays.
pub proof fn heads_share_the_hidden_width<Q, R>(
    config: ConfigModel<Q, R>,
    fields: FieldsModel,
    quantization: Option<Q>,
)
    ensures
        ({
            let width = completed(config, fields, quantization).head_dim as int;
            let heads = config.num_attention_heads as int;
            if config.head_dim > 0 {
                width == config.head_dim
            } else if heads > 0 {
                width * heads <= config.hidden_size < (width + 1) * heads
            } else {
                width == 0
            }
        }),
{
    let hidden = config.hidden_size as int;
    let heads = config.num_attention_heads as int;
    if config.head_dim == 0 && heads > 0 {
        let width = hidden / heads;
        assert(completed(config, fields, quantization).head_dim == width);
        assert(width * heads <= hidden < (width + 1) * heads) by (nonlinear_arith)
            requires
                width == hidden / heads,
                heads > 0,
                hidden >= 0,
        ;
    }
}

/// The two parts of a head make up the head where the unrotated one is left out,
/// the values are as wide as a head where their width is left out, and the
/// rotated share is the quotient of the rotated part and the head.
pub proof fn heads_are_split<Q, R>(
    config: ConfigModel<Q, R>,
    fields: FieldsModel,
    quantization: Option<Q>,
)
    ensures
        ({
            let done = completed(config, fields, quantization);
            let rotated = config.qk_rope_head_dim;
            &&& done.qk_rope_head_dim == rotated
            &&& if config.qk_nope_head_dim > 0 {
                done.qk_nope_head_dim == config.qk_nope_head_dim
            } else if rotated > 0 && done.head_dim > 0 {
                rotated <= done.head_dim ==> done.qk_nope_head_dim + rotated == done.head_dim
            } else {
                done.qk_nope_head_dim == 0
            }
            &&& if config.v_head_dim > 0 {
                done.v_head_dim == config.v_head_dim
            } else {
                done.v_head_dim == done.head_dim
            }
            &&& if rotated > 0 && done.head_dim > 0 {
                done.partial_rotary_factor == (RotaryFactor::Ratio {
                    rotated,
                    whole: done.head_dim,
                })
            } else {
                done.partial_rotary_factor == config.partial_rotary_factor
            }
        }),
{
}

/// The latent widths that the configuration leaves out are 512 for keys and
/// values and 1536 for queries, and every routed expert is an expert.
pub proof fn ranks_and_experts_are_filled_in<Q, R>(
    config: ConfigModel<Q, R>,
    fields: FieldsModel,
    quantization: Option<Q>,
)
    ensures
        ({
            let done = completed(config, fields, quantization);
            &&& config.kv_lora_rank == 0 ==> done.kv_lora_rank == 512
            &&& config.kv_lora_rank > 0 ==> done.kv_lora_rank == config.kv_lora_rank
            &&& config.q_lora_rank == 0 ==> done.q_lora_rank == 1536
            &&& config.q_lora_rank > 0 ==> done.q_lora_rank == config.q_lora_rank
            &&& config.num_experts == 0 ==> done.num_experts == config.n_routed_experts
            &&& config.num_experts > 0 ==> done.num_experts == config.num_experts
        }),
{
}

/// The shared experts are together as wide as their number times the width of
/// one, where the configuration does not say how wide, and where the product is
/// a machine integer, which is exactly where it fits.
pub proof fn shared_experts_add_up<Q, R>(
    config: ConfigModel<Q, R>,
    fields: FieldsModel,
    quantization: Option<Q>,
)
    ensures
        ({
            let width = completed(config, fields, quantization).shared_expert_intermediate_size;
            match fields.n_shared_experts {
                Some(count) => if config.shared_expert_intermediate_size == 0 {
                    let product = (count as usize) * config.moe_intermediate_size;
                    &&& shared_width_fits(config, fields) <==> product <= usize::MAX
                    &&& product <= usize::MAX ==> width == product
                } else {
                    &&& width == config.shared_expert_intermediate_size
                    &&& shared_width_fits(config, fields)
                },
                None => {
                    &&& width == config.shared_expert_intermediate_size
                    &&& shared_width_fits(config, fields)
                },
            }
        }),
{
    if let Some(count) = fields.n_shared_experts {
        if (count as usize) == 0 {
            assert((count as usize) * config.moe_intermediate_size == 0) by (nonlinear_arith)
                requires
                    (count as usize) == 0,
            ;
        }
    }
}

/// The rotated part fits exactly where it needs not be taken from a head, or is
/// no wider than the head.
pub proof fn rotated_parts_fit<Q, R>(
    config: ConfigModel<Q, R>,
    fields: FieldsModel,
    quantization: Option<Q>,
)
    ensures
        ({
            let head_dim = completed(config, fields, quantization).head_dim;
            rope_width_fits(config) <==> {
                ||| config.qk_nope_head_dim > 0
                ||| head_dim == 0
                ||| config.qk_rope_head_dim <= head_dim
            }
        }),
{
}

/// What a configuration is of, how it routes and how its layers attend: all
/// layers attend in full, a loss-free balancing brings a routing bias, and
/// `sigmoid` stands for `sqrtsoftplus`.
pub proof fn architectures_are_set<Q, R>(
    config: ConfigModel<Q, R>,
    fields: FieldsModel,
    quantization: Option<Q>,
)
    ensures
        ({
            let done = completed(config, fields, quantization);
            &&& done.model_type == "deepseek_v4"@
            &&& done.weight_prefix == "model"@
            &&& !done.nested_config
            &&& !done.attn_gated
            &&& config.scoring_func == "sqrtsoftplus"@ ==> done.scoring_func == "sigmoid"@
            &&& config.scoring_func != "sqrtsoftplus"@ ==> done.scoring_func == config.scoring_func
            &&& done.use_routing_bias <==> {
                ||| config.use_routing_bias
                ||| fields.topk_method == Some("noaux_tc"@)
            }
            &&& done.layer_types.len() == config.num_hidden_layers
            &&& forall|layer: int|
                0 <= layer < config.num_hidden_layers ==> #[trigger] done.layer_types[layer]
                    is FullAttention
        }),
{
}

/// What the document says takes the place of what was decoded, and what it does
/// not say leaves it.
pub proof fn documents_take_precedence<Q, R>(
    config: ConfigModel<Q, R>,
    fields: FieldsModel,
    quantization: Option<Q>,
)
    ensures
        ({
            let done = completed(config, fields, quantization);
            &&& match fields.num_nextn_predict_layers {
                Some(n) => done.num_mtp_modules == n as usize && done.mtp_transformer_layers == 1,
                None => done.num_mtp_modules == config.num_mtp_modules
                    && done.mtp_transformer_layers == config.mtp_transformer_layers,
            }
            &&& match fields.num_hash_layers {
                Some(n) => done.num_hash_layers == n as usize,
                None => done.num_hash_layers == config.num_hash_layers,
            }
            &&& match fields.compress_ratios {
                Some(ratios) => {
                    &&& done.compress_ratios.len() == ratios.len()
                    &&& forall|at: int|
                        0 <= at < ratios.len() ==> #[trigger] done.compress_ratios[at]
                            == ratios[at] as usize
                },
                None => done.compress_ratios == config.compress_ratios,
            }
            &&& match fields.rope_factor {
                Some(bits) => done.yarn_factor == bits,
                None => done.yarn_factor == config.yarn_factor,
            }
            &&& match fields.rope_beta_fast {
                Some(bits) => done.yarn_beta_fast == bits,
                None => done.yarn_beta_fast == config.yarn_beta_fast,
            }
            &&& match fields.rope_beta_slow {
                Some(bits) => done.yarn_beta_slow == bits,
                None => done.yarn_beta_slow == config.yarn_beta_slow,
            }
            &&& match fields.rope_original_max_position_embeddings {
                Some(n) => done.yarn_original_max_position_embeddings == n as usize,
                None => done.yarn_original_max_position_embeddings
                    == config.yarn_original_max_position_embeddings,
            }
            &&& match config.quantization_config {
                Some(decoded) => done.quantization_config == Some(decoded),
                None => done.quantization_config == quantization,
            }
        }),
{
}

/// What a completed configuration takes over from the decoded one untouched.
pub proof fn the_rest_is_untouched<Q, R>(
    config: ConfigModel<Q, R>,
    fields: FieldsModel,
    quantization: Option<Q>,
)
    ensures
        ({
            let done = completed(config, fields, quantization);
            &&& done.hidden_size == config.hidden_size
            &&& done.num_hidden_layers == config.num_hidden_layers
            &&& done.num_attention_heads == config.num_attention_heads
            &&& done.qk_rope_head_dim == config.qk_rope_head_dim
            &&& done.n_routed_experts == config.n_routed_experts
            &&& done.moe_intermediate_size == config.moe_intermediate_size
            &&& done.tie_word_embeddings == config.tie_word_embeddings
            &&& done.rest == config.rest
        }),
{
}

/// The model of a configuration has its fields, with texts and lists by their
/// elements.
pub proof fn configurations_are_shown_whole<Q, R>(config: ModelConfig<Q, R>)
    ensures
        config@.model_type == config.model_type@,
        config@.weight_prefix == config.weight_prefix@,
        config@.nested_config == config.nested_config,
        config@.attn_gated == config.attn_gated,
        config@.hidden_size == config.hidden_size,
        config@.num_hidden_layers == config.num_hidden_layers,
        config@.num_attention_heads == config.num_attention_heads,
        config@.head_dim == config.head_dim,
        config@.q_lora_rank == config.q_lora_rank,
        config@.kv_lora_rank == config.kv_lora_rank,
        config@.qk_nope_head_dim == config.qk_nope_head_dim,
        config@.qk_rope_head_dim == config.qk_rope_head_dim,
        config@.v_head_dim == config.v_head_dim,
        config@.partial_rotary_factor == config.partial_rotary_factor,
        config@.layer_types == config.layer_types@,
        config@.num_experts == config.num_experts,
        config@.n_routed_experts == config.n_routed_experts,
        config@.moe_intermediate_size == config.moe_intermediate_size,
        config@.shared_expert_intermediate_size == config.shared_expert_intermediate_size,
        config@.scoring_func == config.scoring_func@,
        config@.use_routing_bias == config.use_routing_bias,
        config@.num_mtp_modules == config.num_mtp_modules,
        config@.mtp_transformer_layers == config.mtp_transformer_layers,
        config@.quantization_config == config.quantization_config,
        config@.compress_ratios == config.compress_ratios@,
        config@.num_hash_layers == config.num_hash_layers,
        config@.yarn_factor == config.yarn_factor,
        config@.yarn_beta_fast == config.yarn_beta_fast,
        config@.yarn_beta_slow == config.yarn_beta_slow,
        config@.yarn_original_max_position_embeddings
            == config.yarn_original_max_position_embeddings,
        config@.tie_word_embeddings == config.tie_word_embeddings,
        config@.rest == config.rest,
{
}

/// The model of what a document says has its fields, with texts and lists by
/// their elements.
pub proof fn fields_are_shown_whole(fields: DocumentFields)
    ensures
        fields@.n_shared_experts == fields.n_shared_experts,
        match fields.topk_method {
            Some(method) => fields@.topk_method == Some(method@),
            None => fields@.topk_method is None,
        },
        fields@.num_nextn_predict_layers == fields.num_nextn_predict_layers,
        match fields.compress_ratios {
            Some(ratios) => fields@.compress_ratios == Some(ratios@),
            None => fields@.compress_ratios is None,
        },
        fields@.num_hash_layers == fields.num_hash_layers,
        fields@.rope_factor == fields.rope_factor,
        fields@.rope_beta_fast == fields.rope_beta_fast,
        fields@.rope_beta_slow == fields.rope_beta_slow,
        fields@.rope_original_max_position_embeddings
            == fields.rope_original_max_position_embeddings,
{
}

/// A document whose member under `key` is an unsigned integer gives that integer,
/// and any other gives none.
pub open spec fn gives_integer(document: Json, key: Seq<char>, given: Option<u64>) -> bool {
    match given {
        Some(n) => document matches Json::Object(members) && members.dom().contains(key)
            && members[key] == Json::Number(JsonNumber::PosInt(n)),
        None => !(document matches Json::Object(members) && members.dom().contains(key)
            && members[key] matches Json::Number(JsonNumber::PosInt(_))),
    }
}

/// A document whose member under `key` is a number gives that number's bits, and
/// any other gives none.
pub open spec fn gives_number(document: Json, key: Seq<char>, given: Option<u64>) -> bool {
    match given {
        Some(bits) => document matches Json::Object(members) && members.dom().contains(key)
            && (members[key] matches Json::Number(number) && float_bits(number) == bits),
        None => !(document matches Json::Object(members) && members.dom().contains(key)
            && members[key] is Number),
    }
}

/// What is read from a document stands there under its name, and what is not
/// read does not.
pub proof fn fields_stand_in_the_document(document: Json)
    ensures
        ({
            let fields = fields_of(document);
            &&& gives_integer(document, "n_shared_experts"@, fields.n_shared_experts)
            &&& gives_integer(
                document,
                "num_nextn_predict_layers"@,
                fields.num_nextn_predict_layers,
            )
            &&& gives_integer(document, "num_hash_layers"@, fields.num_hash_layers)
            &&& match fields.topk_method {
                Some(method) => document matches Json::Object(members) && members.dom().contains(
                    "topk_method"@,
                ) && members["topk_method"@] == Json::Text(method),
                None => !(document matches Json::Object(members) && members.dom().contains(
                    "topk_method"@,
                ) && members["topk_method"@] is Text),
            }
            &&& match fields.compress_ratios {
                Some(ratios) => document matches Json::Object(members) && members.dom().contains(
                    "compress_ratios"@,
                ) && (members["compress_ratios"@] matches Json::Array(items) && ratios
                    == unsigned_elements(items)),
                None => !(document matches Json::Object(members) && members.dom().contains(
                    "compress_ratios"@,
                ) && members["compress_ratios"@] is Array),
            }
        }),
{
}

/// The scaling of rotary embeddings is read from the member `rope_parameters`,
/// and from nowhere else.
pub proof fn scaling_stands_in_the_document(document: Json)
    ensures
        ({
            let fields = fields_of(document);
            match document {
                Json::Object(members) => if members.dom().contains("rope_parameters"@) {
                    let rope = members["rope_parameters"@];
                    &&& gives_number(rope, "factor"@, fields.rope_factor)
                    &&& gives_number(rope, "beta_fast"@, fields.rope_beta_fast)
                    &&& gives_number(rope, "beta_slow"@, fields.rope_beta_slow)
                    &&& gives_integer(
                        rope,
                        "original_max_position_embeddings"@,
                        fields.rope_original_max_position_embeddings,
                    )
                } else {
                    &&& fields.rope_factor is None
                    &&& fields.rope_beta_fast is None
                    &&& fields.rope_beta_slow is None
                    &&& fields.rope_original_max_position_embeddings is None
                },
                _ => {
                    &&& fields.rope_factor is None
                    &&& fields.rope_beta_fast is None
                    &&& fields.rope_beta_slow is None
                    &&& fields.rope_original_max_position_embeddings is None
                },
            }
        }),
{
}

/// An array gives its unsigned integers in order: an element that is one is
/// added behind those before it, and any other is passed over.
pub proof fn unsigned_elements_keep_their_order(items: Seq<Json>, item: Json)
    ensures
        unsigned_elements(Seq::empty()).len() == 0,
        match item {
            Json::Number(JsonNumber::PosInt(n)) => unsigned_elements(items.push(item))
                == unsigned_elements(items).push(n),
            _ => unsigned_elements(items.push(item)) == unsigned_elements(items),
        },
{
    reveal(Seq::filter);
    let longer = items.push(item);
    assert(longer.drop_last() =~= items);
    assert(longer.last() == item);
    if let Json::Number(JsonNumber::PosInt(n)) = item {
        assert(unsigned_elements(longer) =~= unsigned_elements(items).push(n));
    }
}

/// The rows of the second query projection and the bytes of a rotary projection
/// are products of the model's sizes.
pub proof fn sizes_are_products<Q, R>(config: ModelConfig<Q, R>)
    ensures
        config.query_rows() == config.num_attention_heads * config.head_dim,
        config.rope_bytes() == config.qk_rope_head_dim * config.hidden_size * 2,
{
}

} // verus!

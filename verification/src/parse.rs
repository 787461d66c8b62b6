//! Parsing of a DeepSeek-V4 `config.json`.
use vstd::prelude::*;

use crate::config::{
    complete, completed, fields_of, rope_width_fits, rotated_parts_fit, said_width,
    shared_experts_add_up, shared_width_fits, ConfigModel, DocumentFields, ModelConfig,
    DEFAULT_KV_LORA_RANK,
};
use crate::json::{
    json_of, null_member_to_zero, only_null_is_replaced, parse_text, parsed, render, rendered,
    zero_for_null, Json, JsonNumber,
};

verus! {

/// Why a configuration was not parsed. `D` and `F` are the errors of the
/// caller's decoder and finalizer.
#[derive(Debug)]
pub enum ParseError<D, F> {
    /// The text is no JSON document.
    InvalidJson(serde_json::Error),
    /// The document could not be written back as text.
    Reserialize(serde_json::Error),
    /// The document is no model configuration.
    Decode(D),
    /// The width of the shared experts is beyond the machine's integers.
    SharedWidthOverflow,
    /// The rotated part of a head is wider than the head.
    RopeWiderThanHead,
    /// The completed configuration was not accepted.
    Finalize(F),
}

impl<D, F> ParseError<D, F> {
    /// What the error says, beyond the error that caused it.
    pub fn message(&self) -> (res: Option<String>)
        ensures
            match self {
                ParseError::InvalidJson(_) => res matches Some(message) && message@
                    == "Invalid JSON in DeepSeek-V4 config.json"@,
                ParseError::Reserialize(_) => res matches Some(message) && message@
                    == "Failed to re-serialize DeepSeek-V4 config"@,
                ParseError::Decode(_) => res matches Some(message) && message@
                    == "Failed to parse deepseek_v4 config.json"@,
                ParseError::SharedWidthOverflow => res matches Some(message) && message@
                    == "attempt to multiply with overflow"@,
                ParseError::RopeWiderThanHead => res matches Some(message) && message@
                    == "attempt to subtract with overflow"@,
                ParseError::Finalize(_) => res is None,
            },
    {
        match self {
            ParseError::InvalidJson(_) => Some(
                "Invalid JSON in DeepSeek-V4 config.json".to_owned(),
            ),
            ParseError::Reserialize(_) => Some(
                "Failed to re-serialize DeepSeek-V4 config".to_owned(),
            ),
            ParseError::Decode(_) => Some("Failed to parse deepseek_v4 config.json".to_owned()),
            ParseError::SharedWidthOverflow => Some("attempt to multiply with overflow".to_owned()),
            ParseError::RopeWiderThanHead => Some("attempt to subtract with overflow".to_owned()),
            ParseError::Finalize(_) => None,
        }
    }
}

/// A document as it is decoded: some checkpoints give `kv_lora_rank` as `null`
/// where others leave it out, and `null` is read as zero.
pub open spec fn repaired(document: Json) -> Json {
    zero_for_null(document, "kv_lora_rank"@)
}

/// Whether the derived width of the shared experts is a machine integer.
fn check_shared_width<Q, R>(config: &ModelConfig<Q, R>, fields: &DocumentFields) -> (res: bool)
    ensures
        res == shared_width_fits(config@, fields@),
{
    let n_shared_experts: usize = said_width(fields.n_shared_experts, 0);
    if config.shared_expert_intermediate_size == 0 && n_shared_experts > 0 {
        n_shared_experts.checked_mul(config.moe_intermediate_size).is_some()
    } else {
        true
    }
}

/// Whether the rotated part of a head is no wider than the head.
fn check_rope_width<Q, R>(config: &ModelConfig<Q, R>) -> (res: bool)
    ensures
        res == rope_width_fits(config@),
{
    let head_dim: usize = if config.head_dim == 0 && config.num_attention_heads > 0 {
        config.hidden_size / config.num_attention_heads
    } else {
        config.head_dim
    };
    config.qk_nope_head_dim != 0 || head_dim == 0 || config.qk_rope_head_dim <= head_dim
}

/// What parsing a document comes to: the decoder gets the text of the repaired
/// document, the completed configuration goes to the finalizer, and each failure
/// ends the parse.
pub open spec fn parses_to<Q, R, D, F, Decode, Quantization, Finalize>(
    document: Json,
    decode: Decode,
    parse_quantization_config: Quantization,
    finalize_config: Finalize,
    res: Result<ModelConfig<Q, R>, ParseError<D, F>>,
) -> bool where
    Decode: FnOnce(&str) -> Result<ModelConfig<Q, R>, D>,
    Quantization: FnOnce(&serde_json::Value) -> Option<Q>,
    Finalize: FnOnce(ModelConfig<Q, R>, &serde_json::Value) -> Result<ModelConfig<Q, R>, F>,
 {
    let document = repaired(document);
    let fields = fields_of(document);
    exists|text: &str, decoded: Result<ModelConfig<Q, R>, D>|
        {
            &&& text@ == rendered(document)
            &&& #[trigger] decode.ensures((text,), decoded)
            &&& match decoded {
                Err(error) => res == Err::<ModelConfig<Q, R>, ParseError<D, F>>(
                    ParseError::Decode(error),
                ),
                Ok(config) => if !shared_width_fits(config@, fields) {
                    res == Err::<ModelConfig<Q, R>, ParseError<D, F>>(
                        ParseError::SharedWidthOverflow,
                    )
                } else if !rope_width_fits(config@) {
                    res == Err::<ModelConfig<Q, R>, ParseError<D, F>>(
                        ParseError::RopeWiderThanHead,
                    )
                } else {
                    exists|
                        value: &serde_json::Value,
                        quantization: Option<Q>,
                        done: ModelConfig<Q, R>,
                        finalized: Result<ModelConfig<Q, R>, F>,
                    |
                        {
                            &&& json_of(*value) == document
                            &&& config.quantization_config is None
                                ==> parse_quantization_config.ensures((value,), quantization)
                            &&& done@ == #[trigger] completed(config@, fields, quantization)
                            &&& #[trigger] finalize_config.ensures((done, value), finalized)
                            &&& match finalized {
                                Ok(config) => res == Ok::<_, ParseError<D, F>>(config),
                                Err(error) => res == Err::<ModelConfig<Q, R>, ParseError<D, F>>(
                                    ParseError::Finalize(error),
                                ),
                            }
                        }
                },
            }
        }
}

/// Parses a DeepSeek-V4 `config.json`.
///
/// `decode` reads the generic configuration from the repaired document's text,
/// `parse_quantization_config` reads how the weights are quantised where
/// `decode` found nothing of it, and `finalize_config` derives what every
/// model's configuration has in common.
pub fn parse_deepseek_v4<Q, R, D, F, Decode, Quantization, Finalize>(
    json: &str,
    decode: Decode,
    parse_quantization_config: Quantization,
    finalize_config: Finalize,
) -> (res: Result<ModelConfig<Q, R>, ParseError<D, F>>) where
    Decode: FnOnce(&str) -> Result<ModelConfig<Q, R>, D>,
    Quantization: FnOnce(&serde_json::Value) -> Option<Q>,
    Finalize: FnOnce(ModelConfig<Q, R>, &serde_json::Value) -> Result<ModelConfig<Q, R>, F>,

    requires
        forall|text: &str| decode.requires((text,)),
        forall|document: &serde_json::Value| parse_quantization_config.requires((document,)),
        forall|config: ModelConfig<Q, R>, document: &serde_json::Value|
            finalize_config.requires((config, document)),
    ensures
        parsed(json@) is None <==> res matches Err(ParseError::InvalidJson(_)),
        !(res matches Err(ParseError::Reserialize(_))),
        parsed(json@) matches Some(document) ==> parses_to(
            document,
            decode,
            parse_quantization_config,
            finalize_config,
            res,
        ),
{
    let mut raw = match parse_text(json) {
        Ok(raw) => raw,
        Err(error) => return Err(ParseError::InvalidJson(error)),
    };
    null_member_to_zero(&mut raw, "kv_lora_rank");
    let text = match render(&raw) {
        Ok(text) => text,
        Err(error) => return Err(ParseError::Reserialize(error)),
    };
    let config = match decode(text.as_str()) {
        Ok(config) => config,
        Err(error) => return Err(ParseError::Decode(error)),
    };
    let fields = DocumentFields::read(&raw);
    if !check_shared_width(&config, &fields) {
        return Err(ParseError::SharedWidthOverflow);
    }
    if !check_rope_width(&config) {
        return Err(ParseError::RopeWiderThanHead);
    }
    let quantization: Option<Q> = if config.quantization_config.is_none() {
        parse_quantization_config(&raw)
    } else {
        None
    };
    let done = complete(config, &fields, quantization);
    match finalize_config(done, &raw) {
        Ok(config) => Ok(config),
        Err(error) => Err(ParseError::Finalize(error)),
    }
}

/// What a decoder, a quantization parser and a finalizer give, where each is a
/// function of what it is handed.
#[verifier::reject_recursive_types(Q)]
#[verifier::reject_recursive_types(R)]
pub struct Rules<Q, R, D, F> {
    pub decoded: spec_fn(Seq<char>) -> Result<ConfigModel<Q, R>, D>,
    pub quantization: spec_fn(Json) -> Option<Q>,
    pub finalized: spec_fn(ConfigModel<Q, R>, Json) -> Result<ConfigModel<Q, R>, F>,
}

/// A result, with the configuration taken by its model.
pub open spec fn result_model<Q, R, E>(res: Result<ModelConfig<Q, R>, E>) -> Result<
    ConfigModel<Q, R>,
    E,
> {
    match res {
        Ok(config) => Ok(config@),
        Err(error) => Err(error),
    }
}

/// A decoder, a quantization parser and a finalizer follow the rules.
pub open spec fn follow<Q, R, D, F, Decode, Quantization, Finalize>(
    decode: Decode,
    parse_quantization_config: Quantization,
    finalize_config: Finalize,
    rules: Rules<Q, R, D, F>,
) -> bool where
    Decode: FnOnce(&str) -> Result<ModelConfig<Q, R>, D>,
    Quantization: FnOnce(&serde_json::Value) -> Option<Q>,
    Finalize: FnOnce(ModelConfig<Q, R>, &serde_json::Value) -> Result<ModelConfig<Q, R>, F>,
 {
    &&& forall|text: &str, res: Result<ModelConfig<Q, R>, D>| #[trigger]
        decode.ensures((text,), res) ==> result_model(res) == (rules.decoded)(text@)
    &&& forall|value: &serde_json::Value, res: Option<Q>| #[trigger]
        parse_quantization_config.ensures((value,), res) ==> res == (rules.quantization)(
            json_of(*value),
        )
    &&& forall|
        config: ModelConfig<Q, R>,
        value: &serde_json::Value,
        res: Result<ModelConfig<Q, R>, F>,
    | #[trigger]
        finalize_config.ensures((config, value), res) ==> result_model(res) == (rules.finalized)(
            config@,
            json_of(*value),
        )
}

impl<Q, R, D, F> Rules<Q, R, D, F> {
    /// The result of parsing a document by these rules.
    pub open spec fn outcome(self, document: Json) -> Result<
        ConfigModel<Q, R>,
        ParseError<D, F>,
    > {
        let document = repaired(document);
        let fields = fields_of(document);
        match (self.decoded)(rendered(document)) {
            Err(error) => Err(ParseError::Decode(error)),
            Ok(config) => if !shared_width_fits(config, fields) {
                Err(ParseError::SharedWidthOverflow)
            } else if !rope_width_fits(config) {
                Err(ParseError::RopeWiderThanHead)
            } else {
                let done = completed(config, fields, (self.quantization)(document));
                match (self.finalized)(done, document) {
                    Ok(config) => Ok(config),
                    Err(error) => Err(ParseError::Finalize(error)),
                }
            },
        }
    }
}

/// Parsing with functions that follow rules has one result.
pub proof fn rules_fix_the_result<Q, R, D, F, Decode, Quantization, Finalize>(
    document: Json,
    decode: Decode,
    parse_quantization_config: Quantization,
    finalize_config: Finalize,
    rules: Rules<Q, R, D, F>,
    res: Result<ModelConfig<Q, R>, ParseError<D, F>>,
) where
    Decode: FnOnce(&str) -> Result<ModelConfig<Q, R>, D>,
    Quantization: FnOnce(&serde_json::Value) -> Option<Q>,
    Finalize: FnOnce(ModelConfig<Q, R>, &serde_json::Value) -> Result<ModelConfig<Q, R>, F>,

    requires
        parses_to(document, decode, parse_quantization_config, finalize_config, res),
        follow(decode, parse_quantization_config, finalize_config, rules),
    ensures
        result_model(res) == rules.outcome(document),
{
}

/// A document with a latent width.
pub open spec fn with_rank(members: Map<Seq<char>, Json>, rank: Json) -> Json {
    Json::Object(members.insert("kv_lora_rank"@, rank))
}

/// A latent width as a document gives it.
pub open spec fn rank_of(width: u64) -> Json {
    Json::Number(JsonNumber::PosInt(width))
}

/// A `null` latent width and a zero one are decoded from the same text.
pub proof fn null_rank_is_decoded_as_zero(members: Map<Seq<char>, Json>)
    ensures
        repaired(with_rank(members, Json::Null)) == repaired(with_rank(members, rank_of(0))),
        rendered(repaired(with_rank(members, Json::Null))) == rendered(
            repaired(with_rank(members, rank_of(0))),
        ),
{
    let key = "kv_lora_rank"@;
    assert(members.insert(key, Json::Null).insert(key, rank_of(0)) =~= members.insert(
        key,
        rank_of(0),
    ));
}

/// A `null` latent width and a zero one give the same result, where the decoder,
/// the quantization parser and the finalizer are functions of what they are
/// handed.
pub proof fn null_rank_is_parsed_as_zero<Q, R, D, F, Decode, Quantization, Finalize>(
    members: Map<Seq<char>, Json>,
    decode: Decode,
    parse_quantization_config: Quantization,
    finalize_config: Finalize,
    rules: Rules<Q, R, D, F>,
    with_null: Result<ModelConfig<Q, R>, ParseError<D, F>>,
    with_zero: Result<ModelConfig<Q, R>, ParseError<D, F>>,
) where
    Decode: FnOnce(&str) -> Result<ModelConfig<Q, R>, D>,
    Quantization: FnOnce(&serde_json::Value) -> Option<Q>,
    Finalize: FnOnce(ModelConfig<Q, R>, &serde_json::Value) -> Result<ModelConfig<Q, R>, F>,

    requires
        follow(decode, parse_quantization_config, finalize_config, rules),
        parses_to(
            with_rank(members, Json::Null),
            decode,
            parse_quantization_config,
            finalize_config,
            with_null,
        ),
        parses_to(
            with_rank(members, rank_of(0)),
            decode,
            parse_quantization_config,
            finalize_config,
            with_zero,
        ),
    ensures
        result_model(with_null) == result_model(with_zero),
{
    let null = with_rank(members, Json::Null);
    let zero = with_rank(members, rank_of(0));
    rules_fix_the_result(
        null,
        decode,
        parse_quantization_config,
        finalize_config,
        rules,
        with_null,
    );
    rules_fix_the_result(
        zero,
        decode,
        parse_quantization_config,
        finalize_config,
        rules,
        with_zero,
    );
    null_rank_is_decoded_as_zero(members);
}

/// Of two documents that differ in the latent width, one zero and one the
/// fallback, the rules read nothing else differently: the decoder gives each its
/// width, and neither the quantization parser nor the finalizer looks for it.
pub open spec fn rank_is_a_field<Q, R, D, F>(
    members: Map<Seq<char>, Json>,
    rules: Rules<Q, R, D, F>,
) -> bool {
    let zero = with_rank(members, rank_of(0));
    let fallback = with_rank(members, rank_of(DEFAULT_KV_LORA_RANK as u64));
    &&& match (rules.decoded)(rendered(zero)) {
        Ok(config) => {
            &&& config.kv_lora_rank == 0
            &&& (rules.decoded)(rendered(fallback)) == Ok::<_, D>(
                ConfigModel { kv_lora_rank: DEFAULT_KV_LORA_RANK, ..config },
            )
        },
        Err(error) => (rules.decoded)(rendered(fallback)) == Err::<ConfigModel<Q, R>, D>(error),
    }
    &&& (rules.quantization)(zero) == (rules.quantization)(fallback)
    &&& forall|config: ConfigModel<Q, R>| #[trigger]
        (rules.finalized)(config, zero) == (rules.finalized)(config, fallback)
}

/// By the rules, a zero latent width and the fallback itself come to the same.
proof fn zero_rank_comes_to_the_fallback<Q, R, D, F>(
    members: Map<Seq<char>, Json>,
    rules: Rules<Q, R, D, F>,
)
    requires
        rank_is_a_field(members, rules),
    ensures
        rules.outcome(with_rank(members, rank_of(0))) == rules.outcome(
            with_rank(members, rank_of(DEFAULT_KV_LORA_RANK as u64)),
        ),
{
    let zero = with_rank(members, rank_of(0));
    let fallback = with_rank(members, rank_of(DEFAULT_KV_LORA_RANK as u64));
    assert(repaired(zero) == zero);
    assert(repaired(fallback) == fallback);
    rank_is_in_no_other_field(zero, fallback);
    if let Ok(config) = (rules.decoded)(rendered(zero)) {
        let given = ConfigModel { kv_lora_rank: DEFAULT_KV_LORA_RANK, ..config };
        let fields = fields_of(zero);
        let quantization = (rules.quantization)(zero);
        assert(completed(config, fields, quantization) == completed(given, fields, quantization));
    }
}

/// A `null` latent width, a zero one and the fallback itself give the same
/// result, so that `null` is by itself no error. The latent width that results
/// is the fallback, where the finalizer keeps the width that it is handed.
pub proof fn null_rank_is_parsed_as_the_fallback<Q, R, D, F, Decode, Quantization, Finalize>(
    members: Map<Seq<char>, Json>,
    decode: Decode,
    parse_quantization_config: Quantization,
    finalize_config: Finalize,
    rules: Rules<Q, R, D, F>,
    with_null: Result<ModelConfig<Q, R>, ParseError<D, F>>,
    with_zero: Result<ModelConfig<Q, R>, ParseError<D, F>>,
    with_fallback: Result<ModelConfig<Q, R>, ParseError<D, F>>,
) where
    Decode: FnOnce(&str) -> Result<ModelConfig<Q, R>, D>,
    Quantization: FnOnce(&serde_json::Value) -> Option<Q>,
    Finalize: FnOnce(ModelConfig<Q, R>, &serde_json::Value) -> Result<ModelConfig<Q, R>, F>,

    requires
        follow(decode, parse_quantization_config, finalize_config, rules),
        rank_is_a_field(members, rules),
        parses_to(
            with_rank(members, Json::Null),
            decode,
            parse_quantization_config,
            finalize_config,
            with_null,
        ),
        parses_to(
            with_rank(members, rank_of(0)),
            decode,
            parse_quantization_config,
            finalize_config,
            with_zero,
        ),
        parses_to(
            with_rank(members, rank_of(DEFAULT_KV_LORA_RANK as u64)),
            decode,
            parse_quantization_config,
            finalize_config,
            with_fallback,
        ),
    ensures
        result_model(with_null) == result_model(with_fallback),
        result_model(with_zero) == result_model(with_fallback),
        keeps_rank(rules) ==> (with_fallback matches Ok(config) ==> config.kv_lora_rank
            == DEFAULT_KV_LORA_RANK),
{
    let fallback = with_rank(members, rank_of(DEFAULT_KV_LORA_RANK as u64));
    null_rank_is_parsed_as_zero(
        members,
        decode,
        parse_quantization_config,
        finalize_config,
        rules,
        with_null,
        with_zero,
    );
    rules_fix_the_result(
        with_rank(members, rank_of(0)),
        decode,
        parse_quantization_config,
        finalize_config,
        rules,
        with_zero,
    );
    rules_fix_the_result(
        fallback,
        decode,
        parse_quantization_config,
        finalize_config,
        rules,
        with_fallback,
    );
    zero_rank_comes_to_the_fallback(members, rules);
    assert(repaired(fallback) == fallback);
}

/// The finalizer keeps the latent width that it is handed.
pub open spec fn keeps_rank<Q, R, D, F>(rules: Rules<Q, R, D, F>) -> bool {
    forall|config: ConfigModel<Q, R>, document: Json|
        #[trigger] (rules.finalized)(config, document) matches Ok(done) ==> done.kv_lora_rank
            == config.kv_lora_rank
}

/// Documents that agree on every member but the latent width say the same
/// beyond the decoded configuration.
proof fn rank_is_in_no_other_field(left: Json, right: Json)
    requires
        forall|key: Seq<char>|
            key != "kv_lora_rank"@ ==> #[trigger] left.member(key) == right.member(key),
    ensures
        fields_of(left) == fields_of(right),
{
    let key = "kv_lora_rank"@;
    reveal_strlit("kv_lora_rank");
    reveal_strlit("n_shared_experts");
    reveal_strlit("topk_method");
    reveal_strlit("num_nextn_predict_layers");
    reveal_strlit("compress_ratios");
    reveal_strlit("num_hash_layers");
    reveal_strlit("rope_parameters");
    assert(key[0] == 'k');
    assert("n_shared_experts"@[0] == 'n');
    assert("topk_method"@[0] == 't');
    assert("num_nextn_predict_layers"@[0] == 'n');
    assert("compress_ratios"@[0] == 'c');
    assert("num_hash_layers"@[0] == 'n');
    assert("rope_parameters"@[0] == 'r');
    assert(left.member("n_shared_experts"@) == right.member("n_shared_experts"@));
    assert(left.member("topk_method"@) == right.member("topk_method"@));
    assert(left.member("num_nextn_predict_layers"@) == right.member("num_nextn_predict_layers"@));
    assert(left.member("compress_ratios"@) == right.member("compress_ratios"@));
    assert(left.member("num_hash_layers"@) == right.member("num_hash_layers"@));
    assert(left.member("rope_parameters"@) == right.member("rope_parameters"@));
}

/// The repair of a document changes nothing that is read from it beyond the
/// decoded configuration.
pub proof fn repair_keeps_the_fields(document: Json)
    ensures
        fields_of(repaired(document)) == fields_of(document),
{
    only_null_is_replaced(document, "kv_lora_rank"@);
    rank_is_in_no_other_field(repaired(document), document);
}

/// The repair of a document touches one member alone, and that one only where it
/// is `null`: a `kv_lora_rank` of `null` is zero.
pub proof fn repair_touches_one_null(document: Json)
    ensures
        match document {
            Json::Object(members) => repaired(document) matches Json::Object(after) && {
                &&& after.dom() == members.dom()
                &&& forall|key: Seq<char>| #[trigger]
                    members.dom().contains(key) ==> if key == "kv_lora_rank"@
                        && members[key] is Null {
                        after[key] == Json::Number(JsonNumber::PosInt(0))
                    } else {
                        after[key] == members[key]
                    }
            },
            _ => repaired(document) == document,
        },
{
    if let Json::Object(members) = document {
        if let Json::Object(after) = repaired(document) {
            assert(after.dom() =~= members.dom());
        }
    }
}

/// How a parse ends: a document that does not decode is refused with the
/// decoder's error; then shared experts whose number times their width is beyond
/// the machine, and then a rotated part that is to be taken from a narrower head,
/// are refused; and otherwise the finalizer decides on the completed
/// configuration.
pub proof fn parses_end_as<Q, R, D, F, Decode, Quantization, Finalize>(
    document: Json,
    decode: Decode,
    parse_quantization_config: Quantization,
    finalize_config: Finalize,
    rules: Rules<Q, R, D, F>,
    res: Result<ModelConfig<Q, R>, ParseError<D, F>>,
) where
    Decode: FnOnce(&str) -> Result<ModelConfig<Q, R>, D>,
    Quantization: FnOnce(&serde_json::Value) -> Option<Q>,
    Finalize: FnOnce(ModelConfig<Q, R>, &serde_json::Value) -> Result<ModelConfig<Q, R>, F>,

    requires
        parses_to(document, decode, parse_quantization_config, finalize_config, res),
        follow(decode, parse_quantization_config, finalize_config, rules),
    ensures
        ({
            let document = repaired(document);
            let fields = fields_of(document);
            match (rules.decoded)(rendered(document)) {
                Err(error) => res matches Err(ParseError::Decode(told)) && told == error,
                Ok(config) => {
                    let done = completed(config, fields, (rules.quantization)(document));
                    let too_many = config.shared_expert_intermediate_size == 0
                        && (fields.n_shared_experts matches Some(count) && (count as usize)
                        * config.moe_intermediate_size > usize::MAX);
                    let too_narrow = config.qk_nope_head_dim == 0 && 0 < done.head_dim
                        < config.qk_rope_head_dim;
                    if too_many {
                        res matches Err(ParseError::SharedWidthOverflow)
                    } else if too_narrow {
                        res matches Err(ParseError::RopeWiderThanHead)
                    } else {
                        match (rules.finalized)(done, document) {
                            Ok(finalized) => res matches Ok(config) && config@ == finalized,
                            Err(error) => res matches Err(ParseError::Finalize(told)) && told
                                == error,
                        }
                    }
                },
            }
        }),
{
    rules_fix_the_result(
        document,
        decode,
        parse_quantization_config,
        finalize_config,
        rules,
        res,
    );
    let document = repaired(document);
    let fields = fields_of(document);
    let quantization = (rules.quantization)(document);
    if let Ok(config) = (rules.decoded)(rendered(document)) {
        shared_experts_add_up(config, fields, quantization);
        rotated_parts_fit(config, fields, quantization);
    }
}

} // verus!

use deepseek_v4::config::{
    complete, scoring_is_replaced, DocumentFields, LayerType, ModelConfig, RotaryFactor,
    DEFAULT_KV_LORA_RANK, DEFAULT_Q_LORA_RANK,
};
use deepseek_v4::context::LayerContext;
use deepseek_v4::parse::{parse_deepseek_v4, ParseError};
use deepseek_v4::weight_loader::{DeepSeekV4WeightLoader, LmHeadStage};
use deepseek_v4::weights::KvCacheDtype;

type Config = ModelConfig<u8, Vec<u32>>;

fn blank() -> Config {
    ModelConfig {
        model_type: String::new(),
        weight_prefix: String::new(),
        nested_config: true,
        attn_gated: true,
        hidden_size: 0,
        num_hidden_layers: 0,
        num_attention_heads: 0,
        head_dim: 0,
        q_lora_rank: 0,
        kv_lora_rank: 0,
        qk_nope_head_dim: 0,
        qk_rope_head_dim: 0,
        v_head_dim: 0,
        partial_rotary_factor: RotaryFactor::Given(1.0f64.to_bits()),
        layer_types: vec![],
        num_experts: 0,
        n_routed_experts: 0,
        moe_intermediate_size: 0,
        shared_expert_intermediate_size: 0,
        scoring_func: String::new(),
        use_routing_bias: false,
        num_mtp_modules: 0,
        mtp_transformer_layers: 0,
        quantization_config: None,
        compress_ratios: vec![],
        num_hash_layers: 0,
        yarn_factor: 0,
        yarn_beta_fast: 0,
        yarn_beta_slow: 0,
        yarn_original_max_position_embeddings: 0,
        tie_word_embeddings: false,
        rest: vec![],
    }
}

fn silent() -> DocumentFields {
    DocumentFields {
        n_shared_experts: None,
        topk_method: None,
        num_nextn_predict_layers: None,
        compress_ratios: None,
        num_hash_layers: None,
        rope_factor: None,
        rope_beta_fast: None,
        rope_beta_slow: None,
        rope_original_max_position_embeddings: None,
    }
}

/// Decodes the sizes that the tests use, as a derived decoder would: an absent
/// member is zero, and `null` is an error.
fn decode(text: &str) -> Result<Config, String> {
    let document: serde_json::Value = serde_json::from_str(text).map_err(|e| e.to_string())?;
    let size = |key: &str| -> Result<usize, String> {
        match document.get(key) {
            None => Ok(0),
            Some(value) => value.as_u64().map(|n| n as usize).ok_or(format!("invalid {key}")),
        }
    };
    let mut config = blank();
    config.hidden_size = size("hidden_size")?;
    config.num_hidden_layers = size("num_hidden_layers")?;
    config.num_attention_heads = size("num_attention_heads")?;
    config.head_dim = size("head_dim")?;
    config.q_lora_rank = size("q_lora_rank")?;
    config.kv_lora_rank = size("kv_lora_rank")?;
    config.qk_rope_head_dim = size("qk_rope_head_dim")?;
    config.n_routed_experts = size("n_routed_experts")?;
    config.moe_intermediate_size = size("moe_intermediate_size")?;
    if let Some(vocabulary) = document.get("vocab_size").and_then(|v| v.as_u64()) {
        config.rest.push(vocabulary as u32);
    }
    if let Some(scoring) = document.get("scoring_func").and_then(|v| v.as_str()) {
        config.scoring_func = scoring.to_string();
    }
    Ok(config)
}

fn parse(json: &str) -> Result<Config, ParseError<String, String>> {
    parse_deepseek_v4(json, decode, |_| Some(4), |config, _| Ok(config))
}

const FLASH: &str = r#"{
    "model_type": "something",
    "hidden_size": 4096,
    "num_hidden_layers": 3,
    "num_attention_heads": 64,
    "vocab_size": 129280,
    "qk_rope_head_dim": 16,
    "kv_lora_rank": null,
    "n_routed_experts": 256,
    "n_shared_experts": 1,
    "moe_intermediate_size": 2048,
    "scoring_func": "sqrtsoftplus",
    "topk_method": "noaux_tc",
    "num_nextn_predict_layers": 1,
    "compress_ratios": [0, 4, "x", -1, 128, 2.5, 4],
    "num_hash_layers": 3,
    "rope_parameters": {
        "factor": 16,
        "beta_fast": 32.5,
        "beta_slow": "one",
        "original_max_position_embeddings": 65536
    }
}"#;

#[test]
fn parses_a_whole_configuration() {
    let config = parse(FLASH).unwrap();
    assert_eq!(config.model_type, "deepseek_v4");
    assert_eq!(config.weight_prefix, "model");
    assert!(!config.attn_gated);
    assert!(!config.nested_config);
    assert_eq!(config.hidden_size, 4096);
    assert_eq!(config.head_dim, 64);
    assert_eq!(config.q_lora_rank, 1536);
    assert_eq!(config.kv_lora_rank, 512);
    assert_eq!(config.qk_nope_head_dim, 48);
    assert_eq!(config.qk_rope_head_dim, 16);
    assert_eq!(config.v_head_dim, 64);
    assert_eq!(config.partial_rotary_factor, RotaryFactor::Ratio { rotated: 16, whole: 64 });
    assert_eq!(config.layer_types, vec![LayerType::FullAttention; 3]);
    assert_eq!(config.num_experts, 256);
    assert_eq!(config.shared_expert_intermediate_size, 2048);
    assert_eq!(config.scoring_func, "sigmoid");
    assert!(config.use_routing_bias);
    assert_eq!(config.num_mtp_modules, 1);
    assert_eq!(config.mtp_transformer_layers, 1);
    assert_eq!(config.quantization_config, Some(4));
    assert_eq!(config.compress_ratios, vec![0, 4, 128, 4]);
    assert_eq!(config.num_hash_layers, 3);
    assert_eq!(f64::from_bits(config.yarn_factor), 16.0);
    assert_eq!(f64::from_bits(config.yarn_beta_fast), 32.5);
    assert_eq!(config.yarn_beta_slow, 0);
    assert_eq!(config.yarn_original_max_position_embeddings, 65536);
    assert_eq!(config.rest, [129280]);
}

#[test]
fn an_empty_document_gets_the_fallbacks() {
    let config = parse("{}").unwrap();
    assert_eq!(config.kv_lora_rank, DEFAULT_KV_LORA_RANK);
    assert_eq!(config.q_lora_rank, DEFAULT_Q_LORA_RANK);
    assert_eq!(config.head_dim, 0);
    assert_eq!(config.qk_nope_head_dim, 0);
    assert_eq!(config.partial_rotary_factor, RotaryFactor::Given(1.0f64.to_bits()));
    assert_eq!(config.num_mtp_modules, 0);
    assert_eq!(config.mtp_transformer_layers, 0);
    assert!(!config.use_routing_bias);
    assert!(config.layer_types.is_empty());
}

#[test]
fn the_decoder_reads_the_repaired_document() {
    let mut texts: Vec<String> = vec![];
    for json in [r#"{"kv_lora_rank": null, "b": [1, 2.5]}"#, r#"{"b":[1,2.5],"kv_lora_rank":0}"#] {
        let seen = std::cell::RefCell::new(String::new());
        let parsed: Result<Config, ParseError<String, String>> = parse_deepseek_v4(
            json,
            |text| {
                *seen.borrow_mut() = text.to_string();
                decode(text)
            },
            |_| None,
            |config, _| Ok(config),
        );
        assert!(parsed.is_ok());
        texts.push(seen.into_inner());
    }
    assert_eq!(texts[0], r#"{"b":[1,2.5],"kv_lora_rank":0}"#);
    assert_eq!(texts[0], texts[1]);
}

#[test]
fn a_null_rank_gives_what_the_fallback_gives() {
    let with_rank = |rank: &str| {
        let json = format!(r#"{{"hidden_size": 64, "vocab_size": 9, "kv_lora_rank": {rank}}}"#);
        parse(&json).unwrap()
    };
    let fallback = with_rank("512");
    assert_eq!(fallback.kv_lora_rank, 512);
    assert_eq!(format!("{:?}", with_rank("null")), format!("{fallback:?}"));
    assert_eq!(format!("{:?}", with_rank("0")), format!("{fallback:?}"));
    assert_eq!(with_rank("7").kv_lora_rank, 7);
}

#[test]
fn only_one_routing_function_is_replaced() {
    assert!(scoring_is_replaced(&"sqrtsoftplus".to_string()));
    for kept in ["sigmoid", "softmax", ""] {
        assert!(!scoring_is_replaced(&kept.to_string()));
        let mut config = blank();
        config.scoring_func = kept.to_string();
        assert_eq!(complete(config, &silent(), None).scoring_func, kept);
    }
}

#[test]
fn every_layer_attends_in_full() {
    let mut config = blank();
    config.num_hidden_layers = 2;
    config.layer_types = vec![LayerType::Other(3)];
    let done = complete(config, &silent(), None);
    assert_eq!(done.layer_types, vec![LayerType::FullAttention; 2]);
}

#[test]
fn documents_that_are_no_objects_say_nothing() {
    for json in ["null", "[]", "3", "\"kv_lora_rank\""] {
        assert_eq!(parse(json).unwrap().kv_lora_rank, 512);
    }
}

#[test]
fn text_that_is_no_json_is_refused() {
    let error = parse("{").unwrap_err();
    assert!(matches!(error, ParseError::InvalidJson(_)));
    assert_eq!(error.message().unwrap(), "Invalid JSON in DeepSeek-V4 config.json");
}

#[test]
fn a_document_that_does_not_decode_is_refused() {
    let error = parse(r#"{"hidden_size": "wide"}"#).unwrap_err();
    assert!(matches!(&error, ParseError::Decode(cause) if cause == "invalid hidden_size"));
    assert_eq!(error.message().unwrap(), "Failed to parse deepseek_v4 config.json");
}

#[test]
fn widths_beyond_the_machine_are_told() {
    let json = format!(
        r#"{{"n_shared_experts": 2, "moe_intermediate_size": {}}}"#,
        usize::MAX
    );
    let error = parse(&json).unwrap_err();
    assert!(matches!(error, ParseError::SharedWidthOverflow));
    assert_eq!(error.message().unwrap(), "attempt to multiply with overflow");
    let error = parse(r#"{"head_dim": 8, "qk_rope_head_dim": 9}"#).unwrap_err();
    assert!(matches!(error, ParseError::RopeWiderThanHead));
    assert_eq!(error.message().unwrap(), "attempt to subtract with overflow");
    assert_eq!(parse(r#"{"head_dim": 9, "qk_rope_head_dim": 9}"#).unwrap().qk_nope_head_dim, 0);
}

#[test]
fn finalizing_comes_last() {
    let refused: Result<Config, ParseError<String, String>> = parse_deepseek_v4(
        FLASH,
        decode,
        |_| None,
        |config: Config, document| {
            Err(format!(
                "{} {} {:?}",
                config.kv_lora_rank, document["kv_lora_rank"], config.rest
            ))
        },
    );
    let error = refused.unwrap_err();
    assert!(matches!(&error, ParseError::Finalize(cause) if cause == "512 0 [129280]"));
    assert!(error.message().is_none());
}

#[test]
fn a_decoded_quantization_is_kept() {
    let parsed: Result<Config, ParseError<String, String>> = parse_deepseek_v4(
        "{}",
        |text| {
            let mut config = decode(text)?;
            config.quantization_config = Some(7);
            Ok(config)
        },
        |_| panic!("asked for a quantization that is already known"),
        |config, _| Ok(config),
    );
    assert_eq!(parsed.unwrap().quantization_config, Some(7));
}

#[test]
fn reads_what_a_document_says() {
    let document: serde_json::Value = serde_json::from_str(FLASH).unwrap();
    let fields = DocumentFields::read(&document);
    assert_eq!(fields.n_shared_experts, Some(1));
    assert_eq!(fields.topk_method.as_deref(), Some("noaux_tc"));
    assert_eq!(fields.num_nextn_predict_layers, Some(1));
    assert_eq!(fields.compress_ratios, Some(vec![0, 4, 128, 4]));
    assert_eq!(fields.num_hash_layers, Some(3));
    assert_eq!(fields.rope_factor, Some(16.0f64.to_bits()));
    assert_eq!(fields.rope_beta_fast, Some(32.5f64.to_bits()));
    assert_eq!(fields.rope_beta_slow, None);
    assert_eq!(fields.rope_original_max_position_embeddings, Some(65536));
}

#[test]
fn reads_nothing_of_the_wrong_kind() {
    let json = r#"{"n_shared_experts": -1, "topk_method": 4, "num_nextn_predict_layers": 1.0,
        "compress_ratios": {}, "num_hash_layers": null, "rope_parameters": 5}"#;
    let fields = DocumentFields::read(&serde_json::from_str(json).unwrap());
    assert_eq!(fields.n_shared_experts, None);
    assert_eq!(fields.topk_method, None);
    assert_eq!(fields.num_nextn_predict_layers, None);
    assert_eq!(fields.compress_ratios, None);
    assert_eq!(fields.num_hash_layers, None);
    assert_eq!(fields.rope_factor, None);
    assert_eq!(fields.rope_original_max_position_embeddings, None);
}

#[test]
fn given_sizes_are_not_overridden() {
    let mut config = blank();
    config.hidden_size = 100;
    config.num_attention_heads = 10;
    config.head_dim = 12;
    config.q_lora_rank = 1;
    config.kv_lora_rank = 2;
    config.qk_nope_head_dim = 3;
    config.qk_rope_head_dim = 4;
    config.v_head_dim = 5;
    config.num_experts = 6;
    config.n_routed_experts = 7;
    config.moe_intermediate_size = 8;
    config.shared_expert_intermediate_size = 9;
    config.scoring_func = "softmax".to_string();
    let mut fields = silent();
    fields.n_shared_experts = Some(3);
    let done = complete(config, &fields, None);
    assert_eq!(done.head_dim, 12);
    assert_eq!(done.q_lora_rank, 1);
    assert_eq!(done.kv_lora_rank, 2);
    assert_eq!(done.qk_nope_head_dim, 3);
    assert_eq!(done.v_head_dim, 5);
    assert_eq!(done.num_experts, 6);
    assert_eq!(done.shared_expert_intermediate_size, 9);
    assert_eq!(done.scoring_func, "softmax");
    assert_eq!(done.partial_rotary_factor, RotaryFactor::Ratio { rotated: 4, whole: 12 });
}

#[test]
fn what_is_read_nowhere_is_kept() {
    let mut config = blank();
    config.rest = vec![1, 2];
    config.tie_word_embeddings = true;
    let done = complete(config, &silent(), None);
    assert_eq!(done.rest, [1, 2]);
    assert!(done.tie_word_embeddings);
}

#[test]
fn completing_twice_changes_nothing() {
    let mut config = blank();
    config.hidden_size = 4096;
    config.num_attention_heads = 64;
    config.qk_rope_head_dim = 16;
    config.moe_intermediate_size = 5;
    config.scoring_func = "sqrtsoftplus".to_string();
    let mut fields = silent();
    fields.n_shared_experts = Some(3);
    let once = complete(config, &fields, Some(1));
    let seen = format!("{once:?}");
    assert_eq!(once.shared_expert_intermediate_size, 15);
    assert_eq!(format!("{:?}", complete(once, &fields, Some(2))), seen);
}

#[test]
fn the_loader_reads_the_configuration() {
    let mut config = blank();
    assert!(!DeepSeekV4WeightLoader.load_lm_head(&config).tie_word_embeddings);
    config.tie_word_embeddings = true;
    let run = DeepSeekV4WeightLoader.load_lm_head(&config);
    assert!(run.tie_word_embeddings);
    assert_eq!(run.stage, LmHeadStage::FindHead);

    config.num_experts = 2;
    config.num_hidden_layers = 4;
    config.hidden_size = 11;
    config.num_attention_heads = 12;
    config.head_dim = 13;
    config.q_lora_rank = 14;
    config.kv_lora_rank = 15;
    config.qk_nope_head_dim = 16;
    config.qk_rope_head_dim = 17;
    config.v_head_dim = 18;
    let context = LayerContext::new(&config, vec![true, false], vec![KvCacheDtype::Other(1)]);
    assert_eq!(context.local_experts, vec![true, false]);
    let read = context.config;
    assert_eq!((read.num_hidden_layers, read.num_experts), (4, 2));
    assert_eq!((read.hidden_size, read.num_attention_heads, read.head_dim), (11, 12, 13));
    assert_eq!((read.q_lora_rank, read.kv_lora_rank), (14, 15));
    assert_eq!((read.qk_nope_head_dim, read.qk_rope_head_dim, read.v_head_dim), (16, 17, 18));
    assert_eq!(context.kv_dtype(0), KvCacheDtype::Other(1));
    assert_eq!(context.kv_dtype(1), KvCacheDtype::Bf16);
}

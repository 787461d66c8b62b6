use deepseek_v4::assemble::assemble_layer;
use deepseek_v4::attention::LayerInputs;
use deepseek_v4::config::{ModelConfig, RotaryFactor};
use deepseek_v4::context::LayerContext;
use deepseek_v4::load_layers::load_all_layers;
use deepseek_v4::request::{
    ErrorContext, Kernel, LoadError, Progress, Reply, ReplyOf, Request, RequestOf, Toolkit,
};
use deepseek_v4::tensor::{LayerTensor, Projection, Tensor};
use deepseek_v4::weight_loader::{DeepSeekV4WeightLoader, Sought};
use deepseek_v4::weights::{
    AttentionWeights, DenseWeight, DevicePtr, ExpertWeight, KvCacheDtype, MlaWeights,
    MoeWeightsOf, QuantizedWeight,
};

type Config = ModelConfig<(), &'static str>;

type Context<'a> = LayerContext<'a, (), &'static str>;

fn config(layers: usize, experts: usize) -> Config {
    ModelConfig {
        model_type: "deepseek_v4".to_string(),
        weight_prefix: "model".to_string(),
        nested_config: false,
        attn_gated: false,
        hidden_size: 40,
        num_hidden_layers: layers,
        num_attention_heads: 3,
        head_dim: 5,
        q_lora_rank: 7,
        kv_lora_rank: 6,
        qk_nope_head_dim: 4,
        qk_rope_head_dim: 1,
        v_head_dim: 2,
        partial_rotary_factor: RotaryFactor::Ratio { rotated: 1, whole: 5 },
        layer_types: vec![],
        num_experts: experts,
        n_routed_experts: experts,
        moe_intermediate_size: 0,
        shared_expert_intermediate_size: 0,
        scoring_func: "sigmoid".to_string(),
        use_routing_bias: false,
        num_mtp_modules: 0,
        mtp_transformer_layers: 0,
        quantization_config: None,
        compress_ratios: vec![],
        num_hash_layers: 0,
        yarn_factor: 0,
        yarn_beta_fast: 0,
        yarn_beta_slow: 0,
        yarn_original_max_position_embeddings: 0,
        tie_word_embeddings: false,
        rest: "the rest",
    }
}

fn context<'a>(config: &'a Config, local: &[bool]) -> Context<'a> {
    LayerContext::new(config, local.to_vec(), vec![KvCacheDtype::Other(9)])
}

/// A runtime that answers every request with numbers counted upwards, and
/// fails on the names and requests it is told to.
struct Runtime {
    count: u64,
    missing: Vec<String>,
    rank: usize,
    log: Vec<String>,
    moes: Vec<MoeWeightsOf<Vec<ExpertWeight>>>,
    layers: Vec<(usize, KvCacheDtype, AttentionWeights)>,
    mlas: Vec<(u64, MlaWeights)>,
    yarn: Vec<u64>,
    /// The configurations that came with requests, by their unread part.
    configs: Vec<(&'static str, &'static str)>,
    quantized: Vec<(u64, usize, usize, Toolkit)>,
}

impl Runtime {
    fn new(missing: &[&str]) -> Runtime {
        Runtime {
            count: 0,
            missing: missing.iter().map(|name| name.to_string()).collect(),
            rank: 2,
            log: vec![],
            moes: vec![],
            layers: vec![],
            mlas: vec![],
            yarn: vec![],
            configs: vec![],
            quantized: vec![],
        }
    }

    fn number(&mut self) -> u64 {
        self.count += 1;
        self.count
    }

    fn dense(&mut self) -> DenseWeight {
        DenseWeight { weight: DevicePtr { addr: self.number() } }
    }

    fn named(&mut self, what: &str, tensor: &Tensor) -> Result<(), String> {
        let name = tensor.name();
        self.log.push(format!("{what} {name}"));
        if self.missing.contains(&name) {
            Err(format!("no {name}"))
        } else {
            Ok(())
        }
    }

    fn perform(&mut self, request: Request<(), &'static str>) -> Result<Reply, String> {
        match request {
            RequestOf::Kernel(kernel) => {
                self.log.push(kernel.name().to_string());
                Ok(ReplyOf::Handle(match kernel {
                    Kernel::GlobalAbsmax => 1001,
                    Kernel::QuantizeBf16 => 1002,
                }))
            }
            RequestOf::DefaultStream => {
                self.log.push("stream".to_string());
                Ok(ReplyOf::Handle(1003))
            }
            RequestOf::Contains(tensor) => {
                Ok(ReplyOf::Flag(self.named("contains", &tensor).is_ok()))
            }
            RequestOf::Dense(tensor) => {
                self.named("dense", &tensor)?;
                Ok(ReplyOf::Dense(self.dense()))
            }
            RequestOf::DenseAuto(tensor) => {
                self.named("auto", &tensor)?;
                Ok(ReplyOf::Dense(self.dense()))
            }
            RequestOf::QuantizedV2(tensor) => {
                self.named("nvfp4", &tensor)?;
                Ok(ReplyOf::Quantized(self.number()))
            }
            RequestOf::Shape { tensor, .. } => {
                self.named("shape", &tensor)?;
                Ok(ReplyOf::Shape(vec![21, 22, 23][..self.rank].to_vec()))
            }
            RequestOf::Lookup(tensor) => {
                self.named("lookup", &tensor)?;
                Ok(ReplyOf::Pointer(DevicePtr { addr: self.number() }))
            }
            RequestOf::Quantize { weight, rows, cols, tools } => {
                self.log.push("quantize".to_string());
                self.quantized.push((weight.weight.addr, rows, cols, tools));
                Ok(ReplyOf::Quantized(self.number()))
            }
            RequestOf::PerHeadViews { wkv_b_shape, wq_b_shape, config, .. } => {
                self.configs.push(("heads", config.rest));
                self.log.push(format!("heads {wkv_b_shape:?} {wq_b_shape:?}"));
                Ok(ReplyOf::PerHead {
                    w_uk_t: self.dense(),
                    w_uv: self.dense(),
                    wq_b_rope: self.dense(),
                    w_uk_host: 77,
                })
            }
            RequestOf::QkAbsorbed { wq_b_shape, config, .. } => {
                self.configs.push(("absorb", config.rest));
                self.log.push(format!("absorb {wq_b_shape:?}"));
                Ok(ReplyOf::Dense(self.dense()))
            }
            RequestOf::BlockDiagonals { w_uk_host, config, .. } => {
                self.configs.push(("diagonals", config.rest));
                self.log.push(format!("diagonals {w_uk_host}"));
                Ok(ReplyOf::Pair(self.dense(), self.dense()))
            }
            RequestOf::YarnInvFreq { current, config } => {
                self.configs.push(("yarn", config.rest));
                self.log.push("yarn".to_string());
                self.yarn.push(current.addr);
                Ok(ReplyOf::Pointer(DevicePtr { addr: 500 }))
            }
            RequestOf::Alloc { bytes } => {
                self.log.push(format!("alloc {bytes}"));
                Ok(ReplyOf::Pointer(DevicePtr { addr: 600 }))
            }
            RequestOf::Memset { ptr, value, bytes } => {
                self.log.push(format!("memset {} {value} {bytes}", ptr.addr));
                Ok(ReplyOf::Done)
            }
            RequestOf::NewMoe { weights, num_experts, gate_nvfp4, config } => {
                self.configs.push(("moe", config.rest));
                self.log.push(format!("moe {num_experts} {}", gate_nvfp4.is_some()));
                self.moes.push(weights);
                Ok(ReplyOf::Handle(self.number()))
            }
            RequestOf::NewLayer {
                attention, layer_idx, optional_parts, kv_dtype, setting, config, ..
            } => {
                self.configs.push(("layer", config.rest));
                self.log.push(format!("layer {layer_idx} {optional_parts:?} {setting}"));
                self.layers.push((layer_idx, kv_dtype, attention));
                Ok(ReplyOf::Handle(self.number()))
            }
            RequestOf::SetMla { layer, mla } => {
                self.log.push("mla".to_string());
                self.mlas.push((layer, mla));
                Ok(ReplyOf::Done)
            }
        }
    }
}

fn load(context: &Context, runtime: &mut Runtime) -> Result<Vec<u64>, LoadError<String>> {
    let mut run = load_all_layers(context);
    loop {
        let outcome = runtime.perform(run.request());
        match run.step(outcome) {
            Progress::Ask(next) => run = next,
            Progress::Done(layers) => return Ok(layers),
            Progress::Failed(error) => return Err(error),
        }
    }
}

fn loaded(number: u64) -> QuantizedWeight {
    QuantizedWeight::Loaded(number)
}

#[test]
fn one_layer_is_loaded_in_order() {
    let config = config(1, 2);
    let context = context(&config, &[true, false]);
    let mut runtime = Runtime::new(&[]);
    let layers = load(&context, &mut runtime).unwrap();
    assert_eq!(layers, vec![runtime.count]);
    assert_eq!(
        runtime.log,
        [
            "nvfp4_global_absmax",
            "quantize_bf16_to_nvfp4",
            "stream",
            "dense layers.0.attn_norm.weight",
            "dense layers.0.ffn_norm.weight",
            "auto layers.0.attn.wq_a.weight",
            "quantize",
            "auto layers.0.attn.wq_b.weight",
            "quantize",
            "dense layers.0.attn.q_norm.weight",
            "auto layers.0.attn.wkv.weight",
            "shape layers.0.attn.wkv.weight",
            "quantize",
            "auto layers.0.attn.wo_a.weight",
            "shape layers.0.attn.wo_a.weight",
            "dense layers.0.attn.kv_norm.weight",
            "auto layers.0.attn.wo_b.weight",
            "shape layers.0.attn.wo_b.weight",
            "quantize",
            "shape layers.0.attn.wq_b.weight",
            "heads [21, 22] [21, 22]",
            "absorb [21, 22]",
            "diagonals 77",
            "yarn",
            "dense layers.0.ffn.gate.weight",
            "nvfp4_global_absmax",
            "quantize_bf16_to_nvfp4",
            "stream",
            "quantize",
            "nvfp4 layers.0.ffn.experts.0.w1",
            "nvfp4 layers.0.ffn.experts.0.w3",
            "nvfp4 layers.0.ffn.experts.0.w2",
            "nvfp4 layers.0.ffn.shared_experts.w1",
            "nvfp4 layers.0.ffn.shared_experts.w3",
            "nvfp4 layers.0.ffn.shared_experts.w2",
            "moe 2 true",
            "lookup layers.0.attn.wkv_rope.weight",
            "layer 0 (None, None, None) 0",
            "mla",
        ]
    );
    let rest = "the rest";
    assert_eq!(
        runtime.configs,
        [
            ("heads", rest),
            ("absorb", rest),
            ("diagonals", rest),
            ("yarn", rest),
            ("moe", rest),
            ("layer", rest),
        ]
    );
}

#[test]
fn weights_go_where_they_belong() {
    let config = config(1, 2);
    let context = context(&config, &[false, true]);
    let mut runtime = Runtime::new(&[]);
    load(&context, &mut runtime).unwrap();
    let tools = Toolkit { absmax: 1001, quantize: 1002, stream: 1003 };
    let dense = |addr: u64| DenseWeight { weight: DevicePtr { addr } };
    assert_eq!(
        runtime.quantized,
        [
            (3, 7, 40, tools),
            (5, 15, 7, tools),
            (8, 21, 22, tools),
            (12, 21, 22, tools),
            (20, 2, 40, tools),
        ]
    );
    let (layer, mla) = &runtime.mlas[0];
    assert_eq!(*layer, runtime.count);
    assert_eq!(
        *mla,
        MlaWeights {
            wq_a: dense(3),
            wq_a_nvfp4: Some(loaded(4)),
            wq_b: dense(5),
            wq_b_nvfp4: Some(loaded(6)),
            q_a_norm: dense(7),
            wkv_a: dense(8),
            wkv_a_nvfp4: Some(loaded(9)),
            wkv_b: dense(10),
            kv_a_norm: dense(11),
            wkv_a_rope: dense(29),
            wkv_a_merged: dense(8),
            wo: dense(12),
            wo_nvfp4: Some(loaded(13)),
            w_uk_t: dense(14),
            w_uv: dense(15),
            wq_b_rope: dense(16),
            w_qk_absorbed: dense(17),
            w_uk_block_diag: dense(18),
            w_uv_block_diag: dense(19),
            yarn_inv_freq: DevicePtr { addr: 500 },
            q_lora_rank: 7,
            kv_lora_rank: 6,
            nope: 4,
            rope: 1,
            v_dim: 2,
        }
    );
    let moe = &runtime.moes[0];
    assert_eq!(moe.gate, dense(20));
    assert_eq!(
        moe.experts,
        vec![
            ExpertWeight::null(),
            ExpertWeight { gate_proj: loaded(22), up_proj: loaded(23), down_proj: loaded(24) },
        ]
    );
    assert_eq!(
        moe.shared_expert,
        ExpertWeight { gate_proj: loaded(25), up_proj: loaded(26), down_proj: loaded(27) }
    );
    assert_eq!(moe.shared_expert_gate, DenseWeight::null());
    assert_eq!(moe.router_pre_norm, None);
    assert_eq!(moe.correction_bias, None);
    let (_, _, attention) = &runtime.layers[0];
    assert_eq!(attention.q_proj, DenseWeight::null());
    assert_eq!(attention.o_proj, QuantizedWeight::Null);
    assert_eq!((attention.k_scale, attention.v_scale), (1, 1));
    assert!(attention.q_norm_full.is_none() && attention.k_norm_full.is_none());
}

#[test]
fn layers_follow_one_another() {
    let config = config(3, 0);
    let context = context(&config, &[]);
    let mut runtime = Runtime::new(&[]);
    let layers = load(&context, &mut runtime).unwrap();
    let built: Vec<u64> = runtime.mlas.iter().map(|(layer, _)| *layer).collect();
    assert_eq!(layers, built);
    let seen: Vec<(usize, KvCacheDtype)> =
        runtime.layers.iter().map(|(index, dtype, _)| (*index, *dtype)).collect();
    assert_eq!(
        seen,
        [(0, KvCacheDtype::Other(9)), (1, KvCacheDtype::Bf16), (2, KvCacheDtype::Bf16)]
    );
    assert_eq!(runtime.yarn, [0, 500, 500]);
    assert!(runtime.mlas.iter().all(|(_, mla)| mla.yarn_inv_freq.addr == 500));
    assert_eq!(runtime.log[3 + 33], "dense layers.1.attn_norm.weight");
}

#[test]
fn a_model_without_layers_still_asks_for_its_tools() {
    let config = config(0, 0);
    let context = context(&config, &[]);
    let mut runtime = Runtime::new(&[]);
    assert_eq!(load(&context, &mut runtime).unwrap(), Vec::<u64>::new());
    assert_eq!(runtime.log.len(), 3);
}

#[test]
fn every_rank_loads_the_shared_expert() {
    for local in [[false, false], [true, false], [false, true], [true, true]] {
        let config = config(1, 2);
        let context = context(&config, &local);
        let mut runtime = Runtime::new(&[]);
        load(&context, &mut runtime).unwrap();
        for projection in ["w1", "w2", "w3"] {
            let name = format!("nvfp4 layers.0.ffn.shared_experts.{projection}");
            assert!(runtime.log.contains(&name));
        }
        for (e, held) in local.iter().enumerate() {
            let name = format!("nvfp4 layers.0.ffn.experts.{e}.w1");
            assert_eq!(runtime.log.contains(&name), *held);
            assert_eq!(runtime.moes[0].experts[e] != ExpertWeight::null(), *held);
        }
        assert_ne!(runtime.moes[0].shared_expert, ExpertWeight::null());
        assert!(runtime.log.len() <= 3 + 35 + 3 * local.len());
    }
}

#[test]
fn a_missing_rotary_projection_is_made_of_zeros() {
    let config = config(1, 0);
    let context = context(&config, &[]);
    let mut runtime = Runtime::new(&["layers.0.attn.wkv_rope.weight"]);
    load(&context, &mut runtime).unwrap();
    assert!(runtime.log.contains(&"alloc 80".to_string()));
    assert!(runtime.log.contains(&"memset 600 0 80".to_string()));
    assert_eq!(runtime.mlas[0].1.wkv_a_rope.weight.addr, 600);
}

#[test]
fn a_missing_tensor_ends_the_load() {
    let config = config(2, 1);
    let context = context(&config, &[true]);
    let mut runtime = Runtime::new(&["layers.1.attn.q_norm.weight"]);
    assert_eq!(
        load(&context, &mut runtime),
        Err(LoadError::Runtime {
            context: None,
            cause: "no layers.1.attn.q_norm.weight".to_string()
        })
    );
    assert_eq!(runtime.log.last().unwrap(), "dense layers.1.attn.q_norm.weight");
}

#[test]
fn a_missing_expert_is_told_by_its_number() {
    let config = config(1, 2);
    let context = context(&config, &[false, true]);
    let mut runtime = Runtime::new(&["layers.0.ffn.experts.1.w3"]);
    assert_eq!(
        load(&context, &mut runtime),
        Err(LoadError::Runtime {
            context: Some(ErrorContext::Expert { index: 1, projection: Projection::W3 }),
            cause: "no layers.0.ffn.experts.1.w3".to_string()
        })
    );
    let mut runtime = Runtime::new(&["layers.0.ffn.shared_experts.w2"]);
    assert_eq!(
        load(&context, &mut runtime),
        Err(LoadError::Runtime {
            context: Some(ErrorContext::SharedExpert { projection: Projection::W2 }),
            cause: "no layers.0.ffn.shared_experts.w2".to_string()
        })
    );
}

#[test]
fn a_shape_of_one_dimension_does_not_fit() {
    let config = config(1, 0);
    let context = context(&config, &[]);
    let mut runtime = Runtime::new(&[]);
    runtime.rank = 1;
    assert_eq!(load(&context, &mut runtime), Err(LoadError::UnfitReply));
    assert_eq!(runtime.log.last().unwrap(), "shape layers.0.attn.wkv.weight");
}

#[test]
fn a_reply_of_another_kind_does_not_fit() {
    let config = config(1, 0);
    let context = context(&config, &[]);
    let run = load_all_layers(&context);
    assert!(matches!(
        run.step::<String>(Ok(ReplyOf::Flag(true))),
        Progress::Failed(LoadError::UnfitReply)
    ));
}

#[test]
fn sizes_beyond_the_machine_are_refused() {
    let mut wide = config(1, 0);
    wide.num_attention_heads = usize::MAX;
    wide.head_dim = 2;
    let wide = context(&wide, &[]);
    let mut runtime = Runtime::new(&[]);
    assert_eq!(load(&wide, &mut runtime), Err(LoadError::SizeOverflow));
    assert_eq!(runtime.log.last().unwrap(), "auto layers.0.attn.wq_b.weight");

    let mut wide = config(1, 0);
    wide.hidden_size = usize::MAX;
    let wide = context(&wide, &[]);
    let mut runtime = Runtime::new(&[]);
    assert!(load(&wide, &mut runtime).is_ok());
    let mut runtime = Runtime::new(&["layers.0.attn.wkv_rope.weight"]);
    assert_eq!(load(&wide, &mut runtime), Err(LoadError::SizeOverflow));
}

#[test]
fn a_load_depends_on_its_model_alone() {
    let config = config(2, 1);
    let listed = |more: &[KvCacheDtype]| {
        let mut dtypes = vec![KvCacheDtype::Other(1), KvCacheDtype::Other(2)];
        dtypes.extend_from_slice(more);
        LayerContext::new(&config, vec![true], dtypes)
    };
    let mut runtime = Runtime::new(&[]);
    let layers = load(&listed(&[]), &mut runtime).unwrap();
    let mut other = Runtime::new(&["layers.2.attn_norm.weight", "embed.weight", "norm.weight"]);
    assert_eq!(load(&listed(&[KvCacheDtype::Other(3)]), &mut other).unwrap(), layers);
    assert_eq!(other.log, runtime.log);
}

#[test]
fn compression_ratios_do_not_matter() {
    let plain = config(2, 2);
    let mut compressed = config(2, 2);
    compressed.compress_ratios = vec![0, 4, 128];
    let mut runtime = Runtime::new(&[]);
    let layers = load(&context(&plain, &[true, false]), &mut runtime).unwrap();
    // A tensor of an expert held elsewhere does not matter either.
    let mut other = Runtime::new(&["layers.0.ffn.experts.1.w1"]);
    assert_eq!(load(&context(&compressed, &[true, false]), &mut other).unwrap(), layers);
    assert_eq!(other.log, runtime.log);
}

#[test]
fn an_assembly_alone_keeps_what_it_was_given() {
    let config = config(5, 1);
    let context = context(&config, &[true]);
    let mut inputs = LayerInputs::empty();
    inputs.wkv_a = DenseWeight { weight: DevicePtr { addr: 41 } };
    inputs.yarn_inv_freq = DevicePtr { addr: 42 };
    let mut runtime = Runtime::new(&["layers.3.ffn.gate.weight", "head.weight"]);
    let mut run = assemble_layer(4, inputs, &context);
    let layer = loop {
        let outcome = runtime.perform(run.request());
        match run.step(outcome) {
            Progress::Ask(next) => run = next,
            Progress::Done(layer) => break layer,
            Progress::Failed(error) => panic!("{error:?}"),
        }
    };
    assert_eq!(runtime.mlas.len(), 1);
    let (given, mla) = &runtime.mlas[0];
    assert_eq!(*given, layer);
    assert_eq!((mla.wkv_a.weight.addr, mla.wkv_a_merged.weight.addr), (41, 41));
    assert_eq!(mla.yarn_inv_freq.addr, 42);
    assert_eq!(runtime.layers[0].0, 4);
    assert_ne!(runtime.moes[0].experts[0], ExpertWeight::null());
}

#[test]
fn an_assembly_begins_with_the_gate() {
    let config = config(5, 1);
    let context = context(&config, &[true]);
    let run = assemble_layer(4, LayerInputs::empty(), &context);
    let gate = Tensor::Layer { layer: 4, tensor: LayerTensor::Gate };
    assert!(matches!(run.request(), RequestOf::Dense(tensor) if tensor == gate));
}

fn search(
    loader: &DeepSeekV4WeightLoader,
    sought: Sought,
    runtime: &mut Runtime,
) -> Result<DenseWeight, LoadError<String>> {
    let mut run = match sought {
        Sought::Embedding => loader.load_embedding(),
        Sought::FinalNorm => loader.load_final_norm(),
    };
    loop {
        let outcome = runtime.perform(run.request());
        match run.step(outcome) {
            Progress::Ask(next) => run = next,
            Progress::Done(weight) => return Ok(weight),
            Progress::Failed(error) => return Err(error),
        }
    }
}

#[test]
fn the_first_stored_name_is_taken() {
    let loader = DeepSeekV4WeightLoader;
    let cases = [
        (
            Sought::Embedding,
            ["embed.weight", "model.embed_tokens.weight", "embed_tokens.weight"],
            ErrorContext::Embedding,
        ),
        (
            Sought::FinalNorm,
            ["norm.weight", "model.norm.weight", "final_norm.weight"],
            ErrorContext::FinalNorm,
        ),
    ];
    for (sought, names, context) in cases {
        for absent in 0..3 {
            let mut runtime = Runtime::new(&names[..absent]);
            assert!(search(&loader, sought, &mut runtime).is_ok());
            assert_eq!(runtime.log.len(), absent + 1);
            assert_eq!(runtime.log[absent], format!("dense {}", names[absent]));
        }
        let mut runtime = Runtime::new(&names);
        assert_eq!(
            search(&loader, sought, &mut runtime),
            Err(LoadError::Runtime {
                context: Some(context),
                cause: format!("no {}", names[2])
            })
        );
    }
}

fn lm_head(tied: bool, runtime: &mut Runtime) -> Result<DenseWeight, LoadError<String>> {
    let mut run = deepseek_v4::weight_loader::LmHeadRun {
        tie_word_embeddings: tied,
        stage: deepseek_v4::weight_loader::LmHeadStage::FindHead,
    };
    loop {
        let outcome = runtime.perform(run.request());
        match run.step(outcome) {
            Progress::Ask(next) => run = next,
            Progress::Done(weight) => return Ok(weight),
            Progress::Failed(error) => return Err(error),
        }
    }
}

#[test]
fn the_output_projection_falls_back_in_order() {
    let mut runtime = Runtime::new(&[]);
    assert!(lm_head(true, &mut runtime).is_ok());
    assert_eq!(runtime.log, ["contains head.weight", "dense head.weight"]);

    let mut runtime = Runtime::new(&["head.weight"]);
    assert!(lm_head(true, &mut runtime).is_ok());
    assert_eq!(
        runtime.log,
        ["contains head.weight", "contains lm_head.weight", "dense lm_head.weight"]
    );

    let mut runtime = Runtime::new(&["head.weight", "lm_head.weight", "embed.weight"]);
    assert!(lm_head(true, &mut runtime).is_ok());
    assert_eq!(
        runtime.log,
        [
            "contains head.weight",
            "contains lm_head.weight",
            "dense embed.weight",
            "dense model.embed_tokens.weight"
        ]
    );

    let mut runtime = Runtime::new(&["head.weight", "lm_head.weight"]);
    assert_eq!(lm_head(false, &mut runtime), Err(LoadError::NoLmHead));
}

#[test]
fn a_stored_output_projection_must_load() {
    let loader = DeepSeekV4WeightLoader;
    let run = deepseek_v4::weight_loader::LmHeadRun {
        tie_word_embeddings: true,
        stage: deepseek_v4::weight_loader::LmHeadStage::LoadHead,
    };
    assert_eq!(
        match run.step(Err("broken")) {
            Progress::Failed(error) => error,
            _ => panic!("went on after a failure"),
        },
        LoadError::Runtime { context: None, cause: "broken" }
    );
    assert!(!loader.supports_tp());
    assert!(loader.load_mtp_weights::<u8>().is_none());
}

#[test]
fn the_loader_begins_like_a_load() {
    let config = config(1, 0);
    let context = context(&config, &[]);
    let run = DeepSeekV4WeightLoader.load_layers(&context);
    assert!(matches!(run.request(), RequestOf::Kernel(Kernel::GlobalAbsmax)));
}

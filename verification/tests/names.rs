use deepseek_v4::decimal::to_decimal;
use deepseek_v4::request::{ErrorContext, Kernel, LoadError};
use deepseek_v4::tensor::{LayerTensor, Projection, Tensor};

#[test]
fn numerals_are_decimal() {
    for n in [0usize, 7, 9, 10, 11, 99, 100, 40302010, usize::MAX] {
        assert_eq!(to_decimal(n), n.to_string());
    }
}

#[test]
fn layer_tensors_have_flattened_names() {
    let expected = [
        (LayerTensor::AttnNorm, "layers.12.attn_norm.weight"),
        (LayerTensor::FfnNorm, "layers.12.ffn_norm.weight"),
        (LayerTensor::WqA, "layers.12.attn.wq_a.weight"),
        (LayerTensor::WqB, "layers.12.attn.wq_b.weight"),
        (LayerTensor::QNorm, "layers.12.attn.q_norm.weight"),
        (LayerTensor::Wkv, "layers.12.attn.wkv.weight"),
        (LayerTensor::WkvRope, "layers.12.attn.wkv_rope.weight"),
        (LayerTensor::KvNorm, "layers.12.attn.kv_norm.weight"),
        (LayerTensor::WoA, "layers.12.attn.wo_a.weight"),
        (LayerTensor::WoB, "layers.12.attn.wo_b.weight"),
        (LayerTensor::Gate, "layers.12.ffn.gate.weight"),
        (
            LayerTensor::Expert { index: 107, projection: Projection::W2 },
            "layers.12.ffn.experts.107.w2",
        ),
        (
            LayerTensor::SharedExpert { projection: Projection::W3 },
            "layers.12.ffn.shared_experts.w3",
        ),
    ];
    for (tensor, name) in expected {
        assert_eq!(Tensor::Layer { layer: 12, tensor }.name(), name);
    }
}

#[test]
fn model_tensors_have_their_names() {
    assert_eq!(Tensor::Embed.name(), "embed.weight");
    assert_eq!(Tensor::ModelEmbedTokens.name(), "model.embed_tokens.weight");
    assert_eq!(Tensor::EmbedTokens.name(), "embed_tokens.weight");
    assert_eq!(Tensor::Norm.name(), "norm.weight");
    assert_eq!(Tensor::ModelNorm.name(), "model.norm.weight");
    assert_eq!(Tensor::FinalNorm.name(), "final_norm.weight");
    assert_eq!(Tensor::Head.name(), "head.weight");
    assert_eq!(Tensor::LmHead.name(), "lm_head.weight");
}

#[test]
fn names_of_different_tensors_differ() {
    let mut names: Vec<String> = vec![];
    for layer in [1, 11, 111] {
        names.push(Tensor::Layer { layer, tensor: LayerTensor::Gate }.name());
        for index in [1, 11] {
            for projection in [Projection::W1, Projection::W2, Projection::W3] {
                let tensor = LayerTensor::Expert { index, projection };
                names.push(Tensor::Layer { layer, tensor }.name());
            }
        }
    }
    let count = names.len();
    names.sort();
    names.dedup();
    assert_eq!(names.len(), count);
}

#[test]
fn kernels_have_their_names() {
    assert_eq!(Kernel::GlobalAbsmax.module(), "quantize_nvfp4");
    assert_eq!(Kernel::GlobalAbsmax.name(), "nvfp4_global_absmax");
    assert_eq!(Kernel::QuantizeBf16.module(), "quantize_nvfp4");
    assert_eq!(Kernel::QuantizeBf16.name(), "quantize_bf16_to_nvfp4");
}

#[test]
fn errors_say_what_failed() {
    let message = |context: Option<ErrorContext>| LoadError::Runtime { context, cause: () }.message();
    assert_eq!(message(None), None);
    assert_eq!(
        message(Some(ErrorContext::Expert { index: 20, projection: Projection::W1 })).unwrap(),
        "DeepSeek-V4 expert 20: w1"
    );
    assert_eq!(
        message(Some(ErrorContext::SharedExpert { projection: Projection::W3 })).unwrap(),
        "DeepSeek-V4 shared expert: w3"
    );
    assert_eq!(
        message(Some(ErrorContext::Embedding)).unwrap(),
        "DeepSeek-V4: no embedding tensor found (tried embed.weight, model.embed_tokens.weight, embed_tokens.weight)"
    );
    assert_eq!(
        message(Some(ErrorContext::FinalNorm)).unwrap(),
        "DeepSeek-V4: no final norm tensor found (tried norm.weight, model.norm.weight, final_norm.weight)"
    );
    assert_eq!(
        LoadError::<()>::NoLmHead.message().unwrap(),
        "DeepSeek-V4: lm_head not found (tried head.weight, lm_head.weight)"
    );
    assert_eq!(
        LoadError::<()>::SizeOverflow.message().unwrap(),
        "attempt to multiply with overflow"
    );
    assert!(LoadError::<()>::UnfitReply.message().is_some());
}

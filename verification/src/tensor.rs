//! The tensors of a checkpoint, and the names they are stored under.
//!
//! Re-quantised checkpoints flatten the names: `layers.N.*` in place of
//! `model.layers.N.*`.
use vstd::prelude::*;

use crate::decimal::{decimal, decimal_has_no_dot, decimal_is_injective, to_decimal};

verus! {

/// A projection of an expert: `W1` gates, `W3` widens, `W2` narrows.
#[derive(Clone, Copy, Debug, PartialEq, Eq, Structural)]
pub enum Projection {
    W1,
    W2,
    W3,
}

/// A tensor of one layer.
#[derive(Clone, Copy, Debug, PartialEq, Eq, Structural)]
pub enum LayerTensor {
    AttnNorm,
    FfnNorm,
    WqA,
    WqB,
    QNorm,
    Wkv,
    WkvRope,
    KvNorm,
    WoA,
    WoB,
    Gate,
    Expert { index: usize, projection: Projection },
    SharedExpert { projection: Projection },
}

/// A tensor of a checkpoint.
#[derive(Clone, Copy, Debug, PartialEq, Eq, Structural)]
pub enum Tensor {
    Embed,
    ModelEmbedTokens,
    EmbedTokens,
    Norm,
    ModelNorm,
    FinalNorm,
    Head,
    LmHead,
    Layer { layer: usize, tensor: LayerTensor },
}

impl Projection {
    pub open spec fn spec_name(self) -> Seq<char> {
        match self {
            Projection::W1 => "w1"@,
            Projection::W2 => "w2"@,
            Projection::W3 => "w3"@,
        }
    }

    /// The name of the projection within its expert.
    pub fn name(&self) -> (res: &'static str)
        ensures
            res@ == self.spec_name(),
    {
        match self {
            Projection::W1 => "w1",
            Projection::W2 => "w2",
            Projection::W3 => "w3",
        }
    }
}

impl LayerTensor {
    pub open spec fn spec_name(self) -> Seq<char> {
        match self {
            LayerTensor::AttnNorm => "attn_norm.weight"@,
            LayerTensor::FfnNorm => "ffn_norm.weight"@,
            LayerTensor::WqA => "attn.wq_a.weight"@,
            LayerTensor::WqB => "attn.wq_b.weight"@,
            LayerTensor::QNorm => "attn.q_norm.weight"@,
            LayerTensor::Wkv => "attn.wkv.weight"@,
            LayerTensor::WkvRope => "attn.wkv_rope.weight"@,
            LayerTensor::KvNorm => "attn.kv_norm.weight"@,
            LayerTensor::WoA => "attn.wo_a.weight"@,
            LayerTensor::WoB => "attn.wo_b.weight"@,
            LayerTensor::Gate => "ffn.gate.weight"@,
            LayerTensor::Expert { index, projection } => "ffn.experts."@ + (decimal(index as nat)
                + ("."@ + projection.spec_name())),
            LayerTensor::SharedExpert { projection } => "ffn.shared_experts."@
                + projection.spec_name(),
        }
    }

    /// The name of the tensor within its layer.
    pub fn name(&self) -> (res: String)
        ensures
            res@ == self.spec_name(),
    {
        match self {
            LayerTensor::AttnNorm => "attn_norm.weight".to_owned(),
            LayerTensor::FfnNorm => "ffn_norm.weight".to_owned(),
            LayerTensor::WqA => "attn.wq_a.weight".to_owned(),
            LayerTensor::WqB => "attn.wq_b.weight".to_owned(),
            LayerTensor::QNorm => "attn.q_norm.weight".to_owned(),
            LayerTensor::Wkv => "attn.wkv.weight".to_owned(),
            LayerTensor::WkvRope => "attn.wkv_rope.weight".to_owned(),
            LayerTensor::KvNorm => "attn.kv_norm.weight".to_owned(),
            LayerTensor::WoA => "attn.wo_a.weight".to_owned(),
            LayerTensor::WoB => "attn.wo_b.weight".to_owned(),
            LayerTensor::Gate => "ffn.gate.weight".to_owned(),
            LayerTensor::Expert { index, projection } => {
                let mut name = "ffn.experts.".to_owned();
                name.append(to_decimal(*index).as_str());
                name.append(".");
                name.append(projection.name());
                assert(name@ =~= self.spec_name());
                name
            },
            LayerTensor::SharedExpert { projection } => {
                let mut name = "ffn.shared_experts.".to_owned();
                name.append(projection.name());
                name
            },
        }
    }
}

impl Tensor {
    pub open spec fn spec_name(self) -> Seq<char> {
        match self {
            Tensor::Embed => "embed.weight"@,
            Tensor::ModelEmbedTokens => "model.embed_tokens.weight"@,
            Tensor::EmbedTokens => "embed_tokens.weight"@,
            Tensor::Norm => "norm.weight"@,
            Tensor::ModelNorm => "model.norm.weight"@,
            Tensor::FinalNorm => "final_norm.weight"@,
            Tensor::Head => "head.weight"@,
            Tensor::LmHead => "lm_head.weight"@,
            Tensor::Layer { layer, tensor } => "layers."@ + (decimal(layer as nat) + ("."@
                + tensor.spec_name())),
        }
    }

    /// The name that the tensor is stored under.
    pub fn name(&self) -> (res: String)
        ensures
            res@ == self.spec_name(),
    {
        match self {
            Tensor::Embed => "embed.weight".to_owned(),
            Tensor::ModelEmbedTokens => "model.embed_tokens.weight".to_owned(),
            Tensor::EmbedTokens => "embed_tokens.weight".to_owned(),
            Tensor::Norm => "norm.weight".to_owned(),
            Tensor::ModelNorm => "model.norm.weight".to_owned(),
            Tensor::FinalNorm => "final_norm.weight".to_owned(),
            Tensor::Head => "head.weight".to_owned(),
            Tensor::LmHead => "lm_head.weight".to_owned(),
            Tensor::Layer { layer, tensor } => {
                let mut name = "layers.".to_owned();
                name.append(to_decimal(*layer).as_str());
                name.append(".");
                name.append(tensor.name().as_str());
                assert(name@ =~= self.spec_name());
                name
            },
        }
    }
}

/// A numeral before a dot can be told from what follows the dot.
proof fn numeral_ends_at_dot(m: nat, rest_m: Seq<char>, n: nat, rest_n: Seq<char>)
    requires
        decimal(m) + ("."@ + rest_m) == decimal(n) + ("."@ + rest_n),
    ensures
        m == n,
        rest_m == rest_n,
{
    let left = decimal(m) + ("."@ + rest_m);
    let right = decimal(n) + ("."@ + rest_n);
    reveal_strlit(".");
    decimal_has_no_dot(m);
    decimal_has_no_dot(n);
    assert(left[decimal(m).len() as int] == '.');
    assert(right[decimal(n).len() as int] == '.');
    if decimal(m).len() < decimal(n).len() {
        assert(right[decimal(m).len() as int] == decimal(n)[decimal(m).len() as int]);
    }
    if decimal(n).len() < decimal(m).len() {
        assert(left[decimal(n).len() as int] == decimal(m)[decimal(n).len() as int]);
    }
    let len = decimal(m).len() as int;
    assert(decimal(m) =~= left.take(len));
    assert(decimal(n) =~= right.take(len));
    decimal_is_injective(m, n);
    assert(rest_m =~= left.skip(len + 1));
    assert(rest_n =~= right.skip(len + 1));
}

/// What follows a common beginning is the same in equal texts.
proof fn same_beginning(beginning: Seq<char>, left: Seq<char>, right: Seq<char>)
    requires
        beginning + left == beginning + right,
    ensures
        left == right,
{
    assert(left =~= (beginning + left).skip(beginning.len() as int));
    assert(right =~= (beginning + right).skip(beginning.len() as int));
}

proof fn projection_names_differ(left: Projection, right: Projection)
    requires
        left.spec_name() == right.spec_name(),
    ensures
        left == right,
{
    assert("w1"@.len() == 2 && "w1"@[1] == '1') by {
        reveal_strlit("w1");
    }
    assert("w2"@.len() == 2 && "w2"@[1] == '2') by {
        reveal_strlit("w2");
    }
    assert("w3"@.len() == 2 && "w3"@[1] == '3') by {
        reveal_strlit("w3");
    }
    assert(left.spec_name()[1] == right.spec_name()[1]);
}

proof fn layer_names_differ(left: LayerTensor, right: LayerTensor)
    requires
        left.spec_name() == right.spec_name(),
    ensures
        left == right,
{
    assert({
        &&& "attn_norm.weight"@.len() == 16
        &&& "attn_norm.weight"@[0] == 'a'
        &&& "attn_norm.weight"@[3] == 'n'
        &&& "attn_norm.weight"@[4] == '_'
        &&& "attn_norm.weight"@[6] == 'o'
        &&& "attn_norm.weight"@[8] == 'm'
    }) by {
        reveal_strlit("attn_norm.weight");
    }
    assert({
        &&& "ffn_norm.weight"@.len() == 15
        &&& "ffn_norm.weight"@[0] == 'f'
        &&& "ffn_norm.weight"@[3] == '_'
        &&& "ffn_norm.weight"@[4] == 'n'
        &&& "ffn_norm.weight"@[6] == 'r'
        &&& "ffn_norm.weight"@[8] == '.'
    }) by {
        reveal_strlit("ffn_norm.weight");
    }
    assert({
        &&& "attn.wq_a.weight"@.len() == 16
        &&& "attn.wq_a.weight"@[0] == 'a'
        &&& "attn.wq_a.weight"@[3] == 'n'
        &&& "attn.wq_a.weight"@[4] == '.'
        &&& "attn.wq_a.weight"@[6] == 'q'
        &&& "attn.wq_a.weight"@[8] == 'a'
    }) by {
        reveal_strlit("attn.wq_a.weight");
    }
    assert({
        &&& "attn.wq_b.weight"@.len() == 16
        &&& "attn.wq_b.weight"@[0] == 'a'
        &&& "attn.wq_b.weight"@[3] == 'n'
        &&& "attn.wq_b.weight"@[4] == '.'
        &&& "attn.wq_b.weight"@[6] == 'q'
        &&& "attn.wq_b.weight"@[8] == 'b'
    }) by {
        reveal_strlit("attn.wq_b.weight");
    }
    assert({
        &&& "attn.q_norm.weight"@.len() == 18
        &&& "attn.q_norm.weight"@[0] == 'a'
        &&& "attn.q_norm.weight"@[3] == 'n'
        &&& "attn.q_norm.weight"@[4] == '.'
        &&& "attn.q_norm.weight"@[6] == '_'
        &&& "attn.q_norm.weight"@[8] == 'o'
    }) by {
        reveal_strlit("attn.q_norm.weight");
    }
    assert({
        &&& "attn.wkv.weight"@.len() == 15
        &&& "attn.wkv.weight"@[0] == 'a'
        &&& "attn.wkv.weight"@[3] == 'n'
        &&& "attn.wkv.weight"@[4] == '.'
        &&& "attn.wkv.weight"@[6] == 'k'
        &&& "attn.wkv.weight"@[8] == '.'
    }) by {
        reveal_strlit("attn.wkv.weight");
    }
    assert({
        &&& "attn.wkv_rope.weight"@.len() == 20
        &&& "attn.wkv_rope.weight"@[0] == 'a'
        &&& "attn.wkv_rope.weight"@[3] == 'n'
        &&& "attn.wkv_rope.weight"@[4] == '.'
        &&& "attn.wkv_rope.weight"@[6] == 'k'
        &&& "attn.wkv_rope.weight"@[8] == '_'
    }) by {
        reveal_strlit("attn.wkv_rope.weight");
    }
    assert({
        &&& "attn.kv_norm.weight"@.len() == 19
        &&& "attn.kv_norm.weight"@[0] == 'a'
        &&& "attn.kv_norm.weight"@[3] == 'n'
        &&& "attn.kv_norm.weight"@[4] == '.'
        &&& "attn.kv_norm.weight"@[6] == 'v'
        &&& "attn.kv_norm.weight"@[8] == 'n'
    }) by {
        reveal_strlit("attn.kv_norm.weight");
    }
    assert({
        &&& "attn.wo_a.weight"@.len() == 16
        &&& "attn.wo_a.weight"@[0] == 'a'
        &&& "attn.wo_a.weight"@[3] == 'n'
        &&& "attn.wo_a.weight"@[4] == '.'
        &&& "attn.wo_a.weight"@[6] == 'o'
        &&& "attn.wo_a.weight"@[8] == 'a'
    }) by {
        reveal_strlit("attn.wo_a.weight");
    }
    assert({
        &&& "attn.wo_b.weight"@.len() == 16
        &&& "attn.wo_b.weight"@[0] == 'a'
        &&& "attn.wo_b.weight"@[3] == 'n'
        &&& "attn.wo_b.weight"@[4] == '.'
        &&& "attn.wo_b.weight"@[6] == 'o'
        &&& "attn.wo_b.weight"@[8] == 'b'
    }) by {
        reveal_strlit("attn.wo_b.weight");
    }
    assert({
        &&& "ffn.gate.weight"@.len() == 15
        &&& "ffn.gate.weight"@[0] == 'f'
        &&& "ffn.gate.weight"@[3] == '.'
        &&& "ffn.gate.weight"@[4] == 'g'
        &&& "ffn.gate.weight"@[6] == 't'
        &&& "ffn.gate.weight"@[8] == '.'
    }) by {
        reveal_strlit("ffn.gate.weight");
    }
    assert({
        &&& "ffn.experts."@.len() == 12
        &&& "ffn.experts."@[0] == 'f'
        &&& "ffn.experts."@[3] == '.'
        &&& "ffn.experts."@[4] == 'e'
        &&& "ffn.experts."@[6] == 'p'
        &&& "ffn.experts."@[8] == 'r'
    }) by {
        reveal_strlit("ffn.experts.");
    }
    assert({
        &&& "ffn.shared_experts."@.len() == 19
        &&& "ffn.shared_experts."@[0] == 'f'
        &&& "ffn.shared_experts."@[3] == '.'
        &&& "ffn.shared_experts."@[4] == 's'
        &&& "ffn.shared_experts."@[6] == 'a'
        &&& "ffn.shared_experts."@[8] == 'e'
    }) by {
        reveal_strlit("ffn.shared_experts.");
    }
    let a = left.spec_name();
    let b = right.spec_name();
    assert(a[0] == b[0] && a[3] == b[3] && a[4] == b[4] && a[6] == b[6] && a[8] == b[8]);
    match (left, right) {
        (
            LayerTensor::Expert { index: m, projection: p },
            LayerTensor::Expert { index: n, projection: q },
        ) => {
            same_beginning(
                "ffn.experts."@,
                decimal(m as nat) + ("."@ + p.spec_name()),
                decimal(n as nat) + ("."@ + q.spec_name()),
            );
            numeral_ends_at_dot(m as nat, p.spec_name(), n as nat, q.spec_name());
            projection_names_differ(p, q);
        },
        (
            LayerTensor::SharedExpert { projection: p },
            LayerTensor::SharedExpert { projection: q },
        ) => {
            same_beginning("ffn.shared_experts."@, p.spec_name(), q.spec_name());
            projection_names_differ(p, q);
        },
        _ => {},
    }
}

/// No two tensors of a checkpoint share a name.
pub proof fn tensor_names_differ(left: Tensor, right: Tensor)
    requires
        left.spec_name() == right.spec_name(),
    ensures
        left == right,
{
    assert({
        &&& "embed.weight"@.len() == 12
        &&& "embed.weight"@[0] == 'e'
        &&& "embed.weight"@[1] == 'm'
        &&& "embed.weight"@[5] == '.'
        &&& "embed.weight"@[6] == 'w'
    }) by {
        reveal_strlit("embed.weight");
    }
    assert({
        &&& "model.embed_tokens.weight"@.len() == 25
        &&& "model.embed_tokens.weight"@[0] == 'm'
        &&& "model.embed_tokens.weight"@[1] == 'o'
        &&& "model.embed_tokens.weight"@[5] == '.'
        &&& "model.embed_tokens.weight"@[6] == 'e'
    }) by {
        reveal_strlit("model.embed_tokens.weight");
    }
    assert({
        &&& "embed_tokens.weight"@.len() == 19
        &&& "embed_tokens.weight"@[0] == 'e'
        &&& "embed_tokens.weight"@[1] == 'm'
        &&& "embed_tokens.weight"@[5] == '_'
        &&& "embed_tokens.weight"@[6] == 't'
    }) by {
        reveal_strlit("embed_tokens.weight");
    }
    assert({
        &&& "norm.weight"@.len() == 11
        &&& "norm.weight"@[0] == 'n'
        &&& "norm.weight"@[1] == 'o'
        &&& "norm.weight"@[5] == 'w'
        &&& "norm.weight"@[6] == 'e'
    }) by {
        reveal_strlit("norm.weight");
    }
    assert({
        &&& "model.norm.weight"@.len() == 17
        &&& "model.norm.weight"@[0] == 'm'
        &&& "model.norm.weight"@[1] == 'o'
        &&& "model.norm.weight"@[5] == '.'
        &&& "model.norm.weight"@[6] == 'n'
    }) by {
        reveal_strlit("model.norm.weight");
    }
    assert({
        &&& "final_norm.weight"@.len() == 17
        &&& "final_norm.weight"@[0] == 'f'
        &&& "final_norm.weight"@[1] == 'i'
        &&& "final_norm.weight"@[5] == '_'
        &&& "final_norm.weight"@[6] == 'n'
    }) by {
        reveal_strlit("final_norm.weight");
    }
    assert({
        &&& "head.weight"@.len() == 11
        &&& "head.weight"@[0] == 'h'
        &&& "head.weight"@[1] == 'e'
        &&& "head.weight"@[5] == 'w'
        &&& "head.weight"@[6] == 'e'
    }) by {
        reveal_strlit("head.weight");
    }
    assert({
        &&& "lm_head.weight"@.len() == 14
        &&& "lm_head.weight"@[0] == 'l'
        &&& "lm_head.weight"@[1] == 'm'
        &&& "lm_head.weight"@[5] == 'a'
        &&& "lm_head.weight"@[6] == 'd'
    }) by {
        reveal_strlit("lm_head.weight");
    }
    assert({
        &&& "layers."@.len() == 7
        &&& "layers."@[0] == 'l'
        &&& "layers."@[1] == 'a'
        &&& "layers."@[5] == 's'
        &&& "layers."@[6] == '.'
    }) by {
        reveal_strlit("layers.");
    }
    let a = left.spec_name();
    let b = right.spec_name();
    assert(a[0] == b[0] && a[1] == b[1] && a[5] == b[5] && a[6] == b[6]);
    match (left, right) {
        (Tensor::Layer { layer: m, tensor: s }, Tensor::Layer { layer: n, tensor: t }) => {
            same_beginning(
                "layers."@,
                decimal(m as nat) + ("."@ + s.spec_name()),
                decimal(n as nat) + ("."@ + t.spec_name()),
            );
            numeral_ends_at_dot(m as nat, s.spec_name(), n as nat, t.spec_name());
            layer_names_differ(s, t);
        },
        _ => {},
    }
}

/// The name of a layer's tensor: `layers.N.` and then the name within the layer.
proof fn layer_name_is(layer: usize, tensor: LayerTensor, within: Seq<char>, dotted: Seq<char>)
    requires
        tensor.spec_name() == within,
        dotted == seq!['.'] + within,
    ensures
        (Tensor::Layer { layer, tensor }).spec_name() == "layers."@ + decimal(layer as nat)
            + dotted,
{
    reveal_strlit(".");
    assert("."@ =~= seq!['.']);
    assert((Tensor::Layer { layer, tensor }).spec_name() =~= "layers."@ + decimal(layer as nat)
        + dotted);
}

/// The names that the tensors of a layer are stored under, whatever the layer:
/// the key and value projection is `wo_a`, and the output projection is `wo_b`.
pub proof fn layer_tensors_are_stored_as(layer: usize)
    ensures
        ({
            let stored = |tensor: LayerTensor| (Tensor::Layer { layer, tensor }).spec_name();
            let prefix = "layers."@ + decimal(layer as nat);
            &&& stored(LayerTensor::AttnNorm) == prefix + ".attn_norm.weight"@
            &&& stored(LayerTensor::FfnNorm) == prefix + ".ffn_norm.weight"@
            &&& stored(LayerTensor::WqA) == prefix + ".attn.wq_a.weight"@
            &&& stored(LayerTensor::WqB) == prefix + ".attn.wq_b.weight"@
            &&& stored(LayerTensor::QNorm) == prefix + ".attn.q_norm.weight"@
            &&& stored(LayerTensor::Wkv) == prefix + ".attn.wkv.weight"@
            &&& stored(LayerTensor::WkvRope) == prefix + ".attn.wkv_rope.weight"@
            &&& stored(LayerTensor::KvNorm) == prefix + ".attn.kv_norm.weight"@
            &&& stored(LayerTensor::WoA) == prefix + ".attn.wo_a.weight"@
            &&& stored(LayerTensor::WoB) == prefix + ".attn.wo_b.weight"@
            &&& stored(LayerTensor::Gate) == prefix + ".ffn.gate.weight"@
        }),
{
    assert(".attn_norm.weight"@ =~= seq!['.'] + "attn_norm.weight"@) by {
        reveal_strlit(".attn_norm.weight");
        reveal_strlit("attn_norm.weight");
    }
    layer_name_is(
        layer,
        LayerTensor::AttnNorm,
        "attn_norm.weight"@,
        ".attn_norm.weight"@,
    );
    assert(".ffn_norm.weight"@ =~= seq!['.'] + "ffn_norm.weight"@) by {
        reveal_strlit(".ffn_norm.weight");
        reveal_strlit("ffn_norm.weight");
    }
    layer_name_is(
        layer,
        LayerTensor::FfnNorm,
        "ffn_norm.weight"@,
        ".ffn_norm.weight"@,
    );
    assert(".attn.wq_a.weight"@ =~= seq!['.'] + "attn.wq_a.weight"@) by {
        reveal_strlit(".attn.wq_a.weight");
        reveal_strlit("attn.wq_a.weight");
    }
    layer_name_is(
        layer,
        LayerTensor::WqA,
        "attn.wq_a.weight"@,
        ".attn.wq_a.weight"@,
    );
    assert(".attn.wq_b.weight"@ =~= seq!['.'] + "attn.wq_b.weight"@) by {
        reveal_strlit(".attn.wq_b.weight");
        reveal_strlit("attn.wq_b.weight");
    }
    layer_name_is(
        layer,
        LayerTensor::WqB,
        "attn.wq_b.weight"@,
        ".attn.wq_b.weight"@,
    );
    assert(".attn.q_norm.weight"@ =~= seq!['.'] + "attn.q_norm.weight"@) by {
        reveal_strlit(".attn.q_norm.weight");
        reveal_strlit("attn.q_norm.weight");
    }
    layer_name_is(
        layer,
        LayerTensor::QNorm,
        "attn.q_norm.weight"@,
        ".attn.q_norm.weight"@,
    );
    assert(".attn.wkv.weight"@ =~= seq!['.'] + "attn.wkv.weight"@) by {
        reveal_strlit(".attn.wkv.weight");
        reveal_strlit("attn.wkv.weight");
    }
    layer_name_is(
        layer,
        LayerTensor::Wkv,
        "attn.wkv.weight"@,
        ".attn.wkv.weight"@,
    );
    assert(".attn.wkv_rope.weight"@ =~= seq!['.'] + "attn.wkv_rope.weight"@) by {
        reveal_strlit(".attn.wkv_rope.weight");
        reveal_strlit("attn.wkv_rope.weight");
    }
    layer_name_is(
        layer,
        LayerTensor::WkvRope,
        "attn.wkv_rope.weight"@,
        ".attn.wkv_rope.weight"@,
    );
    assert(".attn.kv_norm.weight"@ =~= seq!['.'] + "attn.kv_norm.weight"@) by {
        reveal_strlit(".attn.kv_norm.weight");
        reveal_strlit("attn.kv_norm.weight");
    }
    layer_name_is(
        layer,
        LayerTensor::KvNorm,
        "attn.kv_norm.weight"@,
        ".attn.kv_norm.weight"@,
    );
    assert(".attn.wo_a.weight"@ =~= seq!['.'] + "attn.wo_a.weight"@) by {
        reveal_strlit(".attn.wo_a.weight");
        reveal_strlit("attn.wo_a.weight");
    }
    layer_name_is(
        layer,
        LayerTensor::WoA,
        "attn.wo_a.weight"@,
        ".attn.wo_a.weight"@,
    );
    assert(".attn.wo_b.weight"@ =~= seq!['.'] + "attn.wo_b.weight"@) by {
        reveal_strlit(".attn.wo_b.weight");
        reveal_strlit("attn.wo_b.weight");
    }
    layer_name_is(
        layer,
        LayerTensor::WoB,
        "attn.wo_b.weight"@,
        ".attn.wo_b.weight"@,
    );
    assert(".ffn.gate.weight"@ =~= seq!['.'] + "ffn.gate.weight"@) by {
        reveal_strlit(".ffn.gate.weight");
        reveal_strlit("ffn.gate.weight");
    }
    layer_name_is(
        layer,
        LayerTensor::Gate,
        "ffn.gate.weight"@,
        ".ffn.gate.weight"@,
    );
}

/// The name of an expert's projection: the expert's number stands between the
/// experts of the layer and the name of the projection.
proof fn expert_name_is(layer: usize, index: usize, projection: Projection, dotted: Seq<char>)
    requires
        dotted == seq!['.'] + projection.spec_name(),
    ensures
        (Tensor::Layer { layer, tensor: LayerTensor::Expert { index, projection } }).spec_name()
            == "layers."@ + decimal(layer as nat) + ".ffn.experts."@ + decimal(index as nat)
            + dotted,
{
    let tensor = LayerTensor::Expert { index, projection };
    let numeral = decimal(index as nat);
    assert("."@ =~= seq!['.']) by {
        reveal_strlit(".");
    }
    assert(".ffn.experts."@ =~= seq!['.'] + "ffn.experts."@) by {
        reveal_strlit(".ffn.experts.");
        reveal_strlit("ffn.experts.");
    }
    assert(tensor.spec_name() =~= "ffn.experts."@ + numeral + dotted);
    assert(seq!['.'] + ("ffn.experts."@ + numeral + dotted) =~= ".ffn.experts."@ + numeral
        + dotted);
    layer_name_is(layer, tensor, tensor.spec_name(), ".ffn.experts."@ + numeral + dotted);
    let prefix = "layers."@ + decimal(layer as nat);
    assert(prefix + (".ffn.experts."@ + numeral + dotted) =~= prefix + ".ffn.experts."@ + numeral
        + dotted);
}

/// The names that the projections of an expert are stored under, whatever the
/// layer and the expert.
pub proof fn experts_are_stored_as(layer: usize, index: usize)
    ensures
        ({
            let stored = |projection: Projection|
                (Tensor::Layer {
                    layer,
                    tensor: LayerTensor::Expert { index, projection },
                }).spec_name();
            let prefix = "layers."@ + decimal(layer as nat) + ".ffn.experts."@ + decimal(
                index as nat,
            );
            &&& stored(Projection::W1) == prefix + ".w1"@
            &&& stored(Projection::W2) == prefix + ".w2"@
            &&& stored(Projection::W3) == prefix + ".w3"@
        }),
        ({
            let stored = |projection: Projection|
                (Tensor::Layer {
                    layer,
                    tensor: LayerTensor::SharedExpert { projection },
                }).spec_name();
            let prefix = "layers."@ + decimal(layer as nat);
            &&& stored(Projection::W1) == prefix + ".ffn.shared_experts.w1"@
            &&& stored(Projection::W2) == prefix + ".ffn.shared_experts.w2"@
            &&& stored(Projection::W3) == prefix + ".ffn.shared_experts.w3"@
        }),
{
    assert(".w1"@ =~= seq!['.'] + "w1"@) by {
        reveal_strlit(".w1");
        reveal_strlit("w1");
    }
    expert_name_is(layer, index, Projection::W1, ".w1"@);
    assert(".ffn.shared_experts.w1"@ =~= seq!['.'] + ("ffn.shared_experts."@ + "w1"@)) by {
        reveal_strlit(".ffn.shared_experts.w1");
        reveal_strlit("ffn.shared_experts.");
        reveal_strlit("w1");
    }
    layer_name_is(
        layer,
        LayerTensor::SharedExpert { projection: Projection::W1 },
        "ffn.shared_experts."@ + "w1"@,
        ".ffn.shared_experts.w1"@,
    );
    assert(".w2"@ =~= seq!['.'] + "w2"@) by {
        reveal_strlit(".w2");
        reveal_strlit("w2");
    }
    expert_name_is(layer, index, Projection::W2, ".w2"@);
    assert(".ffn.shared_experts.w2"@ =~= seq!['.'] + ("ffn.shared_experts."@ + "w2"@)) by {
        reveal_strlit(".ffn.shared_experts.w2");
        reveal_strlit("ffn.shared_experts.");
        reveal_strlit("w2");
    }
    layer_name_is(
        layer,
        LayerTensor::SharedExpert { projection: Projection::W2 },
        "ffn.shared_experts."@ + "w2"@,
        ".ffn.shared_experts.w2"@,
    );
    assert(".w3"@ =~= seq!['.'] + "w3"@) by {
        reveal_strlit(".w3");
        reveal_strlit("w3");
    }
    expert_name_is(layer, index, Projection::W3, ".w3"@);
    assert(".ffn.shared_experts.w3"@ =~= seq!['.'] + ("ffn.shared_experts."@ + "w3"@)) by {
        reveal_strlit(".ffn.shared_experts.w3");
        reveal_strlit("ffn.shared_experts.");
        reveal_strlit("w3");
    }
    layer_name_is(
        layer,
        LayerTensor::SharedExpert { projection: Projection::W3 },
        "ffn.shared_experts."@ + "w3"@,
        ".ffn.shared_experts.w3"@,
    );
}

/// The names that the tensors outside the layers are stored under.
pub proof fn model_tensors_are_stored_as()
    ensures
        Tensor::Embed.spec_name() == "embed.weight"@,
        Tensor::ModelEmbedTokens.spec_name() == "model.embed_tokens.weight"@,
        Tensor::EmbedTokens.spec_name() == "embed_tokens.weight"@,
        Tensor::Norm.spec_name() == "norm.weight"@,
        Tensor::ModelNorm.spec_name() == "model.norm.weight"@,
        Tensor::FinalNorm.spec_name() == "final_norm.weight"@,
        Tensor::Head.spec_name() == "head.weight"@,
        Tensor::LmHead.spec_name() == "lm_head.weight"@,
{
}

} // verus!

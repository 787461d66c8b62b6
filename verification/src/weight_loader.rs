//! The weight loader of DeepSeek-V4 checkpoints: which tensors are looked for,
//! under which names, and in which order.
use vstd::prelude::*;

use crate::config::ModelConfig;
use crate::context::LayerContext;
use crate::load_layers::{load_all_layers, LoadModel, LoadRun};
use crate::request::{
    outcome_model, ErrorContext, LoadError, Progress, Reply, ReplyModel, ReplyOf, Request,
    RequestModel, RequestOf,
};
use crate::tensor::Tensor;
use crate::weights::DenseWeight;

verus! {

/// A weight that is stored under one of several names.
#[derive(Clone, Copy, Debug, PartialEq, Eq, Structural)]
pub enum Sought {
    Embedding,
    FinalNorm,
}

impl Sought {
    /// The names of the weight, in the order in which they are tried: the
    /// flattened name first, then the usual ones.
    pub open spec fn candidates(self) -> Seq<Tensor> {
        match self {
            Sought::Embedding => seq![
                Tensor::Embed,
                Tensor::ModelEmbedTokens,
                Tensor::EmbedTokens,
            ],
            Sought::FinalNorm => seq![Tensor::Norm, Tensor::ModelNorm, Tensor::FinalNorm],
        }
    }

    /// What a weight that is found under no name is reported as.
    pub open spec fn missing(self) -> ErrorContext {
        match self {
            Sought::Embedding => ErrorContext::Embedding,
            Sought::FinalNorm => ErrorContext::FinalNorm,
        }
    }
}

/// A search for a weight under one name after the other.
#[derive(Clone, Copy, Debug, PartialEq, Eq, Structural)]
pub struct SearchRun {
    pub sought: Sought,
    /// The name that is tried next.
    pub attempt: usize,
}

impl SearchRun {
    /// There is a name left to try.
    pub open spec fn wf(self) -> bool {
        self.attempt < self.sought.candidates().len()
    }

    /// The next request.
    pub open spec fn spec_request<'a, Q, R>(self) -> RequestModel<'a, Q, R> {
        RequestOf::Dense(self.sought.candidates()[self.attempt as int])
    }

    /// Where the search stands after an outcome: a failure is passed over while
    /// there is another name.
    pub open spec fn after<E>(self, outcome: Result<ReplyModel, E>) -> Progress<
        SearchRun,
        DenseWeight,
        E,
    > {
        match outcome {
            Ok(ReplyOf::Dense(weight)) => Progress::Done(weight),
            Ok(_) => Progress::Failed(LoadError::UnfitReply),
            Err(cause) => if self.attempt + 1 < self.sought.candidates().len() {
                Progress::Ask(SearchRun { attempt: (self.attempt + 1) as usize, ..self })
            } else {
                Progress::Failed(
                    LoadError::Runtime { context: Some(self.sought.missing()), cause },
                )
            },
        }
    }

    /// Begins to search.
    pub fn new(sought: Sought) -> (res: SearchRun)
        ensures
            res == (SearchRun { sought, attempt: 0 }),
            res.wf(),
    {
        SearchRun { sought, attempt: 0 }
    }

    /// The next request.
    pub fn request<'a, Q, R>(&self) -> (res: Request<'a, Q, R>)
        requires
            self.wf(),
        ensures
            res@ == self.spec_request::<Q, R>(),
    {
        RequestOf::Dense(
            match (self.sought, self.attempt) {
                (Sought::Embedding, 0) => Tensor::Embed,
                (Sought::Embedding, 1) => Tensor::ModelEmbedTokens,
                (Sought::Embedding, _) => Tensor::EmbedTokens,
                (Sought::FinalNorm, 0) => Tensor::Norm,
                (Sought::FinalNorm, 1) => Tensor::ModelNorm,
                (Sought::FinalNorm, _) => Tensor::FinalNorm,
            },
        )
    }

    /// Takes the outcome of the last request.
    pub fn step<E>(self, outcome: Result<Reply, E>) -> (res: Progress<SearchRun, DenseWeight, E>)
        requires
            self.wf(),
        ensures
            res == self.after(outcome_model(outcome)),
            res matches Progress::Ask(next) ==> next.wf(),
    {
        match outcome {
            Ok(ReplyOf::Dense(weight)) => Progress::Done(weight),
            Ok(_) => Progress::Failed(LoadError::UnfitReply),
            Err(cause) => if self.attempt < 2 {
                Progress::Ask(SearchRun { sought: self.sought, attempt: self.attempt + 1 })
            } else {
                let context = match self.sought {
                    Sought::Embedding => ErrorContext::Embedding,
                    Sought::FinalNorm => ErrorContext::FinalNorm,
                };
                Progress::Failed(LoadError::Runtime { context: Some(context), cause })
            },
        }
    }
}

/// What a load of the output projection is at.
#[derive(Clone, Copy, Debug, PartialEq, Eq, Structural)]
pub enum LmHeadStage {
    FindHead,
    FindLmHead,
    LoadHead,
    LoadLmHead,
    /// The output projection is the embedding.
    Tied(SearchRun),
}

/// A load of the output projection.
#[derive(Clone, Copy, Debug, PartialEq, Eq, Structural)]
pub struct LmHeadRun {
    pub tie_word_embeddings: bool,
    pub stage: LmHeadStage,
}

impl LmHeadRun {
    pub open spec fn wf(self) -> bool {
        self.stage matches LmHeadStage::Tied(search) ==> search.wf()
    }

    /// The next request.
    pub open spec fn spec_request<'a, Q, R>(self) -> RequestModel<'a, Q, R> {
        match self.stage {
            LmHeadStage::FindHead => RequestOf::Contains(Tensor::Head),
            LmHeadStage::FindLmHead => RequestOf::Contains(Tensor::LmHead),
            LmHeadStage::LoadHead => RequestOf::Dense(Tensor::Head),
            LmHeadStage::LoadLmHead => RequestOf::Dense(Tensor::LmHead),
            LmHeadStage::Tied(search) => search.spec_request(),
        }
    }

    /// Where the load stands once it is known whether a name is stored.
    pub open spec fn found<E>(self, stored: bool) -> Progress<LmHeadRun, DenseWeight, E> {
        if self.stage is FindHead {
            Progress::Ask(
                LmHeadRun {
                    stage: if stored {
                        LmHeadStage::LoadHead
                    } else {
                        LmHeadStage::FindLmHead
                    },
                    ..self
                },
            )
        } else if stored {
            Progress::Ask(LmHeadRun { stage: LmHeadStage::LoadLmHead, ..self })
        } else if self.tie_word_embeddings {
            Progress::Ask(
                LmHeadRun {
                    stage: LmHeadStage::Tied(
                        SearchRun { sought: Sought::Embedding, attempt: 0 },
                    ),
                    ..self
                },
            )
        } else {
            Progress::Failed(LoadError::NoLmHead)
        }
    }

    /// Where the load stands after an outcome.
    pub open spec fn after<E>(self, outcome: Result<ReplyModel, E>) -> Progress<
        LmHeadRun,
        DenseWeight,
        E,
    > {
        match self.stage {
            LmHeadStage::Tied(search) => match search.after(outcome) {
                Progress::Ask(next) => Progress::Ask(
                    LmHeadRun { stage: LmHeadStage::Tied(next), ..self },
                ),
                Progress::Done(weight) => Progress::Done(weight),
                Progress::Failed(error) => Progress::Failed(error),
            },
            stage => match outcome {
                Err(cause) => Progress::Failed(LoadError::Runtime { context: None, cause }),
                Ok(ReplyOf::Flag(stored)) => if stage is FindHead || stage is FindLmHead {
                    self.found(stored)
                } else {
                    Progress::Failed(LoadError::UnfitReply)
                },
                Ok(ReplyOf::Dense(weight)) => if stage is LoadHead || stage is LoadLmHead {
                    Progress::Done(weight)
                } else {
                    Progress::Failed(LoadError::UnfitReply)
                },
                Ok(_) => Progress::Failed(LoadError::UnfitReply),
            },
        }
    }

    /// The next request.
    pub fn request<'a, Q, R>(&self) -> (res: Request<'a, Q, R>)
        requires
            self.wf(),
        ensures
            res@ == self.spec_request::<Q, R>(),
    {
        match &self.stage {
            LmHeadStage::FindHead => RequestOf::Contains(Tensor::Head),
            LmHeadStage::FindLmHead => RequestOf::Contains(Tensor::LmHead),
            LmHeadStage::LoadHead => RequestOf::Dense(Tensor::Head),
            LmHeadStage::LoadLmHead => RequestOf::Dense(Tensor::LmHead),
            LmHeadStage::Tied(search) => search.request(),
        }
    }

    /// Takes the outcome of the last request.
    pub fn step<E>(self, outcome: Result<Reply, E>) -> (res: Progress<LmHeadRun, DenseWeight, E>)
        requires
            self.wf(),
        ensures
            res == self.after(outcome_model(outcome)),
            res matches Progress::Ask(next) ==> next.wf(),
    {
        let tie_word_embeddings = self.tie_word_embeddings;
        if let LmHeadStage::Tied(search) = self.stage {
            return match search.step(outcome) {
                Progress::Ask(next) => Progress::Ask(
                    LmHeadRun { tie_word_embeddings, stage: LmHeadStage::Tied(next) },
                ),
                Progress::Done(weight) => Progress::Done(weight),
                Progress::Failed(error) => Progress::Failed(error),
            };
        }
        let reply = match outcome {
            Ok(reply) => reply,
            Err(cause) => return Progress::Failed(LoadError::Runtime { context: None, cause }),
        };
        match (self.stage, reply) {
            (LmHeadStage::FindHead, ReplyOf::Flag(stored)) => {
                let stage = if stored {
                    LmHeadStage::LoadHead
                } else {
                    LmHeadStage::FindLmHead
                };
                Progress::Ask(LmHeadRun { tie_word_embeddings, stage })
            },
            (LmHeadStage::FindLmHead, ReplyOf::Flag(stored)) => if stored {
                Progress::Ask(LmHeadRun { tie_word_embeddings, stage: LmHeadStage::LoadLmHead })
            } else if tie_word_embeddings {
                let search = DeepSeekV4WeightLoader.load_embedding();
                Progress::Ask(LmHeadRun { tie_word_embeddings, stage: LmHeadStage::Tied(search) })
            } else {
                Progress::Failed(LoadError::NoLmHead)
            },
            (LmHeadStage::LoadHead, ReplyOf::Dense(weight)) => Progress::Done(weight),
            (LmHeadStage::LoadLmHead, ReplyOf::Dense(weight)) => Progress::Done(weight),
            _ => Progress::Failed(LoadError::UnfitReply),
        }
    }
}

/// Loads the weights of DeepSeek-V4 checkpoints.
pub struct DeepSeekV4WeightLoader;

impl DeepSeekV4WeightLoader {
    /// Whether the heads can be split over several devices. There is a single
    /// key/value head, which no number of devices above one divides.
    pub fn supports_tp(&self) -> (res: bool)
        ensures
            !res,
    {
        false
    }

    /// Begins to load all layers.
    pub fn load_layers<'a, Q, R>(&self, context: &'a LayerContext<'a, Q, R>) -> (res: LoadRun<
        'a,
        Q,
        R,
    >)
        requires
            context.wf(),
        ensures
            res@ == LoadModel::<Q, R>::start(context),
            res@.wf(),
    {
        load_all_layers(context)
    }

    /// Begins to load the embedding.
    pub fn load_embedding(&self) -> (res: SearchRun)
        ensures
            res == (SearchRun { sought: Sought::Embedding, attempt: 0 }),
            res.wf(),
    {
        SearchRun::new(Sought::Embedding)
    }

    /// Begins to load the final norm.
    pub fn load_final_norm(&self) -> (res: SearchRun)
        ensures
            res == (SearchRun { sought: Sought::FinalNorm, attempt: 0 }),
            res.wf(),
    {
        SearchRun::new(Sought::FinalNorm)
    }

    /// Begins to load the output projection.
    pub fn load_lm_head<Q, R>(&self, config: &ModelConfig<Q, R>) -> (res: LmHeadRun)
        ensures
            res == (LmHeadRun {
                tie_word_embeddings: config.tie_word_embeddings,
                stage: LmHeadStage::FindHead,
            }),
            res.wf(),
    {
        LmHeadRun {
            tie_word_embeddings: config.tie_word_embeddings,
            stage: LmHeadStage::FindHead,
        }
    }

    /// The weights for predicting several tokens at once, of which none are
    /// loaded.
    pub fn load_mtp_weights<M>(&self) -> (res: Option<M>)
        ensures
            res is None,
    {
        None
    }
}

/// The outcome of a request for a dense weight.
pub open spec fn dense_outcome<E>(found: Result<DenseWeight, E>) -> Result<ReplyModel, E> {
    match found {
        Ok(weight) => Ok(ReplyOf::Dense(weight)),
        Err(cause) => Err(cause),
    }
}

impl SearchRun {
    /// How a search ends when `store` says what is stored under each name.
    pub open spec fn outcome<E>(
        self,
        store: spec_fn(Tensor) -> Result<DenseWeight, E>,
    ) -> Result<DenseWeight, LoadError<E>>
        decreases self.sought.candidates().len() - self.attempt,
        when self.wf()
    {
        let found = store(self.sought.candidates()[self.attempt as int]);
        match self.after(dense_outcome(found)) {
            Progress::Ask(next) => next.outcome(store),
            Progress::Done(weight) => Ok(weight),
            Progress::Failed(error) => Err(error),
        }
    }
}

impl LmHeadRun {
    /// The most requests that the load can still make.
    pub open spec fn left(self) -> nat {
        match self.stage {
            LmHeadStage::FindHead => 5,
            LmHeadStage::FindLmHead => 4,
            LmHeadStage::Tied(search) => (search.sought.candidates().len()
                - search.attempt) as nat,
            _ => 1,
        }
    }

    /// How a load of the output projection ends when `contains` says which
    /// names are stored, and `store` what is stored under each.
    pub open spec fn outcome<E>(
        self,
        contains: spec_fn(Tensor) -> bool,
        store: spec_fn(Tensor) -> Result<DenseWeight, E>,
    ) -> Result<DenseWeight, LoadError<E>>
        decreases self.left(),
        when self.wf()
    {
        let outcome = match self.stage {
            LmHeadStage::FindHead => Ok(ReplyOf::Flag(contains(Tensor::Head))),
            LmHeadStage::FindLmHead => Ok(ReplyOf::Flag(contains(Tensor::LmHead))),
            LmHeadStage::LoadHead => dense_outcome(store(Tensor::Head)),
            LmHeadStage::LoadLmHead => dense_outcome(store(Tensor::LmHead)),
            LmHeadStage::Tied(search) => dense_outcome(
                store(search.sought.candidates()[search.attempt as int]),
            ),
        };
        match self.after(outcome) {
            Progress::Ask(next) => next.outcome(contains, store),
            Progress::Done(weight) => Ok(weight),
            Progress::Failed(error) => Err(error),
        }
    }
}

/// A search ends with what is stored under the first name that is stored, and
/// fails with the last name's error where none is.
pub proof fn searches_take_the_first_name<E>(
    sought: Sought,
    store: spec_fn(Tensor) -> Result<DenseWeight, E>,
)
    ensures
        ({
            let names = sought.candidates();
            let outcome = (SearchRun { sought, attempt: 0 }).outcome(store);
            match (store(names[0]), store(names[1]), store(names[2])) {
                (Ok(weight), _, _) => outcome == Ok::<_, LoadError<E>>(weight),
                (Err(_), Ok(weight), _) => outcome == Ok::<_, LoadError<E>>(weight),
                (Err(_), Err(_), Ok(weight)) => outcome == Ok::<_, LoadError<E>>(weight),
                (Err(_), Err(_), Err(cause)) => outcome == Err::<DenseWeight, LoadError<E>>(
                    LoadError::Runtime { context: Some(sought.missing()), cause },
                ),
            }
        }),
{
    reveal_with_fuel(SearchRun::outcome, 4);
}

/// A load of the output projection ends with `head.weight` where that is
/// stored, else with `lm_head.weight` where that is, else with the embedding
/// where the two are tied, and else fails.
pub proof fn lm_heads_fall_back_in_order<E>(
    tie_word_embeddings: bool,
    contains: spec_fn(Tensor) -> bool,
    store: spec_fn(Tensor) -> Result<DenseWeight, E>,
)
    ensures
        ({
            let outcome = (LmHeadRun {
                tie_word_embeddings,
                stage: LmHeadStage::FindHead,
            }).outcome(contains, store);
            if contains(Tensor::Head) {
                outcome == loaded(store(Tensor::Head))
            } else if contains(Tensor::LmHead) {
                outcome == loaded(store(Tensor::LmHead))
            } else if tie_word_embeddings {
                outcome == (SearchRun { sought: Sought::Embedding, attempt: 0 }).outcome(store)
            } else {
                outcome == Err::<DenseWeight, LoadError<E>>(LoadError::NoLmHead)
            }
        }),
{
    reveal_with_fuel(SearchRun::outcome, 4);
    reveal_with_fuel(LmHeadRun::outcome, 6);
}

/// What a request for a dense weight comes to where its failure is final.
pub open spec fn loaded<E>(found: Result<DenseWeight, E>) -> Result<DenseWeight, LoadError<E>> {
    match found {
        Ok(weight) => Ok(weight),
        Err(cause) => Err(LoadError::Runtime { context: None, cause }),
    }
}

} // verus!

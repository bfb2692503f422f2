//! The worker: the one place where models are loaded and requests are decided.
//!
//! The worker is a state machine that the surrounding program drives. The
//! program asks what to do next ([`Worker::advance`]), does it, and reports
//! what happened ([`Worker::model_loaded`], [`Worker::queue_closed`]). For each
//! request it takes from the queue it asks the worker what to answer
//! ([`Worker::dispatch`], [`reply_for`]).

use crate::embedding::channel_closed_error;
use crate::embedding::reply_view;
use crate::embedding::unsupported_kind_error;
use crate::embedding::EmbeddingGeneratorError;
use crate::embedding::EmbeddingGeneratorErrorView;
use crate::registry::ModelRegistry;
use crate::server_config::EmbeddingModel;
use vstd::prelude::*;
use vstd::string::StringExecFns;

verus! {

/// Where the worker stands in its life.
#[derive(Clone, Copy, Debug, PartialEq, Eq, Structural)]
pub enum WorkerPhase {
    /// The configured models are being loaded; no request is served yet.
    Loading,
    /// Every configured model is loaded; requests are answered.
    Serving,
    /// The worker has stopped for good.
    Terminated,
}

/// What the program around the worker has to do next.
#[derive(Clone, Copy, Debug, PartialEq, Eq, Structural)]
pub enum Directive {
    /// Load the model of this configuration, then report the outcome.
    Load(EmbeddingModel),
    /// Take the next request from the queue, or report that the queue closed.
    Receive,
    /// Leave the loop.
    Exit,
}

/// What the worker decides for one request.
#[derive(Debug, PartialEq)]
pub enum Dispatch<'a, M> {
    /// Answer with this error; no model is run.
    Reject(EmbeddingGeneratorError),
    /// Run this model on the request's inputs and answer with what
    /// [`reply_for`] makes of the outcome.
    Encode(&'a M),
}

/// A decision as contracts see it.
pub enum DispatchView<M> {
    Reject(EmbeddingGeneratorErrorView),
    Encode(M),
}

impl<'a, M> View for Dispatch<'a, M> {
    type V = DispatchView<M>;

    open spec fn view(&self) -> DispatchView<M> {
        match self {
            Dispatch::Reject(error) => DispatchView::Reject(error@),
            Dispatch::Encode(model) => DispatchView::Encode(**model),
        }
    }
}

/// The outcome of a load as contracts see it: the model, or the loader's
/// diagnostic.
pub open spec fn load_view<M>(outcome: Result<M, String>) -> Result<M, Seq<char>> {
    match outcome {
        Ok(model) => Ok(model),
        Err(detail) => Err(detail@),
    }
}

/// The answer that an outcome of the model stands for: its vectors as they
/// are, or its diagnostic as an inference error.
pub open spec fn spec_reply_for<V>(outcome: Result<Seq<V>, Seq<char>>) -> Result<
    Seq<V>,
    EmbeddingGeneratorErrorView,
> {
    match outcome {
        Ok(vectors) => Ok(vectors),
        Err(detail) => Err(EmbeddingGeneratorErrorView::ModelError(detail)),
    }
}

/// How the loop returns, as contracts see it.
pub open spec fn exit_view(result: Result<(), EmbeddingGeneratorError>) -> Result<
    (),
    EmbeddingGeneratorErrorView,
> {
    match result {
        Ok(()) => Ok(()),
        Err(error) => Err(error@),
    }
}

/// The outcome of running a model as contracts see it: the vectors in order,
/// or the model's diagnostic.
pub open spec fn encoding_view<V>(outcome: Result<Vec<V>, String>) -> Result<Seq<V>, Seq<char>> {
    match outcome {
        Ok(vectors) => Ok(vectors@),
        Err(detail) => Err(detail@),
    }
}

/// Turns the outcome of running a model into the answer for the caller. The
/// vectors of a success pass through untouched, one per input and in input
/// order as the model gave them; a failure becomes an inference error that
/// carries the model's diagnostic.
pub fn reply_for<V>(outcome: Result<Vec<V>, String>) -> (reply: Result<
    Vec<V>,
    EmbeddingGeneratorError,
>)
    ensures
        reply_view(reply) == spec_reply_for(encoding_view(outcome)),
        outcome matches Ok(vectors) ==> reply == Ok::<Vec<V>, EmbeddingGeneratorError>(vectors),
{
    match outcome {
        Ok(vectors) => Ok(vectors),
        Err(detail) => Err(EmbeddingGeneratorError::ModelError(detail)),
    }
}

/// What can happen to a worker, as contracts see it.
pub enum WorkerEvent<M> {
    /// The program asked what to do next.
    Advanced,
    /// A load ended, with the model or with the loader's diagnostic.
    ModelLoaded(Result<M, Seq<char>>),
    /// A request that names this model was decided.
    Requested(Seq<char>),
    /// The queue closed.
    QueueClosed,
}

/// The worker as contracts see it.
pub struct WorkerView<M> {
    pub phase: WorkerPhase,
    /// The configurations still to be loaded, in the order given.
    pub pending: Seq<EmbeddingModel>,
    /// The models loaded so far, by name.
    pub registry: Map<Seq<char>, M>,
    /// Why loading failed, once it has.
    pub failure: Option<EmbeddingGeneratorErrorView>,
}

impl<M> WorkerView<M> {
    /// A worker that has `models_to_load` before it and nothing loaded.
    pub open spec fn initial(models_to_load: Seq<EmbeddingModel>) -> Self {
        WorkerView {
            phase: WorkerPhase::Loading,
            pending: models_to_load,
            registry: Map::empty(),
            failure: None,
        }
    }

    /// Whether the worker is loading and has a configuration left.
    pub open spec fn has_pending(self) -> bool {
        self.phase is Loading && self.pending.len() > 0
    }

    /// Whether the worker waits for a model: it is loading and the next
    /// configuration names an architecture that can be loaded.
    pub open spec fn awaits_model(self) -> bool {
        self.has_pending() && self.pending[0].model_kind.spec_is_supported()
    }

    /// What the program has to do next in this state.
    pub open spec fn directive(self) -> Directive {
        match self.phase {
            WorkerPhase::Loading => {
                if self.awaits_model() {
                    Directive::Load(self.pending[0])
                } else if self.has_pending() {
                    Directive::Exit
                } else {
                    Directive::Receive
                }
            },
            WorkerPhase::Serving => Directive::Receive,
            WorkerPhase::Terminated => Directive::Exit,
        }
    }

    /// The state after the worker has looked at what is next. Loading ends
    /// here: in failure at a configuration that cannot be loaded, in serving
    /// when no configuration is left.
    pub open spec fn advance(self) -> Self {
        if self.awaits_model() || !(self.phase is Loading) {
            self
        } else if self.has_pending() {
            WorkerView {
                phase: WorkerPhase::Terminated,
                failure: Some(unsupported_kind_error()),
                ..self
            }
        } else {
            WorkerView { phase: WorkerPhase::Serving, ..self }
        }
    }

    /// The state after a load has ended with `outcome`: the model, or the
    /// loader's diagnostic. Where the worker waits for no model nothing
    /// changes.
    pub open spec fn model_loaded(self, outcome: Result<M, Seq<char>>) -> Self {
        if self.awaits_model() {
            match outcome {
                Ok(model) => WorkerView {
                    pending: self.pending.drop_first(),
                    registry: self.registry.insert(
                        self.pending[0].model_kind.spec_canonical_name(),
                        model,
                    ),
                    ..self
                },
                Err(detail) => WorkerView {
                    phase: WorkerPhase::Terminated,
                    failure: Some(EmbeddingGeneratorErrorView::ModelLoadingError(detail)),
                    ..self
                },
            }
        } else {
            self
        }
    }

    /// The state after every caller has gone: a serving worker stops.
    pub open spec fn queue_closed(self) -> Self {
        if self.phase is Serving {
            WorkerView { phase: WorkerPhase::Terminated, ..self }
        } else {
            self
        }
    }

    /// What the worker decides for a request that names `model_name`: the
    /// model to run where it serves and has one of that name, a refusal
    /// otherwise.
    pub open spec fn dispatch(self, model_name: Seq<char>) -> DispatchView<M> {
        if !(self.phase is Serving) {
            DispatchView::Reject(channel_closed_error())
        } else if self.registry.contains_key(model_name) {
            DispatchView::Encode(self.registry[model_name])
        } else {
            DispatchView::Reject(EmbeddingGeneratorErrorView::ModelNotFound(model_name))
        }
    }

    /// The answer the worker gives to a request that names `model_name`,
    /// where `outcome` is how the model ends if it is run. The outcome plays
    /// no part in a refusal.
    pub open spec fn answer<V>(self, model_name: Seq<char>, outcome: Result<Seq<V>, Seq<char>>) -> Result<
        Seq<V>,
        EmbeddingGeneratorErrorView,
    > {
        match self.dispatch(model_name) {
            DispatchView::Reject(error) => Err(error),
            DispatchView::Encode(_) => spec_reply_for(outcome),
        }
    }

    /// The state after one event.
    pub open spec fn step(self, event: WorkerEvent<M>) -> Self {
        match event {
            WorkerEvent::Advanced => self.advance(),
            WorkerEvent::ModelLoaded(outcome) => self.model_loaded(outcome),
            WorkerEvent::Requested(_) => self,
            WorkerEvent::QueueClosed => self.queue_closed(),
        }
    }

    /// The state after a run of events, the first of them first.
    pub open spec fn run(self, events: Seq<WorkerEvent<M>>) -> Self
        decreases events.len(),
    {
        if events.len() == 0 {
            self
        } else {
            self.step(events[0]).run(events.drop_first())
        }
    }

    /// The state after the program has followed the worker through loading
    /// and every load has succeeded: for each of `models` in turn it asked
    /// what is next and reported that model, and then asked once more.
    pub open spec fn load_in_turn(self, models: Seq<M>) -> Self
        decreases models.len(),
    {
        if models.len() == 0 {
            self.advance()
        } else {
            self.advance().model_loaded(Ok(models[0])).load_in_turn(models.drop_first())
        }
    }

    /// How the loop ends: with the failure of loading, or cleanly.
    pub open spec fn exit_result(self) -> Result<(), EmbeddingGeneratorErrorView> {
        match self.failure {
            Some(error) => Err(error),
            None => Ok(()),
        }
    }
}

/// The single owner of the loaded models.
#[verifier::reject_recursive_types(M)]
pub struct Worker<M> {
    pending: Vec<EmbeddingModel>,
    registry: ModelRegistry<M>,
    phase: WorkerPhase,
    failure: Option<EmbeddingGeneratorError>,
}

impl<M> View for Worker<M> {
    type V = WorkerView<M>;

    closed spec fn view(&self) -> WorkerView<M> {
        WorkerView {
            phase: self.phase,
            pending: self.pending@,
            registry: self.registry@,
            failure: match self.failure {
                Some(error) => Some(error@),
                None => None,
            },
        }
    }
}

impl<M> Worker<M> {
    /// A worker that is about to load `models_to_load`, in that order.
    pub fn new(models_to_load: Vec<EmbeddingModel>) -> (worker: Self)
        ensures
            worker@ == WorkerView::<M>::initial(models_to_load@),
    {
        Worker {
            pending: models_to_load,
            registry: ModelRegistry::new(),
            phase: WorkerPhase::Loading,
            failure: None,
        }
    }

    /// Says what the program has to do next, and moves on where that needs no
    /// outside work: a configuration that cannot be loaded ends the worker
    /// with a loading error, and an empty list of configurations starts
    /// serving.
    pub fn advance(&mut self) -> (directive: Directive)
        ensures
            directive == old(self)@.directive(),
            final(self)@ == old(self)@.advance(),
    {
        match self.phase {
            WorkerPhase::Serving => Directive::Receive,
            WorkerPhase::Terminated => Directive::Exit,
            WorkerPhase::Loading => {
                if self.pending.len() == 0 {
                    self.phase = WorkerPhase::Serving;
                    Directive::Receive
                } else {
                    let next = self.pending[0];
                    if next.model_kind.is_supported() {
                        Directive::Load(next)
                    } else {
                        self.phase = WorkerPhase::Terminated;
                        self.failure = Some(
                            EmbeddingGeneratorError::ModelLoadingError(
                                String::from_str("unknown model kind"),
                            ),
                        );
                        Directive::Exit
                    }
                }
            },
        }
    }

    /// Reports how the load that [`Worker::advance`] asked for has ended:
    /// with the model, or with the loader's diagnostic. The model is
    /// registered under the name of its architecture, in place of an earlier
    /// model of that name; a failure ends the worker with a loading error.
    /// Where the worker waits for no model the report is dropped.
    pub fn model_loaded(&mut self, outcome: Result<M, String>)
        ensures
            final(self)@ == old(self)@.model_loaded(load_view(outcome)),
    {
        if !self.awaits_model() {
            return ;
        }
        match outcome {
            Ok(model) => {
                let config = self.pending.remove(0);
                match config.model_kind.canonical_name() {
                    Some(name) => self.registry.insert(name, model),
                    None => {},
                }
            },
            Err(detail) => {
                self.phase = WorkerPhase::Terminated;
                self.failure = Some(EmbeddingGeneratorError::ModelLoadingError(detail));
            },
        }
    }

    /// Reports that the queue has closed: every caller is gone. A serving
    /// worker stops, without a failure.
    pub fn queue_closed(&mut self)
        ensures
            final(self)@ == old(self)@.queue_closed(),
    {
        match self.phase {
            WorkerPhase::Serving => {
                self.phase = WorkerPhase::Terminated;
            },
            _ => {},
        }
    }

    /// Decides a request that names `model_name`. A serving worker hands out
    /// the model registered under that name, and refuses a name that is not
    /// registered with `ModelNotFound`. A worker that is not serving refuses
    /// every request. The worker is left as it was. It stays borrowed for as
    /// long as the decision lives, so that no second model is handed out
    /// while one is in use.
    pub fn dispatch(&mut self, model_name: String) -> (decision: Dispatch<'_, M>)
        ensures
            decision@ == old(self)@.dispatch(model_name@),
            final(self)@ == old(self)@,
    {
        match self.phase {
            WorkerPhase::Serving => {},
            _ => {
                return Dispatch::Reject(
                    EmbeddingGeneratorError::InternalError(
                        String::from_str("channel closed unexpectedly"),
                    ),
                );
            },
        }
        match self.registry.get(model_name.as_str()) {
            Some(model) => Dispatch::Encode(model),
            None => Dispatch::Reject(EmbeddingGeneratorError::ModelNotFound(model_name)),
        }
    }

    /// Ends the worker and says how its loop returns: with the error that
    /// stopped loading, or cleanly.
    pub fn finish(self) -> (result: Result<(), EmbeddingGeneratorError>)
        ensures
            exit_view(result) == self@.exit_result(),
    {
        match self.failure {
            Some(error) => Err(error),
            None => Ok(()),
        }
    }

    /// Whether the worker is loading and the next configuration names an
    /// architecture that can be loaded.
    pub fn awaits_model(&self) -> (waiting: bool)
        ensures
            waiting == self@.awaits_model(),
    {
        match self.phase {
            WorkerPhase::Loading => self.pending.len() > 0 && self.pending[0].model_kind.is_supported(),
            _ => false,
        }
    }

    /// Where the worker stands in its life.
    pub fn phase(&self) -> (phase: WorkerPhase)
        ensures
            phase == self@.phase,
    {
        self.phase
    }

    /// The models loaded so far.
    pub fn registry(&self) -> (registry: &ModelRegistry<M>)
        ensures
            registry@ == self@.registry,
    {
        &self.registry
    }

    /// How many configurations are still to be loaded.
    pub fn pending(&self) -> (count: usize)
        ensures
            count == self@.pending.len(),
    {
        self.pending.len()
    }
}

} // verus!

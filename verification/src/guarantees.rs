//! What holds of the worker over its whole life, and of a request from the
//! moment it is decided to the moment its caller is told.

use crate::embedding::channel_closed_error;
use crate::embedding::spec_settle_reply;
use crate::embedding::EmbeddingGeneratorErrorView;
use crate::server_config::EmbeddingModel;
use crate::worker::Directive;
use crate::worker::DispatchView;
use crate::worker::WorkerEvent;
use crate::worker::WorkerPhase;
use crate::worker::WorkerView;
use vstd::prelude::*;

verus! {

/// Whether one of `configs` names an architecture that cannot be loaded.
pub open spec fn names_unsupported_kind(configs: Seq<EmbeddingModel>) -> bool {
    exists|i: int| 0 <= i < configs.len() && !(#[trigger] configs[i]).model_kind.spec_is_supported()
}

/// Whether every one of `configs` names an architecture that can be loaded.
pub open spec fn all_supported(configs: Seq<EmbeddingModel>) -> bool {
    forall|i: int| 0 <= i < configs.len() ==> (#[trigger] configs[i]).model_kind.spec_is_supported()
}

/// The registry after `models` have been registered in turn for `configs`,
/// each under the name of its architecture, starting from `registry`.
pub open spec fn registered<M>(
    registry: Map<Seq<char>, M>,
    configs: Seq<EmbeddingModel>,
    models: Seq<M>,
) -> Map<Seq<char>, M>
    decreases models.len(),
{
    if models.len() == 0 || configs.len() == 0 {
        registry
    } else {
        registered(
            registry.insert(configs[0].model_kind.spec_canonical_name(), models[0]),
            configs.drop_first(),
            models.drop_first(),
        )
    }
}

/// Once loading is over the registry never changes again, and loading never
/// starts again, whatever happens to the worker.
pub proof fn lemma_registry_is_fixed_once_loading_ends<M>(
    worker: WorkerView<M>,
    events: Seq<WorkerEvent<M>>,
)
    requires
        !(worker.phase is Loading),
    ensures
        worker.run(events).registry == worker.registry,
        !(worker.run(events).phase is Loading),
    decreases events.len(),
{
    if events.len() > 0 {
        lemma_registry_is_fixed_once_loading_ends(worker.step(events[0]), events.drop_first());
    }
}

/// A terminated worker stays as it is whatever happens, and refuses every
/// request.
pub proof fn lemma_terminated_worker_stays_terminated<M>(
    worker: WorkerView<M>,
    events: Seq<WorkerEvent<M>>,
    model_name: Seq<char>,
)
    requires
        worker.phase is Terminated,
    ensures
        worker.run(events) == worker,
        worker.run(events).dispatch(model_name) == DispatchView::<M>::Reject(
            channel_closed_error(),
        ),
    decreases events.len(),
{
    if events.len() > 0 {
        lemma_terminated_worker_stays_terminated(worker, events.drop_first(), model_name);
    }
}

/// Whether the worker can no longer come to serve: it still has a
/// configuration before it that cannot be loaded, or it has terminated with
/// a loading error.
pub open spec fn doomed<M>(worker: WorkerView<M>) -> bool {
    ||| worker.phase is Loading && names_unsupported_kind(worker.pending)
    ||| worker.phase is Terminated && (worker.failure matches Some(error)
        && error is ModelLoadingError)
}

/// A worker that can no longer come to serve stays so whatever happens.
pub proof fn lemma_doomed_worker_stays_doomed<M>(worker: WorkerView<M>, events: Seq<WorkerEvent<M>>)
    requires
        doomed(worker),
    ensures
        doomed(worker.run(events)),
    decreases events.len(),
{
    if events.len() > 0 {
        let next = worker.step(events[0]);
        assert(doomed(next)) by {
            if worker.phase is Loading {
                let i = choose|i: int|
                    0 <= i < worker.pending.len() && !(
                    #[trigger] worker.pending[i]).model_kind.spec_is_supported();
                if next.phase is Loading && next.pending != worker.pending {
                    // A model was registered for the first configuration, which
                    // can be loaded: the one that cannot comes later.
                    assert(worker.awaits_model());
                    assert(i > 0);
                    assert(next.pending[i - 1] == worker.pending[i]);
                }
            }
        }
        lemma_doomed_worker_stays_doomed(next, events.drop_first());
    }
}

/// A worker that was given a configuration it cannot load never serves:
/// whatever the loads give and whatever else happens, it is loading or has
/// terminated with a loading error, and it refuses every request without
/// running a model.
pub proof fn lemma_unsupported_kind_never_serves<M>(
    configs: Seq<EmbeddingModel>,
    events: Seq<WorkerEvent<M>>,
    model_name: Seq<char>,
)
    requires
        names_unsupported_kind(configs),
    ensures
        !(WorkerView::<M>::initial(configs).run(events).phase is Serving),
        WorkerView::<M>::initial(configs).run(events).phase is Terminated ==> (
        WorkerView::<M>::initial(configs).run(events).failure matches Some(error)
            && error is ModelLoadingError),
        WorkerView::<M>::initial(configs).run(events).dispatch(model_name) is Reject,
{
    lemma_doomed_worker_stays_doomed(WorkerView::<M>::initial(configs), events);
}

/// Whether the worker is in a state that a worker can come to: a failure is
/// held by a terminated worker only, and a serving worker has nothing left
/// to load.
pub open spec fn sound<M>(worker: WorkerView<M>) -> bool {
    &&& worker.failure is Some ==> worker.phase is Terminated
    &&& worker.phase is Serving ==> worker.pending.len() == 0
}

/// Whatever happens to a new worker, a failure is held by a terminated
/// worker only, and a serving worker has nothing left to load.
pub proof fn lemma_worker_stays_sound<M>(
    configs: Seq<EmbeddingModel>,
    events: Seq<WorkerEvent<M>>,
)
    ensures
        sound(WorkerView::<M>::initial(configs).run(events)),
{
    lemma_sound_worker_stays_sound(WorkerView::<M>::initial(configs), events);
}

/// A step takes a worker in such a state to a worker in such a state.
pub proof fn lemma_sound_worker_stays_sound<M>(worker: WorkerView<M>, events: Seq<WorkerEvent<M>>)
    requires
        sound(worker),
    ensures
        sound(worker.run(events)),
    decreases events.len(),
{
    if events.len() > 0 {
        lemma_sound_worker_stays_sound(worker.step(events[0]), events.drop_first());
    }
}

/// When the last caller is gone a serving worker stops without an error:
/// the queue closes, the worker terminates, the program is told to leave the
/// loop, and the loop returns cleanly. This holds of every serving worker
/// that a new worker can become.
pub proof fn lemma_serving_worker_ends_cleanly<M>(
    configs: Seq<EmbeddingModel>,
    events: Seq<WorkerEvent<M>>,
)
    requires
        WorkerView::<M>::initial(configs).run(events).phase is Serving,
    ensures
        WorkerView::<M>::initial(configs).run(events).queue_closed().phase is Terminated,
        WorkerView::<M>::initial(configs).run(events).queue_closed().directive()
            == Directive::Exit,
        WorkerView::<M>::initial(configs).run(events).queue_closed().exit_result() == Ok::<
            (),
            EmbeddingGeneratorErrorView,
        >(()),
{
    lemma_worker_stays_sound::<M>(configs, events);
}

/// Where every configuration can be loaded and every load succeeds, the
/// worker comes to serve, with nothing left to load and no failure, and its
/// registry holds the models under the names of their architectures, a later
/// model in place of an earlier one of the same name.
pub proof fn lemma_loading_ends_in_serving<M>(worker: WorkerView<M>, models: Seq<M>)
    requires
        worker.phase is Loading,
        all_supported(worker.pending),
        models.len() == worker.pending.len(),
    ensures
        worker.load_in_turn(models) == (WorkerView {
            phase: WorkerPhase::Serving,
            pending: Seq::<EmbeddingModel>::empty(),
            registry: registered(worker.registry, worker.pending, models),
            failure: worker.failure,
        }),
    decreases models.len(),
{
    if models.len() == 0 {
        assert(worker.pending =~= Seq::<EmbeddingModel>::empty());
    } else {
        let next = worker.advance().model_loaded(Ok(models[0]));
        assert forall|i: int| 0 <= i < next.pending.len() implies (
        #[trigger] next.pending[i]).model_kind.spec_is_supported() by {
            assert(next.pending[i] == worker.pending[i + 1]);
        }
        lemma_loading_ends_in_serving(next, models.drop_first());
    }
}

/// A model registered for the last of several configurations is the one
/// found under its name afterwards, and every name registered before is
/// still found.
pub proof fn lemma_last_registration_wins<M>(
    registry: Map<Seq<char>, M>,
    configs: Seq<EmbeddingModel>,
    models: Seq<M>,
)
    requires
        models.len() == configs.len(),
    ensures
        forall|name: Seq<char>|
            registry.contains_key(name) ==> #[trigger] registered(
                registry,
                configs,
                models,
            ).contains_key(name),
        forall|i: int|
            0 <= i < configs.len() ==> registered(registry, configs, models).contains_key(
                (#[trigger] configs[i]).model_kind.spec_canonical_name(),
            ),
        configs.len() > 0 ==> registered(
            registry,
            configs,
            models,
        )[configs.last().model_kind.spec_canonical_name()] == models.last(),
    decreases models.len(),
{
    if models.len() > 0 {
        let rest_configs = configs.drop_first();
        let rest_models = models.drop_first();
        let first = registry.insert(configs[0].model_kind.spec_canonical_name(), models[0]);
        let all = registered(registry, configs, models);
        assert(all == registered(first, rest_configs, rest_models));
        lemma_last_registration_wins(first, rest_configs, rest_models);
        assert forall|name: Seq<char>| registry.contains_key(name) implies all.contains_key(
            name,
        ) by {
            assert(first.contains_key(name));
        }
        assert forall|i: int| 0 <= i < configs.len() implies all.contains_key(
            (#[trigger] configs[i]).model_kind.spec_canonical_name(),
        ) by {
            if i == 0 {
                assert(first.contains_key(configs[0].model_kind.spec_canonical_name()));
            } else {
                assert(rest_configs[i - 1] == configs[i]);
            }
        }
        if configs.len() == 1 {
            assert(all == first);
        } else {
            assert(rest_configs.last() == configs.last());
            assert(rest_models.last() == models.last());
        }
    }
}

/// A request for a registered model, on inputs that the model encodes, is
/// answered with the model's vectors and nothing else: as many as the model
/// gave, each as the model gave it, in the model's order. The caller is told
/// the same.
pub proof fn lemma_encoded_vectors_reach_the_caller<M, V>(
    worker: WorkerView<M>,
    model_name: Seq<char>,
    vectors: Seq<V>,
)
    requires
        worker.phase is Serving,
        worker.registry.contains_key(model_name),
    ensures
        worker.dispatch(model_name) == DispatchView::Encode(worker.registry[model_name]),
        worker.answer(model_name, Ok::<Seq<V>, Seq<char>>(vectors)) == Ok::<
            Seq<V>,
            EmbeddingGeneratorErrorView,
        >(vectors),
        spec_settle_reply(Some(worker.answer(model_name, Ok::<Seq<V>, Seq<char>>(vectors))))
            == Ok::<Seq<V>, EmbeddingGeneratorErrorView>(vectors),
{
}

/// A request for a name that is not registered is refused with
/// `ModelNotFound` of that name. No model is handed out to be run, and what
/// a model would have given plays no part in the answer.
pub proof fn lemma_unknown_model_is_refused<M, V>(
    worker: WorkerView<M>,
    model_name: Seq<char>,
    outcome: Result<Seq<V>, Seq<char>>,
)
    requires
        worker.phase is Serving,
        !worker.registry.contains_key(model_name),
    ensures
        worker.dispatch(model_name) == DispatchView::<M>::Reject(
            EmbeddingGeneratorErrorView::ModelNotFound(model_name),
        ),
        worker.answer(model_name, outcome) == Err::<Seq<V>, EmbeddingGeneratorErrorView>(
            EmbeddingGeneratorErrorView::ModelNotFound(model_name),
        ),
        spec_settle_reply(Some(worker.answer(model_name, outcome))) == Err::<
            Seq<V>,
            EmbeddingGeneratorErrorView,
        >(EmbeddingGeneratorErrorView::ModelNotFound(model_name)),
{
}

/// Asking again gives the same answer: while the worker serves, a request
/// made after any number of events is decided as the same request made
/// before them, and where the model ends the same way the caller is told the
/// same.
pub proof fn lemma_repeated_request_same_answer<M, V>(
    worker: WorkerView<M>,
    events: Seq<WorkerEvent<M>>,
    model_name: Seq<char>,
    outcome: Result<Seq<V>, Seq<char>>,
)
    requires
        worker.phase is Serving,
        worker.run(events).phase is Serving,
    ensures
        worker.run(events).dispatch(model_name) == worker.dispatch(model_name),
        worker.run(events).answer(model_name, outcome) == worker.answer(model_name, outcome),
{
    lemma_registry_is_fixed_once_loading_ends(worker, events);
}

} // verus!

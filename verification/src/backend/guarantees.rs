//! What holds of every run of the worker.

use crate::backend::machine::{next_ticket, BackendView, EventView};
use crate::backend::slot::{loaded_type, slot_detects};
use crate::backend::{
    ActionView, DetectionParamsView, InputView, OutputView, PendingLoad, WorkerState,
};
use crate::model::mock::mock_boxes;
use crate::model::{
    DetectionErrorView, DetectionModel, DetectionResultsView, Model, ModelType,
};
use image::DynamicImage;
use vstd::prelude::*;

verus! {

/// The notifications among `actions`, in the order in which they are sent.
pub open spec fn notifications(actions: Seq<ActionView>) -> Seq<OutputView>
    decreases actions.len(),
{
    if actions.len() == 0 {
        seq![]
    } else {
        let earlier = notifications(actions.drop_last());
        match actions.last() {
            ActionView::Notify(output) => earlier.push(output),
            _ => earlier,
        }
    }
}

/// Whether a load is to be started among `actions`.
pub open spec fn starts_load(actions: Seq<ActionView>) -> bool {
    exists|i: int| 0 <= i < actions.len() && (#[trigger] actions[i]) is StartLoad
}

/// The requests that select `selections`, one after the other.
pub open spec fn selecting<R>(selections: Seq<ModelType>) -> Seq<EventView<R>> {
    Seq::new(
        selections.len(),
        |i: int| EventView::Request(InputView::SelectModel(selections[i])),
    )
}

/// The ticket under which selecting `model_type` starts a load, if it starts
/// one: a stopped worker starts none, and neither does a worker that has
/// this backend installed and waits for no load.
pub open spec fn load_started<R>(worker: BackendView<R>, model_type: ModelType) -> Option<u64> {
    if worker.stopped || (worker.pending is None && loaded_type(worker.slot) == Some(model_type)) {
        None
    } else {
        Some(next_ticket(worker.issued))
    }
}

/// A load that is not the one the worker waits for leaves no trace when it
/// ends, however it ends: the worker stays as it is, the slot included, and
/// the caller hears nothing.
pub proof fn lemma_stale_load_is_ignored<R>(
    worker: BackendView<R>,
    ticket: u64,
    built: Result<Model<R>, DetectionErrorView>,
)
    requires
        worker.pending_load() matches Some(load) ==> load.ticket != ticket,
    ensures
        worker.finish_load(ticket, built) == (worker, Seq::<ActionView>::empty()),
{
}

/// A worker that waits for a load and takes `selections` waits, after them,
/// for a load of the last of them; its ticket has moved on by one for each
/// selection, and its slot is as before.
proof fn lemma_selections_while_loading<R>(worker: BackendView<R>, selections: Seq<ModelType>)
    requires
        !worker.stopped,
        worker.pending is Some,
    ensures
        ({
            let end = worker.after(selecting(selections));
            &&& !end.stopped
            &&& end.slot == worker.slot
            &&& end.params == worker.params
            &&& end.issued as int == (worker.issued + selections.len()) % 0x1_0000_0000_0000_0000
            &&& end.pending == if selections.len() == 0 {
                worker.pending
            } else {
                Some(selections.last())
            }
        }),
    decreases selections.len(),
{
    if selections.len() > 0 {
        let events = selecting::<R>(selections);
        assert(events.drop_last() =~= selecting::<R>(selections.drop_last()));
        lemma_selections_while_loading(worker, selections.drop_last());
    }
}

/// Selections leave the parameters alone.
proof fn lemma_selections_keep_the_parameters<R>(
    worker: BackendView<R>,
    selections: Seq<ModelType>,
)
    ensures
        worker.after(selecting(selections)).params == worker.params,
    decreases selections.len(),
{
    if selections.len() > 0 {
        let events = selecting::<R>(selections);
        assert(events.drop_last() =~= selecting::<R>(selections.drop_last()));
        lemma_selections_keep_the_parameters(worker, selections.drop_last());
    }
}

/// Among several selections in a row, only the last one counts. Of the
/// loads that the earlier ones started, none is installed and none is
/// announced when it ends, however it ends: the worker, its slot included,
/// stays as it is. If the last selection started a load, the worker waits for
/// exactly that load; its success is installed and announced under the
/// identifier of what was built, which is the identifier that was selected
/// last wherever the load was done as ordered.
///
/// Tickets start again after `u64::MAX`, so this is said of runs of at most
/// 2^64 selections.
pub proof fn lemma_last_selection_wins<R: DetectionModel>(
    worker: BackendView<R>,
    selections: Seq<ModelType>,
    i: int,
    built: Result<Model<R>, DetectionErrorView>,
)
    requires
        0 <= i < selections.len() <= 0x1_0000_0000_0000_0000,
    ensures
        ({
            let before = worker.after(selecting(selections.take(i)));
            let end = worker.after(selecting(selections));
            &&& load_started(before, selections[i]) matches Some(ticket) ==> {
                if i < selections.len() - 1 {
                    end.finish_load(ticket, built) == (end, Seq::<ActionView>::empty())
                } else {
                    &&& end.pending_load() == Some(
                        PendingLoad { ticket, model_type: selections[i] },
                    )
                    &&& end.slot == before.slot
                    &&& end.params == worker.params
                    &&& built matches Ok(model) ==> end.finish_load(ticket, built) == (
                        BackendView { slot: Some(model), pending: None, ..end },
                        seq![ActionView::Notify(OutputView::ModelLoaded(model.model_type()))],
                    )
                    &&& built matches Ok(model) ==> (Model::loads(selections[i], end.params, built)
                        ==> model.model_type() == selections[i])
                }
            }
        }),
{
    let before = worker.after(selecting(selections.take(i)));
    if load_started(before, selections[i]) is Some {
        let at = before.select_model(selections[i]).0;
        let head = selections.take(i + 1);
        let rest = selections.skip(i + 1);
        assert(selecting::<R>(head).drop_last() =~= selecting::<R>(selections.take(i)));
        lemma_after_concat(worker, selecting(head), selecting(rest));
        assert(selecting::<R>(head) + selecting::<R>(rest) =~= selecting::<R>(selections));
        lemma_selections_while_loading(at, rest);
        lemma_selections_keep_the_parameters(worker, selections.take(i));
    }
}

/// Running `first` and then `second` is running them as one sequence.
pub proof fn lemma_after_concat<R>(
    worker: BackendView<R>,
    first: Seq<EventView<R>>,
    second: Seq<EventView<R>>,
)
    ensures
        worker.after(first + second) == worker.after(first).after(second),
        worker.actions(first + second) == worker.actions(first) + worker.after(first).actions(
            second,
        ),
    decreases second.len(),
{
    if second.len() == 0 {
    } else {
        assert((first + second).drop_last() =~= first + second.drop_last());
        lemma_after_concat(worker, first, second.drop_last());
    }
}

/// An image that arrives while no backend is installed gets exactly one
/// answer, the `NotReady` error: no progress is reported, no detection is
/// ordered, and the worker stays as it is.
pub proof fn lemma_detection_needs_a_backend<R>(worker: BackendView<R>, image: DynamicImage)
    requires
        !worker.stopped,
        worker.slot is None,
    ensures
        worker.process_image(image) == (
            worker,
            seq![ActionView::Notify(OutputView::Error(DetectionErrorView::NotReady.message()))],
        ),
        notifications(worker.process_image(image).1) == seq![
            OutputView::Error("Model not initialized"@),
        ],
{
    reveal_with_fuel(notifications, 2);
}

/// A detection that succeeds is reported as 30, 70 and 100 percent and then
/// the result, in this order and with nothing in between. A worker that was
/// ready is detecting in the meantime and ready again afterwards.
pub proof fn lemma_successful_detection_report<R>(
    worker: BackendView<R>,
    image: DynamicImage,
    after: Option<Model<R>>,
    results: DetectionResultsView,
)
    requires
        !worker.stopped,
        worker.slot is Some,
    ensures
        ({
            let (accepted, ordered) = worker.process_image(image);
            let (done, reported) = accepted.finish_detection(after, Ok(results));
            &&& ordered == seq![
                ActionView::Notify(OutputView::Progress(30)),
                ActionView::Detect(image),
            ]
            &&& notifications(ordered + reported) == seq![
                OutputView::Progress(30),
                OutputView::Progress(70),
                OutputView::Progress(100),
                OutputView::Finished(results),
            ]
            &&& done == BackendView { slot: after, detecting: false, ..worker }
            &&& accepted.state() == WorkerState::Detecting
            &&& worker.state() == WorkerState::Ready && after is Some ==> done.state()
                == WorkerState::Ready
        }),
{
    let (accepted, ordered) = worker.process_image(image);
    let (done, reported) = accepted.finish_detection(after, Ok(results));
    let all = ordered + reported;
    let a4 = all.drop_last();
    let a3 = a4.drop_last();
    let a2 = a3.drop_last();
    let a1 = a2.drop_last();
    let a0 = a1.drop_last();
    assert(notifications(a0) =~= Seq::<OutputView>::empty());
    assert(notifications(a1) =~= seq![OutputView::Progress(30)]);
    assert(notifications(a2) =~= seq![OutputView::Progress(30)]);
    assert(notifications(a3) =~= seq![OutputView::Progress(30), OutputView::Progress(70)]);
    assert(notifications(a4) =~= seq![
        OutputView::Progress(30),
        OutputView::Progress(70),
        OutputView::Progress(100),
    ]);
}

/// A detection that fails is reported by its message alone, and the backend
/// stays installed.
pub proof fn lemma_failed_detection_report<R: DetectionModel>(
    worker: BackendView<R>,
    image: DynamicImage,
    after: Option<Model<R>>,
    error: DetectionErrorView,
)
    requires
        !worker.stopped,
        worker.slot is Some,
        slot_detects(worker.slot, image, after, Err(error)),
    ensures
        ({
            let (done, reported) = worker.finish_detection(after, Err(error));
            &&& reported == seq![ActionView::Notify(OutputView::Error(error.message()))]
            &&& done.slot is Some
            &&& loaded_type(done.slot) == loaded_type(worker.slot)
        }),
{
}

/// Selecting the backend that is installed, while no load is under way,
/// starts no load: the worker stays as it is and acknowledges the selection.
pub proof fn lemma_installed_selection_starts_no_load<R>(
    worker: BackendView<R>,
    model_type: ModelType,
)
    requires
        !worker.stopped,
        worker.pending is None,
        loaded_type(worker.slot) == Some(model_type),
    ensures
        worker.select_model(model_type) == (
            worker,
            seq![ActionView::Notify(OutputView::ModelLoaded(model_type))],
        ),
        !starts_load(worker.select_model(model_type).1),
{
}

/// Selecting a backend twice in a row, with the first load finished in
/// between, builds it once: the second selection starts no load.
pub proof fn lemma_repeated_selection_starts_no_load<R>(
    worker: BackendView<R>,
    model: Model<R>,
)
    requires
        load_started(worker, model.model_type()) is Some,
    ensures
        ({
            let selected = worker.select_model(model.model_type()).0;
            let loaded = selected.finish_load(selected.issued, Ok(model)).0;
            &&& starts_load(worker.select_model(model.model_type()).1)
            &&& loaded.slot == Some(model)
            &&& loaded.select_model(model.model_type()) == (
                loaded,
                seq![ActionView::Notify(OutputView::ModelLoaded(model.model_type()))],
            )
            &&& !starts_load(loaded.select_model(model.model_type()).1)
        }),
{
    let ordered = worker.select_model(model.model_type()).1;
    assert(ordered[ordered.len() - 1] is StartLoad);
}

/// A stop ends the worker in whatever state it is, and so does the closing of
/// either channel: the step orders nothing, and the worker is stopped.
pub proof fn lemma_stop_ends_the_worker<R>(worker: BackendView<R>, event: EventView<R>)
    requires
        event == EventView::<R>::Request(InputView::Stop) || event
            == EventView::<R>::RequestsClosed || event == EventView::<R>::NotificationsClosed,
    ensures
        worker.step(event).0.state() == WorkerState::Terminal,
        worker.step(event).1 == Seq::<ActionView>::empty(),
{
}

/// A stopped worker stays as it is and orders nothing, whatever happens: it
/// sends no notification, starts no load and runs no detection.
pub proof fn lemma_stopped_worker_is_silent<R>(worker: BackendView<R>, events: Seq<EventView<R>>)
    requires
        worker.stopped,
    ensures
        worker.after(events) == worker,
        worker.actions(events) == Seq::<ActionView>::empty(),
    decreases events.len(),
{
    if events.len() > 0 {
        lemma_stopped_worker_is_silent(worker, events.drop_last());
    }
}

/// After a stop nothing is ordered any more: whatever the worker was doing
/// and whatever follows, the caller receives no further notification.
pub proof fn lemma_nothing_follows_a_stop<R>(
    worker: BackendView<R>,
    earlier: Seq<EventView<R>>,
    later: Seq<EventView<R>>,
)
    ensures
        worker.actions(earlier.push(EventView::Request(InputView::Stop)) + later) == worker.actions(
            earlier,
        ),
{
    let stop = EventView::<R>::Request(InputView::Stop);
    let until = earlier.push(stop);
    assert(until.drop_last() =~= earlier);
    lemma_stop_ends_the_worker(worker.after(earlier), stop);
    lemma_after_concat(worker, until, later);
    lemma_stopped_worker_is_silent(worker.after(until), later);
}

/// A load that fails leaves the slot empty, also where a backend was
/// installed before, and its message reaches the caller; an image that arrives
/// next is answered with `NotReady` and no backend is called.
pub proof fn lemma_failed_load_empties_the_slot<R>(
    worker: BackendView<R>,
    error: DetectionErrorView,
    image: DynamicImage,
)
    requires
        !worker.stopped,
        worker.pending is Some,
    ensures
        ({
            let (failed, reported) = worker.finish_load(worker.issued, Err(error));
            &&& reported == seq![ActionView::Notify(OutputView::Error(error.message()))]
            &&& failed.slot is None
            &&& failed.pending is None
            &&& failed.process_image(image) == (
                failed,
                seq![
                    ActionView::Notify(
                        OutputView::Error(DetectionErrorView::NotReady.message()),
                    ),
                ],
            )
        }),
{
}

/// With the stand-in installed every detection succeeds: the caller is told
/// 70 and 100 percent and then the stand-in's two boxes, with the image
/// itself as the annotated one, and the stand-in stays installed as it was.
pub proof fn lemma_stand_in_detection<R: DetectionModel>(
    worker: BackendView<R>,
    image: DynamicImage,
    after: Option<Model<R>>,
    outcome: Result<DetectionResultsView, DetectionErrorView>,
)
    requires
        !worker.stopped,
        worker.slot matches Some(Model::Mock(_)),
        slot_detects(worker.slot, image, after, outcome),
    ensures
        after == worker.slot,
        outcome == Ok::<DetectionResultsView, DetectionErrorView>(
            DetectionResultsView { boxes: mock_boxes(), annotated: image },
        ),
        worker.finish_detection(after, outcome).1 == seq![
            ActionView::Notify(OutputView::Progress(70)),
            ActionView::Notify(OutputView::Progress(100)),
            ActionView::Notify(
                OutputView::Finished(
                    DetectionResultsView { boxes: mock_boxes(), annotated: image },
                ),
            ),
        ],
{
}

/// With parameters that are fit for it, the stand-in is always loaded: the
/// load that a selection of the stand-in starts can only end in success, and
/// its end installs the stand-in and announces it.
pub proof fn lemma_stand_in_is_always_loaded<R: DetectionModel>(
    worker: BackendView<R>,
    built: Result<Model<R>, DetectionErrorView>,
)
    requires
        load_started(worker, ModelType::Mock) is Some,
        worker.params.fault(ModelType::Mock) is None,
        Model::<R>::loads(ModelType::Mock, worker.params, built),
    ensures
        ({
            let (selected, ordered) = worker.select_model(ModelType::Mock);
            let (loaded, announced) = selected.finish_load(selected.issued, built);
            &&& ordered.last() == ActionView::StartLoad {
                ticket: selected.issued,
                model_type: ModelType::Mock,
                params: worker.params,
            }
            &&& built is Ok
            &&& announced == seq![ActionView::Notify(OutputView::ModelLoaded(ModelType::Mock))]
            &&& loaded_type(loaded.slot) == Some(ModelType::Mock)
            &&& loaded.state() == if worker.detecting {
                WorkerState::Detecting
            } else {
                WorkerState::Ready
            }
        }),
{
}

/// A selection that starts a load leaves the worker loading, with the slot
/// untouched: what was installed stays usable until the load has ended.
pub proof fn lemma_selection_starts_loading<R>(worker: BackendView<R>, model_type: ModelType)
    requires
        load_started(worker, model_type) is Some,
    ensures
        ({
            let (selected, ordered) = worker.select_model(model_type);
            &&& starts_load(ordered)
            &&& selected.pending_load() == Some(
                PendingLoad { ticket: next_ticket(worker.issued), model_type },
            )
            &&& selected.slot == worker.slot
            &&& !worker.detecting ==> selected.state() == WorkerState::Loading
            &&& worker.pending is Some ==> ordered[0] == ActionView::CancelLoad(worker.issued)
            &&& next_ticket(worker.issued) != worker.issued
        }),
{
    let ordered = worker.select_model(model_type).1;
    assert(ordered[ordered.len() - 1] is StartLoad);
}

/// New parameters change nothing but the parameters: the state, the slot and
/// a load under way stay as they are, and nothing is ordered. The next load
/// that a selection starts is given the new parameters.
pub proof fn lemma_new_parameters_reach_the_next_load<R>(
    worker: BackendView<R>,
    params: DetectionParamsView,
    model_type: ModelType,
)
    requires
        !worker.stopped,
    ensures
        ({
            let (updated, ordered) = worker.handle(InputView::UpdateParams(params));
            &&& ordered == Seq::<ActionView>::empty()
            &&& updated == BackendView { params, ..worker }
            &&& updated.state() == worker.state()
            &&& load_started(updated, model_type) matches Some(ticket) ==> updated.select_model(
                model_type,
            ).1.last() == ActionView::StartLoad { ticket, model_type, params }
        }),
{
}

} // verus!

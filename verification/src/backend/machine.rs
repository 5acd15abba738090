//! The worker as a mathematical value, and what each event makes of it.

use crate::backend::{
    ActionView, DetectionParamsView, InputView, OutputView, PendingLoad, WorkerState,
    PROGRESS_ACCEPTED, PROGRESS_COMPLETE, PROGRESS_DETECTED,
};
use crate::backend::slot::loaded_type;
use crate::model::{DetectionErrorView, DetectionResultsView, Model, ModelType};
use image::DynamicImage;
use vstd::prelude::*;

verus! {

/// The ticket that follows `issued`. Tickets run through all of `u64` and
/// then start again at zero.
pub open spec fn next_ticket(issued: u64) -> u64 {
    if issued == u64::MAX {
        0
    } else {
        (issued + 1) as u64
    }
}

/// What the caller is told of a detect call that answered `outcome`: after a
/// success the progress at 70 and at 100 percent and then the result, in this
/// order; after a failure its message and nothing else.
pub open spec fn detection_report(
    outcome: Result<DetectionResultsView, DetectionErrorView>,
) -> Seq<ActionView> {
    match outcome {
        Ok(results) => seq![
            ActionView::Notify(OutputView::Progress(PROGRESS_DETECTED as nat)),
            ActionView::Notify(OutputView::Progress(PROGRESS_COMPLETE as nat)),
            ActionView::Notify(OutputView::Finished(results)),
        ],
        Err(error) => seq![ActionView::Notify(OutputView::Error(error.message()))],
    }
}

/// The worker as a value: its parameters, its slot, the backend it is
/// loading (if any), the newest ticket, and whether it detects or has
/// stopped.
pub struct BackendView<R> {
    pub params: DetectionParamsView,
    pub slot: Option<Model<R>>,
    pub pending: Option<ModelType>,
    pub issued: u64,
    pub detecting: bool,
    pub stopped: bool,
}

/// What can happen to a worker, with the answer of the backend where the
/// event is a detection.
pub enum EventView<R> {
    Request(InputView),
    RequestsClosed,
    NotificationsClosed,
    LoadFinished { ticket: u64, built: Result<Model<R>, DetectionErrorView> },
    Detected {
        after: Option<Model<R>>,
        outcome: Result<DetectionResultsView, DetectionErrorView>,
    },
}

impl<R> BackendView<R> {
    /// A worker that has just started: default parameters, no backend, no
    /// load, no ticket issued.
    pub open spec fn initial() -> Self {
        BackendView {
            params: DetectionParamsView::initial(),
            slot: None,
            pending: None,
            issued: 0,
            detecting: false,
            stopped: false,
        }
    }

    pub open spec fn state(self) -> WorkerState {
        if self.stopped {
            WorkerState::Terminal
        } else if self.detecting {
            WorkerState::Detecting
        } else if self.pending is Some {
            WorkerState::Loading
        } else if self.slot is Some {
            WorkerState::Ready
        } else {
            WorkerState::Idle
        }
    }

    /// The load the worker waits for: the one with the newest ticket.
    pub open spec fn pending_load(self) -> Option<PendingLoad> {
        match self.pending {
            Some(model_type) => Some(PendingLoad { ticket: self.issued, model_type }),
            None => None,
        }
    }

    /// Selecting a backend. If that backend is installed and no load is
    /// under way, nothing changes and the selection is acknowledged. Otherwise
    /// a load under way is abandoned, and a new load starts under the next
    /// ticket with the current parameters; the slot is left alone.
    pub open spec fn select_model(self, model_type: ModelType) -> (Self, Seq<ActionView>) {
        if self.stopped {
            (self, seq![])
        } else if self.pending is None && loaded_type(self.slot) == Some(model_type) {
            (self, seq![ActionView::Notify(OutputView::ModelLoaded(model_type))])
        } else {
            let ticket = next_ticket(self.issued);
            let start = ActionView::StartLoad { ticket, model_type, params: self.params };
            (
                BackendView { pending: Some(model_type), issued: ticket, ..self },
                if self.pending is Some {
                    seq![ActionView::CancelLoad(self.issued), start]
                } else {
                    seq![start]
                },
            )
        }
    }

    /// Accepting an image. With a backend installed the worker reports 30
    /// percent and orders the detection; with none it reports `NotReady` and
    /// stays as it is.
    pub open spec fn process_image(self, image: DynamicImage) -> (Self, Seq<ActionView>) {
        if self.stopped {
            (self, seq![])
        } else if self.slot is Some {
            (
                BackendView { detecting: true, ..self },
                seq![
                    ActionView::Notify(OutputView::Progress(PROGRESS_ACCEPTED as nat)),
                    ActionView::Detect(image),
                ],
            )
        } else {
            (
                self,
                seq![
                    ActionView::Notify(
                        OutputView::Error(DetectionErrorView::NotReady.message()),
                    ),
                ],
            )
        }
    }

    /// New parameters are kept for the next load; an installed backend is
    /// not touched.
    pub open spec fn update_params(self, params: DetectionParamsView) -> Self {
        if self.stopped {
            self
        } else {
            BackendView { params, ..self }
        }
    }

    pub open spec fn stop(self) -> Self {
        BackendView { stopped: true, ..self }
    }

    pub open spec fn handle(self, input: InputView) -> (Self, Seq<ActionView>) {
        match input {
            InputView::ProcessImage(image) => self.process_image(image),
            InputView::SelectModel(model_type) => self.select_model(model_type),
            InputView::UpdateParams(params) => (self.update_params(params), seq![]),
            InputView::Stop => (self.stop(), seq![]),
        }
    }

    /// The end of a load. Only the load that the worker waits for counts: a
    /// success is installed and announced under the identifier of what was
    /// built, a failure empties the slot and is reported. The end of any
    /// other load changes nothing and tells nobody.
    pub open spec fn finish_load(
        self,
        ticket: u64,
        built: Result<Model<R>, DetectionErrorView>,
    ) -> (Self, Seq<ActionView>) {
        if self.stopped || self.pending is None || ticket != self.issued {
            (self, seq![])
        } else {
            match built {
                Ok(model) => (
                    BackendView { slot: Some(model), pending: None, ..self },
                    seq![ActionView::Notify(OutputView::ModelLoaded(model.model_type()))],
                ),
                Err(error) => (
                    BackendView { slot: None, pending: None, ..self },
                    seq![ActionView::Notify(OutputView::Error(error.message()))],
                ),
            }
        }
    }

    /// The end of a detection that left the slot as `after` and answered
    /// `outcome`.
    pub open spec fn finish_detection(
        self,
        after: Option<Model<R>>,
        outcome: Result<DetectionResultsView, DetectionErrorView>,
    ) -> (Self, Seq<ActionView>) {
        if self.stopped {
            (self, seq![])
        } else {
            (BackendView { slot: after, detecting: false, ..self }, detection_report(outcome))
        }
    }

    /// One step of the worker. Either channel closing counts as a stop.
    pub open spec fn step(self, event: EventView<R>) -> (Self, Seq<ActionView>) {
        match event {
            EventView::Request(input) => self.handle(input),
            EventView::RequestsClosed => (self.stop(), seq![]),
            EventView::NotificationsClosed => (self.stop(), seq![]),
            EventView::LoadFinished { ticket, built } => self.finish_load(ticket, built),
            EventView::Detected { after, outcome } => self.finish_detection(after, outcome),
        }
    }

    /// The worker after `events`, one after the other.
    pub open spec fn after(self, events: Seq<EventView<R>>) -> Self
        decreases events.len(),
    {
        if events.len() == 0 {
            self
        } else {
            self.after(events.drop_last()).step(events.last()).0
        }
    }

    /// Everything the worker orders in the course of `events`, in order.
    pub open spec fn actions(self, events: Seq<EventView<R>>) -> Seq<ActionView>
        decreases events.len(),
    {
        if events.len() == 0 {
            seq![]
        } else {
            self.actions(events.drop_last()) + self.after(events.drop_last()).step(
                events.last(),
            ).1
        }
    }
}

} // verus!

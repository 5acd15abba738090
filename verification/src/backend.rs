//! The detection worker: the messages it exchanges with its caller, the
//! actions it orders from its driver, and the worker itself.
//!
//! The worker is a state machine. Its driver feeds it events and performs the
//! actions that come back; all waiting is the driver's. `machine` holds the
//! worker as a mathematical value, `slot` the place of the current backend,
//! and `guarantees` what is proved of every run of the machine.

pub mod guarantees;
pub mod machine;
pub mod slot;

use crate::backend::machine::{detection_report, BackendView, EventView};
use crate::backend::slot::{loaded_type, slot_detects, BackendSlot};
use crate::model::{
    built_view, outcome_view, DetectionError, DetectionErrorView, DetectionModel,
    DetectionResults, DetectionResultsView, Model, ModelType,
};
use futures::channel::mpsc::{Receiver, Sender};
use image::DynamicImage;
use std::sync::Arc;
use vstd::prelude::*;

verus! {

/// `futures::channel::mpsc::Sender`, the handle a caller sends requests
/// through. The library hands it on and never looks inside.
#[verifier::external_type_specification]
#[verifier::external_body]
#[verifier::reject_recursive_types(T)]
pub struct ExSender<T>(Sender<T>);

/// `futures::channel::mpsc::Receiver`, the end of the request channel that
/// the worker's driver reads.
#[verifier::external_type_specification]
#[verifier::external_body]
#[verifier::reject_recursive_types(T)]
pub struct ExReceiver<T>(Receiver<T>);

/// `Sender::clone` gives another handle to the same channel; nothing is
/// claimed of it. It panics only where a quarter of the address space counts
/// fewer handles than are alive, which no memory can hold.
pub assume_specification<T>[ <Sender<T> as Clone>::clone ](sender: &Sender<T>) -> Sender<T>;

/// How many messages each of the two queues between caller and worker holds
/// before a sender has to wait.
pub const CHANNEL_CAPACITY: usize = 100;

/// Progress reported when a detection has been accepted, in percent.
pub const PROGRESS_ACCEPTED: u8 = 30;

/// Progress reported when the backend has answered, in percent.
pub const PROGRESS_DETECTED: u8 = 70;

/// Progress reported just before the result is handed over, in percent.
pub const PROGRESS_COMPLETE: u8 = 100;

/// The settings a detection backend is constructed with.
///
/// Fractions are carried in whole percent, so a threshold of one quarter is 25.
#[derive(Debug, PartialEq, Eq)]
pub struct DetectionParams {
    pub confidence_threshold: u8,
    pub class_names: Vec<String>,
}

pub struct DetectionParamsView {
    pub confidence_threshold: nat,
    pub class_names: Seq<Seq<char>>,
}

impl View for DetectionParams {
    type V = DetectionParamsView;

    open spec fn view(&self) -> DetectionParamsView {
        DetectionParamsView {
            confidence_threshold: self.confidence_threshold as nat,
            class_names: self.class_names.deep_view(),
        }
    }
}

impl DetectionParamsView {
    /// The settings a worker starts with: a threshold of 25 percent and the
    /// classes person, car and bus.
    pub open spec fn initial() -> DetectionParamsView {
        DetectionParamsView {
            confidence_threshold: 25,
            class_names: seq!["person"@, "car"@, "bus"@],
        }
    }
}

impl DetectionParamsView {
    /// Why no backend of kind `model_type` can be built with these settings,
    /// if there is a reason: the threshold lies above 100 percent, or a
    /// backend that is told what to look for is given no class name.
    pub open spec fn fault(self, model_type: ModelType) -> Option<Seq<char>> {
        if self.confidence_threshold > 100 {
            Some("confidence threshold above 100 percent"@)
        } else if model_type.is_label_conditioned() && self.class_names.len() == 0 {
            Some("no class names given"@)
        } else {
            None
        }
    }
}

impl DetectionParams {
    /// Says whether a backend of kind `model_type` can be built with these
    /// settings, and if not, why not.
    pub fn check(&self, model_type: ModelType) -> (checked: Result<(), DetectionError>)
        ensures
            match self@.fault(model_type) {
                Some(reason) => checked matches Err(error) && error@
                    == DetectionErrorView::InitializationFailed(reason),
                None => checked is Ok,
            },
    {
        if self.confidence_threshold > 100 {
            Err(
                DetectionError::InitializationFailed(
                    "confidence threshold above 100 percent".to_owned(),
                ),
            )
        } else if model_type.is_label_conditioned() && self.class_names.len() == 0 {
            Err(DetectionError::InitializationFailed("no class names given".to_owned()))
        } else {
            Ok(())
        }
    }
}

impl Default for DetectionParams {
    fn default() -> (params: Self)
        ensures
            params@ == DetectionParamsView::initial(),
    {
        let mut class_names: Vec<String> = Vec::new();
        class_names.push("person".to_owned());
        class_names.push("car".to_owned());
        class_names.push("bus".to_owned());
        assert(class_names.deep_view() =~= seq!["person"@, "car"@, "bus"@]);
        DetectionParams { confidence_threshold: 25, class_names }
    }
}

impl Clone for DetectionParams {
    fn clone(&self) -> (copy: Self)
        ensures
            copy@ == self@,
    {
        let class_names = self.class_names.clone();
        DetectionParams { confidence_threshold: self.confidence_threshold, class_names }
    }
}

/// What a caller asks of the worker.
#[derive(Debug, Clone)]
pub enum Input {
    ProcessImage(Arc<DynamicImage>),
    SelectModel(ModelType),
    UpdateParams(DetectionParams),
    Stop,
}

pub enum InputView {
    ProcessImage(DynamicImage),
    SelectModel(ModelType),
    UpdateParams(DetectionParamsView),
    Stop,
}

impl View for Input {
    type V = InputView;

    open spec fn view(&self) -> InputView {
        match self {
            Input::ProcessImage(image) => InputView::ProcessImage(**image),
            Input::SelectModel(model_type) => InputView::SelectModel(*model_type),
            Input::UpdateParams(params) => InputView::UpdateParams(params@),
            Input::Stop => InputView::Stop,
        }
    }
}

/// What the worker tells its caller. Progress is in percent.
#[derive(Debug, Clone)]
pub enum Output {
    Loading,
    Ready(Sender<Input>),
    ModelLoaded(ModelType),
    Progress(u8),
    Finished(DetectionResults),
    Error(String),
}

/// A notification without the channel handle that `Ready` carries.
pub enum OutputView {
    Loading,
    Ready,
    ModelLoaded(ModelType),
    Progress(nat),
    Finished(DetectionResultsView),
    Error(Seq<char>),
}

impl View for Output {
    type V = OutputView;

    open spec fn view(&self) -> OutputView {
        match self {
            Output::Loading => OutputView::Loading,
            Output::Ready(_) => OutputView::Ready,
            Output::ModelLoaded(model_type) => OutputView::ModelLoaded(*model_type),
            Output::Progress(percent) => OutputView::Progress(*percent as nat),
            Output::Finished(results) => OutputView::Finished(results@),
            Output::Error(message) => OutputView::Error(message@),
        }
    }
}

impl DeepView for Output {
    type V = OutputView;

    open spec fn deep_view(&self) -> OutputView {
        self@
    }
}

/// The order to build one backend. The ticket tells this load from every
/// other; a load is current while the worker's newest ticket is its own.
#[derive(Debug)]
pub struct LoadRequest {
    pub ticket: u64,
    pub model_type: ModelType,
    pub params: DetectionParams,
}

impl LoadRequest {
    /// Does the work of this load: builds the backend that was asked for and
    /// wraps the outcome, with the ticket, as the event to hand to the worker.
    /// This may take long and belongs away from the worker.
    pub fn run<R: DetectionModel>(self) -> (event: Event<R>)
        ensures
            event matches Event::LoadFinished { ticket, built } && ticket == self.ticket
                && Model::<R>::loads(
                self.model_type,
                self.params@,
                built_view(built),
            ) && (built matches Ok(model) ==> model.model_type() == self.model_type),
    {
        let built = Model::load(self.model_type, &self.params);
        Event::LoadFinished { ticket: self.ticket, built }
    }
}

/// The load that the worker is waiting for.
#[derive(Debug, Clone, Copy, PartialEq, Eq, Structural)]
pub struct PendingLoad {
    pub ticket: u64,
    pub model_type: ModelType,
}

/// What the worker's driver has to do after a step, in this order.
#[derive(Debug)]
pub enum Action {
    /// Send the notification to the caller, waiting for room in the queue.
    Notify(Output),
    /// Build the backend away from the worker, then report back with
    /// `Event::LoadFinished` under the same ticket.
    StartLoad(LoadRequest),
    /// Abandon the load with this ticket, as far as that is still possible.
    CancelLoad(u64),
    /// Run the detection on this image now, with `Event::Detect`.
    Detect(Arc<DynamicImage>),
}

pub enum ActionView {
    Notify(OutputView),
    StartLoad { ticket: u64, model_type: ModelType, params: DetectionParamsView },
    CancelLoad(u64),
    Detect(DynamicImage),
}

impl View for Action {
    type V = ActionView;

    open spec fn view(&self) -> ActionView {
        match self {
            Action::Notify(output) => ActionView::Notify(output@),
            Action::StartLoad(request) => ActionView::StartLoad {
                ticket: request.ticket,
                model_type: request.model_type,
                params: request.params@,
            },
            Action::CancelLoad(ticket) => ActionView::CancelLoad(*ticket),
            Action::Detect(image) => ActionView::Detect(**image),
        }
    }
}

impl DeepView for Action {
    type V = ActionView;

    open spec fn deep_view(&self) -> ActionView {
        self@
    }
}

/// Where the worker stands.
#[derive(Debug, Clone, Copy, PartialEq, Eq, Structural)]
pub enum WorkerState {
    /// No backend is installed and none is being loaded.
    Idle,
    /// A load is under way.
    Loading,
    /// A backend is installed and nothing else is going on.
    Ready,
    /// A detection has been accepted and its result is not out yet.
    Detecting,
    /// The worker has stopped for good.
    Terminal,
}

/// The worker: it owns the current backend and the parameters for the next
/// load, knows which load it is waiting for, and decides what follows from
/// each request and each finished load.
///
/// The worker does no waiting itself. Every step returns the actions that its
/// driver performs in order: notifications to send, a load to start or to
/// abandon, a detection to run.
pub struct Backend<R> {
    params: DetectionParams,
    slot: BackendSlot<R>,
    pending: Option<ModelType>,
    issued: u64,
    detecting: bool,
    stopped: bool,
}

impl<R> View for Backend<R> {
    type V = BackendView<R>;

    closed spec fn view(&self) -> BackendView<R> {
        BackendView {
            params: self.params@,
            slot: self.slot@,
            pending: self.pending,
            issued: self.issued,
            detecting: self.detecting,
            stopped: self.stopped,
        }
    }
}

/// What a driver reports to the worker.
#[derive(Debug)]
pub enum Event<R> {
    /// A request arrived from the caller.
    Request(Input),
    /// The request channel is closed: no caller can reach the worker.
    RequestsClosed,
    /// A notification could not be sent: nobody listens any more.
    NotificationsClosed,
    /// The load started under `ticket` has ended.
    LoadFinished { ticket: u64, built: Result<Model<R>, DetectionError> },
    /// The detection ordered by `Action::Detect` is to run now.
    Detect(Arc<DynamicImage>),
}

impl<R> Event<R> {
    /// This event as the worker's model sees it. A detection is seen together
    /// with what the backend did: the slot it left and its answer.
    pub open spec fn observed(
        self,
        after: Option<Model<R>>,
        outcome: Result<DetectionResultsView, DetectionErrorView>,
    ) -> EventView<R> {
        match self {
            Event::Request(input) => EventView::Request(input@),
            Event::RequestsClosed => EventView::RequestsClosed,
            Event::NotificationsClosed => EventView::NotificationsClosed,
            Event::LoadFinished { ticket, built } => EventView::LoadFinished {
                ticket,
                built: built_view(built),
            },
            Event::Detect(_) => EventView::Detected { after, outcome },
        }
    }
}

impl<R> Backend<R> {
    /// A worker with the default parameters and nothing loaded.
    pub fn new() -> (backend: Self)
        ensures
            backend@ == BackendView::<R>::initial(),
    {
        Backend {
            params: DetectionParams::default(),
            slot: BackendSlot::new(),
            pending: None,
            issued: 0,
            detecting: false,
            stopped: false,
        }
    }

    pub fn state(&self) -> (state: WorkerState)
        ensures
            state == self@.state(),
    {
        if self.stopped {
            WorkerState::Terminal
        } else if self.detecting {
            WorkerState::Detecting
        } else if self.pending.is_some() {
            WorkerState::Loading
        } else if self.slot.loaded().is_some() {
            WorkerState::Ready
        } else {
            WorkerState::Idle
        }
    }

    pub fn is_stopped(&self) -> (stopped: bool)
        ensures
            stopped == self@.stopped,
    {
        self.stopped
    }

    /// The parameters the next load will be given.
    pub fn params(&self) -> (params: &DetectionParams)
        ensures
            params@ == self@.params,
    {
        &self.params
    }

    /// The identifier of the installed backend.
    pub fn loaded_model(&self) -> (model_type: Option<ModelType>)
        ensures
            model_type == loaded_type(self@.slot),
    {
        self.slot.loaded()
    }

    /// The load the worker waits for.
    pub fn pending_load(&self) -> (pending: Option<PendingLoad>)
        ensures
            pending == self@.pending_load(),
    {
        match self.pending {
            Some(model_type) => Some(PendingLoad { ticket: self.issued, model_type }),
            None => None,
        }
    }

    /// Selects a backend: the loader's part of the worker.
    pub fn select_model(&mut self, model_type: ModelType) -> (actions: Vec<Action>)
        ensures
            (final(self)@, actions.deep_view()) == old(self)@.select_model(model_type),
            !old(self)@.stopped && old(self)@.pending is None && loaded_type(old(self)@.slot)
                == Some(model_type) ==> final(self)@ == old(self)@ && actions.deep_view() == seq![
                ActionView::Notify(OutputView::ModelLoaded(model_type)),
            ],
    {
        let mut actions: Vec<Action> = Vec::new();
        if self.stopped {
            return actions;
        }
        if self.pending.is_none() && self.slot.loaded() == Some(model_type) {
            actions.push(Action::Notify(Output::ModelLoaded(model_type)));
            return actions;
        }
        let superseded = self.pending.is_some();
        if superseded {
            actions.push(Action::CancelLoad(self.issued));
        }
        let ticket = if self.issued == u64::MAX {
            0
        } else {
            self.issued + 1
        };
        let request = LoadRequest { ticket, model_type, params: self.params.clone() };
        actions.push(Action::StartLoad(request));
        self.pending = Some(model_type);
        self.issued = ticket;
        actions
    }

    /// Accepts an image for detection, or turns it away.
    pub fn process_image(&mut self, image: Arc<DynamicImage>) -> (actions: Vec<Action>)
        ensures
            (final(self)@, actions.deep_view()) == old(self)@.process_image(*image),
            !old(self)@.stopped && old(self)@.slot is None ==> final(self)@ == old(self)@
                && actions.deep_view() == seq![
                ActionView::Notify(OutputView::Error("Model not initialized"@)),
            ],
    {
        let mut actions: Vec<Action> = Vec::new();
        if self.stopped {
        } else if self.slot.loaded().is_some() {
            self.detecting = true;
            actions.push(Action::Notify(Output::Progress(PROGRESS_ACCEPTED)));
            actions.push(Action::Detect(image));
        } else {
            actions.push(Action::Notify(Output::Error(DetectionError::NotReady.message())));
        }
        actions
    }

    /// Keeps `params` for the next load.
    pub fn update_params(&mut self, params: DetectionParams)
        ensures
            final(self)@ == old(self)@.update_params(params@),
    {
        if !self.stopped {
            self.params = params;
        }
    }

    /// Stops the worker for good: from here on no step orders anything.
    pub fn stop(&mut self)
        ensures
            final(self)@ == old(self)@.stop(),
    {
        self.stopped = true;
    }

    /// Takes one request of the caller.
    pub fn handle(&mut self, input: Input) -> (actions: Vec<Action>)
        ensures
            (final(self)@, actions.deep_view()) == old(self)@.handle(input@),
    {
        match input {
            Input::ProcessImage(image) => self.process_image(image),
            Input::SelectModel(model_type) => self.select_model(model_type),
            Input::UpdateParams(params) => {
                self.update_params(params);
                Vec::new()
            },
            Input::Stop => {
                self.stop();
                Vec::new()
            },
        }
    }

    /// Takes the end of the load that was started under `ticket`.
    pub fn finish_load(&mut self, ticket: u64, built: Result<Model<R>, DetectionError>) -> (actions:
        Vec<Action>)
        ensures
            (final(self)@, actions.deep_view()) == old(self)@.finish_load(
                ticket,
                built_view(built),
            ),
    {
        let mut actions: Vec<Action> = Vec::new();
        if self.stopped || self.pending.is_none() || ticket != self.issued {
            return actions;
        }
        self.pending = None;
        match built {
            Ok(model) => {
                let model_type = model.model_type();
                self.slot.install(model);
                actions.push(Action::Notify(Output::ModelLoaded(model_type)));
            },
            Err(error) => {
                self.slot.clear();
                actions.push(Action::Notify(Output::Error(error.message())));
            },
        }
        actions
    }

    /// What the caller is told of a detect call that answered `outcome`.
    pub fn report(outcome: Result<DetectionResults, DetectionError>) -> (actions: Vec<Action>)
        ensures
            actions.deep_view() == detection_report(outcome_view(outcome)),
    {
        let mut actions: Vec<Action> = Vec::new();
        match outcome {
            Ok(results) => {
                actions.push(Action::Notify(Output::Progress(PROGRESS_DETECTED)));
                actions.push(Action::Notify(Output::Progress(PROGRESS_COMPLETE)));
                actions.push(Action::Notify(Output::Finished(results)));
            },
            Err(error) => {
                actions.push(Action::Notify(Output::Error(error.message())));
            },
        }
        actions
    }
}

impl<R: DetectionModel> Backend<R> {
    /// Runs the detection that `process_image` ordered, on whatever backend
    /// is installed now, and says what the caller is to be told. A stopped
    /// worker does not call the backend.
    pub fn run_detection(&mut self, image: &DynamicImage) -> (actions: Vec<Action>)
        ensures
            old(self)@.stopped ==> final(self)@ == old(self)@ && actions.deep_view()
                == Seq::<ActionView>::empty(),
            !old(self)@.stopped ==> exists|
                outcome: Result<DetectionResultsView, DetectionErrorView>,
            |
                #![trigger detection_report(outcome)]
                slot_detects(old(self)@.slot, *image, final(self)@.slot, outcome) && (
                    final(self)@,
                    actions.deep_view(),
                ) == old(self)@.finish_detection(final(self)@.slot, outcome),
    {
        if self.stopped {
            return Vec::new();
        }
        self.detecting = false;
        let outcome = self.slot.detect(image);
        let actions = Self::report(outcome);
        proof {
            let seen = outcome_view(outcome);
            assert(slot_detects(old(self)@.slot, *image, self@.slot, seen));
            assert((self@, actions.deep_view()) == old(self)@.finish_detection(self@.slot, seen));
        }
        actions
    }

    /// Takes one event and says what is to be done.
    pub fn step(&mut self, event: Event<R>) -> (actions: Vec<Action>)
        ensures
            exists|
                after: Option<Model<R>>,
                outcome: Result<DetectionResultsView, DetectionErrorView>,
            |
                #![trigger event.observed(after, outcome)]
                (final(self)@, actions.deep_view()) == old(self)@.step(
                    event.observed(after, outcome),
                ) && (event matches Event::Detect(image) ==> old(self)@.stopped || slot_detects(
                    old(self)@.slot,
                    *image,
                    after,
                    outcome,
                )),
    {
        let ghost idle = Err::<DetectionResultsView, DetectionErrorView>(
            DetectionErrorView::NotReady,
        );
        match event {
            Event::Request(input) => {
                let actions = self.handle(input);
                assert((self@, actions.deep_view()) == old(self)@.step(event.observed(None, idle)));
                actions
            },
            Event::RequestsClosed => {
                self.stop();
                let actions: Vec<Action> = Vec::new();
                assert((self@, actions.deep_view()) == old(self)@.step(event.observed(None, idle)));
                actions
            },
            Event::NotificationsClosed => {
                self.stop();
                let actions: Vec<Action> = Vec::new();
                assert((self@, actions.deep_view()) == old(self)@.step(event.observed(None, idle)));
                actions
            },
            Event::LoadFinished { ticket, built } => {
                let actions = self.finish_load(ticket, built);
                assert((self@, actions.deep_view()) == old(self)@.step(event.observed(None, idle)));
                actions
            },
            Event::Detect(image) => {
                let actions = self.run_detection(&image);
                proof {
                    if old(self)@.stopped {
                        assert((self@, actions.deep_view()) == old(self)@.step(
                            event.observed(None, idle),
                        ));
                    } else {
                        let outcome = choose|
                            outcome: Result<DetectionResultsView, DetectionErrorView>,
                        |
                            #![trigger detection_report(outcome)]
                            slot_detects(old(self)@.slot, *image, self@.slot, outcome) && (
                                self@,
                                actions.deep_view(),
                            ) == old(self)@.finish_detection(self@.slot, outcome);
                        assert((self@, actions.deep_view()) == old(self)@.step(
                            event.observed(self@.slot, outcome),
                        ));
                    }
                }
                actions
            },
        }
    }
}

impl<R> Default for Backend<R> {
    fn default() -> (backend: Self)
        ensures
            backend@ == BackendView::<R>::initial(),
    {
        Backend::new()
    }
}

/// `futures::channel::mpsc::channel` makes a bounded queue and returns its two
/// ends. It panics on a buffer of a quarter of the address space or more,
/// which `requires` leaves out. Nothing is claimed of what it returns.
#[verifier::external_body]
fn request_channel(buffer: usize) -> (ends: (Sender<Input>, Receiver<Input>))
    requires
        buffer < usize::MAX / 4,
{
    futures::channel::mpsc::channel(buffer)
}

/// A worker that has just been started, with what its driver needs to run it.
pub struct Connection<R> {
    /// The worker itself.
    pub backend: Backend<R>,
    /// The end of the request channel that the driver reads.
    pub requests: Receiver<Input>,
    /// The notifications with which every worker begins; the driver sends
    /// them before it reads the first request.
    pub greeting: Vec<Output>,
}

/// Starts a worker. It announces `Loading`, makes the channel on which it
/// will take requests, and announces `Ready` with the sending end of that
/// channel. Nothing is loaded yet.
pub fn connect<R>() -> (connection: Connection<R>)
    ensures
        connection.backend@ == BackendView::<R>::initial(),
        connection.greeting.deep_view() == seq![OutputView::Loading, OutputView::Ready],
{
    let mut greeting: Vec<Output> = Vec::new();
    greeting.push(Output::Loading);
    let (sender, requests) = request_channel(CHANNEL_CAPACITY);
    let backend = Backend::new();
    greeting.push(Output::Ready(sender));
    Connection { backend, requests, greeting }
}

} // verus!

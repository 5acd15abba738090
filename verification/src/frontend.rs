//! The application around the worker: what each message makes of it, and
//! what its event loop is to do next.

use crate::backend::{Input, InputView, Output, OutputView, PROGRESS_COMPLETE};
use crate::io::LoadError;
use crate::model::ModelType;
use crate::screen::inference::{InferenceState, InferenceStateView};
use crate::screen::Screen;
use futures::channel::mpsc::Sender;
use image::DynamicImage;
use std::sync::Arc;
use vstd::prelude::*;
use vstd::string::StringExecFns;

verus! {

/// `Result::clone` of std clones what the value holds: an `Ok` gives an `Ok`
/// and an `Err` an `Err`, each with a clone of the content.
pub assume_specification<T, E>[ <Result<T, E> as Clone>::clone ](
    source: &Result<T, E>,
) -> (copy: Result<T, E>)
    where
        T: Clone,
        E: Clone,
    ensures
        copy is Ok <==> source is Ok,
        copy matches Ok(duplicate) ==> cloned::<T>(source->Ok_0, duplicate),
        copy matches Err(duplicate) ==> cloned::<E>(source->Err_0, duplicate),
;

/// How long the application shows its loading screen at start, in seconds.
pub const STARTUP_PAUSE_SECONDS: u64 = 1;

/// What can happen to the application.
#[derive(Debug, Clone)]
pub enum Message {
    /// The user asked for a detection on this image.
    Detect(Arc<DynamicImage>),
    /// The user asked for the file dialog.
    LoadImage,
    /// The file dialog is done.
    ImageLoaded(Result<DynamicImage, LoadError>),
    /// The worker sent a notification.
    Backend(Output),
    /// A request has been handed to the worker.
    DetectionStarted,
    /// The worker has reported full progress.
    DetectionFinished,
    /// The user picked a backend.
    SelectModel(ModelType),
    GoToScreen(Screen),
}

pub enum MessageView {
    Detect(DynamicImage),
    LoadImage,
    ImageLoaded(Result<DynamicImage, LoadError>),
    Backend(OutputView),
    DetectionStarted,
    DetectionFinished,
    SelectModel(ModelType),
    GoToScreen(Screen),
}

impl View for Message {
    type V = MessageView;

    open spec fn view(&self) -> MessageView {
        match self {
            Message::Detect(image) => MessageView::Detect(**image),
            Message::LoadImage => MessageView::LoadImage,
            Message::ImageLoaded(loaded) => MessageView::ImageLoaded(*loaded),
            Message::Backend(output) => MessageView::Backend(output@),
            Message::DetectionStarted => MessageView::DetectionStarted,
            Message::DetectionFinished => MessageView::DetectionFinished,
            Message::SelectModel(model_type) => MessageView::SelectModel(*model_type),
            Message::GoToScreen(screen) => MessageView::GoToScreen(*screen),
        }
    }
}

impl DeepView for Message {
    type V = MessageView;

    open spec fn deep_view(&self) -> MessageView {
        self@
    }
}

/// What the application's event loop has to do after an update.
#[derive(Debug)]
pub enum Command {
    /// Nothing is to be done.
    Nothing,
    /// Send `input` to the worker through `to`, waiting for room in the
    /// queue; once it is on its way, deliver `Message::DetectionStarted`.
    Send { to: Sender<Input>, input: Input },
    /// Deliver this message at once.
    Deliver(Message),
    /// Open the file dialog and deliver its outcome as
    /// `Message::ImageLoaded`.
    OpenImage,
}

pub enum CommandView {
    Nothing,
    Send(InputView),
    Deliver(MessageView),
    OpenImage,
}

impl View for Command {
    type V = CommandView;

    open spec fn view(&self) -> CommandView {
        match self {
            Command::Nothing => CommandView::Nothing,
            Command::Send { to, input } => CommandView::Send(input@),
            Command::Deliver(message) => CommandView::Deliver(message@),
            Command::OpenImage => CommandView::OpenImage,
        }
    }
}

/// The application: which screen it shows, the image it holds, the handle
/// to the worker once the worker is ready, and the inference screen's state.
pub struct ZeroShotRust {
    screen: Screen,
    pub image: Option<Arc<DynamicImage>>,
    pub backend_tx: Option<Sender<Input>>,
    pub inference_state: InferenceState,
}

/// The application without the channel handle: `connected` says whether it
/// holds one.
pub struct ZeroShotRustView {
    pub screen: Screen,
    pub image: Option<DynamicImage>,
    pub connected: bool,
    pub inference_state: InferenceStateView,
}

impl View for ZeroShotRust {
    type V = ZeroShotRustView;

    closed spec fn view(&self) -> ZeroShotRustView {
        ZeroShotRustView {
            screen: self.screen,
            image: match self.image {
                Some(image) => Some(*image),
                None => None,
            },
            connected: self.backend_tx is Some,
            inference_state: self.inference_state@,
        }
    }
}

/// The text shown once the backend `model_type` is installed.
pub open spec fn loaded_text(model_type: ModelType) -> Seq<char> {
    "Model loaded: "@ + model_type.name()
}

/// The text shown while the backend `model_type` is being loaded.
pub open spec fn loading_text(model_type: ModelType) -> Seq<char> {
    "Loading model "@ + model_type.name() + "..."@
}

impl ZeroShotRustView {
    /// The application at start: the loading screen, no image, no worker.
    pub open spec fn initial() -> Self {
        ZeroShotRustView {
            screen: Screen::Loading,
            image: None,
            connected: false,
            inference_state: InferenceStateView::initial(),
        }
    }

    /// The messages the application sends itself after the pause at start:
    /// no image was loaded, and the inference screen is to be shown.
    pub open spec fn startup() -> Seq<MessageView> {
        seq![
            MessageView::ImageLoaded(Err(LoadError::FileError)),
            MessageView::GoToScreen(Screen::Inference),
        ]
    }

    /// A request goes out only through the handle that the worker gave; until
    /// then it is dropped.
    pub open spec fn send_to_backend(self, input: InputView) -> CommandView {
        if self.connected {
            CommandView::Send(input)
        } else {
            CommandView::Nothing
        }
    }

    /// This application with `edit` as the state of its inference screen.
    pub open spec fn with_inference(self, edit: InferenceStateView) -> Self {
        ZeroShotRustView { inference_state: edit, ..self }
    }

    /// What a notification of the worker does to the application.
    pub open spec fn notified(self, output: OutputView) -> (Self, CommandView) {
        let inference = self.inference_state;
        match output {
            OutputView::Loading => (
                self.with_inference(
                    InferenceStateView { model_info: Some("Loading model..."@), ..inference },
                ),
                CommandView::Nothing,
            ),
            OutputView::Ready => (
                ZeroShotRustView {
                    screen: Screen::Inference,
                    connected: true,
                    inference_state: InferenceStateView { model_info: None, ..inference },
                    ..self
                },
                CommandView::Nothing,
            ),
            OutputView::ModelLoaded(model_type) => (
                self.with_inference(
                    InferenceStateView {
                        busy: false,
                        model_info: Some(loaded_text(model_type)),
                        ..inference
                    },
                ),
                CommandView::Nothing,
            ),
            OutputView::Progress(percent) => (
                self,
                if percent >= PROGRESS_COMPLETE {
                    CommandView::Deliver(MessageView::DetectionFinished)
                } else {
                    CommandView::Nothing
                },
            ),
            OutputView::Finished(_) => (self, CommandView::Nothing),
            OutputView::Error(message) => (
                self.with_inference(
                    InferenceStateView { busy: false, model_info: Some(message), ..inference },
                ),
                CommandView::Nothing,
            ),
        }
    }

    /// What a message does to the application, and what is to be done next.
    pub open spec fn update(self, message: MessageView) -> (Self, CommandView) {
        let inference = self.inference_state;
        match message {
            MessageView::Backend(output) => self.notified(output),
            MessageView::Detect(image) => (
                self,
                self.send_to_backend(InputView::ProcessImage(image)),
            ),
            MessageView::LoadImage => (
                self.with_inference(InferenceStateView { selecting_image: true, ..inference }),
                CommandView::OpenImage,
            ),
            MessageView::ImageLoaded(loaded) => (
                ZeroShotRustView {
                    image: match loaded {
                        Ok(image) => Some(image),
                        Err(_) => self.image,
                    },
                    inference_state: InferenceStateView { selecting_image: false, ..inference },
                    ..self
                },
                CommandView::Nothing,
            ),
            MessageView::GoToScreen(screen) => (
                ZeroShotRustView { screen, ..self },
                CommandView::Nothing,
            ),
            MessageView::DetectionStarted => (
                self.with_inference(InferenceStateView { busy: true, ..inference }),
                CommandView::Nothing,
            ),
            MessageView::DetectionFinished => (
                self.with_inference(InferenceStateView { busy: false, ..inference }),
                CommandView::Nothing,
            ),
            MessageView::SelectModel(model_type) => (
                self.with_inference(
                    InferenceStateView {
                        selected_model: Some(model_type),
                        model_info: Some(loading_text(model_type)),
                        ..inference
                    },
                ),
                self.send_to_backend(InputView::SelectModel(model_type)),
            ),
        }
    }

    /// Whether the user may ask for a detection: there is an image, the
    /// worker is ready, a backend has been picked, and no request is out.
    pub open spec fn can_detect(self) -> bool {
        self.image is Some && self.connected && self.inference_state.selected_model is Some
            && !self.inference_state.busy
    }

    /// Whether the user may open the file dialog: it is not open already.
    pub open spec fn can_load_image(self) -> bool {
        !self.inference_state.selecting_image
    }
}

impl ZeroShotRust {
    /// The application at start, with the messages it sends itself once
    /// `STARTUP_PAUSE_SECONDS` have passed.
    pub fn new() -> (start: (Self, Vec<Message>))
        ensures
            start.0@ == ZeroShotRustView::initial(),
            start.1.deep_view() == ZeroShotRustView::startup(),
    {
        let mut later: Vec<Message> = Vec::new();
        later.push(Message::ImageLoaded(Err(LoadError::FileError)));
        later.push(Message::GoToScreen(Screen::Inference));
        (ZeroShotRust::default(), later)
    }

    pub fn title(&self) -> (title: String)
        ensures
            title@ == "ZeroShotRust"@,
    {
        "ZeroShotRust".to_owned()
    }

    pub fn screen(&self) -> (screen: Screen)
        ensures
            screen == self@.screen,
    {
        self.screen
    }

    pub fn send_to_backend(&self, message: Input) -> (command: Command)
        ensures
            command@ == self@.send_to_backend(message@),
    {
        match &self.backend_tx {
            Some(tx) => Command::Send { to: tx.clone(), input: message },
            None => Command::Nothing,
        }
    }

    fn notified(&mut self, output: Output) -> (command: Command)
        ensures
            (final(self)@, command@) == old(self)@.notified(output@),
    {
        match output {
            Output::Loading => {
                self.inference_state.model_info = Some("Loading model...".to_owned());
                Command::Nothing
            },
            Output::Ready(tx) => {
                self.backend_tx = Some(tx);
                self.inference_state.model_info = None;
                self.screen = Screen::Inference;
                Command::Nothing
            },
            Output::ModelLoaded(model_type) => {
                let text = String::from_str("Model loaded: ").concat(
                    model_type.to_string().as_str(),
                );
                self.inference_state.model_info = Some(text);
                self.inference_state.busy = false;
                Command::Nothing
            },
            Output::Progress(percent) => {
                if percent >= PROGRESS_COMPLETE {
                    Command::Deliver(Message::DetectionFinished)
                } else {
                    Command::Nothing
                }
            },
            Output::Finished(_) => Command::Nothing,
            Output::Error(message) => {
                self.inference_state.model_info = Some(message);
                self.inference_state.busy = false;
                Command::Nothing
            },
        }
    }

    /// Takes one message and says what is to be done next.
    pub fn update(&mut self, message: Message) -> (command: Command)
        ensures
            (final(self)@, command@) == old(self)@.update(message@),
    {
        match message {
            Message::Backend(output) => self.notified(output),
            Message::Detect(image) => self.send_to_backend(Input::ProcessImage(image)),
            Message::LoadImage => {
                self.inference_state.selecting_image = true;
                Command::OpenImage
            },
            Message::ImageLoaded(loaded) => {
                self.inference_state.selecting_image = false;
                match loaded {
                    Ok(image) => {
                        self.image = Some(Arc::new(image));
                    },
                    Err(_) => {},
                }
                Command::Nothing
            },
            Message::GoToScreen(screen) => {
                self.screen = screen;
                Command::Nothing
            },
            Message::DetectionStarted => {
                self.inference_state.busy = true;
                Command::Nothing
            },
            Message::DetectionFinished => {
                self.inference_state.busy = false;
                Command::Nothing
            },
            Message::SelectModel(model_type) => {
                let text = String::from_str("Loading model ").concat(
                    model_type.to_string().as_str(),
                ).concat("...");
                self.inference_state.selected_model = Some(model_type);
                self.inference_state.model_info = Some(text);
                self.send_to_backend(Input::SelectModel(model_type))
            },
        }
    }

    /// Whether the button that asks for a detection is to be live.
    pub fn can_detect(&self) -> (live: bool)
        ensures
            live == self@.can_detect(),
    {
        self.image.is_some() && self.backend_tx.is_some()
            && self.inference_state.selected_model.is_some() && !self.inference_state.busy
    }

    /// Whether the button that opens the file dialog is to be live.
    pub fn can_load_image(&self) -> (live: bool)
        ensures
            live == self@.can_load_image(),
    {
        !self.inference_state.selecting_image
    }
}

impl Default for ZeroShotRust {
    fn default() -> (application: Self)
        ensures
            application@ == ZeroShotRustView::initial(),
    {
        ZeroShotRust {
            screen: Screen::Loading,
            image: None,
            backend_tx: None,
            inference_state: InferenceState::default(),
        }
    }
}

/// Until the worker has announced that it is ready, no request goes out,
/// whatever the user does.
pub proof fn lemma_no_request_before_ready(application: ZeroShotRustView, message: MessageView)
    requires
        !application.connected,
    ensures
        !(application.update(message).1 is Send),
        application.update(message).0.connected ==> message == MessageView::Backend(
            OutputView::Ready,
        ),
{
}

/// An error of the worker ends the wait for it: the message is shown, and a
/// detection can be asked for again as far as the rest allows.
pub proof fn lemma_error_reenables_detection(application: ZeroShotRustView, error: Seq<char>)
    ensures
        ({
            let (shown, command) = application.update(
                MessageView::Backend(OutputView::Error(error)),
            );
            &&& command == CommandView::Nothing
            &&& !shown.inference_state.busy
            &&& shown.inference_state.model_info == Some(error)
            &&& shown.can_detect() == (application.image is Some && application.connected
                && application.inference_state.selected_model is Some)
        }),
{
}

} // verus!

use std::sync::Arc;

use futures::channel::mpsc::{channel, Receiver};
use image::DynamicImage;
use zero_shot_rust::backend::{Input, Output};
use zero_shot_rust::frontend::{Command, Message, ZeroShotRust, STARTUP_PAUSE_SECONDS};
use zero_shot_rust::io::LoadError;
use zero_shot_rust::model::{BoundingBox, DetectionResults, Detections, ModelType};
use zero_shot_rust::screen::inference::InferenceState;
use zero_shot_rust::screen::Screen;

fn application() -> ZeroShotRust {
    ZeroShotRust::new().0
}

/// An application that has seen the worker's `Ready`, with the other end of
/// the channel it was given.
fn connected() -> (ZeroShotRust, Receiver<Input>) {
    let mut app = application();
    let (tx, rx) = channel(4);
    assert!(matches!(app.update(Message::Backend(Output::Ready(tx))), Command::Nothing));
    (app, rx)
}

fn info(app: &ZeroShotRust) -> Option<&str> {
    app.inference_state.model_info.as_deref()
}

#[test]
fn application_starts_on_the_loading_screen() {
    let (app, later) = ZeroShotRust::new();
    assert_eq!(app.screen(), Screen::Loading);
    assert!(app.image.is_none());
    assert!(app.backend_tx.is_none());
    assert_eq!(app.inference_state, InferenceState::default());
    assert_eq!(
        app.inference_state,
        InferenceState {
            selecting_image: false,
            selected_model: None,
            busy: false,
            model_info: None
        }
    );
    assert_eq!(later.len(), 2);
    assert!(matches!(&later[0], Message::ImageLoaded(Err(LoadError::FileError))));
    assert!(matches!(&later[1], Message::GoToScreen(Screen::Inference)));
    assert_eq!(STARTUP_PAUSE_SECONDS, 1);
    assert!(!app.can_detect());
    assert!(app.can_load_image());
}

#[test]
fn startup_messages_lead_to_the_inference_screen() {
    let (mut app, later) = ZeroShotRust::new();
    for message in later {
        assert!(matches!(app.update(message), Command::Nothing));
    }
    assert_eq!(app.screen(), Screen::Inference);
    assert!(app.image.is_none());
    assert!(!app.inference_state.selecting_image);
}

#[test]
fn title_of_the_window() {
    assert_eq!(application().title(), "ZeroShotRust");
}

#[test]
fn worker_loading_is_shown() {
    let mut app = application();
    assert!(matches!(app.update(Message::Backend(Output::Loading)), Command::Nothing));
    assert_eq!(info(&app), Some("Loading model..."));
    assert_eq!(app.screen(), Screen::Loading);
}

#[test]
fn worker_ready_connects_and_shows_the_inference_screen() {
    let mut app = application();
    let _ = app.update(Message::Backend(Output::Loading));
    let (tx, _rx) = channel::<Input>(1);
    assert!(matches!(app.update(Message::Backend(Output::Ready(tx))), Command::Nothing));
    assert!(app.backend_tx.is_some());
    assert_eq!(info(&app), None);
    assert_eq!(app.screen(), Screen::Inference);
}

#[test]
fn nothing_is_sent_before_the_worker_is_ready() {
    let mut app = application();
    let image = Arc::new(DynamicImage::new_rgb8(2, 2));
    assert!(matches!(app.update(Message::Detect(image)), Command::Nothing));
    assert!(matches!(app.update(Message::SelectModel(ModelType::Mock)), Command::Nothing));
    assert_eq!(app.inference_state.selected_model, Some(ModelType::Mock));
    assert!(matches!(app.send_to_backend(Input::Stop), Command::Nothing));
}

#[test]
fn detect_sends_the_image_to_the_worker() {
    let (mut app, mut rx) = connected();
    let image = Arc::new(DynamicImage::new_rgb8(2, 2));
    match app.update(Message::Detect(image.clone())) {
        Command::Send { mut to, input } => {
            assert!(matches!(&input, Input::ProcessImage(sent) if Arc::ptr_eq(sent, &image)));
            to.try_send(input).expect("room for a request");
        }
        other => panic!("expected a request, got {:?}", other),
    }
    assert!(matches!(rx.try_recv(), Ok(Input::ProcessImage(_))));
    assert!(!app.inference_state.busy);
    assert!(matches!(app.update(Message::DetectionStarted), Command::Nothing));
    assert!(app.inference_state.busy);
}

#[test]
fn selecting_a_backend_is_noted_and_sent() {
    let (mut app, _rx) = connected();
    match app.update(Message::SelectModel(ModelType::GroundingDINO)) {
        Command::Send { input, .. } => {
            assert!(matches!(input, Input::SelectModel(ModelType::GroundingDINO)))
        }
        other => panic!("expected a request, got {:?}", other),
    }
    assert_eq!(app.inference_state.selected_model, Some(ModelType::GroundingDINO));
    assert_eq!(info(&app), Some("Loading model GroundingDINO..."));

    let _ = app.update(Message::SelectModel(ModelType::Mock));
    assert_eq!(app.inference_state.selected_model, Some(ModelType::Mock));
    assert_eq!(info(&app), Some("Loading model Mock..."));
}

#[test]
fn loaded_backend_is_shown_and_ends_the_wait() {
    let (mut app, _rx) = connected();
    let _ = app.update(Message::SelectModel(ModelType::Mock));
    let _ = app.update(Message::DetectionStarted);
    assert!(app.inference_state.busy);
    assert!(matches!(
        app.update(Message::Backend(Output::ModelLoaded(ModelType::Mock))),
        Command::Nothing
    ));
    assert_eq!(info(&app), Some("Model loaded: Mock"));
    assert!(!app.inference_state.busy);

    let _ = app.update(Message::Backend(Output::ModelLoaded(ModelType::GroundingDINO)));
    assert_eq!(info(&app), Some("Model loaded: GroundingDINO"));
}

#[test]
fn full_progress_ends_the_detection() {
    let (mut app, _rx) = connected();
    let _ = app.update(Message::DetectionStarted);
    assert!(matches!(app.update(Message::Backend(Output::Progress(30))), Command::Nothing));
    assert!(matches!(app.update(Message::Backend(Output::Progress(70))), Command::Nothing));
    assert!(matches!(app.update(Message::Backend(Output::Progress(99))), Command::Nothing));
    assert!(app.inference_state.busy);
    match app.update(Message::Backend(Output::Progress(100))) {
        Command::Deliver(message) => {
            assert!(matches!(message, Message::DetectionFinished));
            assert!(app.inference_state.busy);
            assert!(matches!(app.update(message), Command::Nothing));
        }
        other => panic!("expected a message, got {:?}", other),
    }
    assert!(!app.inference_state.busy);
    assert!(matches!(
        app.update(Message::Backend(Output::Progress(255))),
        Command::Deliver(Message::DetectionFinished)
    ));
}

#[test]
fn result_of_a_detection_changes_nothing() {
    let (mut app, _rx) = connected();
    let _ = app.update(Message::Backend(Output::ModelLoaded(ModelType::Mock)));
    let before = app.inference_state.clone();
    let results = DetectionResults::new(
        Detections::new(vec![BoundingBox::new("cat".to_string(), 50, 1, 2, 3, 4)]),
        DynamicImage::new_rgb8(2, 2),
    );
    assert!(matches!(app.update(Message::Backend(Output::Finished(results))), Command::Nothing));
    assert_eq!(app.inference_state, before);
    assert_eq!(app.screen(), Screen::Inference);
    assert!(app.image.is_none());
}

#[test]
fn error_is_shown_and_ends_the_wait() {
    let (mut app, _rx) = connected();
    let _ = app.update(Message::DetectionStarted);
    assert!(matches!(
        app.update(Message::Backend(Output::Error("Model not initialized".to_string()))),
        Command::Nothing
    ));
    assert_eq!(info(&app), Some("Model not initialized"));
    assert!(!app.inference_state.busy);
}

#[test]
fn file_dialog_opens_once() {
    let mut app = application();
    assert!(app.can_load_image());
    assert!(matches!(app.update(Message::LoadImage), Command::OpenImage));
    assert!(app.inference_state.selecting_image);
    assert!(!app.can_load_image());

    assert!(matches!(
        app.update(Message::ImageLoaded(Err(LoadError::Cancelled))),
        Command::Nothing
    ));
    assert!(!app.inference_state.selecting_image);
    assert!(app.can_load_image());
    assert!(app.image.is_none());
}

#[test]
fn loaded_image_is_kept() {
    let mut app = application();
    let _ = app.update(Message::LoadImage);
    let first = DynamicImage::new_rgb8(3, 2);
    assert!(matches!(app.update(Message::ImageLoaded(Ok(first.clone()))), Command::Nothing));
    assert_eq!(app.image.as_deref(), Some(&first));
    assert!(!app.inference_state.selecting_image);

    // A dialog that fails later does not take the image away.
    let _ = app.update(Message::ImageLoaded(Err(LoadError::FileError)));
    assert_eq!(app.image.as_deref(), Some(&first));

    let second = DynamicImage::new_luma8(5, 5);
    let _ = app.update(Message::ImageLoaded(Ok(second.clone())));
    assert_eq!(app.image.as_deref(), Some(&second));
}

#[test]
fn screen_is_switched_on_request() {
    let mut app = application();
    assert!(matches!(app.update(Message::GoToScreen(Screen::Inference)), Command::Nothing));
    assert_eq!(app.screen(), Screen::Inference);
    let _ = app.update(Message::GoToScreen(Screen::Loading));
    assert_eq!(app.screen(), Screen::Loading);
}

#[test]
fn detection_needs_image_worker_backend_and_no_open_request() {
    let mut app = application();
    assert!(!app.can_detect());
    let _ = app.update(Message::ImageLoaded(Ok(DynamicImage::new_rgb8(1, 1))));
    assert!(!app.can_detect());
    let (tx, _rx) = channel::<Input>(1);
    let _ = app.update(Message::Backend(Output::Ready(tx)));
    assert!(!app.can_detect());
    let _ = app.update(Message::SelectModel(ModelType::Mock));
    assert!(app.can_detect());
    let _ = app.update(Message::DetectionStarted);
    assert!(!app.can_detect());
    let _ = app.update(Message::Backend(Output::ModelLoaded(ModelType::Mock)));
    assert!(app.can_detect());
    let _ = app.update(Message::DetectionStarted);
    assert!(!app.can_detect());
    let _ = app.update(Message::DetectionFinished);
    assert!(app.can_detect());
    let _ = app.update(Message::DetectionStarted);
    let _ = app.update(Message::Backend(Output::Error("Detection failed: x".to_string())));
    assert!(app.can_detect());
}

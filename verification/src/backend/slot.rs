//! The place of the current backend.

use crate::model::{
    outcome_view, DetectionError, DetectionErrorView, DetectionModel, DetectionResults,
    DetectionResultsView, Model, ModelType,
};
use image::DynamicImage;
use vstd::prelude::*;

verus! {

/// The place of the current backend: empty, or one installed backend.
///
/// All access goes through `&mut self`, so an `install` can never fall into
/// the middle of a detect call.
pub struct BackendSlot<R> {
    current: Option<Model<R>>,
}

impl<R> View for BackendSlot<R> {
    type V = Option<Model<R>>;

    closed spec fn view(&self) -> Option<Model<R>> {
        self.current
    }
}

/// The identifier of the backend in a slot, if there is one.
pub open spec fn loaded_type<R>(slot: Option<Model<R>>) -> Option<ModelType> {
    match slot {
        Some(model) => Some(model.model_type()),
        None => None,
    }
}

impl<R> BackendSlot<R> {
    pub fn new() -> (slot: Self)
        ensures
            slot@ is None,
    {
        BackendSlot { current: None }
    }

    /// Puts `capability` in the slot, whatever was there.
    pub fn install(&mut self, capability: Model<R>)
        ensures
            final(self)@ == Some(capability),
    {
        self.current = Some(capability);
    }

    /// Empties the slot.
    pub fn clear(&mut self)
        ensures
            final(self)@ is None,
    {
        self.current = None;
    }

    /// The identifier of the installed backend.
    pub fn loaded(&self) -> (model_type: Option<ModelType>)
        ensures
            model_type == loaded_type(self@),
    {
        match &self.current {
            Some(model) => Some(model.model_type()),
            None => None,
        }
    }
}

/// Whether a detection on `slot` with `image` may leave the slot as `after`
/// and answer `outcome`: an empty slot stays empty and answers `NotReady`;
/// an installed backend is called, and stays installed.
pub open spec fn slot_detects<R: DetectionModel>(
    slot: Option<Model<R>>,
    image: DynamicImage,
    after: Option<Model<R>>,
    outcome: Result<DetectionResultsView, DetectionErrorView>,
) -> bool {
    match slot {
        None => after is None && outcome == Err::<DetectionResultsView, DetectionErrorView>(
            DetectionErrorView::NotReady,
        ),
        Some(model) => after matches Some(model_after) && Model::detects(
            model,
            image,
            model_after,
            outcome,
        ),
    }
}

impl<R: DetectionModel> BackendSlot<R> {
    /// One detect call on the installed backend, which is held exclusively
    /// for the time of the call. With an empty slot no backend is called and
    /// the answer is `NotReady`.
    pub fn detect(&mut self, image: &DynamicImage) -> (outcome: Result<
        DetectionResults,
        DetectionError,
    >)
        ensures
            slot_detects(old(self)@, *image, final(self)@, outcome_view(outcome)),
    {
        match self.current.take() {
            None => Err(DetectionError::NotReady),
            Some(model) => {
                let mut model = model;
                let outcome = model.detect(image);
                self.current = Some(model);
                outcome
            },
        }
    }
}

} // verus!

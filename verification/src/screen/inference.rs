//! The state of the inference screen.

use crate::model::ModelType;
use vstd::prelude::*;

verus! {

/// What the inference screen knows besides the image it shows.
#[derive(Debug, Clone, PartialEq, Eq)]
pub struct InferenceState {
    /// The file dialog is open.
    pub selecting_image: bool,
    /// The backend the user picked last.
    pub selected_model: Option<ModelType>,
    /// A request is with the worker and its answer is not in yet.
    pub busy: bool,
    /// The line of text that tells the user about the backend.
    pub model_info: Option<String>,
}

pub struct InferenceStateView {
    pub selecting_image: bool,
    pub selected_model: Option<ModelType>,
    pub busy: bool,
    pub model_info: Option<Seq<char>>,
}

impl View for InferenceState {
    type V = InferenceStateView;

    open spec fn view(&self) -> InferenceStateView {
        InferenceStateView {
            selecting_image: self.selecting_image,
            selected_model: self.selected_model,
            busy: self.busy,
            model_info: match self.model_info {
                Some(text) => Some(text@),
                None => None,
            },
        }
    }
}

impl InferenceStateView {
    /// Nothing selected, nothing going on, nothing to tell.
    pub open spec fn initial() -> InferenceStateView {
        InferenceStateView {
            selecting_image: false,
            selected_model: None,
            busy: false,
            model_info: None,
        }
    }
}

impl Default for InferenceState {
    fn default() -> (state: Self)
        ensures
            state@ == InferenceStateView::initial(),
    {
        InferenceState {
            selecting_image: false,
            selected_model: None,
            busy: false,
            model_info: None,
        }
    }
}

} // verus!

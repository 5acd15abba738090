//! The stand-in backend.

use crate::backend::{DetectionParams, DetectionParamsView};
use crate::model::{
    BoundingBox, BoundingBoxView, DetectionError, DetectionErrorView, DetectionModel,
    DetectionResults, DetectionResultsView, Detections,
};
use image::DynamicImage;
use vstd::prelude::*;

verus! {

/// The stand-in backend: it answers at once, with the same two boxes for
/// every image, and hands the image back unchanged as the annotated one.
#[derive(Debug, Clone, PartialEq, Eq)]
pub struct MockModel {
    params: DetectionParams,
}

impl View for MockModel {
    type V = DetectionParamsView;

    closed spec fn view(&self) -> DetectionParamsView {
        self.params@
    }
}

/// The boxes the stand-in reports for every image.
pub open spec fn mock_boxes() -> Seq<BoundingBoxView> {
    seq![
        BoundingBoxView {
            class: "mock_class"@,
            confidence: 90,
            x: 10,
            y: 20,
            width: 100,
            height: 200,
        },
        BoundingBoxView {
            class: "mock_class_2"@,
            confidence: 80,
            x: 30,
            y: 40,
            width: 150,
            height: 250,
        },
    ]
}

impl MockModel {
    /// Builds the stand-in, which always succeeds, with a copy of `params`.
    pub fn new(params: &DetectionParams) -> (built: Result<Self, DetectionError>)
        ensures
            built matches Ok(model) && model@ == params@,
    {
        Ok(MockModel { params: params.clone() })
    }

    pub fn params(&self) -> (params: &DetectionParams)
        ensures
            params@ == self@,
    {
        &self.params
    }
}

impl DetectionModel for MockModel {
    /// Building the stand-in always succeeds, and it keeps the parameters.
    open spec fn builds(
        parameters: DetectionParamsView,
        built: Result<Self, DetectionErrorView>,
    ) -> bool {
        built matches Ok(model) && model@ == parameters
    }

    /// The stand-in always succeeds: it stays as it is, reports its two
    /// boxes, and gives the image back as the annotated one.
    open spec fn detects(
        before: Self,
        image: DynamicImage,
        after: Self,
        outcome: Result<DetectionResultsView, DetectionErrorView>,
    ) -> bool {
        after == before && outcome == Ok::<DetectionResultsView, DetectionErrorView>(
            DetectionResultsView { boxes: mock_boxes(), annotated: image },
        )
    }

    fn detect(&mut self, image: &DynamicImage) -> (outcome: Result<
        DetectionResults,
        DetectionError,
    >)
    {
        let annotated = image.clone();
        let mut boxes: Vec<BoundingBox> = Vec::new();
        boxes.push(BoundingBox::new("mock_class".to_owned(), 90, 10, 20, 100, 200));
        boxes.push(BoundingBox::new("mock_class_2".to_owned(), 80, 30, 40, 150, 250));
        assert(boxes.deep_view() =~= mock_boxes());
        Ok(DetectionResults::new(Detections::new(boxes), annotated))
    }

    fn new(parameters: &DetectionParams) -> (built: Result<Self, DetectionError>) {
        MockModel::new(parameters)
    }
}

} // verus!

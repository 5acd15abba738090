//! Detection backends and what they produce.

pub mod mock;

use crate::backend::{DetectionParams, DetectionParamsView};
use crate::model::mock::MockModel;
use image::DynamicImage;
use vstd::prelude::*;
use vstd::string::StringExecFns;

verus! {

/// `image::DynamicImage`, carried through the library as an opaque value.
#[verifier::external_type_specification]
#[verifier::external_body]
pub struct ExDynamicImage(DynamicImage);

/// `DynamicImage::clone` copies the pixel buffer together with its dimensions
/// and pixel format, so what it returns is the same image as the one cloned.
pub assume_specification[ <DynamicImage as Clone>::clone ](image: &DynamicImage) -> (copy:
    DynamicImage)
    ensures
        copy == *image,
;

/// The detection backends a caller can select.
#[derive(Debug, Clone, Copy, PartialEq, Eq, Structural)]
pub enum ModelType {
    /// The stand-in that answers at once with a fixed result.
    Mock,
    /// The label-conditioned detector that runs real inference.
    GroundingDINO,
}

impl ModelType {
    /// The name a backend is shown under.
    pub open spec fn name(self) -> Seq<char> {
        match self {
            ModelType::Mock => "Mock"@,
            ModelType::GroundingDINO => "GroundingDINO"@,
        }
    }

    /// Whether the backend is told by class names what to look for.
    pub open spec fn spec_is_label_conditioned(&self) -> bool {
        *self == ModelType::GroundingDINO
    }

    #[verifier::when_used_as_spec(spec_is_label_conditioned)]
    pub fn is_label_conditioned(&self) -> (conditioned: bool)
        ensures
            conditioned == self.spec_is_label_conditioned(),
    {
        match self {
            ModelType::Mock => false,
            ModelType::GroundingDINO => true,
        }
    }

    pub fn to_string(&self) -> (text: String)
        ensures
            text@ == self.name(),
    {
        match self {
            ModelType::Mock => "Mock".to_owned(),
            ModelType::GroundingDINO => "GroundingDINO".to_owned(),
        }
    }
}

/// One detected object: its class, how confident the backend is (in percent)
/// and its rectangle in image pixels.
#[derive(Debug, Clone, PartialEq, Eq)]
pub struct BoundingBox {
    class: String,
    confidence: u8,
    x: u32,
    y: u32,
    width: u32,
    height: u32,
}

pub struct BoundingBoxView {
    pub class: Seq<char>,
    pub confidence: nat,
    pub x: nat,
    pub y: nat,
    pub width: nat,
    pub height: nat,
}

impl View for BoundingBox {
    type V = BoundingBoxView;

    closed spec fn view(&self) -> BoundingBoxView {
        BoundingBoxView {
            class: self.class@,
            confidence: self.confidence as nat,
            x: self.x as nat,
            y: self.y as nat,
            width: self.width as nat,
            height: self.height as nat,
        }
    }
}

impl DeepView for BoundingBox {
    type V = BoundingBoxView;

    open spec fn deep_view(&self) -> BoundingBoxView {
        self@
    }
}

impl BoundingBox {
    pub fn new(class: String, confidence: u8, x: u32, y: u32, width: u32, height: u32) -> (bbox:
        Self)
        ensures
            bbox@ == (BoundingBoxView {
                class: class@,
                confidence: confidence as nat,
                x: x as nat,
                y: y as nat,
                width: width as nat,
                height: height as nat,
            }),
    {
        BoundingBox { class, confidence, x, y, width, height }
    }

    pub fn class(&self) -> (class: &String)
        ensures
            class@ == self@.class,
    {
        &self.class
    }

    pub fn confidence(&self) -> (confidence: u8)
        ensures
            confidence == self@.confidence,
    {
        self.confidence
    }

    pub fn x(&self) -> (x: u32)
        ensures
            x == self@.x,
    {
        self.x
    }

    pub fn y(&self) -> (y: u32)
        ensures
            y == self@.y,
    {
        self.y
    }

    pub fn width(&self) -> (width: u32)
        ensures
            width == self@.width,
    {
        self.width
    }

    pub fn height(&self) -> (height: u32)
        ensures
            height == self@.height,
    {
        self.height
    }
}

/// A detection as a backend reports it, before the class has been settled:
/// the backend may know no name for what it found.
#[derive(Debug, Clone, PartialEq, Eq)]
pub struct RawDetection {
    pub name: Option<String>,
    pub confidence: u8,
    pub x: u32,
    pub y: u32,
    pub width: u32,
    pub height: u32,
}

impl RawDetection {
    /// The bounding box this detection becomes: a detection without a name is
    /// of class `unknown`, everything else is kept.
    pub open spec fn settled(self) -> BoundingBoxView {
        BoundingBoxView {
            class: match self.name {
                Some(name) => name@,
                None => "unknown"@,
            },
            confidence: self.confidence as nat,
            x: self.x as nat,
            y: self.y as nat,
            width: self.width as nat,
            height: self.height as nat,
        }
    }
}

/// The bounding boxes found in one image, in the order the backend gave them.
#[derive(Debug, Clone, PartialEq, Eq)]
pub struct Detections {
    boxes: Vec<BoundingBox>,
}

impl View for Detections {
    type V = Seq<BoundingBoxView>;

    closed spec fn view(&self) -> Seq<BoundingBoxView> {
        self.boxes.deep_view()
    }
}

impl Detections {
    pub fn new(boxes: Vec<BoundingBox>) -> (detections: Self)
        ensures
            detections@ == boxes.deep_view(),
    {
        Detections { boxes }
    }

    pub fn boxes(&self) -> (boxes: &Vec<BoundingBox>)
        ensures
            boxes.deep_view() == self@,
    {
        &self.boxes
    }
}

impl Detections {
    /// Settles every detection, keeping their order.
    pub fn from(raw: Vec<RawDetection>) -> (detections: Self)
        ensures
            detections@ == settle_all(raw@),
    {
        let mut boxes: Vec<BoundingBox> = Vec::new();
        let mut i: usize = 0;
        while i < raw.len()
            invariant
                i <= raw.len(),
                boxes.len() == i,
                forall|j: int| 0 <= j < i ==> (#[trigger] boxes[j])@ == raw[j].settled(),
            decreases raw.len() - i,
        {
            let class = match &raw[i].name {
                Some(name) => name.clone(),
                None => "unknown".to_owned(),
            };
            let bbox = BoundingBox::new(
                class,
                raw[i].confidence,
                raw[i].x,
                raw[i].y,
                raw[i].width,
                raw[i].height,
            );
            boxes.push(bbox);
            i = i + 1;
        }
        Detections { boxes }
    }
}

/// Every detection of `raw` settled, in the same order.
pub open spec fn settle_all(raw: Seq<RawDetection>) -> Seq<BoundingBoxView> {
    Seq::new(raw.len(), |i: int| raw[i].settled())
}

/// What one detect call produces: the bounding boxes and the image with the
/// detections drawn into it.
#[derive(Debug, Clone, PartialEq)]
pub struct DetectionResults {
    detections: Detections,
    annotated: DynamicImage,
}

pub struct DetectionResultsView {
    pub boxes: Seq<BoundingBoxView>,
    pub annotated: DynamicImage,
}

impl View for DetectionResults {
    type V = DetectionResultsView;

    closed spec fn view(&self) -> DetectionResultsView {
        DetectionResultsView { boxes: self.detections@, annotated: self.annotated }
    }
}

impl DetectionResults {
    pub fn new(detections: Detections, annotated: DynamicImage) -> (results: Self)
        ensures
            results@ == (DetectionResultsView { boxes: detections@, annotated }),
    {
        DetectionResults { detections, annotated }
    }

    pub fn detections(&self) -> (detections: &Detections)
        ensures
            detections@ == self@.boxes,
    {
        &self.detections
    }

    pub fn annotated(&self) -> (annotated: &DynamicImage)
        ensures
            *annotated == self@.annotated,
    {
        &self.annotated
    }
}

/// Why a backend could not be built or could not answer.
#[derive(Debug, Clone, PartialEq, Eq)]
pub enum DetectionError {
    /// Constructing the backend failed; the cause is carried along.
    InitializationFailed(String),
    /// A detection was asked for while no backend was installed.
    NotReady,
    /// The installed backend failed on the image; the cause is carried along.
    DetectionFailed(String),
    /// The other end of a channel is gone.
    ChannelClosed,
}

pub enum DetectionErrorView {
    InitializationFailed(Seq<char>),
    NotReady,
    DetectionFailed(Seq<char>),
    ChannelClosed,
}

impl View for DetectionError {
    type V = DetectionErrorView;

    open spec fn view(&self) -> DetectionErrorView {
        match self {
            DetectionError::InitializationFailed(cause) => DetectionErrorView::InitializationFailed(
                cause@,
            ),
            DetectionError::NotReady => DetectionErrorView::NotReady,
            DetectionError::DetectionFailed(cause) => DetectionErrorView::DetectionFailed(cause@),
            DetectionError::ChannelClosed => DetectionErrorView::ChannelClosed,
        }
    }
}

impl DetectionErrorView {
    /// The text a caller is shown: the kind of failure, followed by its cause
    /// where there is one.
    pub open spec fn message(self) -> Seq<char> {
        match self {
            DetectionErrorView::InitializationFailed(cause) => "Failed to load model: "@ + cause,
            DetectionErrorView::NotReady => "Model not initialized"@,
            DetectionErrorView::DetectionFailed(cause) => "Detection failed: "@ + cause,
            DetectionErrorView::ChannelClosed => "Channel closed"@,
        }
    }
}

impl DetectionError {
    pub fn message(&self) -> (text: String)
        ensures
            text@ == self@.message(),
    {
        match self {
            DetectionError::InitializationFailed(cause) => String::from_str(
                "Failed to load model: ",
            ).concat(cause.as_str()),
            DetectionError::NotReady => "Model not initialized".to_owned(),
            DetectionError::DetectionFailed(cause) => String::from_str("Detection failed: ").concat(
                cause.as_str(),
            ),
            DetectionError::ChannelClosed => "Channel closed".to_owned(),
        }
    }
}

/// The view of what a detect call returned.
pub open spec fn outcome_view(outcome: Result<DetectionResults, DetectionError>) -> Result<
    DetectionResultsView,
    DetectionErrorView,
> {
    match outcome {
        Ok(results) => Ok(results@),
        Err(error) => Err(error@),
    }
}

/// The view of what building a backend returned.
pub open spec fn built_view<M>(built: Result<M, DetectionError>) -> Result<
    M,
    DetectionErrorView,
> {
    match built {
        Ok(model) => Ok(model),
        Err(error) => Err(error@),
    }
}

/// A detection capability: something that is built from parameters and then
/// turns one image at a time into detections.
///
/// Neither method promises success. A backend may say in `builds` and
/// `detects` which results its two methods can give; a backend that does not
/// say so may give any. The worker's contracts speak of a backend through
/// these two relations only. `detect` may take long; the worker never calls
/// it on one instance from two places at once.
pub trait DetectionModel: Send + Sized {
    /// Whether `new` may answer `built` when it is given `parameters`.
    open spec fn builds(
        parameters: DetectionParamsView,
        built: Result<Self, DetectionErrorView>,
    ) -> bool {
        true
    }

    /// Whether `detect`, called on `before` with `image`, may leave the
    /// backend as `after` and answer `outcome`.
    open spec fn detects(
        before: Self,
        image: DynamicImage,
        after: Self,
        outcome: Result<DetectionResultsView, DetectionErrorView>,
    ) -> bool {
        true
    }

    fn detect(&mut self, image: &DynamicImage) -> (outcome: Result<
        DetectionResults,
        DetectionError,
    >)
        ensures
            Self::detects(*old(self), *image, *final(self), outcome_view(outcome)),
    ;

    fn new(parameters: &DetectionParams) -> (built: Result<Self, DetectionError>)
        ensures
            Self::builds(parameters@, built_view(built)),
    ;
}

/// The backends the worker can hold: the stand-in, or the real detector `R`.
#[derive(Debug)]
pub enum Model<R> {
    Mock(MockModel),
    GroundingDINO(R),
}

impl<R> Model<R> {
    /// The identifier this backend is selected by.
    pub open spec fn spec_model_type(&self) -> ModelType {
        match self {
            Model::Mock(_) => ModelType::Mock,
            Model::GroundingDINO(_) => ModelType::GroundingDINO,
        }
    }

    #[verifier::when_used_as_spec(spec_model_type)]
    pub fn model_type(&self) -> (model_type: ModelType)
        ensures
            model_type == self.spec_model_type(),
    {
        match self {
            Model::Mock(_) => ModelType::Mock,
            Model::GroundingDINO(_) => ModelType::GroundingDINO,
        }
    }
}

impl<R: DetectionModel> Model<R> {
    /// Whether loading the backend that `model_type` names, with
    /// `parameters`, may answer `built`. With unfit parameters the load fails
    /// and says why. Otherwise the backend of that kind was asked, and what it
    /// built is of that kind.
    pub open spec fn loads(
        model_type: ModelType,
        parameters: DetectionParamsView,
        built: Result<Self, DetectionErrorView>,
    ) -> bool {
        match parameters.fault(model_type) {
            Some(reason) => built == Err::<Self, DetectionErrorView>(
                DetectionErrorView::InitializationFailed(reason),
            ),
            None => Self::constructs(model_type, parameters, built),
        }
    }

    /// Whether the backend of kind `model_type` may answer `built` when it is
    /// asked to build itself with `parameters`.
    pub open spec fn constructs(
        model_type: ModelType,
        parameters: DetectionParamsView,
        built: Result<Self, DetectionErrorView>,
    ) -> bool {
        match model_type {
            ModelType::Mock => match built {
                Ok(Model::Mock(mock)) => MockModel::builds(parameters, Ok(mock)),
                Ok(Model::GroundingDINO(_)) => false,
                Err(error) => MockModel::builds(parameters, Err(error)),
            },
            ModelType::GroundingDINO => match built {
                Ok(Model::Mock(_)) => false,
                Ok(Model::GroundingDINO(detector)) => R::builds(parameters, Ok(detector)),
                Err(error) => R::builds(parameters, Err(error)),
            },
        }
    }

    /// Whether a detect call on `before` with `image` may leave the backend
    /// as `after` and answer `outcome`: the backend keeps its kind, and the
    /// call is the one of that kind.
    pub open spec fn detects(
        before: Self,
        image: DynamicImage,
        after: Self,
        outcome: Result<DetectionResultsView, DetectionErrorView>,
    ) -> bool {
        match (before, after) {
            (Model::Mock(b), Model::Mock(a)) => MockModel::detects(b, image, a, outcome),
            (Model::GroundingDINO(b), Model::GroundingDINO(a)) => R::detects(
                b,
                image,
                a,
                outcome,
            ),
            _ => false,
        }
    }

    /// Builds the backend that `model_type` names, unless the parameters are
    /// unfit for it. This is the work of one load; it may take long.
    pub fn load(model_type: ModelType, parameters: &DetectionParams) -> (built: Result<
        Self,
        DetectionError,
    >)
        ensures
            Self::loads(model_type, parameters@, built_view(built)),
            built matches Ok(model) ==> model.model_type() == model_type,
    {
        match parameters.check(model_type) {
            Err(error) => {
                return Err(error);
            },
            Ok(()) => {},
        }
        match model_type {
            ModelType::Mock => match MockModel::new(parameters) {
                Ok(mock) => Ok(Model::Mock(mock)),
                Err(error) => Err(error),
            },
            ModelType::GroundingDINO => match R::new(parameters) {
                Ok(detector) => Ok(Model::GroundingDINO(detector)),
                Err(error) => Err(error),
            },
        }
    }

    /// Runs the backend on `image`.
    pub fn detect(&mut self, image: &DynamicImage) -> (outcome: Result<
        DetectionResults,
        DetectionError,
    >)
        ensures
            Self::detects(*old(self), *image, *final(self), outcome_view(outcome)),
    {
        match self {
            Model::Mock(mock) => mock.detect(image),
            Model::GroundingDINO(detector) => detector.detect(image),
        }
    }
}

} // verus!

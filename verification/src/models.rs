//! Value types for detections and prediction payloads.
//!
//! A detection is one recognized object region within an image. Its
//! coordinates and its optional confidence are normalized values in the unit
//! interval; they are held as fixed-point fractions with denominator
//! [`COORD_SCALE`], so that the core carries them exactly.

use vstd::prelude::*;

verus! {

/// Denominator of the fixed-point representation of normalized values:
/// a stored coordinate `c` stands for the fraction `c / COORD_SCALE`.
pub const COORD_SCALE: u32 = 1_000_000;

/// One recognized object region ("beam") within an image.
///
/// `(xmin, ymin)` is the upper-left corner, `(xmax, ymax)` the lower-right,
/// both normalized; `conf` is the model's confidence, absent when the
/// upstream model did not report one; `class` is the producer-defined label.
#[derive(Debug)]
pub struct Beam {
    pub xmin: u32,
    pub ymin: u32,
    pub xmax: u32,
    pub ymax: u32,
    pub conf: Option<u32>,
    pub class: String,
}

/// Mathematical value of a [`Beam`].
#[verifier::ext_equal]
pub ghost struct BeamModel {
    pub xmin: int,
    pub ymin: int,
    pub xmax: int,
    pub ymax: int,
    pub conf: Option<int>,
    pub class: Seq<char>,
}

impl View for Beam {
    type V = BeamModel;

    open spec fn view(&self) -> BeamModel {
        BeamModel {
            xmin: self.xmin as int,
            ymin: self.ymin as int,
            xmax: self.xmax as int,
            ymax: self.ymax as int,
            conf: match self.conf {
                Some(c) => Some(c as int),
                None => None,
            },
            class: self.class@,
        }
    }
}

impl DeepView for Beam {
    type V = BeamModel;

    open spec fn deep_view(&self) -> BeamModel {
        self.view()
    }
}

impl BeamModel {
    /// A well-formed detection: coordinates and confidence are normalized
    /// (within `[0, COORD_SCALE]`), the upper-left corner is not below or to
    /// the right of the lower-right corner.
    pub open spec fn wf(self) -> bool {
        &&& 0 <= self.xmin <= self.xmax <= COORD_SCALE
        &&& 0 <= self.ymin <= self.ymax <= COORD_SCALE
        &&& match self.conf {
            Some(c) => 0 <= c <= COORD_SCALE,
            None => true,
        }
    }
}

impl Beam {
    /// Whether the detection is well-formed; the upstream model does not
    /// guarantee this, so callers that need the invariant check it here.
    pub fn well_formed(&self) -> (r: bool)
        ensures
            r == self@.wf(),
    {
        let coords_ok = self.xmin <= self.xmax && self.xmax <= COORD_SCALE && self.ymin
            <= self.ymax && self.ymax <= COORD_SCALE;
        let conf_ok = match self.conf {
            Some(c) => c <= COORD_SCALE,
            None => true,
        };
        coords_ok && conf_ok
    }
}

impl Clone for Beam {
    fn clone(&self) -> (r: Self)
        ensures
            r@ == self@,
    {
        Beam {
            xmin: self.xmin,
            ymin: self.ymin,
            xmax: self.xmax,
            ymax: self.ymax,
            conf: self.conf,
            class: self.class.clone(),
        }
    }
}

/// Copies a detection list; the copy denotes the same sequence of values.
pub fn clone_beams(v: &Vec<Beam>) -> (r: Vec<Beam>)
    ensures
        r.deep_view() == v.deep_view(),
{
    let mut r: Vec<Beam> = Vec::new();
    let n: usize = v.len();
    for idx in 0..n
        invariant
            n == v.len(),
            r.len() == idx,
            forall|j: int| 0 <= j < idx ==> r.deep_view()[j] == v.deep_view()[j],
    {
        r.push(v[idx].clone());
    }
    proof {
        assert(r.deep_view() =~= v.deep_view());
    }
    r
}

/// The payload answered by an ingestion request, and the body of a correction
/// request: a detection list together with the record identifier it belongs
/// to.
#[derive(Debug)]
pub struct PredictionUpload {
    pub data: Vec<Beam>,
    pub uuid: String,
}

/// Mathematical value of a [`PredictionUpload`].
#[verifier::ext_equal]
pub ghost struct UploadModel {
    pub data: Seq<BeamModel>,
    pub uuid: Seq<char>,
}

impl View for PredictionUpload {
    type V = UploadModel;

    open spec fn view(&self) -> UploadModel {
        UploadModel { data: self.data.deep_view(), uuid: self.uuid@ }
    }
}

/// The durable artifact of one ingestion.
///
/// `detections` is exactly the sequence the inference service returned, in
/// its order; `image_ref` is the content-derived key the original bytes are
/// archived under; `correction` is absent until a correction call succeeds.
#[derive(Debug)]
pub struct PredictionRecord {
    pub id: String,
    pub detections: Vec<Beam>,
    pub image_ref: Option<String>,
    pub correction: Option<Vec<Beam>>,
}

/// Mathematical value of a [`PredictionRecord`].
#[verifier::ext_equal]
pub ghost struct RecordModel {
    pub id: Seq<char>,
    pub detections: Seq<BeamModel>,
    pub image_ref: Option<Seq<char>>,
    pub correction: Option<Seq<BeamModel>>,
}

impl View for PredictionRecord {
    type V = RecordModel;

    open spec fn view(&self) -> RecordModel {
        RecordModel {
            id: self.id@,
            detections: self.detections.deep_view(),
            image_ref: match self.image_ref {
                Some(ref s) => Some(s@),
                None => None,
            },
            correction: match self.correction {
                Some(ref v) => Some(v.deep_view()),
                None => None,
            },
        }
    }
}

impl DeepView for PredictionRecord {
    type V = RecordModel;

    open spec fn deep_view(&self) -> RecordModel {
        self.view()
    }
}

impl Clone for PredictionRecord {
    fn clone(&self) -> (r: Self)
        ensures
            r@ == self@,
    {
        let detections = clone_beams(&self.detections);
        let image_ref = match self.image_ref {
            Some(ref s) => Some(s.clone()),
            None => None,
        };
        let correction = match self.correction {
            Some(ref v) => Some(clone_beams(v)),
            None => None,
        };
        PredictionRecord { id: self.id.clone(), detections, image_ref, correction }
    }
}

} // verus!

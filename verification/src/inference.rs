//! The inference client seen from the verified core.
//!
//! The real client posts the image bytes as a multipart upload to the
//! detection service and decodes the JSON reply; that round trip is outbound
//! input/output and lives outside the core. What the core needs is the shape
//! of the exchange: each call consumes one reply, which is either a detection
//! list or a typed failure. [`ScriptedInference`] is that shape made
//! explicit — a client whose replies are laid down in advance — so the
//! workflows can be verified against every possible reply and tests can
//! assert how many calls were made (by how much of the script was consumed).

use vstd::prelude::*;
use crate::models::Beam;
use crate::models::BeamModel;

verus! {

/// Why an inference call produced no detections: the service was unreachable
/// (network failure or timeout), answered with a non-2xx status, or answered
/// with a body that does not decode as a detection list.
#[derive(Clone, Copy, PartialEq, Eq, Structural, Debug)]
pub enum InferenceError {
    Unreachable,
    Status { code: u16 },
    Undecodable,
}

/// Mathematical value of one reply.
pub open spec fn reply_model(r: Result<Vec<Beam>, InferenceError>) -> Result<
    Seq<BeamModel>,
    InferenceError,
> {
    match r {
        Ok(v) => Ok(v.deep_view()),
        Err(e) => Err(e),
    }
}

/// Mathematical value of a reply script.
pub open spec fn replies_model(rs: Seq<Result<Vec<Beam>, InferenceError>>) -> Seq<
    Result<Seq<BeamModel>, InferenceError>,
> {
    rs.map_values(|r: Result<Vec<Beam>, InferenceError>| reply_model(r))
}

/// An inference client whose replies are scripted: the detection service as a
/// test collaborator.
pub struct ScriptedInference {
    pub replies: Vec<Result<Vec<Beam>, InferenceError>>,
}

impl View for ScriptedInference {
    type V = Seq<Result<Seq<BeamModel>, InferenceError>>;

    open spec fn view(&self) -> Seq<Result<Seq<BeamModel>, InferenceError>> {
        replies_model(self.replies@)
    }
}

/// Transition of one inference call: the first scripted reply is consumed
/// and returned; once the script is exhausted the service behaves as
/// unreachable.
pub open spec fn predict_spec(replies: Seq<Result<Seq<BeamModel>, InferenceError>>) -> (
    Seq<Result<Seq<BeamModel>, InferenceError>>,
    Result<Seq<BeamModel>, InferenceError>,
) {
    if replies.len() == 0 {
        (replies, Err(InferenceError::Unreachable))
    } else {
        (replies.drop_first(), replies.first())
    }
}

impl ScriptedInference {
    /// A client that will answer with `replies`, in order.
    pub fn new(replies: Vec<Result<Vec<Beam>, InferenceError>>) -> (r: Self)
        ensures
            r@ == replies_model(replies@),
    {
        ScriptedInference { replies }
    }

    /// One inference call on the image bytes: consumes and returns the next
    /// scripted reply.
    pub fn predict(&mut self, _image: &Vec<u8>) -> (r: Result<Vec<Beam>, InferenceError>)
        ensures
            final(self)@ == predict_spec(old(self)@).0,
            reply_model(r) == predict_spec(old(self)@).1,
    {
        if self.replies.len() == 0 {
            Err(InferenceError::Unreachable)
        } else {
            let r = self.replies.remove(0);
            proof {
                assert(self@ =~= old(self)@.drop_first());
            }
            r
        }
    }
}

} // verus!

use vstd::prelude::*;

use crate::model::model_token;
use crate::model::ModelType;

verus! {

/// The fixed tag naming the wire-format revision sent in a version 3 payload.
pub open spec fn spec_model_ver() -> Seq<char> {
    "35s5hfwn9n78gb06"@
}

/// The wire-format revision tag, as sent in a version 3 payload.
pub fn model_ver() -> (r: &'static str)
    ensures
        r@ == spec_model_ver(),
{
    "35s5hfwn9n78gb06"
}

/// The base URL that image references are resolved against.
pub open spec fn spec_url_image() -> Seq<char> {
    "https://img.craiyon.com"@
}

/// The base URL for image retrieval.
pub fn url_image() -> (r: &'static str)
    ensures
        r@ == spec_url_image(),
{
    "https://img.craiyon.com"
}

/// A versioned request payload.
///
/// The version 1 shape still exists on the wire but the service no longer
/// accepts it: no constructor of this crate builds it, and selecting
/// version 1 fails a generation call deterministically.
#[derive(Debug, Clone)]
pub enum CraiyonRequest {
    V1 {
        prompt: Option<String>,
    },
    V3 {
        prompt: Option<String>,
        negative_prompt: Option<String>,
        model: Option<String>,
        version: Option<String>,
        token: Option<String>,
    },
}

/// Whether `req` is the version 3 payload carrying exactly this prompt,
/// negative prompt, model variant token, revision tag and auth token.
pub open spec fn is_v3_payload(
    req: CraiyonRequest,
    prompt: Seq<char>,
    negative_prompt: Seq<char>,
    mt: ModelType,
    token: Option<String>,
) -> bool {
    match req {
        CraiyonRequest::V3 { prompt: p, negative_prompt: np, model: m, version: v, token: t } => {
            &&& (match p {
                Some(s) => s@ == prompt,
                None => false,
            })
            &&& (match np {
                Some(s) => s@ == negative_prompt,
                None => false,
            })
            &&& (match m {
                Some(s) => s@ == model_token(mt),
                None => false,
            })
            &&& (match v {
                Some(s) => s@ == spec_model_ver(),
                None => false,
            })
            &&& (match (t, token) {
                (Some(a), Some(b)) => a@ == b@,
                (None, None) => true,
                _ => false,
            })
        },
        _ => false,
    }
}

/// The response envelope: an ordered list of opaque image references.
#[derive(Debug, Clone)]
pub struct CraiyonResponse {
    pub images: Vec<String>,
}

} // verus!

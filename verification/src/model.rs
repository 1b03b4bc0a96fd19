use vstd::prelude::*;

use crate::api::Api;

verus! {

/// The style buckets that the service can be asked to generate in.
#[derive(Debug, Clone, Copy, PartialEq, Eq, Structural)]
pub enum ModelType {
    Art,
    Drawing,
    Photo,
    General,
}

/// The wire-format token that each model variant is sent as.
pub open spec fn model_token(m: ModelType) -> Seq<char> {
    match m {
        ModelType::Art => "art"@,
        ModelType::Drawing => "drawing"@,
        ModelType::Photo => "photo"@,
        ModelType::General => "none"@,
    }
}

impl ModelType {
    /// The string form of this variant, as embedded in a request payload.
    pub fn as_str(&self) -> (r: &'static str)
        ensures
            r@ == model_token(*self),
    {
        match self {
            ModelType::Art => "art",
            ModelType::Drawing => "drawing",
            ModelType::Photo => "photo",
            ModelType::General => "none",
        }
    }
}

impl Default for ModelType {
    fn default() -> (r: Self)
        ensures
            r == ModelType::General,
    {
        ModelType::General
    }
}

/// The token of each variant is its own: the mapping loses nothing.
pub proof fn lemma_model_token_injective(a: ModelType, b: ModelType)
    ensures
        model_token(a) == model_token(b) ==> a == b,
{
    reveal_strlit("art");
    reveal_strlit("drawing");
    reveal_strlit("photo");
    reveal_strlit("none");
    assert("art"@.len() == 3);
    assert("drawing"@.len() == 7);
    assert("photo"@.len() == 5);
    assert("none"@.len() == 4);
}

/// The immutable client configuration: model variant, protocol version,
/// and an optional authorization token, built fluently.
#[derive(Debug, Clone, PartialEq, Eq)]
pub struct Model {
    pub model: ModelType,
    pub version: Api,
    pub api_token: Option<String>,
}

impl Default for Model {
    fn default() -> (r: Self)
        ensures
            r.model == ModelType::General,
            r.version == Api::V3,
            r.api_token is None,
    {
        Model { model: ModelType::General, version: Api::V3, api_token: None }
    }
}

impl Model {
    /// A configuration with every option at its default.
    pub fn new() -> (r: Self)
        ensures
            r.model == ModelType::General,
            r.version == Api::V3,
            r.api_token is None,
    {
        Model::default()
    }

    /// The same configuration with the protocol version replaced.
    pub fn version(self, ver: Api) -> (r: Self)
        ensures
            r.version == ver,
            r.model == self.model,
            r.api_token == self.api_token,
    {
        Model { version: ver, ..self }
    }

    /// The same configuration with the authorization token replaced.
    pub fn api_token(self, api_token: Option<String>) -> (r: Self)
        ensures
            r.api_token == api_token,
            r.model == self.model,
            r.version == self.version,
    {
        Model { api_token, ..self }
    }

    /// The same configuration with the model variant replaced.
    pub fn model_type(self, mod_type: ModelType) -> (r: Self)
        ensures
            r.model == mod_type,
            r.version == self.version,
            r.api_token == self.api_token,
    {
        Model { model: mod_type, ..self }
    }

    /// A configuration from a model variant and a protocol version,
    /// with no authorization token.
    pub fn from(model: ModelType, version: Api) -> (r: Self)
        ensures
            r.model == model,
            r.version == version,
            r.api_token is None,
    {
        Model { model, version, api_token: None }
    }
}

} // verus!

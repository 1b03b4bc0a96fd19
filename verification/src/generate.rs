use vstd::prelude::*;
use vstd::string::StringExecFns;

use crate::api::api_endpoint;
use crate::api::Api;
use crate::error::GenerateError;
use crate::model::Model;
use crate::request::is_v3_payload;
use crate::request::model_ver;
use crate::request::spec_url_image;
use crate::request::url_image;
use crate::request::CraiyonRequest;
use crate::request::CraiyonResponse;

verus! {

/// The service accepts between one and nine images per request.
pub open spec fn valid_count(n: usize) -> bool {
    1 <= n <= 9
}

/// The URL that one image reference resolves to.
pub open spec fn image_url(image_ref: Seq<char>) -> Seq<char> {
    spec_url_image() + "/"@ + image_ref
}

/// The URLs a session fetches for a response: the first `n` references
/// (or all of them, if fewer came back), each resolved against the image
/// base URL, in response order.
pub open spec fn planned_urls(refs: Seq<Seq<char>>, n: int) -> Seq<Seq<char>> {
    refs.take(if n <= refs.len() { n } else { refs.len() as int }).map_values(
        |r: Seq<char>| image_url(r),
    )
}

/// What a generation call returns on every input: the count is checked
/// first, then the protocol version, and only a version 3 configuration
/// yields a payload — an exact version 3 payload, aimed at the version 3
/// endpoint, remembering the requested count.
pub open spec fn plan_result(
    m: Model,
    prompt: Seq<char>,
    negative_prompt: Seq<char>,
    num_images: usize,
    r: Result<PendingRequest, GenerateError>,
) -> bool {
    if !valid_count(num_images) {
        r == Err::<PendingRequest, GenerateError>(GenerateError::InvalidArgument)
    } else if m.version == Api::V1 {
        r == Err::<PendingRequest, GenerateError>(GenerateError::UnsupportedProtocolVersion)
    } else {
        match r {
            Ok(p) => {
                &&& p.endpoint@ == api_endpoint(Api::V3)
                &&& p.num_images == num_images
                &&& is_v3_payload(p.request, prompt, negative_prompt, m.model, m.api_token)
            },
            Err(_) => false,
        }
    }
}

/// A validated request, ready to send.
///
/// The caller sends `request` to `endpoint`. On a parsed response it hands
/// the reference list to [`PendingRequest::on_response`]; on a transport or
/// body-decode failure it reports [`GenerateError::NetworkError`] or
/// [`GenerateError::DecodeError`] itself and drops this value.
#[derive(Debug, Clone)]
pub struct PendingRequest {
    pub endpoint: String,
    pub request: CraiyonRequest,
    pub num_images: usize,
}

impl Model {
    /// Validate a generation call and build its request payload.
    ///
    /// A count outside the per-request cap fails with `InvalidArgument`
    /// before anything else; protocol version 1 fails with
    /// `UnsupportedProtocolVersion`; neither produces a request to send.
    pub fn begin_generate(&self, prompt: &str, negative_prompt: &str, num_images: usize) -> (r:
        Result<PendingRequest, GenerateError>)
        ensures
            plan_result(*self, prompt@, negative_prompt@, num_images, r),
    {
        if num_images < 1 || num_images > 9 {
            return Err(GenerateError::InvalidArgument);
        }
        match self.version {
            Api::V1 => Err(GenerateError::UnsupportedProtocolVersion),
            Api::V3 => {
                let token: Option<String> = match &self.api_token {
                    Some(t) => Some(t.clone()),
                    None => None,
                };
                let request = CraiyonRequest::V3 {
                    prompt: Some(prompt.to_owned()),
                    negative_prompt: Some(negative_prompt.to_owned()),
                    model: Some(self.model.as_str().to_owned()),
                    version: Some(model_ver().to_owned()),
                    token,
                };
                Ok(
                    PendingRequest {
                        endpoint: self.version.as_str().to_owned(),
                        request,
                        num_images,
                    },
                )
            },
        }
    }

    /// The convenience form: a generation call with an empty negative
    /// prompt, otherwise identical to [`Model::begin_generate`].
    pub fn begin_generate_from_prompt(&self, prompt: &str, num_images: usize) -> (r: Result<
        PendingRequest,
        GenerateError,
    >)
        ensures
            plan_result(*self, prompt@, ""@, num_images, r),
    {
        self.begin_generate(prompt, "", num_images)
    }
}

impl PendingRequest {
    /// Consume the parsed response envelope: keep the first `num_images`
    /// references, resolve each into an image URL, and open the fetch
    /// session that collects the decoded images in order.
    pub fn on_response(self, res: CraiyonResponse) -> (r: FetchSession)
        ensures
            r.urls_view() == planned_urls(res.images.deep_view(), self.num_images as int),
            r.fetched() == 0,
            r.well_formed(),
    {
        let refs = res.images;
        let n: usize = if self.num_images <= refs.len() {
            self.num_images
        } else {
            refs.len()
        };
        let mut urls: Vec<String> = Vec::new();
        let mut i: usize = 0;
        while i < n
            invariant
                i <= n,
                n <= refs@.len(),
                self.num_images as int <= refs@.len() ==> n == self.num_images as int,
                refs@.len() < self.num_images as int ==> n == refs@.len(),
                urls@.len() == i,
                forall|j: int| 0 <= j < i ==> urls@[j]@ == image_url(refs.deep_view()[j]),
            decreases n - i,
        {
            let mut u: String = url_image().to_owned();
            u.append("/");
            u.append(refs[i].as_str());
            urls.push(u);
            i += 1;
        }
        let session = FetchSession { urls, images: Vec::new() };
        proof {
            assert(session.urls_view() =~~= planned_urls(
                refs.deep_view(),
                self.num_images as int,
            ));
        }
        session
    }
}

/// Declares image::DynamicImage, the decoded raster image handed back to
/// the caller. The crate carries such values without reading into them.
#[verifier::external_type_specification]
#[verifier::external_body]
pub struct ExDynamicImage(image::DynamicImage);

/// Relies on image::load_from_memory: decodes a byte slice as a raster
/// image, guessing the format from the bytes. Its outcome is not a
/// function of the bytes alone — the host process may register format
/// hooks that change which byte bodies decode — so nothing is promised
/// of it; the caller states what holds of either outcome.
#[verifier::external_body]
fn decode_image(bytes: &[u8]) -> (r: Option<image::DynamicImage>) {
    image::load_from_memory(bytes).ok()
}

/// One generation call's image-fetch phase.
///
/// The session hands out its URLs in order, one per image: the caller
/// fetches the bytes behind [`FetchSession::next_url`] and returns them
/// through [`FetchSession::accept_bytes`]. A fetch failure is the
/// caller's to report as [`GenerateError::NetworkError`], dropping the
/// session; a decode failure consumes the session, so a failed call
/// yields no partial list.
#[derive(Debug)]
pub struct FetchSession {
    urls: Vec<String>,
    images: Vec<image::DynamicImage>,
}

impl FetchSession {
    /// The URLs this session fetches, in order.
    pub closed spec fn urls_view(&self) -> Seq<Seq<char>> {
        self.urls.deep_view()
    }

    /// The images accepted so far, in acceptance order.
    pub closed spec fn images_seq(&self) -> Seq<image::DynamicImage> {
        self.images@
    }

    /// How many images have been decoded and accepted so far.
    pub open spec fn fetched(&self) -> nat {
        self.images_seq().len()
    }

    /// No more images are ever held than URLs remain to be fetched.
    pub closed spec fn well_formed(&self) -> bool {
        self.images@.len() <= self.urls@.len()
    }

    /// The next URL to fetch, or `None` once every reference has been
    /// resolved into an image.
    pub fn next_url(&self) -> (r: Option<&String>)
        requires
            self.well_formed(),
        ensures
            match r {
                Some(u) => self.fetched() < self.urls_view().len() && u@ == self.urls_view()[
                    self.fetched() as int
                ],
                None => self.fetched() == self.urls_view().len(),
            },
    {
        if self.images.len() < self.urls.len() {
            Some(&self.urls[self.images.len()])
        } else {
            None
        }
    }

    /// Accept the bytes fetched for the next URL: decode them and append
    /// the image. Bytes that the decoder does not accept fail the whole
    /// call with `DecodeError`, and the images collected so far go down
    /// with the session.
    pub fn accept_bytes(self, bytes: &[u8]) -> (r: Result<FetchSession, GenerateError>)
        requires
            self.well_formed(),
            self.fetched() < self.urls_view().len(),
        ensures
            match r {
                Ok(s) => {
                    &&& s.urls_view() == self.urls_view()
                    &&& s.fetched() == self.fetched() + 1
                    &&& forall|j: int|
                        0 <= j < self.fetched() ==> s.images_seq()[j] == self.images_seq()[j]
                    &&& s.well_formed()
                },
                Err(e) => e == GenerateError::DecodeError,
            },
    {
        match decode_image(bytes) {
            Some(img) => {
                let mut images = self.images;
                images.push(img);
                Ok(FetchSession { urls: self.urls, images })
            },
            None => Err(GenerateError::DecodeError),
        }
    }

    /// The decoded images, in reference order, once every URL has been
    /// fetched: exactly as many images as URLs, never more than were
    /// requested or returned.
    pub fn into_images(self) -> (r: Vec<image::DynamicImage>)
        requires
            self.fetched() == self.urls_view().len(),
        ensures
            r@ == self.images_seq(),
            r@.len() == self.urls_view().len(),
    {
        self.images
    }
}

/// When the service returns exactly as many references as requested, all
/// of them are fetched, each at its own URL, in response order.
pub proof fn lemma_exact_count(refs: Seq<Seq<char>>, n: int)
    requires
        1 <= n <= 9,
        refs.len() == n,
    ensures
        planned_urls(refs, n).len() == n,
        forall|i: int| 0 <= i < n ==> planned_urls(refs, n)[i] == image_url(refs[i]),
{
}

/// When the service returns fewer references than requested, every
/// returned reference is still fetched, in order: the shortfall is no
/// error.
pub proof fn lemma_fewer_references(refs: Seq<Seq<char>>, n: int)
    requires
        1 <= n <= 9,
        refs.len() < n,
    ensures
        planned_urls(refs, n).len() == refs.len(),
        forall|i: int| 0 <= i < refs.len() ==> planned_urls(refs, n)[i] == image_url(refs[i]),
{
}

/// The whole call, when the service returns exactly as many references
/// as requested: a version 3 configuration with a count within the cap
/// builds a request rather than failing, the session fetches one URL per
/// reference in response order, and once each URL's bytes have been
/// accepted the completed session holds exactly the requested number of
/// images.
pub proof fn lemma_generate_exact_count(
    m: Model,
    prompt: Seq<char>,
    negative_prompt: Seq<char>,
    n: usize,
    r: Result<PendingRequest, GenerateError>,
    refs: Seq<Seq<char>>,
    s: FetchSession,
)
    requires
        m.version == Api::V3,
        valid_count(n),
        plan_result(m, prompt, negative_prompt, n, r),
        refs.len() == n,
        s.urls_view() == planned_urls(refs, n as int),
        s.fetched() == s.urls_view().len(),
    ensures
        r is Ok,
        s.urls_view().len() == n,
        forall|i: int| 0 <= i < n ==> s.urls_view()[i] == image_url(refs[i]),
        s.fetched() == n,
        s.images_seq().len() == n,
{
    lemma_exact_count(refs, n as int);
}

/// The whole call, when the service returns fewer references than
/// requested: the call still builds a request, every returned reference
/// is fetched in order, and the completed session holds exactly as many
/// images as the service returned — the shortfall is no error.
pub proof fn lemma_generate_with_shortfall(
    m: Model,
    prompt: Seq<char>,
    negative_prompt: Seq<char>,
    n: usize,
    r: Result<PendingRequest, GenerateError>,
    refs: Seq<Seq<char>>,
    s: FetchSession,
)
    requires
        m.version == Api::V3,
        valid_count(n),
        plan_result(m, prompt, negative_prompt, n, r),
        refs.len() < n,
        s.urls_view() == planned_urls(refs, n as int),
        s.fetched() == s.urls_view().len(),
    ensures
        r is Ok,
        s.urls_view().len() == refs.len(),
        forall|i: int| 0 <= i < refs.len() ==> s.urls_view()[i] == image_url(refs[i]),
        s.fetched() == refs.len(),
        s.images_seq().len() == refs.len(),
{
    lemma_fewer_references(refs, n as int);
}

/// A session never fetches more images than were requested, nor more
/// than the service returned.
pub proof fn lemma_count_bound(refs: Seq<Seq<char>>, n: int)
    requires
        0 <= n,
    ensures
        planned_urls(refs, n).len() <= n,
        planned_urls(refs, n).len() <= refs.len(),
{
}

} // verus!


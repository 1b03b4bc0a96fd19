use craiyon::api::Api;
use craiyon::error::GenerateError;
use craiyon::generate::FetchSession;
use craiyon::model::Model;
use craiyon::model::ModelType;
use craiyon::request::CraiyonRequest;
use craiyon::request::CraiyonResponse;

fn png_bytes() -> Vec<u8> {
    let img = image::DynamicImage::new_rgb8(1, 1);
    let mut cursor = std::io::Cursor::new(Vec::new());
    img.write_to(&mut cursor, image::ImageFormat::Png).unwrap();
    cursor.into_inner()
}

fn refs(names: &[&str]) -> CraiyonResponse {
    CraiyonResponse { images: names.iter().map(|n| n.to_string()).collect() }
}

fn run_to_end(mut session: FetchSession) -> Result<Vec<image::DynamicImage>, GenerateError> {
    while session.next_url().is_some() {
        let bytes = png_bytes();
        session = session.accept_bytes(&bytes)?;
    }
    Ok(session.into_images())
}

#[test]
fn exact_count_returns_all_images() {
    for count in 1..=9usize {
        let m = Model::new();
        let pending = m.begin_generate("a prompt", "", count).unwrap();
        let names: Vec<String> = (0..count).map(|i| format!("img{}", i)).collect();
        let name_refs: Vec<&str> = names.iter().map(|s| s.as_str()).collect();
        let session = pending.on_response(refs(&name_refs));
        let images = run_to_end(session).unwrap();
        assert_eq!(images.len(), count);
    }
}

#[test]
fn urls_preserve_reference_order() {
    let m = Model::new();
    let pending = m.begin_generate("a prompt", "", 3).unwrap();
    let mut session = pending.on_response(refs(&["one", "two", "three"]));
    let mut seen = Vec::new();
    while let Some(url) = session.next_url() {
        seen.push(url.clone());
        let bytes = png_bytes();
        session = session.accept_bytes(&bytes).unwrap();
    }
    assert_eq!(
        seen,
        vec![
            "https://img.craiyon.com/one".to_string(),
            "https://img.craiyon.com/two".to_string(),
            "https://img.craiyon.com/three".to_string(),
        ]
    );
}

#[test]
fn fewer_references_is_not_an_error() {
    let m = Model::new();
    let pending = m.begin_generate("a prompt", "", 5).unwrap();
    let session = pending.on_response(refs(&["a", "b", "c"]));
    let images = run_to_end(session).unwrap();
    assert_eq!(images.len(), 3);
}

#[test]
fn extra_references_are_truncated() {
    let m = Model::new();
    let pending = m.begin_generate("a prompt", "", 2).unwrap();
    let session = pending.on_response(refs(&["a", "b", "c", "d"]));
    let images = run_to_end(session).unwrap();
    assert_eq!(images.len(), 2);
}

#[test]
fn count_zero_is_invalid() {
    let m = Model::new();
    assert_eq!(m.begin_generate("p", "n", 0).unwrap_err(), GenerateError::InvalidArgument);
}

#[test]
fn count_above_cap_is_invalid() {
    let m = Model::new();
    assert_eq!(m.begin_generate("p", "n", 10).unwrap_err(), GenerateError::InvalidArgument);
    assert_eq!(m.begin_generate("p", "n", 100).unwrap_err(), GenerateError::InvalidArgument);
    assert_eq!(m.begin_generate_from_prompt("p", 10).unwrap_err(), GenerateError::InvalidArgument);
}

#[test]
fn v1_is_unsupported() {
    let m = Model::new().version(Api::V1);
    assert_eq!(m.begin_generate("p", "n", 1).unwrap_err(), GenerateError::UnsupportedProtocolVersion);
    assert_eq!(m.begin_generate("other", "", 9).unwrap_err(), GenerateError::UnsupportedProtocolVersion);
    assert_eq!(
        m.begin_generate_from_prompt("p", 5).unwrap_err(),
        GenerateError::UnsupportedProtocolVersion
    );
}

#[test]
fn count_check_precedes_version_check() {
    let m = Model::new().version(Api::V1);
    assert_eq!(m.begin_generate("p", "n", 0).unwrap_err(), GenerateError::InvalidArgument);
}

#[test]
fn failed_decode_aborts_whole_call() {
    let m = Model::new();
    let pending = m.begin_generate("a prompt", "", 3).unwrap();
    let mut session = pending.on_response(refs(&["a", "b", "c"]));
    assert!(session.next_url().is_some());
    let good = png_bytes();
    session = session.accept_bytes(&good).unwrap();
    let garbage = vec![0u8, 1, 2, 3, 4, 5];
    let result = session.accept_bytes(&garbage);
    match result {
        Err(e) => assert_eq!(e, GenerateError::DecodeError),
        Ok(_) => panic!("undecodable bytes must fail the call"),
    }
}

#[test]
fn v3_payload_carries_every_field() {
    let m = Model::from(ModelType::Art, Api::V3).api_token(Some("example-token".to_string()));
    let pending = m.begin_generate("sunrise", "rain", 4).unwrap();
    assert_eq!(pending.endpoint, "https://api.craiyon.com/v3");
    assert_eq!(pending.num_images, 4);
    match pending.request {
        CraiyonRequest::V3 { prompt, negative_prompt, model, version, token } => {
            assert_eq!(prompt, Some("sunrise".to_string()));
            assert_eq!(negative_prompt, Some("rain".to_string()));
            assert_eq!(model, Some("art".to_string()));
            assert_eq!(version, Some(craiyon::request::model_ver().to_string()));
            assert_eq!(token, Some("example-token".to_string()));
        },
        CraiyonRequest::V1 { .. } => panic!("a version 3 configuration must build a V3 payload"),
    }
}

#[test]
fn end_to_end_photo_two_of_three() {
    let m = Model::from(ModelType::Photo, Api::V3);
    let pending = m.begin_generate_from_prompt("a red fox", 2).unwrap();
    match &pending.request {
        CraiyonRequest::V3 { prompt, negative_prompt, model, token, .. } => {
            assert_eq!(prompt.as_deref(), Some("a red fox"));
            assert_eq!(negative_prompt.as_deref(), Some(""));
            assert_eq!(model.as_deref(), Some("photo"));
            assert!(token.is_none());
        },
        CraiyonRequest::V1 { .. } => panic!("a version 3 configuration must build a V3 payload"),
    }
    let mut session = pending.on_response(refs(&["abc123", "def456", "ghi789"]));
    assert_eq!(session.next_url().unwrap().as_str(), "https://img.craiyon.com/abc123");
    let bytes = png_bytes();
    session = session.accept_bytes(&bytes).unwrap();
    assert_eq!(session.next_url().unwrap().as_str(), "https://img.craiyon.com/def456");
    let bytes = png_bytes();
    session = session.accept_bytes(&bytes).unwrap();
    assert!(session.next_url().is_none());
    let images = session.into_images();
    assert_eq!(images.len(), 2);
}

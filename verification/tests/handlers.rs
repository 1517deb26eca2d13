//! Envelope handling and error mapping: outcome classification, response
//! rendering, and the fixed-shape JSON error body.

use msr_api_rs::dto::{ApiResp, SongData, SongResp};
use msr_api_rs::error::AppError;
use msr_api_rs::web::{interpret_outcome, render_response, require_keyword, UpstreamOutcome};

fn sample_song() -> SongData {
    SongData {
        id: "125042".to_string(),
        name: "Test".to_string(),
        album_id: "1".to_string(),
        source_url: None,
        lyric_url: None,
        mv_url: None,
        mv_cover_url: None,
        artists: vec!["X".to_string()],
    }
}

#[test]
fn success_envelope_passes_through_unchanged() {
    let env: SongResp = ApiResp { code: 0, msg: String::new(), data: sample_song() };
    let outcome = UpstreamOutcome::Completed { status: 200, body: Some(env) };
    let r = interpret_outcome(outcome);
    let (status, rendered) = render_response(r);
    assert_eq!(status, 200);
    match rendered {
        Ok(env) => {
            assert_eq!(env.code, 0);
            assert_eq!(env.msg, "");
            assert_eq!(env.data.id, "125042");
            assert_eq!(env.data.name, "Test");
            assert_eq!(env.data.album_id, "1");
            assert_eq!(env.data.artists, vec!["X".to_string()]);
        }
        Err(_) => panic!("a success status with a decoded body must pass through"),
    }
}

#[test]
fn non_success_status_maps_to_bad_gateway() {
    for status in [100u16, 199, 300, 400, 404, 500, 503] {
        let outcome: UpstreamOutcome<SongResp> =
            UpstreamOutcome::Completed { status, body: None };
        let r = interpret_outcome(outcome);
        let (code, rendered) = render_response(r);
        assert_eq!(code, 502);
        match rendered {
            Err(body) => {
                assert_eq!(body, "{\"error\":\"remote service unavailable\",\"code\":502}")
            }
            Ok(_) => panic!("a non-success status must be an error"),
        }
    }
}

#[test]
fn timeout_maps_to_request_timeout() {
    let outcome: UpstreamOutcome<SongResp> = UpstreamOutcome::TimedOut;
    let r = interpret_outcome(outcome);
    let (code, rendered) = render_response(r);
    assert_eq!(code, 408);
    match rendered {
        Err(body) => assert_eq!(body, "{\"error\":\"request timed out\",\"code\":408}"),
        Ok(_) => panic!("a timeout must be an error"),
    }
}

#[test]
fn transport_failure_maps_to_bad_gateway() {
    let outcome: UpstreamOutcome<SongResp> = UpstreamOutcome::TransportFailed;
    let r = interpret_outcome(outcome);
    assert!(matches!(r, Err(AppError::RemoteUnavailable)));
}

#[test]
fn undecodable_success_body_is_a_decode_failure() {
    let outcome: UpstreamOutcome<SongResp> = UpstreamOutcome::Completed { status: 200, body: None };
    let r = interpret_outcome(outcome);
    assert!(matches!(r, Err(AppError::DecodeFailure)));
    let (code, rendered) = render_response(r);
    assert_eq!(code, 502);
    match rendered {
        Err(body) => assert_eq!(body, "{\"error\":\"invalid upstream response\",\"code\":502}"),
        Ok(_) => panic!("an undecodable body must be an error"),
    }
}

#[test]
fn missing_keyword_is_a_client_error() {
    let r: Result<String, AppError> = require_keyword(None);
    match r {
        Err(e) => {
            assert_eq!(e.status_code(), 400);
            let (code, body) = e.into_response();
            assert_eq!(code, 400);
            assert_eq!(body, "{\"error\":\"keyword is required\",\"code\":400}");
        }
        Ok(_) => panic!("a missing keyword must be rejected"),
    }
}

#[test]
fn present_keyword_is_accepted() {
    let r = require_keyword(Some("au".to_string()));
    assert_eq!(r.unwrap(), "au");
}

#[test]
fn error_statuses_follow_the_taxonomy() {
    assert_eq!(AppError::RemoteTimeout.status_code(), 408);
    assert_eq!(AppError::RemoteUnavailable.status_code(), 502);
    assert_eq!(AppError::DecodeFailure.status_code(), 502);
    assert_eq!(AppError::BadRequest("m".to_string()).status_code(), 400);
    assert_eq!(AppError::NotFound.status_code(), 404);
    assert_eq!(AppError::Internal("m".to_string()).status_code(), 500);
    assert_eq!(AppError::Config("m".to_string()).status_code(), 500);
}

#[test]
fn error_bodies_have_the_fixed_shape() {
    assert_eq!(
        AppError::NotFound.body(),
        "{\"error\":\"resource not found\",\"code\":404}"
    );
    assert_eq!(
        AppError::Internal("detail".to_string()).body(),
        "{\"error\":\"internal server error\",\"code\":500}"
    );
    assert_eq!(
        AppError::Config("detail".to_string()).body(),
        "{\"error\":\"configuration error\",\"code\":500}"
    );
}

#[test]
fn bad_request_message_is_json_escaped() {
    let e = AppError::BadRequest("a\"b\\c\n".to_string());
    assert_eq!(e.body(), "{\"error\":\"a\\\"b\\\\c\\u000A\",\"code\":400}");
}

#[test]
fn envelope_constructors() {
    let ok = ApiResp::success(7u32);
    assert_eq!(ok.code, 0);
    assert_eq!(ok.msg, "");
    assert_eq!(ok.data, 7);
    let failed: ApiResp<String> = ApiResp::error("wrong parameter".to_string());
    assert_eq!(failed.code, -1);
    assert_eq!(failed.msg, "wrong parameter");
}

use anycall::http::{
    body_step, check_status, reply_after_decode, reply_after_encode, BodyAction, BodyEvent,
    BodyState, HttpContext, HttpPostErr, HttpReply, MAX_PAYLOAD,
};

#[test]
fn check_status_accepts_success_statuses() {
    for status in [200u16, 201, 204, 299] {
        let r = check_status::<(), ()>(status, vec![1, 2]);
        assert!(matches!(r, Ok(ref b) if b == &vec![1, 2]));
    }
}

#[test]
fn check_status_refuses_other_statuses() {
    for status in [100u16, 199, 300, 404, 500] {
        let r = check_status::<(), ()>(status, vec![9]);
        match r {
            Err(HttpPostErr::Status { status: s, body }) => {
                assert_eq!(s, status);
                assert_eq!(body, vec![9]);
            }
            _ => panic!("expected a status error"),
        }
    }
}

#[test]
fn reply_statuses() {
    assert_eq!(HttpReply::Success(vec![]).status(), 200);
    assert_eq!(HttpReply::PayloadTooLarge.status(), 413);
    assert_eq!(HttpReply::BadRequest.status(), 400);
    assert_eq!(HttpReply::InternalServerError.status(), 500);
}

#[test]
fn body_chunks_are_joined_in_order() {
    let state = BodyState::start();
    let (state, action) = body_step(state, BodyEvent::Chunk(vec![1, 2]));
    assert!(matches!(action, BodyAction::ReadMore));
    let (state, action) = body_step(state, BodyEvent::Chunk(vec![]));
    assert!(matches!(action, BodyAction::ReadMore));
    let (state, action) = body_step(state, BodyEvent::Chunk(vec![3]));
    assert!(matches!(action, BodyAction::ReadMore));
    let (state, action) = body_step(state, BodyEvent::Finished);
    assert!(matches!(state, BodyState::Done));
    match action {
        BodyAction::Decode(body) => assert_eq!(body, vec![1, 2, 3]),
        _ => panic!("expected the body"),
    }
}

#[test]
fn body_over_the_limit_is_refused() {
    let state = BodyState::start();
    let (state, action) = body_step(state, BodyEvent::Chunk(vec![0u8; 10]));
    assert!(matches!(action, BodyAction::ReadMore));
    let (state, action) = body_step(state, BodyEvent::Chunk(vec![0u8; MAX_PAYLOAD - 9]));
    assert!(matches!(state, BodyState::Done));
    assert!(matches!(action, BodyAction::Reply(HttpReply::PayloadTooLarge)));
}

#[test]
fn failed_stream_is_a_bad_request() {
    let state = BodyState::start();
    let (state, _) = body_step(state, BodyEvent::Chunk(vec![5]));
    let (state, action) = body_step(state, BodyEvent::Failed);
    assert!(matches!(state, BodyState::Done));
    assert!(matches!(action, BodyAction::Reply(HttpReply::BadRequest)));
}

#[test]
fn decode_and_encode_outcomes() {
    assert!(matches!(reply_after_decode::<u8, ()>(Ok(3)), Ok(3)));
    assert!(matches!(
        reply_after_decode::<u8, &str>(Err("bad")),
        Err(HttpReply::BadRequest)
    ));
    assert_eq!(reply_after_encode::<()>(Ok(vec![7])), HttpReply::Success(vec![7]));
    assert_eq!(reply_after_encode::<&str>(Err("no")), HttpReply::InternalServerError);
}

#[test]
fn http_context_converts_to_unit() {
    let context = HttpContext {
        url: "/rpc".to_string(),
        header_map: http::HeaderMap::new(),
    };
    let unit: () = context.into();
    assert_eq!(unit, ());
}

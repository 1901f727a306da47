use most_gpt::frame::{
    decode, posted, read_envelope, read_post, DecodeError, Envelope, FrameKind, InboundEvent,
    PostBody, Posted,
};

fn posted_frame(post: &str) -> String {
    let mut quoted = String::new();
    for c in post.chars() {
        if c == '"' || c == '\\' {
            quoted.push('\\');
        }
        quoted.push(c);
    }
    format!(
        "{{\"event\":\"posted\",\"seq\":7,\"data\":{{\"channel_name\":\"town-square\",\"sender_name\":\"@alice\",\"post\":\"{}\"}}}}",
        quoted
    )
}

fn full_post() -> &'static str {
    "{\"id\":\"p1\",\"user_id\":\"u1\",\"channel_id\":\"c1\",\"message\":\"@bot hello\"}"
}

fn full_envelope() -> Envelope {
    Envelope {
        seq: Some(7),
        event: Some("posted".to_string()),
        post: Some(full_post().to_string()),
        sender_name: Some("@alice".to_string()),
        channel_name: Some("town-square".to_string()),
    }
}

fn full_body() -> PostBody {
    PostBody {
        user_id: Some("u1".to_string()),
        channel_id: Some("c1".to_string()),
        message: Some("@bot hello".to_string()),
        id: Some("p1".to_string()),
    }
}

#[test]
fn hello_frame_decodes_to_hello() {
    assert_eq!(decode("{\"seq\":1,\"event\":\"hello\",\"data\":{}}"), Ok(InboundEvent::Hello));
}

#[test]
fn hello_with_another_sequence_number_is_of_no_interest() {
    assert_eq!(decode("{\"seq\":2,\"event\":\"hello\"}"), Ok(InboundEvent::Other));
    assert_eq!(decode("{\"event\":\"hello\"}"), Ok(InboundEvent::Other));
    assert_eq!(decode("{\"seq\":\"1\",\"event\":\"hello\"}"), Ok(InboundEvent::Other));
    assert_eq!(decode("{\"seq\":1.0,\"event\":\"hello\"}"), Ok(InboundEvent::Other));
}

#[test]
fn other_events_and_other_documents_are_of_no_interest() {
    assert_eq!(decode("{\"seq\":3,\"event\":\"typing\",\"data\":{}}"), Ok(InboundEvent::Other));
    assert_eq!(decode("{\"status\":\"OK\",\"seq_reply\":1}"), Ok(InboundEvent::Other));
    assert_eq!(decode("[1,2,3]"), Ok(InboundEvent::Other));
    assert_eq!(decode("null"), Ok(InboundEvent::Other));
    assert_eq!(decode("{\"event\":7}"), Ok(InboundEvent::Other));
}

#[test]
fn posted_frame_decodes_to_its_post() {
    assert_eq!(
        decode(&posted_frame(full_post())),
        Ok(InboundEvent::Posted(Posted {
            post_id: "p1".to_string(),
            user_id: "u1".to_string(),
            channel_id: "c1".to_string(),
            channel_name: "town-square".to_string(),
            message: "@bot hello".to_string(),
            sender_name: "@alice".to_string(),
        }))
    );
}

#[test]
fn malformed_frame_is_rejected() {
    assert_eq!(decode("not json"), Err(DecodeError::Malformed));
    assert_eq!(decode(""), Err(DecodeError::Malformed));
    assert_eq!(decode("{\"event\":\"posted\""), Err(DecodeError::Malformed));
}

#[test]
fn posted_frame_without_a_post_is_rejected() {
    assert_eq!(decode("{\"event\":\"posted\",\"data\":{}}"), Err(DecodeError::MissingPost));
    assert_eq!(decode("{\"event\":\"posted\"}"), Err(DecodeError::MissingPost));
    assert_eq!(
        decode("{\"event\":\"posted\",\"data\":{\"post\":{\"id\":\"p1\"}}}"),
        Err(DecodeError::MissingPost)
    );
}

#[test]
fn posted_frame_with_a_malformed_post_is_rejected() {
    assert_eq!(decode(&posted_frame("{oops")), Err(DecodeError::MalformedPost));
}

#[test]
fn missing_fields_are_named_in_order() {
    assert_eq!(decode(&posted_frame("{}")), Err(DecodeError::MissingUserId));
    assert_eq!(
        decode(&posted_frame("{\"user_id\":\"u1\"}")),
        Err(DecodeError::MissingChannelId)
    );
    assert_eq!(
        decode(&posted_frame("{\"user_id\":\"u1\",\"channel_id\":\"c1\"}")),
        Err(DecodeError::MissingMessage)
    );
    assert_eq!(
        decode(&posted_frame("{\"user_id\":\"u1\",\"channel_id\":\"c1\",\"message\":\"m\"}")),
        Err(DecodeError::MissingPostId)
    );
    assert_eq!(
        decode(&posted_frame("{\"user_id\":5,\"channel_id\":\"c1\",\"message\":\"m\",\"id\":\"p\"}")),
        Err(DecodeError::MissingUserId)
    );
}

#[test]
fn missing_channel_name_is_rejected() {
    let frame = "{\"event\":\"posted\",\"data\":{\"post\":\"{\\\"id\\\":\\\"p1\\\",\\\"user_id\\\":\\\"u1\\\",\\\"channel_id\\\":\\\"c1\\\",\\\"message\\\":\\\"m\\\"}\"}}";
    assert_eq!(decode(frame), Err(DecodeError::MissingChannelName));
}

#[test]
fn sender_without_a_name_is_called_none() {
    let frame = "{\"event\":\"posted\",\"data\":{\"channel_name\":\"dm\",\"post\":\"{\\\"id\\\":\\\"p1\\\",\\\"user_id\\\":\\\"u1\\\",\\\"channel_id\\\":\\\"c1\\\",\\\"message\\\":\\\"m\\\"}\"}}";
    match decode(frame) {
        Ok(InboundEvent::Posted(post)) => {
            assert_eq!(post.sender_name, "none");
            assert_eq!(post.channel_name, "dm");
        }
        other => panic!("unexpected: {:?}", other),
    }
}

#[test]
fn envelope_holds_the_outer_fields() {
    assert_eq!(read_envelope(&posted_frame(full_post())), Ok(full_envelope()));
    assert_eq!(
        read_envelope("{\"seq\":1,\"event\":\"hello\"}"),
        Ok(Envelope {
            seq: Some(1),
            event: Some("hello".to_string()),
            post: None,
            sender_name: None,
            channel_name: None,
        })
    );
    assert_eq!(read_envelope("]"), Err(DecodeError::Malformed));
}

#[test]
fn envelope_fields_of_the_wrong_type_are_absent() {
    assert_eq!(
        read_envelope("{\"seq\":\"one\",\"event\":null,\"data\":[\"post\"]}"),
        Ok(Envelope { seq: None, event: None, post: None, sender_name: None, channel_name: None })
    );
    assert_eq!(
        read_envelope("{\"seq\":18446744073709551615,\"event\":\"hello\"}"),
        Ok(Envelope {
            seq: None,
            event: Some("hello".to_string()),
            post: None,
            sender_name: None,
            channel_name: None,
        })
    );
    assert_eq!(
        read_envelope("{\"seq\":-3}"),
        Ok(Envelope { seq: Some(-3), event: None, post: None, sender_name: None, channel_name: None })
    );
}

#[test]
fn post_body_holds_the_inner_fields() {
    assert_eq!(read_post(full_post()), Ok(full_body()));
    assert_eq!(
        read_post("{\"id\":\"p1\",\"message\":42}"),
        Ok(PostBody { user_id: None, channel_id: None, message: None, id: Some("p1".to_string()) })
    );
    assert_eq!(read_post("{"), Err(DecodeError::MalformedPost));
}

#[test]
fn envelope_kind_goes_by_sequence_number_and_tag() {
    let mut envelope = full_envelope();
    assert_eq!(envelope.kind(), FrameKind::Posted);
    envelope.event = Some("hello".to_string());
    assert_eq!(envelope.kind(), FrameKind::Other);
    envelope.seq = Some(1);
    assert_eq!(envelope.kind(), FrameKind::Hello);
    envelope.event = Some("posted".to_string());
    assert_eq!(envelope.kind(), FrameKind::Posted);
    envelope.event = None;
    assert_eq!(envelope.kind(), FrameKind::Other);
}

#[test]
fn posted_puts_envelope_and_post_together() {
    assert_eq!(
        posted(full_envelope(), full_body()),
        Ok(Posted {
            post_id: "p1".to_string(),
            user_id: "u1".to_string(),
            channel_id: "c1".to_string(),
            channel_name: "town-square".to_string(),
            message: "@bot hello".to_string(),
            sender_name: "@alice".to_string(),
        })
    );
}

#[test]
fn posted_names_the_first_missing_field() {
    let mut body = full_body();
    body.id = None;
    assert_eq!(posted(full_envelope(), body), Err(DecodeError::MissingPostId));
    let mut body = full_body();
    body.message = None;
    body.id = None;
    assert_eq!(posted(full_envelope(), body), Err(DecodeError::MissingMessage));
    let mut envelope = full_envelope();
    envelope.channel_name = None;
    let mut body = full_body();
    body.message = None;
    assert_eq!(posted(envelope, body), Err(DecodeError::MissingChannelName));
    let mut envelope = full_envelope();
    envelope.channel_name = None;
    let mut body = full_body();
    body.channel_id = None;
    assert_eq!(posted(envelope, body), Err(DecodeError::MissingChannelId));
    let mut body = full_body();
    body.user_id = None;
    body.channel_id = None;
    assert_eq!(posted(full_envelope(), body), Err(DecodeError::MissingUserId));
}

#[test]
fn decode_errors_describe_themselves() {
    assert_eq!(DecodeError::Malformed.message(), "Malformed frame");
    assert_eq!(DecodeError::MissingPost.message(), "No post found");
    assert_eq!(DecodeError::MalformedPost.message(), "Malformed post");
    assert_eq!(DecodeError::MissingUserId.message(), "No user ID found");
    assert_eq!(DecodeError::MissingChannelId.message(), "No channel ID found");
    assert_eq!(DecodeError::MissingChannelName.message(), "No channel_name found");
    assert_eq!(DecodeError::MissingMessage.message(), "No message text found");
    assert_eq!(DecodeError::MissingPostId.message(), "No post id found");
}

use punchtop::cast::message::{connection, heartbeat, media, receiver, DEFAULT_DESTINATION_ID, DEFAULT_SENDER_ID};
use punchtop::cast::payload;
use punchtop::cast::payload::media::{MediaInformation, StreamType};
use punchtop::cast::proto::{CastMessage_PayloadType, CastMessage_ProtocolVersion};
use punchtop::cast::provider::{Media, MediaConnection, ReceiverConnection};

#[test]
fn connection_and_heartbeat_requests_are_typed_json() {
    assert_eq!(payload::connection::Request::Connect.to_json(), "{\"type\":\"CONNECT\"}");
    assert_eq!(payload::connection::Request::Close.to_json(), "{\"type\":\"CLOSE\"}");
    assert_eq!(payload::heartbeat::Request::Ping.to_json(), "{\"type\":\"PING\"}");
    assert_eq!(payload::heartbeat::Request::Pong.to_json(), "{\"type\":\"PONG\"}");
}

#[test]
fn receiver_requests_carry_request_ids() {
    let launch = payload::receiver::Request::Launch { request_id: 3, app_id: "CC1AD845".to_string() };
    assert_eq!(launch.to_json(), "{\"type\":\"LAUNCH\",\"requestId\":3,\"appId\":\"CC1AD845\"}");
    let status = payload::receiver::Request::GetStatus { request_id: -12 };
    assert_eq!(status.to_json(), "{\"type\":\"GET_STATUS\",\"requestId\":-12}");
    let stop = payload::receiver::Request::Stop { request_id: 0, session_id: "a\"b\\c\n".to_string() };
    assert_eq!(stop.to_json(), "{\"type\":\"STOP\",\"requestId\":0,\"sessionId\":\"a\\\"b\\\\c\\n\"}");
}

#[test]
fn json_strings_escape_control_characters() {
    let info = MediaInformation {
        content_id: "x\u{1}y\ttab".to_string(),
        stream_type: StreamType::Live,
        content_type: "audio/ogg".to_string(),
    };
    assert_eq!(
        info.to_json(),
        "{\"contentId\":\"x\\u0001y\\ttab\",\"streamType\":\"LIVE\",\"contentType\":\"audio/ogg\"}"
    );
    let buffered = MediaInformation {
        content_id: "é".to_string(),
        stream_type: StreamType::Buffered,
        content_type: "".to_string(),
    };
    assert_eq!(buffered.to_json(), "{\"contentId\":\"é\",\"streamType\":\"BUFFERED\",\"contentType\":\"\"}");
}

#[test]
fn media_requests_are_typed_json() {
    let play = payload::media::Request::Play { request_id: 5, media_session_id: 9 };
    assert_eq!(play.to_json(), "{\"type\":\"PLAY\",\"requestId\":5,\"mediaSessionId\":9,\"customData\":{}}");
    let status = payload::media::Request::GetStatus { request_id: 5, media_session_id: -1 };
    assert_eq!(status.to_json(), "{\"type\":\"GET_STATUS\",\"requestId\":5,\"mediaSessionId\":-1}");
    let stop = payload::media::Request::Stop { request_id: 2147483647, media_session_id: -2147483648 };
    assert_eq!(
        stop.to_json(),
        "{\"type\":\"STOP\",\"requestId\":2147483647,\"mediaSessionId\":-2147483648,\"customData\":{}}"
    );
}

#[test]
fn messages_come_from_the_default_sender() {
    let m = connection::connect();
    assert_eq!(m.get_source_id(), DEFAULT_SENDER_ID);
    assert_eq!(m.get_destination_id(), DEFAULT_DESTINATION_ID);
    assert_eq!(m.get_namespace(), connection::NAMESPACE);
    assert_eq!(m.get_payload_type(), Some(CastMessage_PayloadType::STRING));
    assert_eq!(m.get_protocol_version(), Some(CastMessage_ProtocolVersion::CASTV2_1_0));
    assert_eq!(m.get_payload_utf8(), "{\"type\":\"CONNECT\"}");
    let m = heartbeat::message("{}".to_string());
    assert_eq!(m.get_namespace(), "urn:x-cast:com.google.cast.tp.heartbeat");
    assert_eq!(m.get_payload_utf8(), "{}");
    let m = receiver::message("web-1", "x".to_string());
    assert_eq!(m.get_namespace(), "urn:x-cast:com.google.cast.receiver");
    assert_eq!(m.get_destination_id(), "web-1");
    let m = connection::message("y".to_string());
    assert_eq!(m.get_destination_id(), "receiver-0");
    assert_eq!(m.get_payload_utf8(), "y");
}

#[test]
fn receiver_messages() {
    let m = receiver::launch(4, "CC1AD845");
    assert_eq!(m.get_namespace(), receiver::NAMESPACE);
    assert_eq!(m.get_destination_id(), "receiver-0");
    assert_eq!(m.get_payload_utf8(), "{\"type\":\"LAUNCH\",\"requestId\":4,\"appId\":\"CC1AD845\"}");
    assert_eq!(receiver::status(8).get_payload_utf8(), "{\"type\":\"GET_STATUS\",\"requestId\":8}");
    assert_eq!(receiver::stop(1, "s").get_payload_utf8(), "{\"type\":\"STOP\",\"requestId\":1,\"sessionId\":\"s\"}");
    assert_eq!(connection::close().get_payload_utf8(), "{\"type\":\"CLOSE\"}");
    assert_eq!(heartbeat::pong().get_payload_utf8(), "{\"type\":\"PONG\"}");
}

#[test]
fn media_messages_address_the_transport() {
    let connect = ReceiverConnection { session: "sess".to_string(), transport: "web-9".to_string() };
    let media = Media {
        title: Some("T".to_string()),
        artist: None,
        album: None,
        url: "http://h/media/id".to_string(),
        cover: None,
        content_type: "audio/mp4".to_string(),
    };
    let m = media::load(11, &connect, media);
    assert_eq!(m.get_namespace(), media::NAMESPACE);
    assert_eq!(m.get_destination_id(), "web-9");
    assert_eq!(
        m.get_payload_utf8(),
        "{\"type\":\"LOAD\",\"requestId\":11,\"sessionId\":\"sess\",\"media\":{\"contentId\":\"http://h/media/id\",\"streamType\":\"NONE\",\"contentType\":\"audio/mp4\"},\"currentTime\":0.0,\"customData\":{},\"autoplay\":true}"
    );
    let session = MediaConnection { receiver: connect, session: 3 };
    assert_eq!(
        media::play(1, &session).get_payload_utf8(),
        "{\"type\":\"PLAY\",\"requestId\":1,\"mediaSessionId\":3,\"customData\":{}}"
    );
    assert_eq!(
        media::status(2, &session).get_payload_utf8(),
        "{\"type\":\"GET_STATUS\",\"requestId\":2,\"mediaSessionId\":3}"
    );
    assert_eq!(
        media::stop(3, &session).get_payload_utf8(),
        "{\"type\":\"STOP\",\"requestId\":3,\"mediaSessionId\":3,\"customData\":{}}"
    );
    assert_eq!(media::stop(3, &session).get_destination_id(), "web-9");
}

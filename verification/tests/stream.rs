use tradier::clock::Timestamp;
use tradier::config::{Config, Credentials, RestApiConfig, StreamingConfig};
use tradier::wssession::stream::{
    Delivery, Frame, StreamAction, StreamEvent, StreamLoop, StreamPhase,
};
use tradier::wssession::{AccountSession, MarketSession, MarketSessionPayload, SessionManager};
use tradier::wssession::session::HandshakeReply;
use tradier::Error;

fn now() -> Timestamp {
    Timestamp { secs: 1_700_000_000, nanos: 0 }
}

fn out_of_turn() -> StreamAction {
    StreamAction::Stop(Err(Error::UnexpectedError("event out of turn".to_string())))
}

fn config() -> Config {
    Config {
        credentials: Credentials {
            client_id: "test_id".to_string(),
            client_secret: "test_secret".to_string(),
            access_token: Some("test_token".to_string()),
            refresh_token: None,
        },
        rest_api: RestApiConfig { base_url: "http://127.0.0.1:1".to_string(), timeout: 30 },
        streaming: StreamingConfig {
            http_base_url: "".to_string(),
            ws_base_url: "ws://127.0.0.1:9999".to_string(),
            events_path: "/v1/markets/events".to_string(),
            reconnect_interval: 5,
        },
    }
}

fn reply(url: &str, session_id: &str) -> HandshakeReply {
    HandshakeReply::Response {
        status: 200,
        body: format!(
            "{{\"stream\":{{\"url\":\"{}\",\"sessionid\":\"{}\"}}}}",
            url, session_id
        ),
    }
}

#[test]
fn test_stream_some_data() {
    let expected_session_id = "c8638963-a6d4-4fb9-9bc6-e25fbd8c60c3";
    let expected_ws_url = "ws://127.0.0.1:9999//v1/markets/events";
    let expected_symbols = ["AAPL".to_owned(), "C".to_owned()];
    let expected_event = "{\"type\": \"quote\", \"symbol\": \"C\", \"bid\": 281.84}";

    let mut session_manager = SessionManager::default();
    let negotiation = MarketSession::begin(&mut session_manager, &config()).unwrap();
    let session = negotiation
        .conclude_at(&mut session_manager, reply(expected_ws_url, expected_session_id), now())
        .unwrap();
    let market_session = MarketSession::from_session(session);
    assert!(market_session.is_ok());
    let market_session = market_session.unwrap();
    let payload = MarketSessionPayload::builder()
        .session_id(market_session.get_session_id())
        .symbols(&expected_symbols)
        .build();
    let mut stream = market_session.ws_stream(&payload).unwrap();
    assert_eq!(
        stream.first_action(),
        StreamAction::Connect(expected_ws_url.to_string())
    );
    assert_eq!(
        stream.step(StreamEvent::Connected),
        StreamAction::Send(
            "{\"symbols\":[\"AAPL\",\"C\"],\"sessionid\":\"c8638963-a6d4-4fb9-9bc6-e25fbd8c60c3\"}"
                .to_string()
        )
    );
    assert_eq!(stream.step(StreamEvent::Sent), StreamAction::Read);
    assert_eq!(
        stream.step(StreamEvent::Received(Frame::Text(expected_event.to_string()))),
        StreamAction::Deliver(Delivery::Text(expected_event.to_string()))
    );
    assert_eq!(stream.step(StreamEvent::Delivered), StreamAction::Read);
    let result = stream.step(StreamEvent::Received(Frame::Close));
    assert_eq!(result, StreamAction::Stop(Ok(())));
    assert!(stream.is_finished());
}

#[test]
fn close_before_any_data_ends_in_success_without_a_delivery() {
    let mut stream = StreamLoop::start("wss://ws.tradier.com/v1/markets/events", None).unwrap();
    let mut actions = vec![stream.first_action()];
    actions.push(stream.step(StreamEvent::Connected));
    actions.push(stream.step(StreamEvent::Received(Frame::Close)));
    assert_eq!(
        actions,
        vec![
            StreamAction::Connect("wss://ws.tradier.com/v1/markets/events".to_string()),
            StreamAction::Read,
            StreamAction::Stop(Ok(())),
        ]
    );
    assert!(!actions.iter().any(|action| matches!(action, StreamAction::Deliver(_))));
    assert_eq!(stream.phase(), StreamPhase::Finished);
}

#[test]
fn frames_are_classified() {
    let mut stream = StreamLoop::start("ws://h/p", None).unwrap();
    assert_eq!(stream.phase(), StreamPhase::Connecting);
    assert_eq!(stream.step(StreamEvent::Connected), StreamAction::Read);
    assert_eq!(stream.phase(), StreamPhase::Reading);
    assert_eq!(
        stream.step(StreamEvent::Received(Frame::Binary(vec![1, 2, 3]))),
        StreamAction::Deliver(Delivery::Binary(3))
    );
    assert_eq!(stream.phase(), StreamPhase::Delivering);
    assert_eq!(stream.step(StreamEvent::Delivered), StreamAction::Read);
    assert_eq!(stream.phase(), StreamPhase::Reading);
    assert_eq!(
        stream.step(StreamEvent::Received(Frame::Binary(Vec::new()))),
        StreamAction::Deliver(Delivery::Binary(0))
    );
    assert_eq!(stream.step(StreamEvent::Delivered), StreamAction::Read);
    assert_eq!(stream.step(StreamEvent::Received(Frame::Control)), StreamAction::Read);
    assert_eq!(
        stream.step(StreamEvent::Received(Frame::Text(String::new()))),
        StreamAction::Deliver(Delivery::Text(String::new()))
    );
    assert_eq!(stream.step(StreamEvent::Delivered), StreamAction::Read);
    assert_eq!(stream.phase(), StreamPhase::Reading);
    assert_eq!(stream.step(StreamEvent::Ended), StreamAction::Stop(Ok(())));
    assert!(stream.is_finished());
}

#[test]
fn a_failure_ends_the_loop_in_every_phase() {
    let failure = || StreamEvent::Failed("reset".to_string());
    let stopped = || StreamAction::Stop(Err(Error::WebSocketError("reset".to_string())));

    let mut connecting = StreamLoop::start("ws://h/p", Some("m".to_string())).unwrap();
    assert_eq!(connecting.step(failure()), stopped());
    assert!(connecting.is_finished());

    let mut subscribing = StreamLoop::start("ws://h/p", Some("m".to_string())).unwrap();
    assert_eq!(
        subscribing.step(StreamEvent::Connected),
        StreamAction::Send("m".to_string())
    );
    assert_eq!(subscribing.phase(), StreamPhase::Subscribing);
    assert_eq!(subscribing.step(failure()), stopped());
    assert!(subscribing.is_finished());

    let mut reading = StreamLoop::start("ws://h/p", None).unwrap();
    assert_eq!(reading.step(StreamEvent::Connected), StreamAction::Read);
    assert_eq!(reading.step(failure()), stopped());
    assert!(reading.is_finished());
    assert_eq!(reading.step(failure()), out_of_turn());
}

#[test]
fn nothing_happens_after_the_end() {
    let mut stream = StreamLoop::start("ws://h/p", None).unwrap();
    stream.step(StreamEvent::Connected);
    assert_eq!(
        stream.step(StreamEvent::Received(Frame::Close)),
        StreamAction::Stop(Ok(()))
    );
    let later = vec![
        StreamEvent::Received(Frame::Text("late".to_string())),
        StreamEvent::Connected,
        StreamEvent::Sent,
        StreamEvent::Delivered,
        StreamEvent::Ended,
        StreamEvent::Received(Frame::Close),
    ];
    for event in later {
        assert_eq!(stream.step(event), out_of_turn());
        assert!(stream.is_finished());
    }
}

#[test]
fn events_out_of_turn_end_the_loop() {
    let mut early_frame = StreamLoop::start("ws://h/p", Some("m".to_string())).unwrap();
    assert_eq!(
        early_frame.step(StreamEvent::Received(Frame::Text("x".to_string()))),
        out_of_turn()
    );
    assert!(early_frame.is_finished());

    let mut read_before_sent = StreamLoop::start("ws://h/p", Some("m".to_string())).unwrap();
    read_before_sent.step(StreamEvent::Connected);
    assert_eq!(
        read_before_sent.step(StreamEvent::Received(Frame::Text("x".to_string()))),
        out_of_turn()
    );

    let mut sent_without_message = StreamLoop::start("ws://h/p", None).unwrap();
    sent_without_message.step(StreamEvent::Connected);
    assert_eq!(sent_without_message.step(StreamEvent::Sent), out_of_turn());

    let mut connected_twice = StreamLoop::start("ws://h/p", None).unwrap();
    connected_twice.step(StreamEvent::Connected);
    assert_eq!(connected_twice.step(StreamEvent::Connected), out_of_turn());

    let mut ended_early = StreamLoop::start("ws://h/p", None).unwrap();
    assert_eq!(ended_early.step(StreamEvent::Ended), out_of_turn());

    let mut taken_without_data = StreamLoop::start("ws://h/p", None).unwrap();
    taken_without_data.step(StreamEvent::Connected);
    assert_eq!(taken_without_data.step(StreamEvent::Delivered), out_of_turn());

    let mut read_before_taken = StreamLoop::start("ws://h/p", None).unwrap();
    read_before_taken.step(StreamEvent::Connected);
    read_before_taken.step(StreamEvent::Received(Frame::Text("x".to_string())));
    assert_eq!(
        read_before_taken.step(StreamEvent::Received(Frame::Text("y".to_string()))),
        out_of_turn()
    );
    assert!(read_before_taken.is_finished());

    let mut closed_before_taken = StreamLoop::start("ws://h/p", None).unwrap();
    closed_before_taken.step(StreamEvent::Connected);
    closed_before_taken.step(StreamEvent::Received(Frame::Binary(vec![1])));
    assert_eq!(
        closed_before_taken.step(StreamEvent::Failed("gone".to_string())),
        StreamAction::Stop(Err(Error::WebSocketError("gone".to_string())))
    );
}

#[test]
fn the_address_must_be_an_absolute_url() {
    assert_eq!(
        StreamLoop::start("not a url", None).unwrap_err(),
        Error::UrlParsingError("relative URL without a base".to_string())
    );
    assert_eq!(
        StreamLoop::start("", Some("m".to_string())).unwrap_err(),
        Error::UrlParsingError("relative URL without a base".to_string())
    );
    assert_eq!(
        StreamLoop::start("ws://", None).unwrap_err(),
        Error::UrlParsingError("empty host".to_string())
    );
    assert_eq!(
        StreamLoop::start("ws://host:99999/", None).unwrap_err(),
        Error::UrlParsingError("invalid port number".to_string())
    );
}

#[test]
fn the_loop_connects_to_the_normal_form_of_the_address() {
    let stream = StreamLoop::start("WSS://WS.Tradier.COM:443", None).unwrap();
    assert_eq!(
        stream.first_action(),
        StreamAction::Connect("wss://ws.tradier.com/".to_string())
    );
    let stream = StreamLoop::start("ws://h/a b?q=1", None).unwrap();
    assert_eq!(
        stream.first_action(),
        StreamAction::Connect("ws://h/a%20b?q=1".to_string())
    );
}

#[test]
fn an_account_session_only_listens() {
    let mut manager = SessionManager::new();
    let session = AccountSession::begin(&mut manager, &config())
        .unwrap()
        .conclude_at(&mut manager, reply("wss://ws.tradier.com/v1/accounts/events", "id"), now())
        .unwrap();
    let account = AccountSession::from_session(session).unwrap();
    let mut stream = account.listen().unwrap();
    assert_eq!(
        stream.first_action(),
        StreamAction::Connect("wss://ws.tradier.com/v1/accounts/events".to_string())
    );
    assert_eq!(stream.step(StreamEvent::Connected), StreamAction::Read);
}

#[test]
fn a_market_session_with_a_bad_address_cannot_stream() {
    let mut manager = SessionManager::new();
    let session = MarketSession::begin(&mut manager, &config())
        .unwrap()
        .conclude_at(&mut manager, reply("/relative", "id"), now())
        .unwrap();
    let market = MarketSession::from_session(session).unwrap();
    let symbols = ["AAPL".to_string()];
    let payload = MarketSessionPayload::recommended(&symbols, market.get_session_id());
    assert_eq!(
        market.ws_stream(&payload).unwrap_err(),
        Error::UrlParsingError("relative URL without a base".to_string())
    );
}

#[test]
fn data_is_delivered_in_order_until_the_stream_fails() {
    let mut stream = StreamLoop::start("ws://h/p", Some("subscribe".to_string())).unwrap();
    let events = vec![
        StreamEvent::Connected,
        StreamEvent::Sent,
        StreamEvent::Received(Frame::Text("a".to_string())),
        StreamEvent::Delivered,
        StreamEvent::Received(Frame::Control),
        StreamEvent::Received(Frame::Binary(vec![0, 0, 0])),
        StreamEvent::Delivered,
        StreamEvent::Received(Frame::Text("b".to_string())),
        StreamEvent::Delivered,
        StreamEvent::Failed("broken pipe".to_string()),
        StreamEvent::Received(Frame::Text("never".to_string())),
    ];
    let mut delivered = Vec::new();
    let mut last = stream.first_action();
    for event in events {
        last = stream.step(event);
        if let StreamAction::Deliver(delivery) = &last {
            delivered.push(delivery.clone());
        }
    }
    assert_eq!(
        delivered,
        vec![
            Delivery::Text("a".to_string()),
            Delivery::Binary(3),
            Delivery::Text("b".to_string()),
        ]
    );
    assert_eq!(last, out_of_turn());
    assert!(stream.is_finished());
}

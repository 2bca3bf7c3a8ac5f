use nuimo::bridge::{
    battery_publication, broker_host_port, broker_settings, connected_publication, event_action,
    feedback_glyph_name, feedback_topic_filter, input_publication, input_topic, plan_feedback,
    plan_reaction, route_incoming, IncomingMessage,
    primitive_name, reaction_percentage, rssi_publication, BridgeAction, Delivery, Heartbeat,
    InputPrimitive, JsonField, ReactionBody, GLYPH_TOPIC_FILTER,
};
use nuimo::config::Config;
use nuimo::glyphs;
use nuimo::registry::{GlyphRegistry, RegisteredGlyph};
use nuimo::{DisplayTransition, Glyph, NuimoEvent};

fn body(status: &str, percentage: JsonField) -> ReactionBody {
    ReactionBody { status: JsonField::Text(status.to_string()), percentage }
}

#[test]
fn topics_follow_the_weave_layout() {
    assert_eq!(feedback_topic_filter("aa:bb"), "device/nuimo/aa:bb/feedback/#");
    assert_eq!(input_topic("id1", "rotate"), "device/nuimo/id1/input/rotate");
    assert_eq!(GLYPH_TOPIC_FILTER, "system/glyphs/+");
}

#[test]
fn state_publications() {
    let p = battery_publication("x", 87);
    assert_eq!(p.topic, "device/nuimo/x/state/battery");
    assert_eq!(p.payload, "87");
    assert!(p.retain);
    assert_eq!(p.delivery, Delivery::AtLeastOnce);

    let p = rssi_publication("x", -50);
    assert_eq!(p.topic, "device/nuimo/x/state/rssi");
    assert_eq!(p.payload, "-50");
    assert!(p.retain);

    assert_eq!(rssi_publication("x", i16::MIN).payload, i16::MIN.to_string());
    assert_eq!(rssi_publication("x", 0).payload, "0");
    for level in [0u8, 9, 10, 100, 255] {
        assert_eq!(battery_publication("x", level).payload, level.to_string());
    }

    let p = connected_publication("x");
    assert_eq!(p.topic, "device/nuimo/x/state/connected");
    assert_eq!(p.payload, "true");
    assert!(p.retain);

    let p = input_publication("x", "press", "{}".to_string());
    assert_eq!(p.topic, "device/nuimo/x/input/press");
    assert_eq!(p.delivery, Delivery::AtMostOnce);
    assert!(!p.retain);
}

#[test]
fn broker_url_parsing() {
    assert_eq!(broker_host_port("mqtt://localhost:1883"), ("localhost".to_string(), 1883));
    assert_eq!(broker_host_port("tcp://10.0.0.2:8883"), ("10.0.0.2".to_string(), 8883));
    assert_eq!(broker_host_port("broker.local"), ("broker.local".to_string(), 1883));
    assert_eq!(broker_host_port("mqtt://h:notaport"), ("h".to_string(), 1883));
    assert_eq!(broker_host_port("mqtt://h:70000"), ("h".to_string(), 1883));
    assert_eq!(broker_host_port("mqtt://h:+42"), ("h".to_string(), 42));
    assert_eq!(broker_host_port("a:b:1234"), ("a:b".to_string(), 1234));
}

#[test]
fn broker_settings_need_both_credentials() {
    let c = Config::from_vars(None, Some("u".into()), None);
    let s = broker_settings(&c);
    assert_eq!(s.host, "localhost");
    assert_eq!(s.port, 1883);
    assert_eq!(s.client_id, "nuimo-mqtt");
    assert_eq!(s.keep_alive_secs, 30);
    assert!(s.credentials.is_none());
    let c = Config::from_vars(Some("mqtt://b:1".into()), Some("u".into()), Some("p".into()));
    let s = broker_settings(&c);
    assert_eq!(s.credentials, Some(("u".to_string(), "p".to_string())));
    assert_eq!((s.host.as_str(), s.port), ("b", 1));
}

#[test]
fn events_map_to_primitives() {
    assert_eq!(event_action(&NuimoEvent::ButtonDown), BridgeAction::Input(InputPrimitive::Press));
    assert_eq!(event_action(&NuimoEvent::FlyLeft), BridgeAction::Input(InputPrimitive::SwipeLeft));
    assert_eq!(event_action(&NuimoEvent::FlyRight), BridgeAction::Input(InputPrimitive::SwipeRight));
    assert_eq!(
        event_action(&NuimoEvent::Rotate { points: -5 }),
        BridgeAction::Input(InputPrimitive::Rotate)
    );
    assert_eq!(event_action(&NuimoEvent::BatteryLevel(3)), BridgeAction::Battery(3));
    assert_eq!(event_action(&NuimoEvent::Rssi(-70)), BridgeAction::Rssi(-70));
    assert_eq!(event_action(&NuimoEvent::Connected), BridgeAction::Ignore);
    assert_eq!(primitive_name(InputPrimitive::LongTouchBottom), "long_touch_bottom");
    assert_eq!(primitive_name(InputPrimitive::SwipeUp), "swipe_up");
}

#[test]
fn percentage_reading() {
    assert_eq!(reaction_percentage(&JsonField::Text("42".into())), 42);
    assert_eq!(reaction_percentage(&JsonField::Text("+7".into())), 7);
    assert_eq!(reaction_percentage(&JsonField::Text("256".into())), 0);
    assert_eq!(reaction_percentage(&JsonField::Text(" 4".into())), 0);
    assert_eq!(reaction_percentage(&JsonField::Unsigned(300)), 44);
    assert_eq!(reaction_percentage(&JsonField::Other), 0);
    for s in ["", "+", "-1", "12a", "007", "255"] {
        let expected = s.parse::<u8>().unwrap_or(0);
        assert_eq!(reaction_percentage(&JsonField::Text(s.into())), expected);
    }
}

#[test]
fn feedback_names() {
    assert_eq!(feedback_glyph_name("playing"), Some("play"));
    assert_eq!(feedback_glyph_name("paused"), Some("pause"));
    assert_eq!(feedback_glyph_name("next"), Some("next"));
    assert_eq!(feedback_glyph_name("previous"), Some("previous"));
    assert_eq!(feedback_glyph_name("stopped"), None);
}

#[test]
fn reaction_plans() {
    let mut reg = GlyphRegistry::new();
    reg.upsert(RegisteredGlyph { name: "play".into(), pattern: "***".into(), builtin: false });
    reg.upsert(RegisteredGlyph { name: "pause".into(), pattern: "*".into(), builtin: true });

    let (g, o) = plan_reaction(&body("volumeChange", JsonField::Unsigned(50)), &reg).unwrap();
    assert_eq!(g, glyphs::volume(50));
    assert_eq!(o.transition, DisplayTransition::Immediate);
    assert_eq!((o.brightness, o.timeout_ms), (255, 1000));

    let (g, o) = plan_reaction(&body("playing", JsonField::Other), &reg).unwrap();
    assert_eq!(g, Glyph::from_str("***"));
    assert_eq!(o.transition, DisplayTransition::CrossFade);

    assert!(plan_reaction(&body("paused", JsonField::Other), &reg).is_none());
    assert!(plan_reaction(&body("next", JsonField::Other), &reg).is_none());

    let (g, _) = plan_reaction(&body("idle", JsonField::Other), &reg).unwrap();
    assert_eq!(g, Glyph::empty());
    let no_status = ReactionBody { status: JsonField::Unsigned(1), percentage: JsonField::Other };
    assert_eq!(plan_reaction(&no_status, &reg).unwrap().0, Glyph::empty());
}

#[test]
fn heartbeat_stops_after_limit() {
    let mut h = Heartbeat::new();
    let mut published = 0;
    for _ in 0..1000 {
        if h.tick() {
            published += 1;
        }
        if published % 7 == 0 {
            h.wake();
        }
    }
    assert_eq!(published, 300);
    assert!(!h.tick());
}

#[test]
fn heartbeat_idle_until_woken() {
    let mut h = Heartbeat { active: false, ticks: 5 };
    assert!(!h.tick());
    assert_eq!(h.ticks, 5);
    h.wake();
    assert!(h.tick());
    assert_eq!(h.ticks, 6);
}

#[test]
fn feedback_payloads() {
    let mut reg = GlyphRegistry::new();
    reg.upsert(RegisteredGlyph { name: "play".into(), pattern: "*".into(), builtin: false });
    assert!(plan_feedback("not json", &reg).is_none());
    assert!(plan_feedback("", &reg).is_none());
    let (g, o) = plan_feedback(r#"{"status":"volumeChange","percentage":"100"}"#, &reg).unwrap();
    assert_eq!(g, glyphs::volume(100));
    assert_eq!(o.transition, DisplayTransition::Immediate);
    let (g, _) = plan_feedback(r#"{"status":"volumeChange","percentage":300}"#, &reg).unwrap();
    assert_eq!(g, glyphs::volume(44));
    let (g, o) = plan_feedback(r#"{"status":"playing"}"#, &reg).unwrap();
    assert_eq!(g, Glyph::from_str("*"));
    assert_eq!(o.transition, DisplayTransition::CrossFade);
    assert_eq!(plan_feedback("5", &reg).unwrap().0, Glyph::empty());
    assert_eq!(plan_feedback(r#"{"status":7}"#, &reg).unwrap().0, Glyph::empty());
    assert!(plan_feedback(r#"{"status":"paused"}"#, &reg).is_none());
}

#[test]
fn incoming_messages_are_routed() {
    match route_incoming("system/glyphs/play", b"{}".to_vec()) {
        IncomingMessage::GlyphUpdate { name, payload } => {
            assert_eq!(name, "play");
            assert_eq!(payload, b"{}".to_vec());
        }
        other => panic!("unexpected {:?}", other),
    }
    match route_incoming("device/nuimo/x/feedback/y", "{\"a\":1}".as_bytes().to_vec()) {
        IncomingMessage::Feedback { topic, payload } => {
            assert_eq!(topic, "device/nuimo/x/feedback/y");
            assert_eq!(payload, "{\"a\":1}");
        }
        other => panic!("unexpected {:?}", other),
    }
    assert!(matches!(
        route_incoming("device/nuimo/x/feedback/y", vec![0xff, 0xfe]),
        IncomingMessage::Dropped
    ));
    assert!(matches!(
        route_incoming("system/glyphs/a/b", b"x".to_vec()),
        IncomingMessage::Feedback { .. }
    ));
}

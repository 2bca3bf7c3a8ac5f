use nuimo::config::{Config, DEFAULT_BROKER_URL};
use nuimo::device::{
    clear_display_options, display_payload, led_matrix_target, EventCache, LED_MATRIX_NAME,
};
use nuimo::discovery::{is_nuimo, report_if_nuimo};
use nuimo::glyphs;
use nuimo::text::{parse_decimal, rsplit_once, signed_text, strip_prefix, unsigned_text};
use nuimo::{DisplayOptions, DisplayTransition, Glyph, NuimoError, NuimoEvent};

fn count(g: &Glyph) -> u32 {
    g.to_bitmap().iter().map(|b| b.count_ones()).sum()
}

/// The volume glyph as the float formula and text grid draw it.
fn float_volume(percentage: u8) -> Glyph {
    let bars = ((percentage as f64 / 100.0) * 9.0).round() as usize;
    let mut rows = String::new();
    for row in 0..9 {
        let from_bottom = 8 - row;
        if from_bottom < bars {
            rows.push_str("    *    ");
        } else {
            rows.push_str("         ");
        }
        if row < 8 {
            rows.push('\n');
        }
    }
    Glyph::from_str(&rows)
}

#[test]
fn volume_matches_float_rounding() {
    for p in 0..=255u8 {
        assert_eq!(glyphs::volume(p), float_volume(p), "percentage {}", p);
    }
    assert_eq!(count(&glyphs::volume(0)), 0);
    assert_eq!(count(&glyphs::volume(50)), 5);
    assert_eq!(count(&glyphs::volume(100)), 9);
}

#[test]
fn link_and_empty_glyphs() {
    let link = glyphs::link();
    assert_eq!(count(&link), 20);
    assert_eq!(glyphs::empty(), Glyph::empty());
    let same = Glyph::from_str(
        "         \n\
          ** **  \n\
         *  * * \n\
         *    * \n\
          *  *  \n\
         *    * \n\
         * *  * \n\
          ** **  \n\
                  ",
    );
    assert_eq!(link, same);
}

#[test]
fn discovery_recognises_nuimo_name() {
    assert!(is_nuimo(&Some("Nuimo".to_string())));
    assert!(!is_nuimo(&Some("nuimo".to_string())));
    assert!(!is_nuimo(&None));
    let d = report_if_nuimo(Some("Nuimo".into()), "AA:BB".into(), "hci0").unwrap();
    assert_eq!((d.address.as_str(), d.name.as_str(), d.adapter.as_str()), ("AA:BB", "Nuimo", "hci0"));
    assert!(report_if_nuimo(Some("Other".into()), "AA".into(), "hci0").is_none());
    assert!(report_if_nuimo(None, "AA".into(), "hci0").is_none());
}

#[test]
fn config_defaults() {
    let c = Config::from_vars(None, None, None);
    assert_eq!(c.broker_url, DEFAULT_BROKER_URL);
    assert_eq!(c.broker_url, "mqtt://localhost:1883");
    let c = Config::from_vars(Some("tcp://x:1".into()), Some("u".into()), Some("p".into()));
    assert_eq!(c.broker_url, "tcp://x:1");
    assert_eq!(c.broker_user.as_deref(), Some("u"));
    assert_eq!(c.broker_password.as_deref(), Some("p"));
}

#[test]
fn event_cache_keeps_last_reports() {
    let mut c = EventCache::new();
    assert_eq!(c.battery_level(), None);
    c.observe(&NuimoEvent::BatteryLevel(80));
    c.observe(&NuimoEvent::ButtonDown);
    c.observe(&NuimoEvent::Rssi(-60));
    c.observe(&NuimoEvent::BatteryLevel(79));
    assert_eq!(c.battery_level(), Some(79));
    assert_eq!(c.rssi, Some(-60));
}

#[test]
fn display_payload_needs_connection() {
    let g = Glyph::filled();
    let o = DisplayOptions::default();
    assert!(matches!(display_payload(false, &g, &o), Err(NuimoError::NotConnected)));
    assert_eq!(display_payload(true, &g, &o).unwrap(), g.to_display_bytes(&o));
    assert!(led_matrix_target(true).is_ok());
    match led_matrix_target(false) {
        Err(NuimoError::CharacteristicNotFound(name)) => assert_eq!(name, LED_MATRIX_NAME),
        other => panic!("unexpected {:?}", other),
    }
    let c = clear_display_options();
    assert_eq!((c.brightness, c.timeout_ms, c.transition), (0, 0, DisplayTransition::CrossFade));
    let bytes = Glyph::empty().to_display_bytes(&c);
    assert_eq!(bytes, vec![0u8; 13]);
}

#[test]
fn text_helpers() {
    assert_eq!(strip_prefix("mqtt://h", "mqtt://"), Some("h"));
    assert_eq!(strip_prefix("mqt", "mqtt://"), None);
    assert_eq!(rsplit_once("a:b:c", ':'), Some(("a:b", "c")));
    assert_eq!(rsplit_once("abc", ':'), None);
    assert_eq!(rsplit_once("é:ü", ':'), Some(("é", "ü")));
    assert_eq!(parse_decimal("65535", 65535), Some(65535));
    assert_eq!(parse_decimal("65536", 65535), None);
    assert_eq!(parse_decimal("0", 255), Some(0));
    assert_eq!(unsigned_text(1234567890123), "1234567890123");
    assert_eq!(signed_text(-42), "-42");
    assert_eq!(signed_text(i64::MIN), i64::MIN.to_string());
    assert_eq!(signed_text(i64::MAX), i64::MAX.to_string());
}

#[test]
fn volume_bar_grows_with_percentage() {
    for p in 0..255u8 {
        let low = glyphs::volume(p).to_bitmap();
        let high = glyphs::volume(p + 1).to_bitmap();
        for i in 0..11 {
            assert_eq!(low[i] & !high[i], 0, "percentage {}", p);
        }
    }
}

#[test]
fn distinct_glyphs_have_distinct_bitmaps() {
    let a = Glyph::from_str("*");
    let b = Glyph::from_str(" *");
    assert_ne!(a, b);
    assert_ne!(a.to_bitmap(), b.to_bitmap());
    assert_eq!(Glyph::from_str("*").to_bitmap(), Glyph::from_str("*\n\n").to_bitmap());
}

//! Decisions of the MQTT bridge: topics and publications, the broker
//! endpoint, the mapping of Nuimo events to input primitives, the glyph
//! shown for a feedback message, and the heartbeat schedule.
//!
//! Topic layout:
//!   Publish: `device/nuimo/{id}/input/{primitive}` and `device/nuimo/{id}/state/{state}`
//!   Subscribe: `device/nuimo/{id}/feedback/#` and `system/glyphs/+`
use vstd::prelude::*;
use crate::config::Config;
use crate::event::NuimoEvent;
use crate::glyph::{text_pixels, uniform_pixels, DisplayOptions, DisplayTransition, Glyph};
use crate::glyphs::{volume, volume_pixels};
use crate::registry::{glyph_topic_name, topic_to_name, GlyphRegistry};
use vstd::utf8::{decode_utf8, valid_utf8};
use crate::text::{
    last_index_of,
    law_split_at_last_occurrence,
    parse_decimal,
    parse_unsigned,
    rsplit_once,
    signed_decimal,
    signed_text,
    strip_prefix,
    decimal,
    unsigned_text,
};

verus! {

broadcast use vstd::string::group_string_axioms;

/// Subscription filter of the glyph registry.
pub const GLYPH_TOPIC_FILTER: &'static str = "system/glyphs/+";

/// MQTT client identifier of the bridge.
pub const CLIENT_ID: &'static str = "nuimo-mqtt";

/// Port used when the broker URL gives none (or an unreadable one).
pub const DEFAULT_BROKER_PORT: u16 = 1883;

/// Keep-alive interval of the MQTT connection, in seconds.
pub const KEEP_ALIVE_SECS: u64 = 30;

/// Seconds between two heartbeat ticks.
pub const HEARTBEAT_INTERVAL_SECS: u64 = 4;

/// Heartbeat ticks after which the heartbeat stops (20 minutes).
pub const HEARTBEAT_TICK_LIMIT: u32 = 300;

/// RSSI value the heartbeat publishes.
pub const HEARTBEAT_RSSI: i16 = -50;

/// Display timeout of a feedback glyph, in milliseconds.
pub const FEEDBACK_TIMEOUT_MS: u32 = 1000;

/// Display timeout of the link glyph shown on connection, in milliseconds.
pub const LINK_TIMEOUT_MS: u32 = 3000;

/// Whether two texts are equal.
fn same_text(a: &str, b: &str) -> (same: bool)
    ensures
        same == (a@ == b@),
{
    let a = String::from_str(a);
    let b = String::from_str(b);
    a == b
}

/// Text of the topic path `device/nuimo/{id}/{kind}/{leaf}`.
pub open spec fn device_topic(device_id: Seq<char>, kind: Seq<char>, leaf: Seq<char>) -> Seq<char> {
    "device/nuimo/"@ + device_id + "/"@ + kind + "/"@ + leaf
}

fn device_topic_text(device_id: &str, kind: &str, leaf: &str) -> (t: String)
    ensures
        t@ == device_topic(device_id@, kind@, leaf@),
{
    let mut t = String::from_str("device/nuimo/");
    t.append(device_id);
    t.append("/");
    t.append(kind);
    t.append("/");
    t.append(leaf);
    t
}

/// Subscription filter for the feedback of a device: `device/nuimo/{id}/feedback/#`.
pub fn feedback_topic_filter(device_id: &str) -> (t: String)
    ensures
        t@ == device_topic(device_id@, "feedback"@, "#"@),
{
    device_topic_text(device_id, "feedback", "#")
}

/// Topic of an input primitive: `device/nuimo/{id}/input/{primitive}`.
pub fn input_topic(device_id: &str, primitive_name: &str) -> (t: String)
    ensures
        t@ == device_topic(device_id@, "input"@, primitive_name@),
{
    device_topic_text(device_id, "input", primitive_name)
}

/// Topic of a device state: `device/nuimo/{id}/state/{state}`.
pub fn state_topic(device_id: &str, state: &str) -> (t: String)
    ensures
        t@ == device_topic(device_id@, "state"@, state@),
{
    device_topic_text(device_id, "state", state)
}

/// Delivery guarantee of a publication.
#[derive(Debug, Clone, Copy, PartialEq, Eq, Structural)]
pub enum Delivery {
    AtMostOnce,
    AtLeastOnce,
}

/// A message for the broker.
#[derive(Debug)]
pub struct Publication {
    pub topic: String,
    pub delivery: Delivery,
    pub retain: bool,
    pub payload: String,
}

/// An input primitive, published at most once and not retained, with the
/// given JSON payload.
pub fn input_publication(device_id: &str, primitive_name: &str, payload: String) -> (p: Publication)
    ensures
        p.topic@ == device_topic(device_id@, "input"@, primitive_name@),
        p.delivery == Delivery::AtMostOnce,
        !p.retain,
        p.payload@ == payload@,
{
    Publication {
        topic: input_topic(device_id, primitive_name),
        delivery: Delivery::AtMostOnce,
        retain: false,
        payload,
    }
}

/// Battery level as retained device state, in decimal.
pub fn battery_publication(device_id: &str, level: u8) -> (p: Publication)
    ensures
        p.topic@ == device_topic(device_id@, "state"@, "battery"@),
        p.delivery == Delivery::AtLeastOnce,
        p.retain,
        p.payload@ == decimal(level as nat),
{
    Publication {
        topic: state_topic(device_id, "battery"),
        delivery: Delivery::AtLeastOnce,
        retain: true,
        payload: unsigned_text(level as u64),
    }
}

/// RSSI as retained device state, in decimal.
pub fn rssi_publication(device_id: &str, rssi: i16) -> (p: Publication)
    ensures
        p.topic@ == device_topic(device_id@, "state"@, "rssi"@),
        p.delivery == Delivery::AtLeastOnce,
        p.retain,
        p.payload@ == signed_decimal(rssi as int),
{
    Publication {
        topic: state_topic(device_id, "rssi"),
        delivery: Delivery::AtLeastOnce,
        retain: true,
        payload: signed_text(rssi as i64),
    }
}

/// The device-connected state, retained.
pub fn connected_publication(device_id: &str) -> (p: Publication)
    ensures
        p.topic@ == device_topic(device_id@, "state"@, "connected"@),
        p.delivery == Delivery::AtLeastOnce,
        p.retain,
        p.payload@ == "true"@,
{
    Publication {
        topic: state_topic(device_id, "connected"),
        delivery: Delivery::AtLeastOnce,
        retain: true,
        payload: String::from_str("true"),
    }
}

/// The input primitives the bridge publishes.
#[derive(Debug, Clone, Copy, PartialEq, Eq, Structural)]
pub enum InputPrimitive {
    Press,
    Release,
    Rotate,
    SwipeUp,
    SwipeDown,
    SwipeLeft,
    SwipeRight,
    TouchTop,
    TouchBottom,
    TouchLeft,
    TouchRight,
    LongTouchLeft,
    LongTouchRight,
    LongTouchBottom,
    LongTouchTop,
    Hover,
}

/// Topic name of an input primitive.
pub open spec fn primitive_text(p: InputPrimitive) -> Seq<char> {
    match p {
        InputPrimitive::Press => "press"@,
        InputPrimitive::Release => "release"@,
        InputPrimitive::Rotate => "rotate"@,
        InputPrimitive::SwipeUp => "swipe_up"@,
        InputPrimitive::SwipeDown => "swipe_down"@,
        InputPrimitive::SwipeLeft => "swipe_left"@,
        InputPrimitive::SwipeRight => "swipe_right"@,
        InputPrimitive::TouchTop => "touch_top"@,
        InputPrimitive::TouchBottom => "touch_bottom"@,
        InputPrimitive::TouchLeft => "touch_left"@,
        InputPrimitive::TouchRight => "touch_right"@,
        InputPrimitive::LongTouchLeft => "long_touch_left"@,
        InputPrimitive::LongTouchRight => "long_touch_right"@,
        InputPrimitive::LongTouchBottom => "long_touch_bottom"@,
        InputPrimitive::LongTouchTop => "long_touch_top"@,
        InputPrimitive::Hover => "hover"@,
    }
}

/// Topic name of an input primitive.
pub fn primitive_name(p: InputPrimitive) -> (name: &'static str)
    ensures
        name@ == primitive_text(p),
{
    match p {
        InputPrimitive::Press => "press",
        InputPrimitive::Release => "release",
        InputPrimitive::Rotate => "rotate",
        InputPrimitive::SwipeUp => "swipe_up",
        InputPrimitive::SwipeDown => "swipe_down",
        InputPrimitive::SwipeLeft => "swipe_left",
        InputPrimitive::SwipeRight => "swipe_right",
        InputPrimitive::TouchTop => "touch_top",
        InputPrimitive::TouchBottom => "touch_bottom",
        InputPrimitive::TouchLeft => "touch_left",
        InputPrimitive::TouchRight => "touch_right",
        InputPrimitive::LongTouchLeft => "long_touch_left",
        InputPrimitive::LongTouchRight => "long_touch_right",
        InputPrimitive::LongTouchBottom => "long_touch_bottom",
        InputPrimitive::LongTouchTop => "long_touch_top",
        InputPrimitive::Hover => "hover",
    }
}

/// What the bridge does with a Nuimo event.
#[derive(Debug, Clone, Copy, PartialEq, Eq, Structural)]
pub enum BridgeAction {
    /// Publish the input primitive (its payload carries the rotation delta
    /// or the hover proximity, and is empty otherwise).
    Input(InputPrimitive),
    /// Publish the battery level as device state.
    Battery(u8),
    /// Publish the RSSI as device state.
    Rssi(i16),
    /// Publish nothing.
    Ignore,
}

/// The action for an event. Flies in the air are published as swipes.
pub open spec fn action_for(event: NuimoEvent) -> BridgeAction {
    match event {
        NuimoEvent::ButtonDown => BridgeAction::Input(InputPrimitive::Press),
        NuimoEvent::ButtonUp => BridgeAction::Input(InputPrimitive::Release),
        NuimoEvent::Rotate { .. } => BridgeAction::Input(InputPrimitive::Rotate),
        NuimoEvent::SwipeUp => BridgeAction::Input(InputPrimitive::SwipeUp),
        NuimoEvent::SwipeDown => BridgeAction::Input(InputPrimitive::SwipeDown),
        NuimoEvent::SwipeLeft => BridgeAction::Input(InputPrimitive::SwipeLeft),
        NuimoEvent::SwipeRight => BridgeAction::Input(InputPrimitive::SwipeRight),
        NuimoEvent::TouchTop => BridgeAction::Input(InputPrimitive::TouchTop),
        NuimoEvent::TouchBottom => BridgeAction::Input(InputPrimitive::TouchBottom),
        NuimoEvent::TouchLeft => BridgeAction::Input(InputPrimitive::TouchLeft),
        NuimoEvent::TouchRight => BridgeAction::Input(InputPrimitive::TouchRight),
        NuimoEvent::LongTouchLeft => BridgeAction::Input(InputPrimitive::LongTouchLeft),
        NuimoEvent::LongTouchRight => BridgeAction::Input(InputPrimitive::LongTouchRight),
        NuimoEvent::LongTouchBottom => BridgeAction::Input(InputPrimitive::LongTouchBottom),
        NuimoEvent::LongTouchTop => BridgeAction::Input(InputPrimitive::LongTouchTop),
        NuimoEvent::Hover { .. } => BridgeAction::Input(InputPrimitive::Hover),
        NuimoEvent::FlyLeft => BridgeAction::Input(InputPrimitive::SwipeLeft),
        NuimoEvent::FlyRight => BridgeAction::Input(InputPrimitive::SwipeRight),
        NuimoEvent::BatteryLevel(level) => BridgeAction::Battery(level),
        NuimoEvent::Rssi(rssi) => BridgeAction::Rssi(rssi),
        NuimoEvent::Connected => BridgeAction::Ignore,
        NuimoEvent::Disconnected => BridgeAction::Ignore,
    }
}

/// The action for an event. Flies in the air are published as swipes.
pub fn event_action(event: &NuimoEvent) -> (action: BridgeAction)
    ensures
        action == action_for(*event),
{
    match *event {
        NuimoEvent::ButtonDown => BridgeAction::Input(InputPrimitive::Press),
        NuimoEvent::ButtonUp => BridgeAction::Input(InputPrimitive::Release),
        NuimoEvent::Rotate { .. } => BridgeAction::Input(InputPrimitive::Rotate),
        NuimoEvent::SwipeUp => BridgeAction::Input(InputPrimitive::SwipeUp),
        NuimoEvent::SwipeDown => BridgeAction::Input(InputPrimitive::SwipeDown),
        NuimoEvent::SwipeLeft => BridgeAction::Input(InputPrimitive::SwipeLeft),
        NuimoEvent::SwipeRight => BridgeAction::Input(InputPrimitive::SwipeRight),
        NuimoEvent::TouchTop => BridgeAction::Input(InputPrimitive::TouchTop),
        NuimoEvent::TouchBottom => BridgeAction::Input(InputPrimitive::TouchBottom),
        NuimoEvent::TouchLeft => BridgeAction::Input(InputPrimitive::TouchLeft),
        NuimoEvent::TouchRight => BridgeAction::Input(InputPrimitive::TouchRight),
        NuimoEvent::LongTouchLeft => BridgeAction::Input(InputPrimitive::LongTouchLeft),
        NuimoEvent::LongTouchRight => BridgeAction::Input(InputPrimitive::LongTouchRight),
        NuimoEvent::LongTouchBottom => BridgeAction::Input(InputPrimitive::LongTouchBottom),
        NuimoEvent::LongTouchTop => BridgeAction::Input(InputPrimitive::LongTouchTop),
        NuimoEvent::Hover { .. } => BridgeAction::Input(InputPrimitive::Hover),
        NuimoEvent::FlyLeft => BridgeAction::Input(InputPrimitive::SwipeLeft),
        NuimoEvent::FlyRight => BridgeAction::Input(InputPrimitive::SwipeRight),
        NuimoEvent::BatteryLevel(level) => BridgeAction::Battery(level),
        NuimoEvent::Rssi(rssi) => BridgeAction::Rssi(rssi),
        NuimoEvent::Connected => BridgeAction::Ignore,
        NuimoEvent::Disconnected => BridgeAction::Ignore,
    }
}

/// The broker URL without its `mqtt://` or `tcp://` scheme.
pub open spec fn without_scheme(url: Seq<char>) -> Seq<char> {
    if "mqtt://"@.is_prefix_of(url) {
        url.skip("mqtt://"@.len() as int)
    } else if "tcp://"@.is_prefix_of(url) {
        url.skip("tcp://"@.len() as int)
    } else {
        url
    }
}

/// Host and port of a broker URL: split at the last `':'` after the
/// scheme; a missing or unreadable port is 1883.
pub open spec fn broker_endpoint(url: Seq<char>) -> (Seq<char>, int) {
    let rest = without_scheme(url);
    match last_index_of(rest, ':') {
        Some(k) => (
            rest.take(k),
            match parse_unsigned(rest.skip(k + 1), 65535) {
                Some(p) => p,
                None => DEFAULT_BROKER_PORT as int,
            },
        ),
        None => (rest, DEFAULT_BROKER_PORT as int),
    }
}

/// Host and port of a broker URL such as `mqtt://host:1883`.
pub fn broker_host_port(url: &str) -> (hp: (String, u16))
    ensures
        hp.0@ == broker_endpoint(url@).0,
        hp.1 as int == broker_endpoint(url@).1,
{
    let stripped = match strip_prefix(url, "mqtt://") {
        Some(rest) => rest,
        None => match strip_prefix(url, "tcp://") {
            Some(rest) => rest,
            None => url,
        },
    };
    proof {
        if "mqtt://"@.is_prefix_of(url@) {
            assert(stripped@ =~= url@.skip("mqtt://"@.len() as int));
        } else if "tcp://"@.is_prefix_of(url@) {
            assert(stripped@ =~= url@.skip("tcp://"@.len() as int));
        }
    }
    match rsplit_once(stripped, ':') {
        Some((host, port)) => {
            let port: u16 = match parse_decimal(port, 65535) {
                Some(p) => p as u16,
                None => DEFAULT_BROKER_PORT,
            };
            (String::from_str(host), port)
        },
        None => (String::from_str(stripped), DEFAULT_BROKER_PORT),
    }
}

/// What the MQTT client is created with.
#[derive(Debug)]
pub struct BrokerSettings {
    pub client_id: String,
    pub host: String,
    pub port: u16,
    pub keep_alive_secs: u64,
    /// User name and password, given only when both are configured.
    pub credentials: Option<(String, String)>,
}

/// Client settings for a configuration.
pub fn broker_settings(config: &Config) -> (s: BrokerSettings)
    ensures
        s.client_id@ == CLIENT_ID@,
        s.host@ == broker_endpoint(config.broker_url@).0,
        s.port as int == broker_endpoint(config.broker_url@).1,
        s.keep_alive_secs == KEEP_ALIVE_SECS,
        s.credentials is Some <==> (config.broker_user is Some && config.broker_password is Some),
        s.credentials matches Some((u, p)) ==> u@ == config.broker_user->0@ && p@
            == config.broker_password->0@,
{
    let (host, port): (String, u16) = broker_host_port(config.broker_url.as_str());
    let credentials = match (&config.broker_user, &config.broker_password) {
        (Some(user), Some(pass)) => Some((user.clone(), pass.clone())),
        _ => None,
    };
    BrokerSettings {
        client_id: String::from_str(CLIENT_ID),
        host,
        port,
        keep_alive_secs: KEEP_ALIVE_SECS,
        credentials,
    }
}

/// A field of a JSON object as the feedback logic reads it.
#[derive(Debug)]
pub enum JsonField {
    /// A JSON string.
    Text(String),
    /// A JSON number that is a non-negative integer.
    Unsigned(u64),
    /// Anything else, or no such field.
    Other,
}

/// What a JSON field holds, as the feedback logic reads it.
pub enum JsonFieldView {
    Text(Seq<char>),
    Unsigned(u64),
    Other,
}

impl View for JsonField {
    type V = JsonFieldView;

    open spec fn view(&self) -> JsonFieldView {
        match self {
            JsonField::Text(s) => JsonFieldView::Text(s@),
            JsonField::Unsigned(v) => JsonFieldView::Unsigned(*v),
            JsonField::Other => JsonFieldView::Other,
        }
    }
}

/// The fields of a feedback message: `status` and `percentage`.
#[derive(Debug)]
pub struct ReactionBody {
    pub status: JsonField,
    pub percentage: JsonField,
}

/// The status text of a feedback message: the `status` string, or empty.
pub open spec fn status_of(f: JsonFieldView) -> Seq<char> {
    match f {
        JsonFieldView::Text(s) => s,
        _ => Seq::<char>::empty(),
    }
}

/// The percentage of a feedback message: a `percentage` string read as a
/// `u8`, or a `percentage` number truncated to its low byte; 0 otherwise.
pub open spec fn percentage_of(f: JsonFieldView) -> u8 {
    match f {
        JsonFieldView::Text(s) => match parse_unsigned(s, 255) {
            Some(v) => v as u8,
            None => 0,
        },
        JsonFieldView::Unsigned(v) => (v % 256) as u8,
        JsonFieldView::Other => 0,
    }
}

/// The percentage of a feedback message.
pub fn reaction_percentage(f: &JsonField) -> (p: u8)
    ensures
        p == percentage_of(f@),
{
    match f {
        JsonField::Text(s) => match parse_decimal(s.as_str(), 255) {
            Some(v) => v as u8,
            None => 0,
        },
        JsonField::Unsigned(v) => (*v % 256) as u8,
        JsonField::Other => 0,
    }
}

/// The registry glyph shown for a status.
pub open spec fn feedback_glyph(status: Seq<char>) -> Option<Seq<char>> {
    if status == "playing"@ {
        Some("play"@)
    } else if status == "paused"@ {
        Some("pause"@)
    } else if status == "next"@ {
        Some("next"@)
    } else if status == "previous"@ {
        Some("previous"@)
    } else {
        None
    }
}

/// The registry glyph shown for a status.
pub fn feedback_glyph_name(status: &str) -> (name: Option<&'static str>)
    ensures
        match name {
            Some(n) => feedback_glyph(status@) == Some(n@),
            None => feedback_glyph(status@) is None,
        },
{
    if same_text(status, "playing") {
        Some("play")
    } else if same_text(status, "paused") {
        Some("pause")
    } else if same_text(status, "next") {
        Some("next")
    } else if same_text(status, "previous") {
        Some("previous")
    } else {
        None
    }
}

/// Whether a status is a volume change, drawn as the volume bar.
pub open spec fn is_volume_change(status: Seq<char>) -> bool {
    status == "volumeChange"@
}

/// A feedback plan that shows `pixels` at full brightness for one second
/// with the given transition.
pub open spec fn shows(
    plan: Option<(Glyph, DisplayOptions)>,
    pixels: Seq<Seq<bool>>,
    transition: DisplayTransition,
) -> bool {
    match plan {
        Some((g, o)) => {
            &&& g@ == pixels
            &&& o.brightness == 255
            &&& o.timeout_ms == FEEDBACK_TIMEOUT_MS
            &&& o.transition == transition
        },
        None => false,
    }
}

/// The feedback shown for a message with the given `status` and
/// `percentage` fields: a volume change shows the volume bar immediately;
/// a known status shows its registry glyph with a cross-fade (nothing while
/// the registry lacks it or marks it builtin); any other status clears the
/// display with a cross-fade.
pub open spec fn is_feedback_plan(
    plan: Option<(Glyph, DisplayOptions)>,
    status_field: JsonFieldView,
    percentage_field: JsonFieldView,
    registry: Map<Seq<char>, (Seq<char>, Seq<char>, bool)>,
) -> bool {
    let status = status_of(status_field);
    if is_volume_change(status) {
        shows(plan, volume_pixels(percentage_of(percentage_field)), DisplayTransition::Immediate)
    } else {
        match feedback_glyph(status) {
            Some(name) => if registry.contains_key(name) && !registry[name].2 {
                shows(plan, text_pixels(registry[name].1), DisplayTransition::CrossFade)
            } else {
                plan is None
            },
            None => shows(plan, uniform_pixels(false), DisplayTransition::CrossFade),
        }
    }
}

/// The glyph and options to display for a feedback message, or `None`
/// when nothing is shown: a volume change shows the volume bar
/// immediately; a known status shows its registry glyph with a cross-fade
/// (nothing while the registry lacks it or marks it builtin); any other
/// status clears the display with a cross-fade. Feedback is shown at full
/// brightness for one second.
pub fn plan_reaction(body: &ReactionBody, registry: &GlyphRegistry) -> (plan: Option<
    (Glyph, DisplayOptions),
>)
    ensures
        is_feedback_plan(plan, body.status@, body.percentage@, registry@),
{
    let status: &str = match &body.status {
        JsonField::Text(s) => s.as_str(),
        _ => "",
    };
    proof {
        reveal_strlit("");
        assert(status@ =~= status_of(body.status@));
    }
    let percentage: u8 = reaction_percentage(&body.percentage);
    if same_text(status, "volumeChange") {
        let options = DisplayOptions {
            brightness: 255,
            timeout_ms: FEEDBACK_TIMEOUT_MS,
            transition: DisplayTransition::Immediate,
        };
        return Some((volume(percentage), options));
    }
    let options = DisplayOptions {
        brightness: 255,
        timeout_ms: FEEDBACK_TIMEOUT_MS,
        transition: DisplayTransition::CrossFade,
    };
    match feedback_glyph_name(status) {
        Some(name) => match registry.get(name) {
            Some(entry) => {
                if entry.builtin {
                    None
                } else {
                    Some((Glyph::from_str(entry.pattern.as_str()), options))
                }
            },
            None => None,
        },
        None => Some((Glyph::empty(), options)),
    }
}

/// The `status` and `percentage` fields that serde_json reads from a
/// feedback payload (a JSON string, a non-negative integer, or anything
/// else), or `None` where the payload is not JSON.
pub uninterp spec fn reaction_from_json(payload: Seq<char>) -> Option<(JsonFieldView, JsonFieldView)>;

/// Decodes a feedback payload with `serde_json::from_str::<serde_json::Value>`
/// and reads its `status` and `percentage` entries (`Value::as_str`,
/// `Value::as_u64`).
///
/// Trusted: the result is the value `reaction_from_json` names for the
/// payload text (decoding depends on the text alone); JSON syntax is not
/// restated.
#[verifier::external_body]
fn decode_reaction(payload: &str) -> (b: Option<ReactionBody>)
    ensures
        match b {
            Some(b) => reaction_from_json(payload@) == Some((b.status@, b.percentage@)),
            None => reaction_from_json(payload@) is None,
        },
{
    let v: serde_json::Value = serde_json::from_str(payload).ok()?;
    let (s, p) = (&v["status"], &v["percentage"]);
    let status = match (s.as_str(), s.as_u64()) {
        (Some(t), _) => JsonField::Text(t.to_string()),
        (None, Some(n)) => JsonField::Unsigned(n),
        (None, None) => JsonField::Other,
    };
    let percentage = match (p.as_str(), p.as_u64()) {
        (Some(t), _) => JsonField::Text(t.to_string()),
        (None, Some(n)) => JsonField::Unsigned(n),
        (None, None) => JsonField::Other,
    };
    Some(ReactionBody { status, percentage })
}

/// The glyph and options to display for a feedback payload: nothing for a
/// payload that is not JSON, otherwise the plan for its fields.
pub fn plan_feedback(payload: &str, registry: &GlyphRegistry) -> (plan: Option<(Glyph, DisplayOptions)>)
    ensures
        match reaction_from_json(payload@) {
            Some((status, percentage)) => is_feedback_plan(plan, status, percentage, registry@),
            None => plan is None,
        },
{
    match decode_reaction(payload) {
        Some(body) => plan_reaction(&body, registry),
        None => None,
    }
}

/// Seconds the bridge waits after an MQTT connection error before polling again.
pub const MQTT_RETRY_SECS: u64 = 5;

/// Decodes UTF-8 text with `String::from_utf8`.
///
/// Trusted: std documents that it succeeds exactly when the bytes are valid
/// UTF-8 and then holds the characters they encode.
#[verifier::external_body]
fn utf8_text(bytes: Vec<u8>) -> (t: Option<String>)
    ensures
        t is Some <==> valid_utf8(bytes@),
        t matches Some(s) ==> s@ == decode_utf8(bytes@),
{
    String::from_utf8(bytes).ok()
}

/// Where an incoming MQTT message goes.
#[derive(Debug)]
pub enum IncomingMessage {
    /// A retained glyph publish, for the registry under `name`.
    GlyphUpdate { name: String, payload: Vec<u8> },
    /// A feedback message, forwarded with its text payload.
    Feedback { topic: String, payload: String },
    /// A feedback message whose payload is not UTF-8, dropped.
    Dropped,
}

/// Route an incoming message: a glyph topic goes to the registry with its
/// raw payload; any other message is forwarded as feedback when its payload
/// is UTF-8 text, and dropped otherwise.
pub fn route_incoming(topic: &str, payload: Vec<u8>) -> (m: IncomingMessage)
    ensures
        match glyph_topic_name(topic@) {
            Some(name) => m matches IncomingMessage::GlyphUpdate { name: n, payload: p } && n@
                == name && p@ == payload@,
            None => if valid_utf8(payload@) {
                m matches IncomingMessage::Feedback { topic: t, payload: p } && t@ == topic@ && p@
                    == decode_utf8(payload@)
            } else {
                m is Dropped
            },
        },
{
    match topic_to_name(topic) {
        Some(name) => IncomingMessage::GlyphUpdate { name: String::from_str(name), payload },
        None => match utf8_text(payload) {
            Some(text) => IncomingMessage::Feedback { topic: String::from_str(topic), payload: text },
            None => IncomingMessage::Dropped,
        },
    }
}

/// The heartbeat schedule: every tick publishes the RSSI while the
/// heartbeat is active, for at most `HEARTBEAT_TICK_LIMIT` ticks.
#[derive(Debug, Clone, Copy, PartialEq, Eq, Structural)]
pub struct Heartbeat {
    pub active: bool,
    pub ticks: u32,
}

/// The heartbeat after a tick, and whether the tick publishes.
pub open spec fn heartbeat_tick(h: Heartbeat) -> (Heartbeat, bool) {
    if !h.active {
        (h, false)
    } else {
        let ticks: u32 = if h.ticks == u32::MAX {
            u32::MAX
        } else {
            (h.ticks + 1) as u32
        };
        if ticks > HEARTBEAT_TICK_LIMIT {
            (Heartbeat { active: false, ticks }, false)
        } else {
            (Heartbeat { active: true, ticks }, true)
        }
    }
}

/// Runs the heartbeat through a sequence of steps (`true` = a tick,
/// `false` = activity that wakes it) and counts the publishing ticks.
pub open spec fn heartbeat_run(h: Heartbeat, steps: Seq<bool>) -> (Heartbeat, nat)
    decreases steps.len(),
{
    if steps.len() == 0 {
        (h, 0)
    } else {
        let (next, published): (Heartbeat, bool) = if steps[0] {
            heartbeat_tick(h)
        } else {
            (Heartbeat { active: true, ..h }, false)
        };
        let (end, count): (Heartbeat, nat) = heartbeat_run(next, steps.drop_first());
        (end, count + if published {
            1nat
        } else {
            0nat
        })
    }
}

impl Heartbeat {
    /// An active heartbeat that has not ticked yet.
    pub fn new() -> (h: Self)
        ensures
            h.active,
            h.ticks == 0,
    {
        Heartbeat { active: true, ticks: 0 }
    }

    /// Activity on either side of the bridge re-activates the heartbeat.
    pub fn wake(&mut self)
        ensures
            final(self).active,
            final(self).ticks == old(self).ticks,
    {
        self.active = true;
    }

    /// One tick of the heartbeat timer; `true` when the RSSI is to be published.
    pub fn tick(&mut self) -> (publish: bool)
        ensures
            (*final(self), publish) == heartbeat_tick(*old(self)),
    {
        if !self.active {
            return false;
        }
        self.ticks = self.ticks.saturating_add(1);
        if self.ticks > HEARTBEAT_TICK_LIMIT {
            self.active = false;
            return false;
        }
        true
    }
}

/// However activity and ticks interleave, the heartbeat publishes at most
/// `HEARTBEAT_TICK_LIMIT` times (20 minutes of 4-second ticks) in all.
pub proof fn law_heartbeat_publishes_at_most_limit(h: Heartbeat, steps: Seq<bool>)
    ensures
        heartbeat_run(h, steps).1 + h.ticks <= HEARTBEAT_TICK_LIMIT || (heartbeat_run(h, steps).1
            == 0 && h.ticks >= HEARTBEAT_TICK_LIMIT),
    decreases steps.len(),
{
    if steps.len() > 0 {
        let next = if steps[0] {
            heartbeat_tick(h).0
        } else {
            Heartbeat { active: true, ..h }
        };
        law_heartbeat_publishes_at_most_limit(next, steps.drop_first());
    }
}

/// Flies in the air and swipes on the surface are published as the same
/// primitive, as are all rotations and all hover readings.
pub proof fn law_fly_published_as_swipe(points: i16, steps: u8)
    ensures
        action_for(NuimoEvent::FlyLeft) == action_for(NuimoEvent::SwipeLeft),
        action_for(NuimoEvent::FlyRight) == action_for(NuimoEvent::SwipeRight),
        action_for(NuimoEvent::Rotate { points }) == BridgeAction::Input(InputPrimitive::Rotate),
        action_for(NuimoEvent::Hover { steps }) == BridgeAction::Input(InputPrimitive::Hover),
{
}

/// Whether two events are the same gesture as far as the bridge publishes
/// it: the same event, two rotations, two hover readings, or a fly and the
/// swipe in its direction.
pub open spec fn same_gesture(a: NuimoEvent, b: NuimoEvent) -> bool {
    ||| a == b
    ||| a is Rotate && b is Rotate
    ||| a is Hover && b is Hover
    ||| (a == NuimoEvent::FlyLeft || a == NuimoEvent::SwipeLeft) && (b == NuimoEvent::FlyLeft || b
        == NuimoEvent::SwipeLeft)
    ||| (a == NuimoEvent::FlyRight || a == NuimoEvent::SwipeRight) && (b == NuimoEvent::FlyRight
        || b == NuimoEvent::SwipeRight)
}

/// Distinct gestures are published as distinct primitives: two events give
/// the same input primitive only when they are the same gesture. In
/// particular pressing and releasing the button are told apart, as press
/// and release.
pub proof fn law_primitives_tell_gestures_apart(a: NuimoEvent, b: NuimoEvent)
    ensures
        action_for(a) is Input && action_for(a) == action_for(b) ==> same_gesture(a, b),
        action_for(NuimoEvent::ButtonDown) == BridgeAction::Input(InputPrimitive::Press),
        action_for(NuimoEvent::ButtonUp) == BridgeAction::Input(InputPrimitive::Release),
        action_for(NuimoEvent::ButtonDown) != action_for(NuimoEvent::ButtonUp),
{
}

/// Battery and RSSI reports become device-state publications carrying the
/// reported value, and connection changes publish nothing.
pub proof fn law_state_events_publish_their_value(level: u8, rssi: i16)
    ensures
        action_for(NuimoEvent::BatteryLevel(level)) == BridgeAction::Battery(level),
        action_for(NuimoEvent::Rssi(rssi)) == BridgeAction::Rssi(rssi),
        action_for(NuimoEvent::Connected) == BridgeAction::Ignore,
        action_for(NuimoEvent::Disconnected) == BridgeAction::Ignore,
{
}

proof fn lemma_no_char_no_last_index(s: Seq<char>, c: char)
    requires
        !s.contains(c),
    ensures
        last_index_of(s, c) is None,
{
    law_split_at_last_occurrence(s, c);
    if last_index_of(s, c) is Some {
        let k: int = last_index_of(s, c)->0;
        assert(s[k] == c);
    }
}

proof fn lemma_scheme_removed(rest: Seq<char>)
    ensures
        without_scheme("mqtt://"@ + rest) == rest,
        without_scheme("tcp://"@ + rest) == rest,
{
    reveal_strlit("mqtt://");
    reveal_strlit("tcp://");
    let m = "mqtt://"@;
    let t = "tcp://"@;
    assert((m + rest).take(7) =~= m);
    assert((m + rest).skip(7) =~= rest);
    assert(!m.is_prefix_of(t + rest)) by {
        assert((t + rest)[0] != m[0]);
    }
    assert((t + rest).take(6) =~= t);
    assert((t + rest).skip(6) =~= rest);
}

proof fn lemma_single_colon(h: Seq<char>, port: Seq<char>)
    requires
        !h.contains(':'),
        !port.contains(':'),
    ensures
        last_index_of(h + ":"@ + port, ':') == Some(h.len() as int),
        (h + ":"@ + port).take(h.len() as int) == h,
        (h + ":"@ + port).skip(h.len() as int + 1) == port,
{
    reveal_strlit(":");
    let hp = h + ":"@ + port;
    assert(hp.take(h.len() as int) =~= h);
    assert(hp.skip(h.len() as int + 1) =~= port);
    assert(hp[h.len() as int] == ':');
    law_split_at_last_occurrence(hp, ':');
    match last_index_of(hp, ':') {
        Some(k) => {
            if k < h.len() {
                assert(hp[k] == h[k]);
            } else if k > h.len() {
                assert(hp[k] == port[k - h.len() - 1]);
            }
        },
        None => {},
    }
}

/// The scheme never reaches the host: a broker URL `mqtt://h` or `tcp://h`
/// whose host `h` holds no `':'` names host `h` on port 1883, and with a
/// `:port` suffix it names host `h` on that port when the port reads as a
/// `u16` (1883 otherwise).
pub proof fn law_scheme_is_stripped(h: Seq<char>, port: Seq<char>)
    requires
        !h.contains(':'),
        !port.contains(':'),
    ensures
        broker_endpoint("mqtt://"@ + h) == (h, 1883int),
        broker_endpoint("tcp://"@ + h) == (h, 1883int),
        broker_endpoint("mqtt://"@ + (h + ":"@ + port)) == (h, match parse_unsigned(port, 65535) {
            Some(v) => v,
            None => 1883int,
        }),
        broker_endpoint("tcp://"@ + (h + ":"@ + port)) == (h, match parse_unsigned(port, 65535) {
            Some(v) => v,
            None => 1883int,
        }),
{
    lemma_scheme_removed(h);
    lemma_no_char_no_last_index(h, ':');
    lemma_scheme_removed(h + ":"@ + port);
    lemma_single_colon(h, port);
}

/// Every feedback glyph that is shown is shown at full brightness for one
/// second, and immediately exactly when it is a volume change.
pub proof fn law_feedback_full_brightness(
    plan: Option<(Glyph, DisplayOptions)>,
    status: JsonFieldView,
    percentage: JsonFieldView,
    registry: Map<Seq<char>, (Seq<char>, Seq<char>, bool)>,
)
    requires
        is_feedback_plan(plan, status, percentage, registry),
    ensures
        plan matches Some((g, o)) ==> o.brightness == 255 && o.timeout_ms == 1000 && (o.transition
            == DisplayTransition::Immediate <==> status_of(status) == "volumeChange"@),
{
}

} // verus!

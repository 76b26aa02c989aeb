use fzstream_client::event_parser::{
    determine_event_type, extract_metadata, parse_event, ClientEventParser,
    DefaultClientEventHandler, EventHandler, EventType, HandlerError, LogClientEventHandler,
    ParsedEvent, StatsClientEventHandler,
};
use fzstream_client::json::{JsonMember, JsonNumber, JsonValue};
use fzstream_client::protocol::{EventMetadata, TransactionEvent};

fn object(members: Vec<(&str, JsonValue)>) -> JsonValue {
    JsonValue::Object(
        members
            .into_iter()
            .map(|(k, v)| JsonMember { key: k.to_string(), value: v })
            .collect(),
    )
}

fn event(kind: &str, data: JsonValue, metadata: Option<EventMetadata>) -> TransactionEvent {
    TransactionEvent {
        event_id: "ev-1".to_string(),
        event_type: kind.to_string(),
        timestamp: 42,
        data,
        metadata,
    }
}

#[test]
fn type_names_are_matched_in_lowercase() {
    let data = JsonValue::Null;
    assert_eq!(determine_event_type("PumpFunTrade", &data), EventType::Transaction);
    assert_eq!(determine_event_type("TX", &data), EventType::Transaction);
    assert_eq!(determine_event_type("BlockMeta", &data), EventType::Block);
    assert_eq!(determine_event_type("PoolStateAccount", &data), EventType::Account);
    assert_eq!(determine_event_type("Slot", &data), EventType::Slot);
    assert_eq!(determine_event_type("SIG", &data), EventType::Signature);
}

#[test]
fn unknown_names_are_classified_by_payload_members() {
    let sig = object(vec![("signature", JsonValue::String("abc".into())), ("slot", JsonValue::Number(JsonNumber::PosInt(1)))]);
    assert_eq!(determine_event_type("Mystery", &sig), EventType::Transaction);
    let slot = object(vec![("slot", JsonValue::Number(JsonNumber::PosInt(5)))]);
    assert_eq!(determine_event_type("Mystery", &slot), EventType::Slot);
    let block = object(vec![("block_time", JsonValue::Null)]);
    assert_eq!(determine_event_type("Mystery", &block), EventType::Block);
    let other = object(vec![("x", JsonValue::Bool(true))]);
    assert_eq!(determine_event_type("Mystery", &other), EventType::Custom("Mystery".to_string()));
    assert_eq!(
        determine_event_type("Mystery", &JsonValue::Array(vec![])),
        EventType::Custom("Mystery".to_string())
    );
}

#[test]
fn metadata_is_completed_from_the_payload() {
    let data = object(vec![
        ("slot", JsonValue::Number(JsonNumber::PosInt(77))),
        ("block_time", JsonValue::Number(JsonNumber::NegInt(-1))),
        ("signature", JsonValue::String("sig-1".into())),
        ("source", JsonValue::Number(JsonNumber::PosInt(3))),
    ]);
    let m = extract_metadata(None, &data);
    assert_eq!(m.slot, Some(77));
    assert_eq!(m.block_time, None);
    assert_eq!(m.signature.as_deref(), Some("sig-1"));
    assert_eq!(m.source, None);

    let given = EventMetadata {
        block_time: Some(9),
        slot: Some(1),
        signature: None,
        source: Some("server".into()),
        priority: Some(4),
    };
    let m = extract_metadata(Some(given), &data);
    assert_eq!(m.slot, Some(1));
    assert_eq!(m.block_time, Some(9));
    assert_eq!(m.signature.as_deref(), Some("sig-1"));
    assert_eq!(m.source.as_deref(), Some("server"));
    assert_eq!(m.priority, Some(4));
}

#[test]
fn parse_event_keeps_identity_and_payload() {
    let data = object(vec![("slot", JsonValue::Number(JsonNumber::PosInt(8)))]);
    let parsed = parse_event(event("raydiumclmmswap", data, None));
    assert_eq!(parsed.event_id, "ev-1");
    assert_eq!(parsed.event_type, EventType::Transaction);
    assert_eq!(parsed.timestamp, 42);
    assert_eq!(parsed.metadata.slot, Some(8));
    assert!(matches!(parsed.data, JsonValue::Object(ref m) if m.len() == 1));
    assert_eq!(parsed.data.get("slot").and_then(|v| v.as_u64()), Some(8));
}

struct Recorder {
    seen: Vec<String>,
    tag: &'static str,
    log: std::rc::Rc<std::cell::RefCell<Vec<String>>>,
}

impl EventHandler for Recorder {
    fn handle_event(&mut self, event: &ParsedEvent) -> Result<(), HandlerError> {
        self.seen.push(event.event_id.clone());
        self.log.borrow_mut().push(self.tag.to_string());
        Err(HandlerError { message: "recorded".into() })
    }
}

#[test]
fn handlers_for_the_type_run_before_handlers_for_all_events() {
    let log = std::rc::Rc::new(std::cell::RefCell::new(Vec::new()));
    let mut parser = ClientEventParser::new();
    parser.register_handler(EventType::all_events(), Recorder { seen: vec![], tag: "all", log: log.clone() });
    parser.register_handler(EventType::Slot, Recorder { seen: vec![], tag: "slot-1", log: log.clone() });
    parser.register_handler(EventType::Slot, Recorder { seen: vec![], tag: "slot-2", log: log.clone() });
    parser.register_handler(EventType::Block, Recorder { seen: vec![], tag: "block", log: log.clone() });

    let plan = parser.dispatch_plan(&EventType::Slot);
    assert_eq!(plan, vec![(1, 0), (1, 1), (0, 0)]);

    let parsed = parser.parse_transaction_event(event("slot", JsonValue::Null, None));
    assert_eq!(parsed.event_type, EventType::Slot);
    assert_eq!(*log.borrow(), vec!["slot-1", "slot-2", "all"]);

    log.borrow_mut().clear();
    parser.parse_transaction_event(event("whatever", JsonValue::Null, None));
    assert_eq!(*log.borrow(), vec!["all"]);

    log.borrow_mut().clear();
    parser.parse_transaction_event(event("all", JsonValue::Null, None));
    assert_eq!(*log.borrow(), vec!["all", "all"]);
}

#[test]
fn stats_handler_counts_by_type() {
    let mut stats = StatsClientEventHandler::new();
    let a = parse_event(event("slot", JsonValue::Null, None));
    let b = parse_event(event("block", JsonValue::Null, None));
    assert!(stats.handle_event(&a).is_ok());
    assert!(stats.handle_event(&a).is_ok());
    assert!(stats.handle_event(&b).is_ok());
    let s = stats.get_stats();
    assert_eq!(s.total_events, 3);
    assert_eq!(s.count_for(&EventType::Slot), 2);
    assert_eq!(s.count_for(&EventType::Block), 1);
    assert_eq!(s.count_for(&EventType::Account), 0);
    assert_eq!(s.last_event_time, Some(42));
    assert_eq!(s.events_by_type.len(), 2);
}

#[test]
fn default_and_log_handlers_accept_events() {
    let e = parse_event(event("tx", JsonValue::Null, None));
    let mut d = DefaultClientEventHandler::new("main".to_string());
    assert_eq!(d.name(), "main");
    assert!(d.handle_event(&e).is_ok());
    let mut l = LogClientEventHandler;
    assert!(l.handle_event(&e).is_ok());
}

#[test]
fn json_lookup_takes_first_member() {
    let v = object(vec![("k", JsonValue::Bool(true)), ("k", JsonValue::Bool(false))]);
    assert!(matches!(v.get("k"), Some(JsonValue::Bool(true))));
    assert!(v.contains_key("k"));
    assert!(!v.contains_key("z"));
    assert_eq!(JsonValue::Number(JsonNumber::PosInt(3)).as_u64(), Some(3));
    assert_eq!(JsonValue::Number(JsonNumber::Float(0)).as_u64(), None);
}

#[test]
fn stats_total_is_the_sum_of_counts_by_type() {
    let mut stats = StatsClientEventHandler::new();
    let kinds = ["slot", "block", "tx", "slot", "account", "tx", "tx"];
    for k in kinds {
        assert!(stats.handle_event(&parse_event(event(k, JsonValue::Null, None))).is_ok());
    }
    let s = stats.get_stats();
    let sum: u64 = s.events_by_type.iter().map(|(_, n)| *n).sum();
    assert_eq!(s.total_events, 7);
    assert_eq!(sum, 7);
    assert_eq!(s.events_by_type.len(), 4);
    assert_eq!(s.count_for(&EventType::Transaction), 3);
}

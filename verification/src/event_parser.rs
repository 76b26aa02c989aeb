//! Turning transaction events into classified, metadata-completed events, and handing
//! them to the handlers registered for their type.
use crate::json::{spec_as_str, spec_as_u64, spec_get, JsonNumber, JsonValue};
use crate::protocol::{EventMetadata, TransactionEvent};
use crate::text::{owned, str_eq};
use vstd::prelude::*;
use vstd::string::StringExecFns;

verus! {

/// The type of a parsed event.
#[derive(Debug, Clone, PartialEq, Eq, Hash)]
pub enum EventType {
    Transaction,
    Block,
    Account,
    Slot,
    Signature,
    Custom(String),
}

/// An event type as the contracts see it.
pub enum EventKind {
    Transaction,
    Block,
    Account,
    Slot,
    Signature,
    Custom(Seq<char>),
}

impl View for EventType {
    type V = EventKind;

    open spec fn view(&self) -> EventKind {
        match self {
            EventType::Transaction => EventKind::Transaction,
            EventType::Block => EventKind::Block,
            EventType::Account => EventKind::Account,
            EventType::Slot => EventKind::Slot,
            EventType::Signature => EventKind::Signature,
            EventType::Custom(s) => EventKind::Custom(s@),
        }
    }
}

/// The type under which handlers for every event are registered.
pub open spec fn all_events_kind() -> EventKind {
    EventKind::Custom("all"@)
}

impl EventType {
    /// Whether the two types are the same type.
    pub fn same_as(&self, other: &EventType) -> (r: bool)
        ensures
            r == (self@ == other@),
    {
        match (self, other) {
            (EventType::Transaction, EventType::Transaction) => true,
            (EventType::Block, EventType::Block) => true,
            (EventType::Account, EventType::Account) => true,
            (EventType::Slot, EventType::Slot) => true,
            (EventType::Signature, EventType::Signature) => true,
            (EventType::Custom(a), EventType::Custom(b)) => str_eq(a.as_str(), b.as_str()),
            _ => false,
        }
    }

    /// A copy of this type.
    pub fn duplicate(&self) -> (r: EventType)
        ensures
            r@ == self@,
    {
        match self {
            EventType::Transaction => EventType::Transaction,
            EventType::Block => EventType::Block,
            EventType::Account => EventType::Account,
            EventType::Slot => EventType::Slot,
            EventType::Signature => EventType::Signature,
            EventType::Custom(s) => EventType::Custom(s.clone()),
        }
    }

    /// The type under which handlers for every event are registered.
    pub fn all_events() -> (r: EventType)
        ensures
            r@ == all_events_kind(),
    {
        EventType::Custom(String::from_str("all"))
    }
}

/// A parsed event.
#[derive(Debug)]
pub struct ParsedEvent {
    pub event_id: String,
    pub event_type: EventType,
    pub timestamp: u64,
    pub data: JsonValue,
    pub metadata: EventMetadata,
}

/// Unicode lowercase mapping of `s`, as `str::to_lowercase` computes it.
pub uninterp spec fn lowercase(s: Seq<char>) -> Seq<char>;

/// Whether every character of `s` is ASCII.
pub open spec fn is_ascii_text(s: Seq<char>) -> bool {
    forall|i: int| 0 <= i < s.len() ==> (#[trigger] s[i] as u32) < 128
}

/// `c` with `A` to `Z` made `a` to `z`.
pub open spec fn ascii_lower_char(c: char) -> char {
    if 'A' <= c && c <= 'Z' {
        ((c as u32) + 32) as char
    } else {
        c
    }
}

/// `s` with each ASCII capital letter made small.
pub open spec fn ascii_lower(s: Seq<char>) -> Seq<char> {
    Seq::new(s.len(), |i: int| ascii_lower_char(s[i]))
}

/// Calls `str::to_lowercase`. On ASCII text, Unicode's lowercase mapping makes each capital
/// letter small and keeps every other character.
#[verifier::external_body]
fn to_lowercase(s: &str) -> (r: String)
    ensures
        r@ == lowercase(s@),
        is_ascii_text(s@) ==> r@ == ascii_lower(s@),
{
    s.to_lowercase()
}

/// The type that a lowercased type name names, if it names one.
pub open spec fn named_kind(lowered: Seq<char>) -> Option<EventKind> {
    if lowered == "transaction"@ || lowered == "tx"@ || lowered == "pumpfuntrade"@ || lowered
        == "bonktrade"@ || lowered == "pumpswapbuy"@ || lowered == "pumpswapsell"@ || lowered
        == "raydiumcpmmswap"@ || lowered == "raydiumclmmswap"@ {
        Some(EventKind::Transaction)
    } else if lowered == "block"@ || lowered == "blockmeta"@ {
        Some(EventKind::Block)
    } else if lowered == "account"@ || lowered == "poolstateaccount"@ || lowered
        == "globalconfigaccount"@ || lowered == "ammconfigaccount"@ {
        Some(EventKind::Account)
    } else if lowered == "slot"@ {
        Some(EventKind::Slot)
    } else if lowered == "signature"@ || lowered == "sig"@ {
        Some(EventKind::Signature)
    } else {
        None
    }
}

/// The type of an event whose type name is `name`, lowercased `lowered`, and whose
/// payload is `data`: the type the name names; else, for an object payload, the type its
/// members suggest (`signature`, then `slot`, then `block_time`); else a custom type
/// under the name as given.
pub open spec fn classified_kind(lowered: Seq<char>, name: Seq<char>, data: JsonValue) -> EventKind {
    match named_kind(lowered) {
        Some(k) => k,
        None => if spec_get(data, "signature"@) is Some {
            EventKind::Transaction
        } else if spec_get(data, "slot"@) is Some {
            EventKind::Slot
        } else if spec_get(data, "block_time"@) is Some {
            EventKind::Block
        } else {
            EventKind::Custom(name)
        },
    }
}

/// Classification by name, whatever the payload: a lowercased name of a trade or
/// transaction is a transaction; `block` and `blockmeta` are blocks; the account names are
/// accounts; `slot` is a slot; `signature` and `sig` are signatures.
pub proof fn law_named_types(lowered: Seq<char>, name: Seq<char>, data: JsonValue)
    ensures
        (lowered == "transaction"@ || lowered == "tx"@ || lowered == "pumpfuntrade"@ || lowered
            == "bonktrade"@ || lowered == "pumpswapbuy"@ || lowered == "pumpswapsell"@ || lowered
            == "raydiumcpmmswap"@ || lowered == "raydiumclmmswap"@) ==> classified_kind(
            lowered,
            name,
            data,
        ) == EventKind::Transaction,
        (lowered == "block"@ || lowered == "blockmeta"@) ==> classified_kind(lowered, name, data)
            == EventKind::Block,
        (lowered == "account"@ || lowered == "poolstateaccount"@ || lowered == "globalconfigaccount"@
            || lowered == "ammconfigaccount"@) ==> classified_kind(lowered, name, data)
            == EventKind::Account,
        lowered == "slot"@ ==> classified_kind(lowered, name, data) == EventKind::Slot,
        (lowered == "signature"@ || lowered == "sig"@) ==> classified_kind(lowered, name, data)
            == EventKind::Signature,
{
    reveal_strlit("transaction");
    reveal_strlit("tx");
    reveal_strlit("pumpfuntrade");
    reveal_strlit("bonktrade");
    reveal_strlit("pumpswapbuy");
    reveal_strlit("pumpswapsell");
    reveal_strlit("raydiumcpmmswap");
    reveal_strlit("raydiumclmmswap");
    reveal_strlit("block");
    reveal_strlit("blockmeta");
    reveal_strlit("account");
    reveal_strlit("poolstateaccount");
    reveal_strlit("globalconfigaccount");
    reveal_strlit("ammconfigaccount");
    reveal_strlit("slot");
    reveal_strlit("signature");
    reveal_strlit("sig");
    if lowered == "block"@ || lowered == "blockmeta"@ {
        assert(lowered.len() == 5 || lowered.len() == 9);
        assert(lowered.len() == 9 ==> lowered[1] == 'l');
        assert("bonktrade"@[1] == 'o');
    }
    if lowered == "account"@ || lowered == "poolstateaccount"@ || lowered == "globalconfigaccount"@
        || lowered == "ammconfigaccount"@ {
        assert(lowered.len() == 7 || lowered.len() == 16 || lowered.len() == 19);
    }
    if lowered == "slot"@ {
        assert(lowered.len() == 4);
    }
    if lowered == "signature"@ || lowered == "sig"@ {
        assert(lowered.len() == 3 || lowered.len() == 9);
        assert(lowered[0] == 's');
        assert("bonktrade"@[0] == 'b' && "blockmeta"@[0] == 'b');
    }
}

/// Classification of a name that names no type: by the payload object's members, a
/// `signature` makes a transaction, else a `slot` a slot, else a `block_time` a block;
/// otherwise the type is custom, under the name as given.
pub proof fn law_unnamed_types(lowered: Seq<char>, name: Seq<char>, data: JsonValue)
    requires
        lowered != "transaction"@ && lowered != "tx"@ && lowered != "pumpfuntrade"@ && lowered
            != "bonktrade"@ && lowered != "pumpswapbuy"@ && lowered != "pumpswapsell"@ && lowered
            != "raydiumcpmmswap"@ && lowered != "raydiumclmmswap"@,
        lowered != "block"@ && lowered != "blockmeta"@,
        lowered != "account"@ && lowered != "poolstateaccount"@ && lowered != "globalconfigaccount"@
            && lowered != "ammconfigaccount"@,
        lowered != "slot"@ && lowered != "signature"@ && lowered != "sig"@,
    ensures
        spec_get(data, "signature"@) is Some ==> classified_kind(lowered, name, data)
            == EventKind::Transaction,
        spec_get(data, "signature"@) is None && spec_get(data, "slot"@) is Some ==> classified_kind(
            lowered,
            name,
            data,
        ) == EventKind::Slot,
        spec_get(data, "signature"@) is None && spec_get(data, "slot"@) is None && spec_get(
            data,
            "block_time"@,
        ) is Some ==> classified_kind(lowered, name, data) == EventKind::Block,
        spec_get(data, "signature"@) is None && spec_get(data, "slot"@) is None && spec_get(
            data,
            "block_time"@,
        ) is None ==> classified_kind(lowered, name, data) == EventKind::Custom(name),
{
}

/// The type of an event whose type name, lowercased, is `lowered`, whose name as given
/// is `name` and whose payload is `data`.
pub fn classify_event_type(lowered: &str, name: &str, data: &JsonValue) -> (r: EventType)
    ensures
        r@ == classified_kind(lowered@, name@, *data),
{
    if str_eq(lowered, "transaction") || str_eq(lowered, "tx") || str_eq(lowered, "pumpfuntrade")
        || str_eq(lowered, "bonktrade") || str_eq(lowered, "pumpswapbuy") || str_eq(
        lowered,
        "pumpswapsell",
    ) || str_eq(lowered, "raydiumcpmmswap") || str_eq(lowered, "raydiumclmmswap") {
        EventType::Transaction
    } else if str_eq(lowered, "block") || str_eq(lowered, "blockmeta") {
        EventType::Block
    } else if str_eq(lowered, "account") || str_eq(lowered, "poolstateaccount") || str_eq(
        lowered,
        "globalconfigaccount",
    ) || str_eq(lowered, "ammconfigaccount") {
        EventType::Account
    } else if str_eq(lowered, "slot") {
        EventType::Slot
    } else if str_eq(lowered, "signature") || str_eq(lowered, "sig") {
        EventType::Signature
    } else if data.contains_key("signature") {
        EventType::Transaction
    } else if data.contains_key("slot") {
        EventType::Slot
    } else if data.contains_key("block_time") {
        EventType::Block
    } else {
        EventType::Custom(owned(name))
    }
}

/// The type of an event whose type name is `name` and whose payload is `data`; the name
/// is compared in lowercase.
pub fn determine_event_type(name: &str, data: &JsonValue) -> (r: EventType)
    ensures
        r@ == classified_kind(lowercase(name@), name@, *data),
        is_ascii_text(name@) ==> r@ == classified_kind(ascii_lower(name@), name@, *data),
{
    let lowered = to_lowercase(name);
    classify_event_type(lowered.as_str(), name, data)
}

/// The payload of an event, ready for classification. Objects, arrays, strings, numbers
/// and booleans are taken as they are, and so is `null`, the one JSON value left: the
/// payload is kept unchanged.
pub fn parse_data_field(data: JsonValue) -> (r: JsonValue)
    ensures
        r == data,
{
    data
}

/// `current` if it is set; else the non-negative integer under `key` in `data`, if any.
pub open spec fn filled_u64(current: Option<u64>, data: JsonValue, key: Seq<char>) -> Option<u64> {
    match current {
        Some(_) => current,
        None => match spec_get(data, key) {
            Some(v) => spec_as_u64(v),
            None => None,
        },
    }
}

/// `current` if it is set; else the string under `key` in `data`, if any.
pub open spec fn filled_text(current: Option<String>, data: JsonValue, key: Seq<char>) -> Option<
    String,
> {
    match current {
        Some(_) => current,
        None => match spec_get(data, key) {
            Some(v) => spec_as_str(v),
            None => None,
        },
    }
}

/// Metadata with nothing set.
pub open spec fn empty_metadata() -> EventMetadata {
    EventMetadata { block_time: None, slot: None, signature: None, source: None, priority: None }
}

/// The metadata an event carries, each of `slot`, `block_time`, `signature` and `source`
/// that it leaves unset taken from the payload's member of that name.
pub open spec fn completed_metadata(metadata: Option<EventMetadata>, data: JsonValue) -> EventMetadata {
    let base = match metadata {
        Some(m) => m,
        None => empty_metadata(),
    };
    EventMetadata {
        block_time: filled_u64(base.block_time, data, "block_time"@),
        slot: filled_u64(base.slot, data, "slot"@),
        signature: filled_text(base.signature, data, "signature"@),
        source: filled_text(base.source, data, "source"@),
        priority: base.priority,
    }
}

fn fill_u64(current: Option<u64>, data: &JsonValue, key: &str) -> (r: Option<u64>)
    ensures
        r == filled_u64(current, *data, key@),
{
    match current {
        Some(_) => current,
        None => match data.get(key) {
            Some(v) => v.as_u64(),
            None => None,
        },
    }
}

fn fill_text(current: Option<String>, data: &JsonValue, key: &str) -> (r: Option<String>)
    ensures
        r == filled_text(current, *data, key@),
{
    match current {
        Some(_) => current,
        None => match data.get(key) {
            Some(v) => match v.as_str() {
                Some(s) => Some(s.clone()),
                None => None,
            },
            None => None,
        },
    }
}

/// Completing metadata from a payload, member by member: a value the event carries is kept;
/// an unset one is taken from the payload object's member of the same name when that is a
/// non-negative integer (`slot`, `block_time`) or a string (`signature`, `source`), and stays
/// unset otherwise. The priority is always the event's own.
pub proof fn law_metadata_completion(metadata: Option<EventMetadata>, data: JsonValue)
    ensures
        ({
            let c = completed_metadata(metadata, data);
            let m = match metadata {
                Some(m) => m,
                None => empty_metadata(),
            };
            &&& m.slot is Some ==> c.slot == m.slot
            &&& m.block_time is Some ==> c.block_time == m.block_time
            &&& m.signature is Some ==> c.signature == m.signature
            &&& m.source is Some ==> c.source == m.source
            &&& m.slot is None ==> c.slot == match spec_get(data, "slot"@) {
                Some(JsonValue::Number(JsonNumber::PosInt(n))) => Some(n),
                _ => None,
            }
            &&& m.block_time is None ==> c.block_time == match spec_get(data, "block_time"@) {
                Some(JsonValue::Number(JsonNumber::PosInt(n))) => Some(n),
                _ => None,
            }
            &&& m.signature is None ==> c.signature == match spec_get(data, "signature"@) {
                Some(JsonValue::String(s)) => Some(s),
                _ => None,
            }
            &&& m.source is None ==> c.source == match spec_get(data, "source"@) {
                Some(JsonValue::String(s)) => Some(s),
                _ => None,
            }
            &&& c.priority == m.priority
        }),
{
}

/// The metadata an event carries, completed from its payload.
pub fn extract_metadata(metadata: Option<EventMetadata>, data: &JsonValue) -> (r: EventMetadata)
    ensures
        r == completed_metadata(metadata, *data),
{
    let base = match metadata {
        Some(m) => m,
        None => EventMetadata {
            block_time: None,
            slot: None,
            signature: None,
            source: None,
            priority: None,
        },
    };
    let slot = fill_u64(base.slot, data, "slot");
    let block_time = fill_u64(base.block_time, data, "block_time");
    let signature = fill_text(base.signature, data, "signature");
    let source = fill_text(base.source, data, "source");
    EventMetadata { block_time, slot, signature, source, priority: base.priority }
}

/// The parsed form of `event`.
pub open spec fn parsed_form(event: TransactionEvent, parsed: ParsedEvent) -> bool {
    &&& parsed.event_id == event.event_id
    &&& parsed.event_type@ == classified_kind(
        lowercase(event.event_type@),
        event.event_type@,
        event.data,
    )
    &&& parsed.timestamp == event.timestamp
    &&& parsed.data == event.data
    &&& parsed.metadata == completed_metadata(event.metadata, event.data)
}

/// Classifies `event` and completes its metadata from its payload.
pub fn parse_event(event: TransactionEvent) -> (r: ParsedEvent)
    ensures
        parsed_form(event, r),
{
    let data = parse_data_field(event.data);
    let event_type = determine_event_type(event.event_type.as_str(), &data);
    let metadata = extract_metadata(event.metadata, &data);
    ParsedEvent { event_id: event.event_id, event_type, timestamp: event.timestamp, data, metadata }
}

/// The failure of an event handler.
#[derive(Debug, Clone)]
pub struct HandlerError {
    pub message: String,
}

/// A handler of parsed events, registered with a parser for one event type.
pub trait EventHandler {
    /// Whether `after` is what handling `event` may make of this handler. A handler that
    /// does not say leaves it open: any handler may come of it.
    open spec fn handled(&self, event: &ParsedEvent, after: &Self) -> bool {
        true
    }

    fn handle_event(&mut self, event: &ParsedEvent) -> (r: Result<(), HandlerError>)
        ensures
            old(self).handled(event, &*final(self)),
    ;
}

/// The handlers registered for one event type, in registration order.
pub struct HandlerGroup<H> {
    event_type: EventType,
    handlers: Vec<H>,
}

/// The position of the first group registered for `kind`, if any.
pub open spec fn group_index<H>(groups: Seq<(EventKind, Seq<H>)>, kind: EventKind) -> Option<int>
    decreases groups.len(),
{
    if groups.len() == 0 {
        None
    } else if groups[0].0 == kind {
        Some(0)
    } else {
        match group_index(groups.drop_first(), kind) {
            Some(i) => Some(i + 1),
            None => None,
        }
    }
}

/// The handlers registered for `kind`, in registration order.
pub open spec fn handlers_for<H>(groups: Seq<(EventKind, Seq<H>)>, kind: EventKind) -> Seq<H> {
    match group_index(groups, kind) {
        Some(g) => groups[g].1,
        None => Seq::empty(),
    }
}

/// Every type has at most one group.
pub open spec fn groups_distinct<H>(groups: Seq<(EventKind, Seq<H>)>) -> bool {
    forall|i: int, j: int| 0 <= i < j < groups.len() ==> groups[i].0 != groups[j].0
}

/// The positions (group, handler) of the handlers of group `g`, in order.
pub open spec fn group_positions<H>(groups: Seq<(EventKind, Seq<H>)>, kind: EventKind) -> Seq<
    (usize, usize),
> {
    match group_index(groups, kind) {
        Some(g) => Seq::new(groups[g].1.len(), |j: int| (g as usize, j as usize)),
        None => Seq::empty(),
    }
}

/// The positions of the handlers an event of type `kind` is handed to, in order: those
/// registered for `kind`, then those registered for every event.
pub open spec fn dispatch_positions<H>(groups: Seq<(EventKind, Seq<H>)>, kind: EventKind) -> Seq<
    (usize, usize),
> {
    group_positions(groups, kind) + group_positions(groups, all_events_kind())
}

/// The handler at position `pos` of `before` handled `event`, which made it the handler at
/// that position in `after`; nothing else changed.
pub open spec fn handled_at<H: EventHandler>(
    before: Seq<(EventKind, Seq<H>)>,
    pos: (usize, usize),
    event: ParsedEvent,
    after: Seq<(EventKind, Seq<H>)>,
) -> bool {
    exists|h: H|
        #[trigger] before[pos.0 as int].1[pos.1 as int].handled(&event, &h) && after == before.update(
            pos.0 as int,
            (before[pos.0 as int].0, before[pos.0 as int].1.update(pos.1 as int, h)),
        )
}

/// `states` are the registries while `event` is handed to the handlers at the positions of
/// `plan`, one after the other: each comes from the one before by the handler at the
/// next position.
pub open spec fn plan_states<H: EventHandler>(
    states: Seq<Seq<(EventKind, Seq<H>)>>,
    plan: Seq<(usize, usize)>,
    event: ParsedEvent,
) -> bool {
    &&& states.len() == plan.len() + 1
    &&& forall|i: int| 0 <= i < plan.len() ==> #[trigger] handled_at(states[i], plan[i], event, states[i + 1])
}

/// `after` is what handing `event` to the handlers at the positions of `plan`, one after
/// the other, makes of `before`.
pub open spec fn ran_plan<H: EventHandler>(
    before: Seq<(EventKind, Seq<H>)>,
    plan: Seq<(usize, usize)>,
    event: ParsedEvent,
    after: Seq<(EventKind, Seq<H>)>,
) -> bool {
    exists|states: Seq<Seq<(EventKind, Seq<H>)>>|
        #[trigger] plan_states(states, plan, event) && states[0] == before && states.last() == after
}

/// Client event parser: classifies events and hands them to registered handlers.
pub struct ClientEventParser<H> {
    groups: Vec<HandlerGroup<H>>,
}

impl<H> View for ClientEventParser<H> {
    type V = Seq<(EventKind, Seq<H>)>;

    closed spec fn view(&self) -> Seq<(EventKind, Seq<H>)> {
        Seq::new(self.groups@.len(), |i: int| (self.groups@[i].event_type@, self.groups@[i].handlers@))
    }
}

/// Two registries with the same types and the same number of handlers for each.
pub open spec fn same_shape<H>(a: Seq<(EventKind, Seq<H>)>, b: Seq<(EventKind, Seq<H>)>) -> bool {
    &&& a.len() == b.len()
    &&& forall|i: int| 0 <= i < a.len() ==> #[trigger] a[i].0 == b[i].0 && a[i].1.len() == b[i].1.len()
}

proof fn lemma_group_index<H>(groups: Seq<(EventKind, Seq<H>)>, kind: EventKind)
    ensures
        group_index(groups, kind) matches Some(g) ==> 0 <= g < groups.len() && groups[g].0 == kind,
        group_index(groups, kind) is None ==> forall|i: int| 0 <= i < groups.len() ==> groups[i].0 != kind,
    decreases groups.len(),
{
    if groups.len() > 0 {
        lemma_group_index(groups.drop_first(), kind);
        if group_index(groups, kind) is None {
            assert forall|i: int| 0 <= i < groups.len() implies groups[i].0 != kind by {
                if i > 0 {
                    assert(groups.drop_first()[i - 1] == groups[i]);
                }
            }
        }
    }
}

proof fn lemma_group_index_shape<H>(a: Seq<(EventKind, Seq<H>)>, b: Seq<(EventKind, Seq<H>)>, kind: EventKind)
    requires
        same_shape(a, b),
    ensures
        group_index(a, kind) == group_index(b, kind),
        group_positions(a, kind) == group_positions(b, kind),
    decreases a.len(),
{
    if a.len() > 0 {
        assert(a[0].0 == b[0].0);
        assert(same_shape(a.drop_first(), b.drop_first())) by {
            assert forall|i: int| 0 <= i < a.drop_first().len() implies #[trigger] a.drop_first()[i].0
                == b.drop_first()[i].0 && a.drop_first()[i].1.len() == b.drop_first()[i].1.len() by {
                assert(a[i + 1].0 == b[i + 1].0);
            }
        }
        lemma_group_index_shape(a.drop_first(), b.drop_first(), kind);
        lemma_group_index(a, kind);
        if let Some(g) = group_index(a, kind) {
            assert(a[g].1.len() == b[g].1.len());
            assert(group_positions(a, kind) =~= group_positions(b, kind));
        }
    }
}

/// Counts of groups and of handlers fit in a `usize`.
pub open spec fn counts_fit<H>(groups: Seq<(EventKind, Seq<H>)>) -> bool {
    &&& groups.len() <= usize::MAX
    &&& forall|i: int| 0 <= i < groups.len() ==> #[trigger] groups[i].1.len() <= usize::MAX
}

proof fn lemma_shape_keeps_wf<H>(a: Seq<(EventKind, Seq<H>)>, b: Seq<(EventKind, Seq<H>)>)
    requires
        same_shape(a, b),
        groups_distinct(a),
        counts_fit(a),
    ensures
        groups_distinct(b),
        counts_fit(b),
{
    assert forall|i: int, j: int| 0 <= i < j < b.len() implies b[i].0 != b[j].0 by {
        assert(a[i].0 == b[i].0 && a[j].0 == b[j].0);
    }
    assert forall|i: int| 0 <= i < b.len() implies #[trigger] b[i].1.len() <= usize::MAX by {
        assert(a[i].0 == b[i].0);
    }
}

proof fn lemma_dispatch_bounds<H>(groups: Seq<(EventKind, Seq<H>)>, kind: EventKind, k: int)
    requires
        0 <= k < dispatch_positions(groups, kind).len(),
        counts_fit(groups),
    ensures
        dispatch_positions(groups, kind)[k].0 < groups.len(),
        dispatch_positions(groups, kind)[k].1 < groups[dispatch_positions(groups, kind)[k].0 as int].1.len(),
{
    lemma_group_index(groups, kind);
    lemma_group_index(groups, all_events_kind());
    let a = group_positions(groups, kind);
    let b = group_positions(groups, all_events_kind());
    if k < a.len() {
        assert(dispatch_positions(groups, kind)[k] == a[k]);
    } else {
        assert(dispatch_positions(groups, kind)[k] == b[k - a.len()]);
    }
}

impl<H> ClientEventParser<H> {
    /// No type has two groups, and the counts fit in a `usize`.
    pub open spec fn wf(&self) -> bool {
        groups_distinct(self@) && counts_fit(self@)
    }
}

impl<H: EventHandler> ClientEventParser<H> {
    pub fn new() -> (p: Self)
        ensures
            p@.len() == 0,
            p.wf(),
    {
        ClientEventParser { groups: Vec::new() }
    }

    /// The position of the group registered for `event_type`, if any.
    fn find_group(&self, event_type: &EventType) -> (r: Option<usize>)
        ensures
            r matches Some(g) ==> group_index(self@, event_type@) == Some(g as int),
            r is None ==> group_index(self@, event_type@) is None,
    {
        let ghost reg = self@;
        let mut i: usize = 0;
        assert(reg.skip(0) =~= reg);
        while i < self.groups.len()
            invariant
                reg == self@,
                i <= reg.len(),
                group_index(reg, event_type@) == match group_index(reg.skip(i as int), event_type@) {
                    Some(j) => Some(j + i),
                    None => None::<int>,
                },
            decreases reg.len() - i,
        {
            if self.groups[i].event_type.same_as(event_type) {
                assert(reg.skip(i as int)[0] == reg[i as int]);
                assert(group_index(reg.skip(i as int), event_type@) == Some(0int));
                return Some(i);
            }
            assert(reg.skip(i as int).drop_first() =~= reg.skip(i + 1));
            i = i + 1;
        }
        assert(reg.skip(i as int).len() == 0);
        None
    }

    /// Registers `handler` for events of type `event_type`, after those already
    /// registered for it.
    pub fn register_handler(&mut self, event_type: EventType, handler: H)
        requires
            old(self).wf(),
        ensures
            final(self).wf(),
            group_index(old(self)@, event_type@) matches Some(g) ==> final(self)@ == old(self)@.update(
                g,
                (event_type@, old(self)@[g].1.push(handler)),
            ),
            group_index(old(self)@, event_type@) is None ==> final(self)@ == old(self)@.push(
                (event_type@, seq![handler]),
            ),
    {
        let ghost reg = self@;
        proof {
            lemma_group_index(reg, event_type@);
        }
        match self.find_group(&event_type) {
            Some(g) => {
                let mut group = self.groups.remove(g);
                group.handlers.push(handler);
                let _count = group.handlers.len();
                self.groups.insert(g, group);
                assert(self@ =~= reg.update(g as int, (event_type@, reg[g as int].1.push(handler))));
                let _groups = self.groups.len();
                assert(counts_fit(self@));
            },
            None => {
                let mut handlers = Vec::new();
                handlers.push(handler);
                self.groups.push(HandlerGroup { event_type, handlers });
                assert(self@ =~= reg.push((event_type@, seq![handler])));
                let _groups = self.groups.len();
                assert(groups_distinct(self@));
                assert(counts_fit(self@));
            },
        }
    }

    /// The positions of the handlers an event of type `event_type` is handed to.
    pub fn dispatch_plan(&self, event_type: &EventType) -> (r: Vec<(usize, usize)>)
        ensures
            r@ == dispatch_positions(self@, event_type@),
    {
        let mut plan: Vec<(usize, usize)> = Vec::new();
        self.push_group_positions(&mut plan, event_type);
        let all = EventType::all_events();
        self.push_group_positions(&mut plan, &all);
        plan
    }

    fn push_group_positions(&self, plan: &mut Vec<(usize, usize)>, event_type: &EventType)
        ensures
            final(plan)@ == old(plan)@ + group_positions(self@, event_type@),
    {
        proof {
            lemma_group_index(self@, event_type@);
        }
        match self.find_group(event_type) {
            Some(g) => {
                let n = self.groups[g].handlers.len();
                let ghost start = plan@;
                let mut j: usize = 0;
                while j < n
                    invariant
                        j <= n,
                        n == self@[g as int].1.len(),
                        plan@ == start + Seq::new(j as nat, |k: int| (g, k as usize)),
                    decreases n - j,
                {
                    plan.push((g, j));
                    j = j + 1;
                    assert(plan@ =~= start + Seq::new(j as nat, |k: int| (g, k as usize)));
                }
                assert(group_positions(self@, event_type@) =~= Seq::new(n as nat, |k: int| (g, k as usize)));
            },
            None => {
                assert(plan@ =~= old(plan)@ + group_positions(self@, event_type@));
            },
        }
    }

    /// Hands `event` to each handler of `dispatch_plan`, in order. A handler's failure does
    /// not stop the others; the registry keeps its types and handlers.
    pub fn call_handlers(&mut self, event: &ParsedEvent)
        requires
            old(self).wf(),
        ensures
            final(self).wf(),
            same_shape(old(self)@, final(self)@),
            ran_plan(old(self)@, dispatch_positions(old(self)@, event.event_type@), *event, final(self)@),
    {
        let plan = self.dispatch_plan(&event.event_type);
        let ghost reg = self@;
        let ghost mut states: Seq<Seq<(EventKind, Seq<H>)>> = seq![reg];
        let mut k: usize = 0;
        while k < plan.len()
            invariant
                same_shape(reg, self@),
                groups_distinct(reg),
                counts_fit(reg),
                plan@ == dispatch_positions(reg, event.event_type@),
                k <= plan@.len(),
                states.len() == k + 1,
                states[0] == reg,
                states[k as int] == self@,
                forall|i: int| 0 <= i < k ==> #[trigger] handled_at(states[i], plan@[i], *event, states[i + 1]),
            decreases plan@.len() - k,
        {
            let (g, j) = plan[k];
            proof {
                lemma_dispatch_bounds(reg, event.event_type@, k as int);
                assert(reg[g as int].0 == self@[g as int].0 && reg[g as int].1.len() == self@[g as int].1.len());
            }
            let ghost prev = self@;
            self.call_one(g, j, event);
            proof {
                let old_states = states;
                states = states.push(self@);
                assert forall|i: int| 0 <= i < k + 1 implies #[trigger] handled_at(
                    states[i],
                    plan@[i],
                    *event,
                    states[i + 1],
                ) by {
                    if i < k {
                        assert(states[i] == old_states[i] && states[i + 1] == old_states[i + 1]);
                    } else {
                        assert(states[i] == prev && states[i + 1] == self@);
                    }
                }
            }
            k = k + 1;
        }
        proof {
            assert(plan_states(states, plan@, *event));
        }
        proof {
            lemma_shape_keeps_wf(reg, self@);
        }
    }

    fn call_one(&mut self, g: usize, j: usize, event: &ParsedEvent)
        requires
            g < old(self)@.len(),
            j < old(self)@[g as int].1.len(),
        ensures
            same_shape(old(self)@, final(self)@),
            handled_at(old(self)@, (g, j), *event, final(self)@),
    {
        let ghost reg = self@;
        let mut group = self.groups.remove(g);
        let mut handlers = Vec::new();
        std::mem::swap(&mut handlers, &mut group.handlers);
        assert(handlers@ == reg[g as int].1);
        let mut handler = handlers.remove(j);
        let ghost before_h = handler;
        let _ = handler.handle_event(event);
        let ghost after_h = handler;
        handlers.insert(j, handler);
        assert(handlers@ =~= reg[g as int].1.update(j as int, after_h));
        std::mem::swap(&mut handlers, &mut group.handlers);
        self.groups.insert(g, group);
        assert(self@ =~= reg.update(g as int, (reg[g as int].0, reg[g as int].1.update(j as int, after_h))));
        let ghost pos = (g, j);
        assert(reg[pos.0 as int].1[pos.1 as int].handled(event, &after_h));
        assert(self@ == reg.update(pos.0 as int, (reg[pos.0 as int].0, reg[pos.0 as int].1.update(pos.1 as int, after_h))));
        assert(handled_at(reg, pos, *event, self@));
        assert forall|i: int| 0 <= i < reg.len() implies #[trigger] reg[i].0 == self@[i].0 && reg[i].1.len()
            == self@[i].1.len() by {
            if i == g {
            } else {
            }
        }
    }

    /// Classifies `event`, completes its metadata, and hands it to the handlers
    /// registered for its type and then to those registered for every event.
    pub fn parse_transaction_event(&mut self, event: TransactionEvent) -> (r: ParsedEvent)
        requires
            old(self).wf(),
        ensures
            final(self).wf(),
            parsed_form(event, r),
            same_shape(old(self)@, final(self)@),
            ran_plan(old(self)@, dispatch_positions(old(self)@, r.event_type@), r, final(self)@),
    {
        let parsed = parse_event(event);
        self.call_handlers(&parsed);
        parsed
    }
}

/// The default handler: accepts every event.
pub struct DefaultClientEventHandler {
    name: String,
}

impl View for DefaultClientEventHandler {
    type V = Seq<char>;

    closed spec fn view(&self) -> Seq<char> {
        self.name@
    }
}

impl DefaultClientEventHandler {
    pub fn new(name: String) -> (h: Self)
        ensures
            h@ == name@,
    {
        DefaultClientEventHandler { name }
    }

    pub fn name(&self) -> (r: &String)
        ensures
            r@ == self@,
    {
        &self.name
    }
}

impl EventHandler for DefaultClientEventHandler {
    /// The handler keeps its name.
    open spec fn handled(&self, event: &ParsedEvent, after: &Self) -> bool {
        after@ == self@
    }

    fn handle_event(&mut self, event: &ParsedEvent) -> (r: Result<(), HandlerError>)
        ensures
            r is Ok,
            final(self)@ == old(self)@,
    {
        Ok(())
    }
}

/// A handler that accepts every event.
pub struct LogClientEventHandler;

impl EventHandler for LogClientEventHandler {
    /// The handler holds nothing.
    open spec fn handled(&self, event: &ParsedEvent, after: &Self) -> bool {
        true
    }

    fn handle_event(&mut self, event: &ParsedEvent) -> (r: Result<(), HandlerError>)
        ensures
            r is Ok,
    {
        Ok(())
    }
}

/// The number recorded for `kind` in `entries`: that of its first entry, or zero.
pub open spec fn count_of(entries: Seq<(EventKind, u64)>, kind: EventKind) -> nat
    decreases entries.len(),
{
    if entries.len() == 0 {
        0
    } else if entries[0].0 == kind {
        entries[0].1 as nat
    } else {
        count_of(entries.drop_first(), kind)
    }
}

/// The sum of the numbers in `entries`.
pub open spec fn sum_counts(entries: Seq<(EventKind, u64)>) -> nat
    decreases entries.len(),
{
    if entries.len() == 0 {
        0
    } else {
        entries[0].1 as nat + sum_counts(entries.drop_first())
    }
}

/// No type has two entries.
pub open spec fn kinds_distinct(entries: Seq<(EventKind, u64)>) -> bool {
    forall|i: int, j: int| 0 <= i < j < entries.len() ==> entries[i].0 != entries[j].0
}

/// Event statistics: the number of events, the number per type, and the timestamp of the
/// last one.
#[derive(Debug)]
pub struct ClientEventStats {
    pub total_events: u64,
    /// Types with their numbers of events, each type once.
    pub events_by_type: Vec<(EventType, u64)>,
    pub last_event_time: Option<u64>,
}

/// Event statistics as the contracts see them.
pub struct EventStatsView {
    pub total_events: u64,
    pub events_by_type: Seq<(EventKind, u64)>,
    pub last_event_time: Option<u64>,
}

impl View for ClientEventStats {
    type V = EventStatsView;

    open spec fn view(&self) -> EventStatsView {
        EventStatsView {
            total_events: self.total_events,
            events_by_type: Seq::new(
                self.events_by_type@.len(),
                |i: int| (self.events_by_type@[i].0@, self.events_by_type@[i].1),
            ),
            last_event_time: self.last_event_time,
        }
    }
}

impl EventStatsView {
    /// The number of events recorded for `kind`.
    pub open spec fn count(self, kind: EventKind) -> nat {
        count_of(self.events_by_type, kind)
    }

    /// Each type has one entry, with a positive number, and the total is the sum of the
    /// numbers per type: the entries are exactly the types seen.
    pub open spec fn consistent(self) -> bool {
        &&& kinds_distinct(self.events_by_type)
        &&& forall|i: int| 0 <= i < self.events_by_type.len() ==> #[trigger] self.events_by_type[i].1 > 0
        &&& self.total_events == sum_counts(self.events_by_type)
    }

    /// The statistics after one more event of type `kind` at time `timestamp`.
    pub open spec fn recorded(self, next: EventStatsView, kind: EventKind, timestamp: u64) -> bool {
        &&& next.total_events == self.total_events + 1
        &&& next.count(kind) == self.count(kind) + 1
        &&& forall|k: EventKind| k != kind ==> next.count(k) == self.count(k)
        &&& next.last_event_time == Some(timestamp)
    }
}

proof fn lemma_count_update(entries: Seq<(EventKind, u64)>, i: int, kind: EventKind, n: u64)
    requires
        0 <= i < entries.len(),
        entries[i].0 == kind,
        forall|j: int| 0 <= j < i ==> entries[j].0 != kind,
    ensures
        count_of(entries, kind) == entries[i].1,
        count_of(entries.update(i, (kind, n)), kind) == n,
        forall|k: EventKind| k != kind ==> count_of(entries.update(i, (kind, n)), k) == count_of(entries, k),
    decreases i,
{
    let updated = entries.update(i, (kind, n));
    if i > 0 {
        assert(updated.drop_first() =~= entries.drop_first().update(i - 1, (kind, n)));
        lemma_count_update(entries.drop_first(), i - 1, kind, n);
        assert(entries[0].0 != kind);
        assert(updated[0] == entries[0]);
        assert forall|k: EventKind| k != kind implies count_of(updated, k) == count_of(entries, k) by {
            if entries[0].0 == k {
            } else {
                assert(count_of(updated, k) == count_of(updated.drop_first(), k));
                assert(count_of(entries.drop_first().update(i - 1, (kind, n)), k) == count_of(entries.drop_first(), k));
            }
        }
    } else {
        assert(updated.drop_first() =~= entries.drop_first());
        assert forall|k: EventKind| k != kind implies count_of(updated, k) == count_of(entries, k) by {
            assert(count_of(updated, k) == count_of(updated.drop_first(), k));
        }
    }
}

proof fn lemma_count_absent(entries: Seq<(EventKind, u64)>, kind: EventKind)
    requires
        forall|j: int| 0 <= j < entries.len() ==> entries[j].0 != kind,
    ensures
        count_of(entries, kind) == 0,
        count_of(entries.push((kind, 1u64)), kind) == 1,
        forall|k: EventKind| k != kind ==> count_of(entries.push((kind, 1u64)), k) == count_of(entries, k),
    decreases entries.len(),
{
    let pushed = entries.push((kind, 1u64));
    if entries.len() > 0 {
        assert(pushed.drop_first() =~= entries.drop_first().push((kind, 1u64)));
        assert forall|j: int| 0 <= j < entries.drop_first().len() implies entries.drop_first()[j].0 != kind by {
            assert(entries[j + 1].0 != kind);
        }
        lemma_count_absent(entries.drop_first(), kind);
        assert(entries[0].0 != kind);
        assert(pushed[0] == entries[0]);
        assert forall|k: EventKind| k != kind implies count_of(pushed, k) == count_of(entries, k) by {
            if entries[0].0 == k {
            } else {
                assert(count_of(pushed, k) == count_of(pushed.drop_first(), k));
                assert(count_of(entries.drop_first().push((kind, 1u64)), k) == count_of(entries.drop_first(), k));
            }
        }
    } else {
        assert(pushed.drop_first() =~= Seq::<(EventKind, u64)>::empty());
        assert forall|k: EventKind| k != kind implies count_of(pushed, k) == count_of(entries, k) by {
            assert(count_of(pushed, k) == count_of(pushed.drop_first(), k));
        }
    }
}

proof fn lemma_sum_update(entries: Seq<(EventKind, u64)>, i: int, entry: (EventKind, u64))
    requires
        0 <= i < entries.len(),
    ensures
        sum_counts(entries.update(i, entry)) == sum_counts(entries) - entries[i].1 + entry.1,
    decreases i,
{
    let updated = entries.update(i, entry);
    if i > 0 {
        assert(updated.drop_first() =~= entries.drop_first().update(i - 1, entry));
        lemma_sum_update(entries.drop_first(), i - 1, entry);
    } else {
        assert(updated.drop_first() =~= entries.drop_first());
    }
}

proof fn lemma_sum_push(entries: Seq<(EventKind, u64)>, entry: (EventKind, u64))
    ensures
        sum_counts(entries.push(entry)) == sum_counts(entries) + entry.1,
    decreases entries.len(),
{
    let pushed = entries.push(entry);
    if entries.len() > 0 {
        assert(pushed.drop_first() =~= entries.drop_first().push(entry));
        assert(pushed[0] == entries[0]);
        lemma_sum_push(entries.drop_first(), entry);
    } else {
        assert(pushed.drop_first() =~= Seq::<(EventKind, u64)>::empty());
        assert(sum_counts(pushed.drop_first()) == 0);
        assert(pushed[0] == entry);
    }
}

impl ClientEventStats {
    pub fn new() -> (s: Self)
        ensures
            s@.total_events == 0,
            s@.events_by_type.len() == 0,
            s@.last_event_time is None,
            s@.consistent(),
    {
        ClientEventStats { total_events: 0, events_by_type: Vec::new(), last_event_time: None }
    }

    /// The number of events recorded for `event_type`.
    pub fn count_for(&self, event_type: &EventType) -> (r: u64)
        ensures
            r == self@.count(event_type@),
    {
        match self.find(event_type) {
            Some(i) => self.events_by_type[i].1,
            None => 0,
        }
    }

    /// The position of the first entry for `event_type`, if any.
    fn find(&self, event_type: &EventType) -> (r: Option<usize>)
        ensures
            r matches Some(i) ==> i < self@.events_by_type.len() && self@.events_by_type[i as int].0
                == event_type@ && forall|j: int| 0 <= j < i ==> self@.events_by_type[j].0 != event_type@,
            r is None ==> forall|j: int| 0 <= j < self@.events_by_type.len() ==> self@.events_by_type[j].0 != event_type@,
            r matches Some(i) ==> self@.count(event_type@) == self@.events_by_type[i as int].1,
            r is None ==> self@.count(event_type@) == 0,
    {
        let mut i: usize = 0;
        while i < self.events_by_type.len()
            invariant
                i <= self@.events_by_type.len(),
                forall|j: int| 0 <= j < i ==> self@.events_by_type[j].0 != event_type@,
            decreases self@.events_by_type.len() - i,
        {
            if self.events_by_type[i].0.same_as(event_type) {
                proof {
                    lemma_count_update(self@.events_by_type, i as int, event_type@, 0);
                }
                return Some(i);
            }
            i = i + 1;
        }
        proof {
            lemma_count_absent(self@.events_by_type, event_type@);
        }
        None
    }

    /// Counts one more event of type `event_type` at time `timestamp`. When a count is
    /// already at `u64::MAX` nothing changes and the result is `false`.
    pub fn record(&mut self, event_type: &EventType, timestamp: u64) -> (r: bool)
        ensures
            r == (old(self)@.total_events < u64::MAX && old(self)@.count(event_type@) < u64::MAX),
            r ==> old(self)@.recorded(final(self)@, event_type@, timestamp),
            !r ==> final(self)@ == old(self)@,
            old(self)@.consistent() ==> final(self)@.consistent(),
    {
        if self.total_events == u64::MAX {
            return false;
        }
        let ghost before = self@.events_by_type;
        match self.find(event_type) {
            Some(i) => {
                let n = self.events_by_type[i].1;
                if n == u64::MAX {
                    return false;
                }
                let (t, _) = self.events_by_type.remove(i);
                self.events_by_type.insert(i, (t, n + 1));
                proof {
                    lemma_count_update(before, i as int, event_type@, (n + 1) as u64);
                    lemma_sum_update(before, i as int, (event_type@, (n + 1) as u64));
                    assert(self@.events_by_type =~= before.update(i as int, (event_type@, (n + 1) as u64)));
                }
            },
            None => {
                self.events_by_type.push((event_type.duplicate(), 1));
                proof {
                    lemma_count_absent(before, event_type@);
                    lemma_sum_push(before, (event_type@, 1u64));
                    assert(self@.events_by_type =~= before.push((event_type@, 1u64)));
                }
            },
        }
        self.total_events = self.total_events + 1;
        self.last_event_time = Some(timestamp);
        true
    }

    /// A copy of these statistics.
    pub fn duplicate(&self) -> (r: ClientEventStats)
        ensures
            r@ == self@,
    {
        let mut entries: Vec<(EventType, u64)> = Vec::new();
        let mut i: usize = 0;
        while i < self.events_by_type.len()
            invariant
                i <= self.events_by_type@.len(),
                entries@.len() == i,
                forall|j: int| 0 <= j < i ==> #[trigger] entries@[j].0@ == self.events_by_type@[j].0@
                    && entries@[j].1 == self.events_by_type@[j].1,
            decreases self.events_by_type@.len() - i,
        {
            entries.push((self.events_by_type[i].0.duplicate(), self.events_by_type[i].1));
            i = i + 1;
        }
        let r = ClientEventStats {
            total_events: self.total_events,
            events_by_type: entries,
            last_event_time: self.last_event_time,
        };
        assert(r@.events_by_type =~= self@.events_by_type);
        r
    }
}

/// A handler that counts events by type.
pub struct StatsClientEventHandler {
    stats: ClientEventStats,
}

impl View for StatsClientEventHandler {
    type V = EventStatsView;

    closed spec fn view(&self) -> EventStatsView {
        self.stats@
    }
}

impl StatsClientEventHandler {
    pub fn new() -> (h: Self)
        ensures
            h@.total_events == 0,
            h@.events_by_type.len() == 0,
            h@.last_event_time is None,
            h@.consistent(),
    {
        StatsClientEventHandler { stats: ClientEventStats::new() }
    }

    /// A copy of the statistics so far.
    pub fn get_stats(&self) -> (r: ClientEventStats)
        ensures
            r@ == self@,
    {
        self.stats.duplicate()
    }
}

impl EventHandler for StatsClientEventHandler {
    /// The event is counted under its type and its timestamp noted, totals staying
    /// consistent; when a count is already at `u64::MAX`, nothing changes.
    open spec fn handled(&self, event: &ParsedEvent, after: &Self) -> bool {
        if self@.total_events < u64::MAX && self@.count(event.event_type@) < u64::MAX {
            &&& self@.recorded(after@, event.event_type@, event.timestamp)
            &&& (self@.consistent() ==> after@.consistent())
        } else {
            after@ == self@
        }
    }

    /// Counts `event` under its type and notes its timestamp; fails, counting nothing, when
    /// a count is already at `u64::MAX`.
    fn handle_event(&mut self, event: &ParsedEvent) -> (r: Result<(), HandlerError>)
        ensures
            r is Ok ==> old(self)@.recorded(final(self)@, event.event_type@, event.timestamp),
            r is Err ==> final(self)@ == old(self)@,
            r is Ok == (old(self)@.total_events < u64::MAX && old(self)@.count(event.event_type@) < u64::MAX),
            old(self)@.consistent() ==> final(self)@.consistent(),
    {
        if self.stats.record(&event.event_type, event.timestamp) {
            Ok(())
        } else {
            Err(HandlerError { message: String::from_str("event counter at its maximum") })
        }
    }
}

/// The number of events in `events` whose type is `kind`.
pub open spec fn events_of_kind(events: Seq<ParsedEvent>, kind: EventKind) -> nat
    decreases events.len(),
{
    if events.len() == 0 {
        0
    } else {
        events_of_kind(events.drop_last(), kind) + if events.last().event_type@ == kind {
            1nat
        } else {
            0nat
        }
    }
}

proof fn lemma_events_of_kind_bound(events: Seq<ParsedEvent>, kind: EventKind)
    ensures
        events_of_kind(events, kind) <= events.len(),
    decreases events.len(),
{
    if events.len() > 0 {
        lemma_events_of_kind_bound(events.drop_last(), kind);
    }
}

/// A stats handler fresh from `new`: nothing counted.
pub open spec fn stats_fresh(h: StatsClientEventHandler) -> bool {
    &&& h@.total_events == 0
    &&& h@.events_by_type.len() == 0
}

proof fn lemma_stats_prefix(hs: Seq<StatsClientEventHandler>, events: Seq<ParsedEvent>, j: int)
    requires
        hs.len() == events.len() + 1,
        stats_fresh(hs[0]),
        events.len() <= u64::MAX,
        forall|i: int| 0 <= i < events.len() ==> #[trigger] hs[i].handled(&events[i], &hs[i + 1]),
        0 <= j <= events.len(),
    ensures
        hs[j]@.total_events == j,
        hs[j]@.consistent(),
        forall|k: EventKind| #[trigger] hs[j]@.count(k) == events_of_kind(events.take(j), k),
    decreases j,
{
    if j == 0 {
        assert(events.take(0) =~= Seq::<ParsedEvent>::empty());
        assert(sum_counts(hs[0]@.events_by_type) == 0);
        assert forall|k: EventKind| #[trigger] hs[0]@.count(k) == events_of_kind(events.take(0), k) by {
            assert(count_of(hs[0]@.events_by_type, k) == 0);
        }
    } else {
        lemma_stats_prefix(hs, events, j - 1);
        let prev = hs[j - 1];
        let e = events[j - 1];
        let kind = e.event_type@;
        let i = j - 1;
        assert(hs[i].handled(&events[i], &hs[i + 1]));
        assert(i + 1 == j);
        assert(prev.handled(&e, &hs[j]));
        assert(events.take(j).drop_last() =~= events.take(j - 1));
        assert(events.take(j).last() == e);
        lemma_events_of_kind_bound(events.take(j - 1), kind);
        assert(prev@.count(kind) == events_of_kind(events.take(j - 1), kind));
        assert(prev@.total_events < u64::MAX && prev@.count(kind) < u64::MAX);
        assert forall|k: EventKind| #[trigger] hs[j]@.count(k) == events_of_kind(events.take(j), k) by {
            assert(prev@.count(k) == events_of_kind(events.take(j - 1), k));
        }
    }
}

/// Over any sequence of events handed to a fresh stats handler, one by one, the total is
/// the number of events, each type's count is the number of its events, and the entries
/// are exactly the types seen, none with a count of zero.
pub proof fn law_stats_count_every_event(hs: Seq<StatsClientEventHandler>, events: Seq<ParsedEvent>)
    requires
        hs.len() == events.len() + 1,
        stats_fresh(hs[0]),
        events.len() <= u64::MAX,
        forall|i: int| 0 <= i < events.len() ==> #[trigger] hs[i].handled(&events[i], &hs[i + 1]),
    ensures
        hs.last()@.total_events == events.len(),
        forall|k: EventKind| #[trigger] hs.last()@.count(k) == events_of_kind(events, k),
        hs.last()@.consistent(),
{
    lemma_stats_prefix(hs, events, events.len() as int);
    assert(events.take(events.len() as int) =~= events);
}

} // verus!

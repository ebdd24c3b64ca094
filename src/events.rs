//! The configured set of event topics, and classification of one log into
//! the domain events it carries.
use vstd::prelude::*;
use crate::log::{opt_seq, RawLog};
use crate::pools_handler::{decode_pool2, decode_pool3, pools_of_log, Pool, PoolView, PoolsHandler};
use crate::swaps_handler::{decode_swap2, decode_swap3, swaps_of_log, Swap, SwapView, SwapsHandler};
use crate::transfers_handler::{
    decode_transfer, transfer_of, Transfer, TransferView, TransfersHandler,
};
use crate::words::Word;

verus! {

/// The value of a hexadecimal digit, or -1 for any other character.
pub open spec fn hex_value(c: char) -> int {
    if '0' <= c && c <= '9' {
        c as int - '0' as int
    } else if 'a' <= c && c <= 'f' {
        c as int - 'a' as int + 10
    } else if 'A' <= c && c <= 'F' {
        c as int - 'A' as int + 10
    } else {
        -1
    }
}

/// The text without its lowercase `0x` prefix, if it has one.
pub open spec fn hex_body(s: Seq<char>) -> Seq<char> {
    if s.len() >= 2 && s[0] == '0' && s[1] == 'x' {
        s.subrange(2, s.len() as int)
    } else {
        s
    }
}

/// The text spells a 32-byte word: 64 hexadecimal digits after an optional
/// prefix.
pub open spec fn is_hex_word(s: Seq<char>) -> bool {
    let d = hex_body(s);
    d.len() == 64 && forall|i: int| 0 <= i < 64 ==> hex_value(#[trigger] d[i]) >= 0
}

/// Byte `i` of the word that the digits `d` spell, most significant first.
pub open spec fn hex_byte(d: Seq<char>, i: int) -> int {
    16 * hex_value(d[2 * i]) + hex_value(d[2 * i + 1])
}

/// Relies on alloy_primitives::FixedBytes::<32>::from_str, which is
/// const_hex::decode_to_array: it strips an optional lowercase `0x` prefix
/// (an uppercase `0X` is not a prefix), and accepts
/// exactly 64 hexadecimal digits of either case, two to a byte.
#[verifier::external_body]
fn decode_hex_word(s: &str) -> (r: Option<Word>)
    ensures
        r is Some <==> is_hex_word(s@),
        r matches Some(w) ==> forall|i: int| 0 <= i < 32 ==> w@[i] == hex_byte(hex_body(s@), i),
{
    <alloy::primitives::B256 as std::str::FromStr>::from_str(s).ok().map(|b| b.0)
}

/// A domain event decoded from a log.
#[derive(Clone, Copy, Debug, PartialEq, Eq)]
pub enum DomainEvent {
    Transfer(Transfer),
    Pool(Pool),
    Swap(Swap),
}

/// What a domain event holds.
pub enum EventView {
    Transfer(TransferView),
    Pool(PoolView),
    Swap(SwapView),
}

impl View for DomainEvent {
    type V = EventView;

    open spec fn view(&self) -> EventView {
        match self {
            DomainEvent::Transfer(t) => EventView::Transfer(t@),
            DomainEvent::Pool(p) => EventView::Pool(p@),
            DomainEvent::Swap(s) => EventView::Swap(s@),
        }
    }
}

/// The five configured topic identifiers, each held by the handler that
/// decodes its events.
pub struct EventTopicSet {
    pub transfers: TransfersHandler,
    pub pools: PoolsHandler,
    pub swaps: SwapsHandler,
}

impl EventTopicSet {
    /// The log's selector is one of the five configured identifiers.
    pub open spec fn knows(&self, log: RawLog) -> bool {
        log.selects(self.transfers.topic) || log.selects(self.pools.topic2) || log.selects(
            self.pools.topic3,
        ) || log.selects(self.swaps.topic2) || log.selects(self.swaps.topic3)
    }

    /// Each configured identifier that the log's selector matches fails to
    /// decode the log under its own layout.
    pub open spec fn malformed_for_all(&self, log: RawLog) -> bool {
        &&& log.selects(self.transfers.topic) ==> decode_transfer(log) is None
        &&& log.selects(self.pools.topic2) ==> decode_pool2(log) is None
        &&& log.selects(self.pools.topic3) ==> decode_pool3(log) is None
        &&& log.selects(self.swaps.topic2) ==> decode_swap2(log) is None
        &&& log.selects(self.swaps.topic3) ==> decode_swap3(log) is None
    }

    /// The events one log yields: a transfer, then pools of both versions,
    /// then swaps of both versions, each table checked on its own.
    pub open spec fn events_of(&self, log: RawLog) -> Seq<EventView> {
        opt_seq(transfer_of(self.transfers.topic, log)).map_values(
            |t: TransferView| EventView::Transfer(t),
        ) + pools_of_log(self.pools.topic2, self.pools.topic3, log).map_values(
            |p: PoolView| EventView::Pool(p),
        ) + swaps_of_log(self.swaps.topic2, self.swaps.topic3, log).map_values(
            |s: SwapView| EventView::Swap(s),
        )
    }

    pub fn new(transfer: Word, pool2: Word, pool3: Word, swap2: Word, swap3: Word) -> (r: Self)
        ensures
            r.transfers.topic == transfer,
            r.pools.topic2 == pool2,
            r.pools.topic3 == pool3,
            r.swaps.topic2 == swap2,
            r.swaps.topic3 == swap3,
    {
        EventTopicSet {
            transfers: TransfersHandler::new(transfer),
            pools: PoolsHandler::new(pool2, pool3),
            swaps: SwapsHandler::new(swap2, swap3),
        }
    }

    /// The topic set spelled by five hexadecimal texts, or `None` where any of
    /// them is not a 32-byte word.
    pub fn from_hex(transfer: &str, pool2: &str, pool3: &str, swap2: &str, swap3: &str) -> (r:
        Option<Self>)
        ensures
            r is Some <==> (is_hex_word(transfer@) && is_hex_word(pool2@) && is_hex_word(pool3@)
                && is_hex_word(swap2@) && is_hex_word(swap3@)),
            r matches Some(set) ==> {
                &&& spells(transfer@, set.transfers.topic)
                &&& spells(pool2@, set.pools.topic2)
                &&& spells(pool3@, set.pools.topic3)
                &&& spells(swap2@, set.swaps.topic2)
                &&& spells(swap3@, set.swaps.topic3)
            },
    {
        let t = parse_topic(transfer);
        let p2 = parse_topic(pool2);
        let p3 = parse_topic(pool3);
        let s2 = parse_topic(swap2);
        let s3 = parse_topic(swap3);
        match (t, p2, p3, s2, s3) {
            (Some(t), Some(p2), Some(p3), Some(s2), Some(s3)) => Some(
                EventTopicSet::new(t, p2, p3, s2, s3),
            ),
            _ => None,
        }
    }

    /// The domain events `log` carries; none where its selector matches no
    /// configured identifier or its payload does not decode.
    pub fn classify(&self, log: &RawLog) -> (r: Vec<DomainEvent>)
        ensures
            r@.map_values(|e: DomainEvent| e@) == self.events_of(*log),
    {
        let mut out: Vec<DomainEvent> = Vec::new();
        let t = self.transfers.handle_log(log);
        match t {
            Some(t) => {
                out.push(DomainEvent::Transfer(t));
            },
            None => {},
        }
        let ghost after_transfer = out@;
        let p2 = self.pools.handle2(log);
        match p2 {
            Some(p) => {
                out.push(DomainEvent::Pool(p));
            },
            None => {},
        }
        let p3 = self.pools.handle3(log);
        match p3 {
            Some(p) => {
                out.push(DomainEvent::Pool(p));
            },
            None => {},
        }
        let ghost after_pools = out@;
        let s2 = self.swaps.handle2(log);
        match s2 {
            Some(s) => {
                out.push(DomainEvent::Swap(s));
            },
            None => {},
        }
        let s3 = self.swaps.handle3(log);
        match s3 {
            Some(s) => {
                out.push(DomainEvent::Swap(s));
            },
            None => {},
        }
        proof {
            let tv = opt_seq(transfer_of(self.transfers.topic, *log)).map_values(
                |t: TransferView| EventView::Transfer(t),
            );
            let pv = pools_of_log(self.pools.topic2, self.pools.topic3, *log).map_values(
                |p: PoolView| EventView::Pool(p),
            );
            let sv = swaps_of_log(self.swaps.topic2, self.swaps.topic3, *log).map_values(
                |s: SwapView| EventView::Swap(s),
            );
            assert(opt_seq(p2).map_values(|p: Pool| p@) + opt_seq(p3).map_values(|p: Pool| p@)
                =~= pools_of_log(self.pools.topic2, self.pools.topic3, *log));
            assert(opt_seq(s2).map_values(|s: Swap| s@) + opt_seq(s3).map_values(|s: Swap| s@)
                =~= swaps_of_log(self.swaps.topic2, self.swaps.topic3, *log));
            assert(after_transfer.map_values(|e: DomainEvent| e@) =~= tv);
            assert(after_pools.map_values(|e: DomainEvent| e@) =~= tv + pv);
            assert(out@.map_values(|e: DomainEvent| e@) =~= tv + pv + sv);
        }
        out
    }
}

/// A log whose selector matches none of the configured identifiers yields no
/// event, whatever its payload holds.
pub proof fn lemma_unknown_topic_yields_no_event(set: EventTopicSet, log: RawLog)
    requires
        !set.knows(log),
    ensures
        set.events_of(log).len() == 0,
{
}

/// A log whose selector matches a configured identifier, but whose payload
/// does not fit the layout of any identifier it matches, yields no event.
pub proof fn lemma_malformed_payload_yields_no_event(set: EventTopicSet, log: RawLog)
    requires
        set.knows(log),
        set.malformed_for_all(log),
    ensures
        set.events_of(log).len() == 0,
{
}

/// Classification is a function of the log's content: two logs with the same
/// emitter, topics and payload yield the same events, however often they are
/// fed in.
pub proof fn lemma_classification_is_pure(set: EventTopicSet, a: RawLog, b: RawLog)
    requires
        a.address == b.address,
        a.topics@ == b.topics@,
        a.data@ == b.data@,
    ensures
        set.events_of(a) == set.events_of(b),
{
}

/// The word `w` is the one the text `s` spells.
pub open spec fn spells(s: Seq<char>, w: Word) -> bool {
    forall|i: int| 0 <= i < 32 ==> w@[i] == hex_byte(hex_body(s), i)
}

/// The 32-byte word a hexadecimal text spells, or `None` where it spells none.
pub fn parse_topic(s: &str) -> (r: Option<Word>)
    ensures
        r is Some <==> is_hex_word(s@),
        r matches Some(w) ==> spells(s@, w),
{
    decode_hex_word(s)
}

} // verus!

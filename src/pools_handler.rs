//! Pool creation events of the two supported protocol versions.
use vstd::prelude::*;
use crate::log::{opt_seq, Protocol, RawLog};
use crate::words::{address_in, read_slot, slot, word_address, words_equal, Address, Word};

verus! {

/// A decoded pool creation: the new pool's address and its two tokens.
#[derive(Clone, Copy, Debug, PartialEq, Eq)]
pub struct Pool {
    pub protocol: Protocol,
    pub address: Address,
    pub token0: Address,
    pub token1: Address,
}

/// What a pool record holds, as byte sequences.
pub struct PoolView {
    pub protocol: Protocol,
    pub address: Seq<u8>,
    pub token0: Seq<u8>,
    pub token1: Seq<u8>,
}

impl View for Pool {
    type V = PoolView;

    open spec fn view(&self) -> PoolView {
        PoolView {
            protocol: self.protocol,
            address: self.address@,
            token0: self.token0@,
            token1: self.token1@,
        }
    }
}

/// The version-2 pair creation a log encodes: tokens in topics one and two,
/// the pair's address in the first payload slot (the second holds a counter).
pub open spec fn decode_pool2(log: RawLog) -> Option<PoolView> {
    if log.topics@.len() >= 3 && log.data@.len() >= 64 {
        Some(
            PoolView {
                protocol: Protocol::V2,
                address: address_in(slot(log.data@, 0)),
                token0: address_in(log.topics@[1]@),
                token1: address_in(log.topics@[2]@),
            },
        )
    } else {
        None
    }
}

/// The version-3 pool creation a log encodes: tokens in topics one and two,
/// the fee in topic three, the tick spacing in the first payload slot and the
/// pool's address in the second.
pub open spec fn decode_pool3(log: RawLog) -> Option<PoolView> {
    if log.topics@.len() >= 4 && log.data@.len() >= 64 {
        Some(
            PoolView {
                protocol: Protocol::V3,
                address: address_in(slot(log.data@, 1)),
                token0: address_in(log.topics@[1]@),
                token1: address_in(log.topics@[2]@),
            },
        )
    } else {
        None
    }
}

/// The version-2 pool a log yields under topic `topic2`.
pub open spec fn pool2_of(topic2: Word, log: RawLog) -> Option<PoolView> {
    if log.selects(topic2) {
        decode_pool2(log)
    } else {
        None
    }
}

/// The version-3 pool a log yields under topic `topic3`.
pub open spec fn pool3_of(topic3: Word, log: RawLog) -> Option<PoolView> {
    if log.selects(topic3) {
        decode_pool3(log)
    } else {
        None
    }
}

/// The pools one log yields: each version is checked on its own, version 2
/// first.
pub open spec fn pools_of_log(topic2: Word, topic3: Word, log: RawLog) -> Seq<PoolView> {
    opt_seq(pool2_of(topic2, log)) + opt_seq(pool3_of(topic3, log))
}

/// The pools a sequence of logs yields, in log order.
pub open spec fn pools_of(topic2: Word, topic3: Word, logs: Seq<RawLog>) -> Seq<PoolView>
    decreases logs.len(),
{
    if logs.len() == 0 {
        Seq::empty()
    } else {
        pools_of(topic2, topic3, logs.drop_last()) + pools_of_log(topic2, topic3, logs.last())
    }
}

/// Recognises and decodes pool creation events under the two configured
/// topics.
pub struct PoolsHandler {
    pub topic2: Word,
    pub topic3: Word,
}

impl PoolsHandler {
    pub fn new(topic2: Word, topic3: Word) -> (r: Self)
        ensures
            r.topic2 == topic2,
            r.topic3 == topic3,
    {
        PoolsHandler { topic2, topic3 }
    }

    /// Whether `topic` is the configured version-2 pair creation topic.
    pub fn equals_topic2(&self, topic: &Word) -> (r: bool)
        ensures
            r == (self.topic2@ == topic@),
    {
        words_equal(&self.topic2, topic)
    }

    /// Whether `topic` is the configured version-3 pool creation topic.
    pub fn equals_topic3(&self, topic: &Word) -> (r: bool)
        ensures
            r == (self.topic3@ == topic@),
    {
        words_equal(&self.topic3, topic)
    }

    /// Decodes a log's version-2 pair creation layout, whatever its selector.
    pub fn get_pool2(&self, log: &RawLog) -> (r: Option<Pool>)
        ensures
            r matches Some(p) ==> decode_pool2(*log) == Some(p@),
            r is None ==> decode_pool2(*log) is None,
    {
        if log.topics.len() < 3 || log.data.len() < 64 {
            return None;
        }
        let pair = read_slot(&log.data, 0);
        Some(
            Pool {
                protocol: Protocol::V2,
                address: word_address(&pair),
                token0: word_address(&log.topics[1]),
                token1: word_address(&log.topics[2]),
            },
        )
    }

    /// Decodes a log's version-3 pool creation layout, whatever its selector.
    pub fn get_pool3(&self, log: &RawLog) -> (r: Option<Pool>)
        ensures
            r matches Some(p) ==> decode_pool3(*log) == Some(p@),
            r is None ==> decode_pool3(*log) is None,
    {
        if log.topics.len() < 4 || log.data.len() < 64 {
            return None;
        }
        let pool = read_slot(&log.data, 1);
        Some(
            Pool {
                protocol: Protocol::V3,
                address: word_address(&pool),
                token0: word_address(&log.topics[1]),
                token1: word_address(&log.topics[2]),
            },
        )
    }

    /// The version-2 pool one log yields, if it carries that topic and decodes.
    pub fn handle2(&self, log: &RawLog) -> (r: Option<Pool>)
        ensures
            opt_seq(r).map_values(|p: Pool| p@) == opt_seq(pool2_of(self.topic2, *log)),
    {
        let r = if log.has_selector(&self.topic2) {
            self.get_pool2(log)
        } else {
            None
        };
        assert(opt_seq(r).map_values(|p: Pool| p@) =~= opt_seq(pool2_of(self.topic2, *log)));
        r
    }

    /// The version-3 pool one log yields, if it carries that topic and decodes.
    pub fn handle3(&self, log: &RawLog) -> (r: Option<Pool>)
        ensures
            opt_seq(r).map_values(|p: Pool| p@) == opt_seq(pool3_of(self.topic3, *log)),
    {
        let r = if log.has_selector(&self.topic3) {
            self.get_pool3(log)
        } else {
            None
        };
        assert(opt_seq(r).map_values(|p: Pool| p@) =~= opt_seq(pool3_of(self.topic3, *log)));
        r
    }

    /// The pools among `logs`, in log order, each log checked against both
    /// versions; logs that match neither topic or do not decode are skipped.
    pub fn handle(&self, logs: &Vec<RawLog>) -> (r: Vec<Pool>)
        ensures
            r@.map_values(|p: Pool| p@) == pools_of(self.topic2, self.topic3, logs@),
    {
        let mut out: Vec<Pool> = Vec::new();
        let mut i: usize = 0;
        while i < logs.len()
            invariant
                i <= logs@.len(),
                out@.map_values(|p: Pool| p@) == pools_of(
                    self.topic2,
                    self.topic3,
                    logs@.subrange(0, i as int),
                ),
            decreases logs@.len() - i,
        {
            let ghost before = out@;
            let log = &logs[i];
            assert(logs@.subrange(0, i as int + 1).drop_last() =~= logs@.subrange(0, i as int));
            let p2 = self.handle2(log);
            match p2 {
                Some(p) => {
                    out.push(p);
                },
                None => {},
            }
            let ghost middle = out@;
            assert(middle =~= before + opt_seq(p2));
            let p3 = self.handle3(log);
            match p3 {
                Some(p) => {
                    out.push(p);
                },
                None => {},
            }
            assert(out@ =~= middle + opt_seq(p3));
            assert(out@.map_values(|p: Pool| p@) =~= before.map_values(|p: Pool| p@) + opt_seq(
                p2,
            ).map_values(|p: Pool| p@) + opt_seq(p3).map_values(|p: Pool| p@));
            i += 1;
        }
        assert(logs@.subrange(0, logs@.len() as int) =~= logs@);
        out
    }
}

} // verus!

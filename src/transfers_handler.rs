//! ERC20 transfer events.
use vstd::prelude::*;
use crate::log::{opt_seq, RawLog};
use crate::words::{address_in, read_slot, slot, word_address, Address, Word};

verus! {

/// A decoded token transfer: the token contract, sender, receiver and the
/// unsigned amount as a big-endian word.
#[derive(Clone, Copy, Debug, PartialEq, Eq)]
pub struct Transfer {
    pub address: Address,
    pub from: Address,
    pub to: Address,
    pub value: Word,
}

/// What a transfer record holds, as byte sequences.
pub struct TransferView {
    pub address: Seq<u8>,
    pub from: Seq<u8>,
    pub to: Seq<u8>,
    pub value: Seq<u8>,
}

impl View for Transfer {
    type V = TransferView;

    open spec fn view(&self) -> TransferView {
        TransferView { address: self.address@, from: self.from@, to: self.to@, value: self.value@ }
    }
}

/// The transfer a log encodes: sender and receiver in topics one and two, the
/// amount in the first payload slot. Longer topic lists and payloads are read
/// up to what the layout needs; shorter ones hold no transfer.
pub open spec fn decode_transfer(log: RawLog) -> Option<TransferView> {
    if log.topics@.len() >= 3 && log.data@.len() >= 32 {
        Some(
            TransferView {
                address: log.address@,
                from: address_in(log.topics@[1]@),
                to: address_in(log.topics@[2]@),
                value: slot(log.data@, 0),
            },
        )
    } else {
        None
    }
}

/// The transfer a log yields under the transfer topic `topic`.
pub open spec fn transfer_of(topic: Word, log: RawLog) -> Option<TransferView> {
    if log.selects(topic) {
        decode_transfer(log)
    } else {
        None
    }
}

/// The transfers a sequence of logs yields, in log order.
pub open spec fn transfers_of(topic: Word, logs: Seq<RawLog>) -> Seq<TransferView>
    decreases logs.len(),
{
    if logs.len() == 0 {
        Seq::empty()
    } else {
        transfers_of(topic, logs.drop_last()) + opt_seq(transfer_of(topic, logs.last()))
    }
}

/// Recognises and decodes transfer events under one configured topic.
pub struct TransfersHandler {
    pub topic: Word,
}

impl TransfersHandler {
    pub fn new(topic: Word) -> (r: Self)
        ensures
            r.topic == topic,
    {
        TransfersHandler { topic }
    }

    /// Whether `topic` is the configured transfer topic.
    pub fn equals_topic(&self, topic: &Word) -> (r: bool)
        ensures
            r == (self.topic@ == topic@),
    {
        crate::words::words_equal(&self.topic, topic)
    }

    /// Decodes a log's transfer layout, whatever its selector.
    pub fn get_transfer(&self, log: &RawLog) -> (r: Option<Transfer>)
        ensures
            r matches Some(t) ==> decode_transfer(*log) == Some(t@),
            r is None ==> decode_transfer(*log) is None,
    {
        if log.topics.len() < 3 || log.data.len() < 32 {
            return None;
        }
        let from = word_address(&log.topics[1]);
        let to = word_address(&log.topics[2]);
        let value = read_slot(&log.data, 0);
        Some(Transfer { address: log.address, from, to, value })
    }

    /// The transfer one log yields, if it carries the transfer topic and
    /// decodes.
    pub fn handle_log(&self, log: &RawLog) -> (r: Option<Transfer>)
        ensures
            r matches Some(t) ==> transfer_of(self.topic, *log) == Some(t@),
            r is None ==> transfer_of(self.topic, *log) is None,
    {
        if !log.has_selector(&self.topic) {
            return None;
        }
        self.get_transfer(log)
    }

    /// The transfers among `logs`, in log order; logs that do not carry the
    /// transfer topic or do not decode are skipped.
    pub fn handle(&self, logs: &Vec<RawLog>) -> (r: Vec<Transfer>)
        ensures
            r@.map_values(|t: Transfer| t@) == transfers_of(self.topic, logs@),
    {
        let mut out: Vec<Transfer> = Vec::new();
        let mut i: usize = 0;
        while i < logs.len()
            invariant
                i <= logs@.len(),
                out@.map_values(|t: Transfer| t@) == transfers_of(self.topic, logs@.subrange(0, i as int)),
            decreases logs@.len() - i,
        {
            let ghost before = out@;
            let found = self.handle_log(&logs[i]);
            assert(logs@.subrange(0, i as int + 1).drop_last() =~= logs@.subrange(0, i as int));
            match found {
                Some(t) => {
                    out.push(t);
                },
                None => {},
            }
            assert(out@.map_values(|t: Transfer| t@) =~= before.map_values(|t: Transfer| t@) + opt_seq(transfer_of(self.topic, logs@[i as int])));
            i += 1;
        }
        assert(logs@.subrange(0, logs@.len() as int) =~= logs@);
        out
    }
}

} // verus!

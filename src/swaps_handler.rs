//! Swap events of the two supported protocol versions, with their amounts
//! brought to one sign convention: negative for what leaves the pool,
//! positive for what enters it.
use vstd::prelude::*;
use crate::log::{opt_seq, Protocol, RawLog};
use crate::words::{
    be_value, is_zero, read_slot, signed_value, slot, word_modulus, words_equal, Address, Word,
};

verus! {

/// A signed 256-bit quantity held as a sign and a big-endian magnitude, so
/// that the negation of any unsigned word can be held.
#[derive(Clone, Copy, Debug, PartialEq, Eq)]
pub struct Amount {
    pub negative: bool,
    pub magnitude: Word,
}

/// Relies on alloy_primitives::I256::from_be_bytes and I256::into_sign_and_abs:
/// the sign is negative exactly when the top bit is set, and the absolute value
/// of a negative word is its two's complement, 2^256 minus the word.
#[verifier::external_body]
fn int256_sign_and_abs(w: Word) -> (r: (bool, Word))
    ensures
        r.0 == (w@[0] >= 128),
        be_value(r.1@) == (if r.0 {
            word_modulus() - be_value(w@)
        } else {
            be_value(w@) as int
        }),
{
    let (sign, abs) = alloy::primitives::I256::from_be_bytes(w).into_sign_and_abs();
    (sign.is_negative(), abs.to_be_bytes::<32>())
}

impl Amount {
    /// The number the amount stands for.
    pub open spec fn value(&self) -> int {
        if self.negative {
            -(be_value(self.magnitude@) as int)
        } else {
            be_value(self.magnitude@) as int
        }
    }

    /// The unsigned word `m`, as an amount.
    pub fn positive(m: Word) -> (r: Amount)
        ensures
            r.value() == be_value(m@),
            r.magnitude == m,
            !r.negative,
    {
        Amount { negative: false, magnitude: m }
    }

    /// The negation of the unsigned word `m`; zero stays non-negative.
    pub fn negated(m: Word) -> (r: Amount)
        ensures
            r.value() == -(be_value(m@) as int),
            r.magnitude == m,
            r.negative == (be_value(m@) != 0),
    {
        Amount { negative: !is_zero(&m), magnitude: m }
    }

    /// The two's complement word `w`, as an amount.
    pub fn from_signed_word(w: Word) -> (r: Amount)
        ensures
            r.value() == signed_value(w@),
    {
        let (negative, magnitude) = int256_sign_and_abs(w);
        Amount { negative, magnitude }
    }
}

/// The canonical amount pair of a version-2 swap from its unsigned in/out
/// amounts: when nothing of token0 came in, token0 went out and token1 came
/// in; otherwise token0 came in and token1 went out.
pub open spec fn normalized2(amount0_in: nat, amount1_in: nat, amount0_out: nat, amount1_out: nat) -> (int, int) {
    if amount0_in == 0 {
        (-(amount0_out as int), amount1_in as int)
    } else {
        (amount0_in as int, -(amount1_out as int))
    }
}

/// A decoded swap: the pool and the two canonical signed amounts.
#[derive(Clone, Copy, Debug, PartialEq, Eq)]
pub struct Swap {
    pub protocol: Protocol,
    pub address: Address,
    pub amount0: Amount,
    pub amount1: Amount,
}

/// What a swap record holds: the pool's bytes and the amounts as numbers.
pub struct SwapView {
    pub protocol: Protocol,
    pub address: Seq<u8>,
    pub amount0: int,
    pub amount1: int,
}

impl View for Swap {
    type V = SwapView;

    open spec fn view(&self) -> SwapView {
        SwapView {
            protocol: self.protocol,
            address: self.address@,
            amount0: self.amount0.value(),
            amount1: self.amount1.value(),
        }
    }
}

/// The version-2 swap a log encodes: sender and receiver in topics one and two,
/// then four unsigned payload slots, amount0In, amount1In, amount0Out and
/// amount1Out, normalized.
pub open spec fn decode_swap2(log: RawLog) -> Option<SwapView> {
    if log.topics@.len() >= 3 && log.data@.len() >= 128 {
        let amounts = normalized2(
            be_value(slot(log.data@, 0)),
            be_value(slot(log.data@, 1)),
            be_value(slot(log.data@, 2)),
            be_value(slot(log.data@, 3)),
        );
        Some(
            SwapView {
                protocol: Protocol::V2,
                address: log.address@,
                amount0: amounts.0,
                amount1: amounts.1,
            },
        )
    } else {
        None
    }
}

/// The version-3 swap a log encodes: sender and recipient in topics one and
/// two, then the two signed amounts, the price, the liquidity and the tick in
/// five payload slots. The amounts pass through as they are.
pub open spec fn decode_swap3(log: RawLog) -> Option<SwapView> {
    if log.topics@.len() >= 3 && log.data@.len() >= 160 {
        Some(
            SwapView {
                protocol: Protocol::V3,
                address: log.address@,
                amount0: signed_value(slot(log.data@, 0)),
                amount1: signed_value(slot(log.data@, 1)),
            },
        )
    } else {
        None
    }
}

/// The version-2 swap a log yields under topic `topic2`.
pub open spec fn swap2_of(topic2: Word, log: RawLog) -> Option<SwapView> {
    if log.selects(topic2) {
        decode_swap2(log)
    } else {
        None
    }
}

/// The version-3 swap a log yields under topic `topic3`.
pub open spec fn swap3_of(topic3: Word, log: RawLog) -> Option<SwapView> {
    if log.selects(topic3) {
        decode_swap3(log)
    } else {
        None
    }
}

/// The swaps one log yields: each version is checked on its own, version 2
/// first.
pub open spec fn swaps_of_log(topic2: Word, topic3: Word, log: RawLog) -> Seq<SwapView> {
    opt_seq(swap2_of(topic2, log)) + opt_seq(swap3_of(topic3, log))
}

/// The swaps a sequence of logs yields, in log order.
pub open spec fn swaps_of(topic2: Word, topic3: Word, logs: Seq<RawLog>) -> Seq<SwapView>
    decreases logs.len(),
{
    if logs.len() == 0 {
        Seq::empty()
    } else {
        swaps_of(topic2, topic3, logs.drop_last()) + swaps_of_log(topic2, topic3, logs.last())
    }
}

/// The canonical amount pair of a version-2 swap.
pub fn get_amounts2(amount0_in: &Word, amount1_in: &Word, amount0_out: &Word, amount1_out: &Word) -> (r: (Amount, Amount))
    ensures
        (r.0.value(), r.1.value()) == normalized2(
            be_value(amount0_in@),
            be_value(amount1_in@),
            be_value(amount0_out@),
            be_value(amount1_out@),
        ),
{
    if is_zero(amount0_in) {
        (Amount::negated(*amount0_out), Amount::positive(*amount1_in))
    } else {
        (Amount::positive(*amount0_in), Amount::negated(*amount1_out))
    }
}

/// The amount pair of a version-3 swap, which already follows the canonical
/// convention: each two's complement word is read as it stands.
pub fn get_amounts3(amount0: &Word, amount1: &Word) -> (r: (Amount, Amount))
    ensures
        r.0.value() == signed_value(amount0@),
        r.1.value() == signed_value(amount1@),
{
    (Amount::from_signed_word(*amount0), Amount::from_signed_word(*amount1))
}

/// Recognises and decodes swap events under the two configured topics.
pub struct SwapsHandler {
    pub topic2: Word,
    pub topic3: Word,
}

impl SwapsHandler {
    pub fn new(topic2: Word, topic3: Word) -> (r: Self)
        ensures
            r.topic2 == topic2,
            r.topic3 == topic3,
    {
        SwapsHandler { topic2, topic3 }
    }

    /// Whether `topic` is the configured version-2 swap topic.
    pub fn equals_topic2(&self, topic: &Word) -> (r: bool)
        ensures
            r == (self.topic2@ == topic@),
    {
        words_equal(&self.topic2, topic)
    }

    /// Whether `topic` is the configured version-3 swap topic.
    pub fn equals_topic3(&self, topic: &Word) -> (r: bool)
        ensures
            r == (self.topic3@ == topic@),
    {
        words_equal(&self.topic3, topic)
    }

    /// Decodes a log's version-2 swap layout, whatever its selector.
    pub fn get_swap2(&self, log: &RawLog) -> (r: Option<Swap>)
        ensures
            r matches Some(s) ==> decode_swap2(*log) == Some(s@),
            r is None ==> decode_swap2(*log) is None,
    {
        if log.topics.len() < 3 || log.data.len() < 128 {
            return None;
        }
        let amount0_in = read_slot(&log.data, 0);
        let amount1_in = read_slot(&log.data, 1);
        let amount0_out = read_slot(&log.data, 2);
        let amount1_out = read_slot(&log.data, 3);
        let (amount0, amount1) = get_amounts2(&amount0_in, &amount1_in, &amount0_out, &amount1_out);
        Some(Swap { protocol: Protocol::V2, address: log.address, amount0, amount1 })
    }

    /// Decodes a log's version-3 swap layout, whatever its selector.
    pub fn get_swap3(&self, log: &RawLog) -> (r: Option<Swap>)
        ensures
            r matches Some(s) ==> decode_swap3(*log) == Some(s@),
            r is None ==> decode_swap3(*log) is None,
    {
        if log.topics.len() < 3 || log.data.len() < 160 {
            return None;
        }
        let word0 = read_slot(&log.data, 0);
        let word1 = read_slot(&log.data, 1);
        let (amount0, amount1) = get_amounts3(&word0, &word1);
        Some(Swap { protocol: Protocol::V3, address: log.address, amount0, amount1 })
    }

    /// The version-2 swap one log yields, if it carries that topic and decodes.
    pub fn handle2(&self, log: &RawLog) -> (r: Option<Swap>)
        ensures
            opt_seq(r).map_values(|s: Swap| s@) == opt_seq(swap2_of(self.topic2, *log)),
    {
        let r = if log.has_selector(&self.topic2) {
            self.get_swap2(log)
        } else {
            None
        };
        assert(opt_seq(r).map_values(|s: Swap| s@) =~= opt_seq(swap2_of(self.topic2, *log)));
        r
    }

    /// The version-3 swap one log yields, if it carries that topic and decodes.
    pub fn handle3(&self, log: &RawLog) -> (r: Option<Swap>)
        ensures
            opt_seq(r).map_values(|s: Swap| s@) == opt_seq(swap3_of(self.topic3, *log)),
    {
        let r = if log.has_selector(&self.topic3) {
            self.get_swap3(log)
        } else {
            None
        };
        assert(opt_seq(r).map_values(|s: Swap| s@) =~= opt_seq(swap3_of(self.topic3, *log)));
        r
    }

    /// The swaps among `logs`, in log order, each log checked against both
    /// versions; logs that match neither topic or do not decode are skipped.
    pub fn handle(&self, logs: &Vec<RawLog>) -> (r: Vec<Swap>)
        ensures
            r@.map_values(|s: Swap| s@) == swaps_of(self.topic2, self.topic3, logs@),
    {
        let mut out: Vec<Swap> = Vec::new();
        let mut i: usize = 0;
        while i < logs.len()
            invariant
                i <= logs@.len(),
                out@.map_values(|s: Swap| s@) == swaps_of(
                    self.topic2,
                    self.topic3,
                    logs@.subrange(0, i as int),
                ),
            decreases logs@.len() - i,
        {
            let ghost before = out@;
            let log = &logs[i];
            assert(logs@.subrange(0, i as int + 1).drop_last() =~= logs@.subrange(0, i as int));
            let s2 = self.handle2(log);
            match s2 {
                Some(s) => {
                    out.push(s);
                },
                None => {},
            }
            let ghost middle = out@;
            assert(middle =~= before + opt_seq(s2));
            let s3 = self.handle3(log);
            match s3 {
                Some(s) => {
                    out.push(s);
                },
                None => {},
            }
            assert(out@ =~= middle + opt_seq(s3));
            assert(out@.map_values(|s: Swap| s@) =~= before.map_values(|s: Swap| s@) + opt_seq(
                s2,
            ).map_values(|s: Swap| s@) + opt_seq(s3).map_values(|s: Swap| s@));
            i += 1;
        }
        assert(logs@.subrange(0, logs@.len() as int) =~= logs@);
        out
    }
}

} // verus!

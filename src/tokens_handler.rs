//! Discovery of ERC20 tokens among the contracts a transaction creates.
//!
//! A transaction's execution trace names the contracts it created. Each of
//! them is probed for its name, symbol, decimals and total supply; a token is
//! recorded only when all four answers came back.
use vstd::prelude::*;
use crate::words::{Address, Word};

verus! {

/// The outcome of one sub-call of an execution trace.
#[derive(Clone, Copy, Debug, PartialEq, Eq)]
pub enum TraceOutput {
    /// An ordinary call returned.
    Call,
    /// A contract was created at this address.
    Create(Address),
}

/// One sub-call of a transaction's execution trace; `result` is `None` where
/// the sub-call reverted or reported nothing.
#[derive(Clone, Copy, Debug, PartialEq, Eq)]
pub struct TraceEntry {
    pub result: Option<TraceOutput>,
}

/// The address a trace entry created a contract at, if it did.
pub open spec fn creation_of(e: TraceEntry) -> Option<Seq<u8>> {
    match e.result {
        Some(TraceOutput::Create(a)) => Some(a@),
        _ => None,
    }
}

/// The addresses a trace created contracts at, in trace order.
pub open spec fn creations_of(entries: Seq<TraceEntry>) -> Seq<Seq<u8>>
    decreases entries.len(),
{
    if entries.len() == 0 {
        Seq::empty()
    } else {
        creations_of(entries.drop_last()) + crate::log::opt_seq(creation_of(entries.last()))
    }
}

/// A discovered token and the account whose transaction created it.
#[derive(Clone, Debug, PartialEq, Eq)]
pub struct Token {
    pub author: Address,
    pub address: Address,
    pub name: String,
    pub symbol: String,
    pub decimals: u8,
    pub total_supply: Word,
}

/// What a token record holds, as sequences.
pub struct TokenView {
    pub author: Seq<u8>,
    pub address: Seq<u8>,
    pub name: Seq<char>,
    pub symbol: Seq<char>,
    pub decimals: u8,
    pub total_supply: Seq<u8>,
}

impl View for Token {
    type V = TokenView;

    open spec fn view(&self) -> TokenView {
        TokenView {
            author: self.author@,
            address: self.address@,
            name: self.name@,
            symbol: self.symbol@,
            decimals: self.decimals,
            total_supply: self.total_supply@,
        }
    }
}

/// The answers of the four metadata queries made of one created contract;
/// `None` where that query failed.
#[derive(Clone, Debug, PartialEq, Eq)]
pub struct TokenProbe {
    pub address: Address,
    pub name: Option<String>,
    pub symbol: Option<String>,
    pub decimals: Option<u8>,
    pub total_supply: Option<Word>,
}

/// The token a probe yields: present exactly when all four queries
/// succeeded.
pub open spec fn token_of(author: Address, p: TokenProbe) -> Option<TokenView> {
    match (p.name, p.symbol, p.decimals, p.total_supply) {
        (Some(name), Some(symbol), Some(decimals), Some(total_supply)) => Some(
            TokenView {
                author: author@,
                address: p.address@,
                name: name@,
                symbol: symbol@,
                decimals,
                total_supply: total_supply@,
            },
        ),
        _ => None,
    }
}

/// The tokens a sequence of probes yields, in probe order.
pub open spec fn tokens_of(author: Address, probes: Seq<TokenProbe>) -> Seq<TokenView>
    decreases probes.len(),
{
    if probes.len() == 0 {
        Seq::empty()
    } else {
        tokens_of(author, probes.drop_last()) + crate::log::opt_seq(
            token_of(author, probes.last()),
        )
    }
}

/// A trace without a creation sub-call names no contract to probe, and
/// probing no contract yields no token.
pub proof fn lemma_no_creation_no_token(
    author: Address,
    entries: Seq<TraceEntry>,
    probes: Seq<TokenProbe>,
)
    requires
        forall|i: int| 0 <= i < entries.len() ==> creation_of(#[trigger] entries[i]) is None,
        probes.len() == creations_of(entries).len(),
    ensures
        creations_of(entries).len() == 0,
        tokens_of(author, probes).len() == 0,
    decreases entries.len(),
{
    if entries.len() > 0 {
        let rest = entries.drop_last();
        assert forall|i: int| 0 <= i < rest.len() implies creation_of(#[trigger] rest[i]) is None by {
            assert(rest[i] == entries[i]);
        }
        assert(creation_of(entries[entries.len() - 1]) is None);
        lemma_no_creation_no_token(author, rest, probes.take(creations_of(rest).len() as int));
    }
}

/// One token comes of each probe whose four queries all succeeded, and none
/// of any other: the number of tokens is the number of complete probes.
pub proof fn lemma_one_token_per_complete_probe(author: Address, probes: Seq<TokenProbe>)
    ensures
        tokens_of(author, probes).len() == probes.filter(
            |p: TokenProbe| token_of(author, p) is Some,
        ).len(),
    decreases probes.len(),
{
    reveal(Seq::filter);
    if probes.len() > 0 {
        lemma_one_token_per_complete_probe(author, probes.drop_last());
    }
}

/// Of three candidates, where every query succeeds for two and some query
/// fails for the third, exactly two tokens come out: those of the two complete
/// candidates, in candidate order, each credited to the transaction's sender.
/// Where the failing candidate's address differs from the other two, no token
/// carries it.
pub proof fn lemma_two_of_three_candidates(author: Address, probes: Seq<TokenProbe>, k: int)
    requires
        probes.len() == 3,
        0 <= k < 3,
        token_of(author, probes[k]) is None,
        forall|j: int| 0 <= j < 3 && j != k ==> token_of(author, #[trigger] probes[j]) is Some,
    ensures
        ({
            let tokens = tokens_of(author, probes);
            let first: int = if k == 0 {
                1
            } else {
                0
            };
            let second: int = if k == 2 {
                1
            } else {
                2
            };
            &&& tokens.len() == 2
            &&& tokens[0] == token_of(author, probes[first])->0
            &&& tokens[1] == token_of(author, probes[second])->0
            &&& tokens[0].address == probes[first].address@
            &&& tokens[1].address == probes[second].address@
            &&& forall|i: int| 0 <= i < 2 ==> (#[trigger] tokens[i]).author == author@
            &&& (forall|j: int| 0 <= j < 3 && j != k ==> (#[trigger] probes[j]).address@
                != probes[k].address@) ==> forall|i: int|
                0 <= i < 2 ==> (#[trigger] tokens[i]).address != probes[k].address@
        }),
{
    let p2 = probes.drop_last();
    let p1 = p2.drop_last();
    let p0 = p1.drop_last();
    assert(p0.len() == 0);
    assert(tokens_of(author, p0) =~= Seq::empty());
    assert(p1.last() == probes[0]);
    assert(p2.last() == probes[1]);
    assert(probes.last() == probes[2]);
    assert(token_of(author, probes[0]) is Some || k == 0);
    assert(token_of(author, probes[1]) is Some || k == 1);
    assert(token_of(author, probes[2]) is Some || k == 2);
    let t0 = crate::log::opt_seq(token_of(author, probes[0]));
    let t1 = crate::log::opt_seq(token_of(author, probes[1]));
    let t2 = crate::log::opt_seq(token_of(author, probes[2]));
    assert(tokens_of(author, p1) =~= t0);
    assert(tokens_of(author, p2) =~= t0 + t1);
    assert(tokens_of(author, probes) =~= t0 + t1 + t2);
}

/// Discovery is a function of the trace and the probes' answers: the same
/// trace names the same contracts, and the same answers make the same
/// tokens, however often they are fed in.
pub proof fn lemma_discovery_is_pure(
    author: Address,
    entries_a: Seq<TraceEntry>,
    entries_b: Seq<TraceEntry>,
    probes_a: Seq<TokenProbe>,
    probes_b: Seq<TokenProbe>,
)
    requires
        entries_a == entries_b,
        probes_a == probes_b,
    ensures
        creations_of(entries_a) == creations_of(entries_b),
        tokens_of(author, probes_a) == tokens_of(author, probes_b),
{
}

/// The decisions of token discovery: which contracts to probe, and which
/// probes make a token.
pub struct TokensHandler {}

impl TokensHandler {
    pub fn new() -> (r: Self) {
        TokensHandler {  }
    }

    /// The contract a trace entry created, if it created one.
    pub fn get_contract_address(&self, entry: &TraceEntry) -> (r: Option<Address>)
        ensures
            r matches Some(a) ==> creation_of(*entry) == Some(a@),
            r is None ==> creation_of(*entry) is None,
    {
        match entry.result {
            Some(TraceOutput::Create(a)) => Some(a),
            _ => None,
        }
    }

    /// The contracts a trace created, in trace order; entries without a
    /// result, reverted ones and plain calls are skipped.
    pub fn get_contract_addresses(&self, entries: &Vec<TraceEntry>) -> (r: Vec<Address>)
        ensures
            r@.map_values(|a: Address| a@) == creations_of(entries@),
    {
        let mut out: Vec<Address> = Vec::new();
        let mut i: usize = 0;
        while i < entries.len()
            invariant
                i <= entries@.len(),
                out@.map_values(|a: Address| a@) == creations_of(entries@.subrange(0, i as int)),
            decreases entries@.len() - i,
        {
            let ghost before = out@;
            let found = self.get_contract_address(&entries[i]);
            assert(entries@.subrange(0, i as int + 1).drop_last() =~= entries@.subrange(
                0,
                i as int,
            ));
            match found {
                Some(a) => {
                    out.push(a);
                },
                None => {},
            }
            assert(out@.map_values(|a: Address| a@) =~= before.map_values(|a: Address| a@)
                + crate::log::opt_seq(creation_of(entries@[i as int])));
            i += 1;
        }
        assert(entries@.subrange(0, entries@.len() as int) =~= entries@);
        out
    }

    /// The token a probe makes, if all four of its queries succeeded; a
    /// single failed query discards the candidate.
    pub fn get_token(&self, author: Address, probe: &TokenProbe) -> (r: Option<Token>)
        ensures
            r matches Some(t) ==> token_of(author, *probe) == Some(t@),
            r is None ==> token_of(author, *probe) is None,
    {
        match (&probe.name, &probe.symbol, probe.decimals, probe.total_supply) {
            (Some(name), Some(symbol), Some(decimals), Some(total_supply)) => Some(
                Token {
                    author,
                    address: probe.address,
                    name: name.clone(),
                    symbol: symbol.clone(),
                    decimals,
                    total_supply,
                },
            ),
            _ => None,
        }
    }

    /// The tokens that `author`'s transaction created, in probe order: one for
    /// each probe whose four queries all succeeded. Candidates do not affect
    /// one another.
    pub fn get_tokens(&self, author: Address, probes: &Vec<TokenProbe>) -> (r: Vec<Token>)
        ensures
            r@.map_values(|t: Token| t@) == tokens_of(author, probes@),
    {
        let mut out: Vec<Token> = Vec::new();
        let mut i: usize = 0;
        while i < probes.len()
            invariant
                i <= probes@.len(),
                out@.map_values(|t: Token| t@) == tokens_of(author, probes@.subrange(0, i as int)),
            decreases probes@.len() - i,
        {
            let ghost before = out@;
            let found = self.get_token(author, &probes[i]);
            assert(probes@.subrange(0, i as int + 1).drop_last() =~= probes@.subrange(
                0,
                i as int,
            ));
            match found {
                Some(t) => {
                    out.push(t);
                },
                None => {},
            }
            assert(out@.map_values(|t: Token| t@) =~= before.map_values(|t: Token| t@)
                + crate::log::opt_seq(token_of(author, probes@[i as int])));
            i += 1;
        }
        assert(probes@.subrange(0, probes@.len() as int) =~= probes@);
        out
    }
}

} // verus!

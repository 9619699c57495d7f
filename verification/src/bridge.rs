//! A ledger of cross-chain bridge requests: each request records the token, the
//! destination chain and the recipient, stamped with its request number.
use vstd::prelude::*;

verus! {

/// One bridged token.
#[derive(Debug, Clone)]
pub struct BridgedToken {
    pub token_id: u64,
    pub chain_id: u64,
    pub recipient: Vec<u8>,
    pub timestamp: u64,
}

/// The content of a [`BridgedToken`].
pub struct BridgedTokenView {
    pub token_id: u64,
    pub chain_id: u64,
    pub recipient: Seq<u8>,
    pub timestamp: u64,
}

impl View for BridgedToken {
    type V = BridgedTokenView;

    open spec fn view(&self) -> BridgedTokenView {
        BridgedTokenView {
            token_id: self.token_id,
            chain_id: self.chain_id,
            recipient: self.recipient@,
            timestamp: self.timestamp,
        }
    }
}

/// The views of a sequence of bridged tokens.
pub open spec fn token_views(s: Seq<BridgedToken>) -> Seq<BridgedTokenView> {
    s.map_values(|t: BridgedToken| t@)
}

/// All bridge requests made so far, in order, and how many there were.
#[derive(Debug, Clone)]
pub struct BridgeState {
    bridged_tokens: Vec<BridgedToken>,
    request_counter: u64,
}

/// `token_id` has been bridged in `tokens`.
pub open spec fn bridged(tokens: Seq<BridgedTokenView>, token_id: u64) -> bool {
    exists|i: int| 0 <= i < tokens.len() && #[trigger] tokens[i].token_id == token_id
}

/// No token appears twice in `tokens`.
pub open spec fn distinct_tokens(tokens: Seq<BridgedTokenView>) -> bool {
    forall|i: int, j: int|
        0 <= i < j < tokens.len() ==> #[trigger] tokens[i].token_id != #[trigger] tokens[j].token_id
}

impl View for BridgeState {
    type V = Seq<BridgedTokenView>;

    closed spec fn view(&self) -> Seq<BridgedTokenView> {
        token_views(self.bridged_tokens@)
    }
}

impl BridgeState {
    /// The ledger is consistent: the counter equals the number of recorded requests,
    /// and each request is stamped with its position.
    pub closed spec fn wf(&self) -> bool {
        &&& self.request_counter == self.bridged_tokens@.len()
        &&& forall|i: int|
            0 <= i < self.bridged_tokens@.len() ==> #[trigger] self.bridged_tokens@[i].timestamp
                == i
    }

    /// An empty ledger.
    pub fn new() -> (state: Self)
        ensures
            state.wf(),
            state@ == Seq::<BridgedTokenView>::empty(),
    {
        let state = BridgeState { bridged_tokens: Vec::new(), request_counter: 0 };
        assert(state@ =~= Seq::<BridgedTokenView>::empty());
        state
    }

    /// Records a request to bridge `token_id` to `chain_id` for `recipient`, stamped
    /// with the number of earlier requests.
    pub fn bridge_token(&mut self, token_id: u64, chain_id: u64, recipient: Vec<u8>)
        requires
            old(self).wf(),
            old(self)@.len() < u64::MAX,
        ensures
            final(self).wf(),
            final(self)@ == old(self)@.push(
                BridgedTokenView {
                    token_id,
                    chain_id,
                    recipient: recipient@,
                    timestamp: old(self)@.len() as u64,
                },
            ),
            final(self)@ == record(old(self)@, (token_id, chain_id, recipient@)),
    {
        let bridged_token = BridgedToken {
            token_id,
            chain_id,
            recipient,
            timestamp: self.request_counter,
        };
        self.bridged_tokens.push(bridged_token);
        self.request_counter = self.request_counter + 1;
        assert(token_views(self.bridged_tokens@) =~= token_views(old(self).bridged_tokens@).push(
            bridged_token@,
        ));
    }

    /// Whether `token_id` has been bridged.
    pub fn is_token_bridged(&self, token_id: u64) -> (found: bool)
        ensures
            found == bridged(self@, token_id),
    {
        let mut i: usize = 0;
        while i < self.bridged_tokens.len()
            invariant
                i <= self.bridged_tokens@.len(),
                forall|k: int| 0 <= k < i ==> self.bridged_tokens@[k].token_id != token_id,
            decreases self.bridged_tokens@.len() - i,
        {
            if self.bridged_tokens[i].token_id == token_id {
                assert(self@[i as int].token_id == token_id);
                return true;
            }
            i = i + 1;
        }
        assert forall|k: int| 0 <= k < self@.len() implies #[trigger] self@[k].token_id
            != token_id by {
            assert(self@[k] == self.bridged_tokens@[k]@);
        }
        false
    }

    /// How many requests have been recorded.
    pub fn get_request_count(&self) -> (count: u64)
        requires
            self.wf(),
        ensures
            count == self@.len(),
    {
        self.request_counter
    }

    /// All recorded requests, in order.
    pub fn get_bridged_tokens(&self) -> (tokens: &[BridgedToken])
        ensures
            token_views(tokens@) == self@,
    {
        self.bridged_tokens.as_slice()
    }
}

/// A token is recorded as bridged right after a request for it, and every token
/// bridged before stays bridged.
pub proof fn law_bridging_records_token(
    tokens: Seq<BridgedTokenView>,
    request: BridgedTokenView,
    other: u64,
)
    ensures
        bridged(tokens.push(request), request.token_id),
        bridged(tokens, other) ==> bridged(tokens.push(request), other),
{
    assert(tokens.push(request)[tokens.len() as int].token_id == request.token_id);
    if bridged(tokens, other) {
        let i = choose|i: int| 0 <= i < tokens.len() && #[trigger] tokens[i].token_id == other;
        assert(tokens.push(request)[i].token_id == other);
    }
}

/// Bridging only tokens that are not bridged yet keeps every token in the ledger at most
/// once.
pub proof fn law_guarded_bridging_keeps_tokens_distinct(
    tokens: Seq<BridgedTokenView>,
    request: BridgedTokenView,
)
    requires
        distinct_tokens(tokens),
        !bridged(tokens, request.token_id),
    ensures
        distinct_tokens(tokens.push(request)),
{
    let s = tokens.push(request);
    assert forall|i: int, j: int| 0 <= i < j < s.len() implies #[trigger] s[i].token_id
        != #[trigger] s[j].token_id by {
        if j == tokens.len() {
            assert(tokens[i].token_id == s[i].token_id);
        } else {
            assert(tokens[i].token_id != tokens[j].token_id);
        }
    }
}

/// The ledger that `n` requests `(token_id, chain_id, recipient)` leave, made in order
/// on an empty ledger: each recorded as given, stamped with its position.
pub open spec fn ledger_of(requests: Seq<(u64, u64, Seq<u8>)>) -> Seq<BridgedTokenView> {
    Seq::new(
        requests.len(),
        |i: int|
            BridgedTokenView {
                token_id: requests[i].0,
                chain_id: requests[i].1,
                recipient: requests[i].2,
                timestamp: i as u64,
            },
    )
}

/// The ledger after any sequence of requests is [`ledger_of`] those requests: the empty
/// ledger is that of no requests, and a further request (as [`BridgeState::bridge_token`]
/// records it) extends the ledger of the earlier ones to that of all of them. So after
/// `n` requests the count is `n` and the `i`-th record holds the `i`-th request's token,
/// chain and recipient, stamped `i`.
pub proof fn law_ledger_after_requests(
    requests: Seq<(u64, u64, Seq<u8>)>,
    next: (u64, u64, Seq<u8>),
)
    requires
        requests.len() < u64::MAX,
    ensures
        ledger_of(Seq::empty()) == Seq::<BridgedTokenView>::empty(),
        ledger_of(requests).len() == requests.len(),
        ledger_of(requests).push(
            BridgedTokenView {
                token_id: next.0,
                chain_id: next.1,
                recipient: next.2,
                timestamp: ledger_of(requests).len() as u64,
            },
        ) == ledger_of(requests.push(next)),
        forall|i: int|
            0 <= i < requests.len() ==> {
                let r = #[trigger] ledger_of(requests)[i];
                &&& r.token_id == requests[i].0
                &&& r.chain_id == requests[i].1
                &&& r.recipient == requests[i].2
                &&& r.timestamp == i
            },
{
    assert(ledger_of(Seq::empty()) =~= Seq::<BridgedTokenView>::empty());
    assert(ledger_of(requests).push(
        BridgedTokenView {
            token_id: next.0,
            chain_id: next.1,
            recipient: next.2,
            timestamp: ledger_of(requests).len() as u64,
        },
    ) =~= ledger_of(requests.push(next)));
}

/// The ledger after one more request, as [`BridgeState::bridge_token`] records it: the
/// request appended, stamped with the number of earlier records.
pub open spec fn record(ledger: Seq<BridgedTokenView>, request: (u64, u64, Seq<u8>)) -> Seq<
    BridgedTokenView,
> {
    ledger.push(
        BridgedTokenView {
            token_id: request.0,
            chain_id: request.1,
            recipient: request.2,
            timestamp: ledger.len() as u64,
        },
    )
}

/// The ledger left by making `requests` in order on a new (empty) ledger.
pub open spec fn replay(requests: Seq<(u64, u64, Seq<u8>)>) -> Seq<BridgedTokenView>
    decreases requests.len(),
{
    if requests.len() == 0 {
        Seq::empty()
    } else {
        record(replay(requests.drop_last()), requests.last())
    }
}

/// Bridge integrity over any number of requests: making `n` requests in order on a new
/// ledger leaves exactly `n` records, the `i`-th holding the `i`-th request's token,
/// chain and recipient, stamped `i` (the counter stays a 64-bit number, so `n` is below
/// `u64::MAX`).
pub proof fn law_replay_records_every_request(requests: Seq<(u64, u64, Seq<u8>)>)
    requires
        requests.len() < u64::MAX,
    ensures
        replay(requests) == ledger_of(requests),
    decreases requests.len(),
{
    if requests.len() == 0 {
        assert(ledger_of(requests) =~= Seq::<BridgedTokenView>::empty());
    } else {
        let earlier = requests.drop_last();
        law_replay_records_every_request(earlier);
        law_ledger_after_requests(earlier, requests.last());
        assert(earlier.push(requests.last()) =~= requests);
    }
}

} // verus!

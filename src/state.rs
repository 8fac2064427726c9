//! The contract's durable state: configuration, the two single-slot reply
//! states of a saga, the in-flight packet registry and the recovery ledger.
use vstd::prelude::*;

use crate::msg::Recovery;
use crate::router::ExecuteMsg as SwapRouterExecute;

verus! {

/// Set once at instantiation.
#[derive(Debug, PartialEq, Eq)]
pub struct Config {
    /// Address of the trading venue.
    pub swap_contract: String,
    pub track_ibc_callbacks: bool,
}

/// Where the proceeds of a swap go.
#[derive(Debug, PartialEq, Eq)]
pub struct ForwardTo {
    pub channel: String,
    pub receiver: String,
    pub failed_delivery: Option<Recovery>,
}

/// Bridges the swap dispatch and the swap result.
#[derive(Debug, PartialEq, Eq)]
pub struct SwapMsgReplyState {
    pub swap_msg: SwapRouterExecute,
    pub contract_addr: String,
    /// Block time of the request, in nanoseconds since the epoch.
    pub block_time: u64,
    pub forward_to: ForwardTo,
}

/// Bridges the transfer dispatch and its confirmation.
#[derive(Debug, PartialEq, Eq)]
pub struct ForwardMsgReplyState {
    pub channel_id: String,
    pub to_address: String,
    pub amount: u128,
    pub denom: String,
    pub failed_delivery: Option<Recovery>,
}

/// Delivery status of a forwarded packet; every status but `Sent` is final.
#[derive(Clone, Copy, Debug, PartialEq, Eq, Structural)]
pub enum Status {
    Sent,
    AckSuccess,
    AckFailure,
    TimedOut,
}

/// A transfer packet sent by this contract that is expected to be received
/// but is tracked in case it is not.
#[derive(Debug, PartialEq, Eq)]
pub struct IBCTransfer {
    pub recovery_addr: String,
    pub channel_id: String,
    pub sequence: u64,
    pub amount: u128,
    pub denom: String,
    pub status: Status,
}

impl Clone for IBCTransfer {
    fn clone(&self) -> (r: Self)
        ensures
            r == *self,
    {
        IBCTransfer {
            recovery_addr: self.recovery_addr.clone(),
            channel_id: self.channel_id.clone(),
            sequence: self.sequence,
            amount: self.amount,
            denom: self.denom.clone(),
            status: self.status,
        }
    }
}

/// The packet is the one sent on `channel` under `sequence`.
pub open spec fn has_key(t: IBCTransfer, channel: Seq<char>, sequence: u64) -> bool {
    t.channel_id@ == channel && t.sequence == sequence
}

/// `i` is the first position in `s` of a packet with the key.
pub open spec fn first_with_key(s: Seq<IBCTransfer>, i: int, channel: Seq<char>, sequence: u64) -> bool {
    &&& 0 <= i < s.len()
    &&& has_key(s[i], channel, sequence)
    &&& forall|j: int| 0 <= j < i ==> !has_key(#[trigger] s[j], channel, sequence)
}

/// Where the registry `s` holds the packet with the key, if anywhere.
pub open spec fn find_packet(s: Seq<IBCTransfer>, channel: Seq<char>, sequence: u64) -> Option<int> {
    if exists|i: int| first_with_key(s, i, channel, sequence) {
        Some(choose|i: int| first_with_key(s, i, channel, sequence))
    } else {
        None
    }
}

/// No two packets of `s` share a key.
pub open spec fn keys_unique(s: Seq<IBCTransfer>) -> bool {
    forall|i: int, j: int|
        0 <= i < s.len() && 0 <= j < s.len() && i != j ==> !has_key(
            #[trigger] s[j],
            (#[trigger] s[i]).channel_id@,
            s[i].sequence,
        )
}

/// The registry `s` after saving `t` under its key: an entry with that key is
/// replaced, else `t` is added.
pub open spec fn with_packet(s: Seq<IBCTransfer>, t: IBCTransfer) -> Seq<IBCTransfer> {
    match find_packet(s, t.channel_id@, t.sequence) {
        Some(i) => s.update(i, t),
        None => s.push(t),
    }
}

/// The records of the ledger `s` owed to `addr`, in the order they were added.
pub open spec fn records_of(s: Seq<IBCTransfer>, addr: Seq<char>) -> Seq<IBCTransfer>
    decreases s.len(),
{
    if s.len() == 0 {
        Seq::empty()
    } else if s.last().recovery_addr@ == addr {
        records_of(s.drop_last(), addr).push(s.last())
    } else {
        records_of(s.drop_last(), addr)
    }
}

/// The records of the ledger `s` owed to any address but `addr`, in order.
pub open spec fn records_not_of(s: Seq<IBCTransfer>, addr: Seq<char>) -> Seq<IBCTransfer>
    decreases s.len(),
{
    if s.len() == 0 {
        Seq::empty()
    } else if s.last().recovery_addr@ == addr {
        records_not_of(s.drop_last(), addr)
    } else {
        records_not_of(s.drop_last(), addr).push(s.last())
    }
}

/// A packet with the key at `j` means that a first one exists.
pub proof fn lemma_first_exists(s: Seq<IBCTransfer>, j: int, channel: Seq<char>, sequence: u64)
    requires
        0 <= j < s.len(),
        has_key(s[j], channel, sequence),
    ensures
        exists|i: int| first_with_key(s, i, channel, sequence),
    decreases j,
{
    if exists|k: int| 0 <= k < j && has_key(#[trigger] s[k], channel, sequence) {
        let k = choose|k: int| 0 <= k < j && has_key(#[trigger] s[k], channel, sequence);
        lemma_first_exists(s, k, channel, sequence);
    } else {
        assert(first_with_key(s, j, channel, sequence));
    }
}

/// The registry holds no packet with the key exactly when `find_packet` finds none.
pub proof fn lemma_find_none(s: Seq<IBCTransfer>, channel: Seq<char>, sequence: u64)
    ensures
        find_packet(s, channel, sequence) is None <==> forall|j: int|
            0 <= j < s.len() ==> !has_key(#[trigger] s[j], channel, sequence),
{
    if exists|j: int| 0 <= j < s.len() && has_key(#[trigger] s[j], channel, sequence) {
        let j = choose|j: int| 0 <= j < s.len() && has_key(#[trigger] s[j], channel, sequence);
        lemma_first_exists(s, j, channel, sequence);
    }
}

/// Where `find_packet` finds a packet, it holds the key and is the first to.
pub proof fn lemma_find_some(s: Seq<IBCTransfer>, channel: Seq<char>, sequence: u64)
    requires
        find_packet(s, channel, sequence) is Some,
    ensures
        first_with_key(s, find_packet(s, channel, sequence)->Some_0, channel, sequence),
{
}

/// Two first positions of one key are the same position.
pub proof fn lemma_first_unique(s: Seq<IBCTransfer>, i: int, k: int, channel: Seq<char>, sequence: u64)
    requires
        first_with_key(s, i, channel, sequence),
        first_with_key(s, k, channel, sequence),
    ensures
        i == k,
{
    if k < i {
        assert(!has_key(s[k], channel, sequence));
    } else if i < k {
        assert(!has_key(s[i], channel, sequence));
    }
}

/// After saving `t`, the registry finds `t` under its key.
pub proof fn lemma_with_packet_finds(s: Seq<IBCTransfer>, t: IBCTransfer)
    ensures
        find_packet(with_packet(s, t), t.channel_id@, t.sequence) matches Some(j) && with_packet(
            s,
            t,
        )[j] == t,
{
    let r = with_packet(s, t);
    let ch = t.channel_id@;
    let sq = t.sequence;
    let j = match find_packet(s, ch, sq) {
        Some(i) => {
            lemma_find_some(s, ch, sq);
            assert forall|k: int| 0 <= k < i implies !has_key(#[trigger] r[k], ch, sq) by {
                assert(r[k] == s[k]);
            }
            i
        },
        None => {
            lemma_find_none(s, ch, sq);
            assert forall|k: int| 0 <= k < s.len() implies !has_key(#[trigger] r[k], ch, sq) by {
                assert(r[k] == s[k]);
            }
            s.len() as int
        },
    };
    assert(first_with_key(r, j, ch, sq));
    let k = choose|k: int| first_with_key(r, k, ch, sq);
    lemma_first_unique(r, j, k, ch, sq);
}

/// Saving a packet keeps the keys unique.
pub proof fn lemma_with_packet_unique(s: Seq<IBCTransfer>, t: IBCTransfer)
    requires
        keys_unique(s),
    ensures
        keys_unique(with_packet(s, t)),
        with_packet(s, t).contains(t),
{
    let r = with_packet(s, t);
    match find_packet(s, t.channel_id@, t.sequence) {
        Some(i) => {
            lemma_find_some(s, t.channel_id@, t.sequence);
            assert(r[i] == t);
            assert forall|a: int, b: int|
                0 <= a < r.len() && 0 <= b < r.len() && a != b implies !has_key(
                #[trigger] r[b],
                (#[trigger] r[a]).channel_id@,
                r[a].sequence,
            ) by {
                if a == i {
                    assert(!has_key(s[b], s[i].channel_id@, s[i].sequence));
                } else if b == i {
                    assert(!has_key(s[i], s[a].channel_id@, s[a].sequence));
                } else {
                    assert(!has_key(s[b], s[a].channel_id@, s[a].sequence));
                }
            }
        },
        None => {
            lemma_find_none(s, t.channel_id@, t.sequence);
            assert(r[s.len() as int] == t);
            assert forall|a: int, b: int|
                0 <= a < r.len() && 0 <= b < r.len() && a != b implies !has_key(
                #[trigger] r[b],
                (#[trigger] r[a]).channel_id@,
                r[a].sequence,
            ) by {
                if a == s.len() {
                    assert(!has_key(s[b], t.channel_id@, t.sequence));
                } else if b == s.len() {
                    assert(!has_key(s[a], t.channel_id@, t.sequence));
                } else {
                    assert(!has_key(s[b], s[a].channel_id@, s[a].sequence));
                }
            }
        },
    }
}

/// Removing a packet keeps the keys unique, and leaves none with its key.
pub proof fn lemma_remove_unique(s: Seq<IBCTransfer>, i: int)
    requires
        keys_unique(s),
        0 <= i < s.len(),
    ensures
        keys_unique(s.remove(i)),
        find_packet(s.remove(i), s[i].channel_id@, s[i].sequence) is None,
{
    let r = s.remove(i);
    assert forall|a: int, b: int|
        0 <= a < r.len() && 0 <= b < r.len() && a != b implies !has_key(
        #[trigger] r[b],
        (#[trigger] r[a]).channel_id@,
        r[a].sequence,
    ) by {
        let sa = if a < i { a } else { a + 1 };
        let sb = if b < i { b } else { b + 1 };
        assert(r[a] == s[sa]);
        assert(r[b] == s[sb]);
        assert(!has_key(s[sb], s[sa].channel_id@, s[sa].sequence));
    }
    assert forall|j: int| 0 <= j < r.len() implies !has_key(
        #[trigger] r[j],
        s[i].channel_id@,
        s[i].sequence,
    ) by {
        let sj = if j < i { j } else { j + 1 };
        assert(r[j] == s[sj]);
        assert(!has_key(s[sj], s[i].channel_id@, s[i].sequence));
    }
    lemma_find_none(r, s[i].channel_id@, s[i].sequence);
}

/// Records are owed either to `addr` or to another address, and added in order.
pub proof fn lemma_records_push(s: Seq<IBCTransfer>, t: IBCTransfer, addr: Seq<char>)
    ensures
        records_of(s.push(t), addr) == (if t.recovery_addr@ == addr {
            records_of(s, addr).push(t)
        } else {
            records_of(s, addr)
        }),
        records_not_of(s.push(t), addr) == (if t.recovery_addr@ == addr {
            records_not_of(s, addr)
        } else {
            records_not_of(s, addr).push(t)
        }),
{
    assert(s.push(t).drop_last() =~= s);
}

/// Nothing in what stays after a claim is owed to the claimant.
pub proof fn lemma_records_not_of_clean(s: Seq<IBCTransfer>, addr: Seq<char>)
    ensures
        records_of(records_not_of(s, addr), addr) == Seq::<IBCTransfer>::empty(),
    decreases s.len(),
{
    if s.len() > 0 {
        lemma_records_not_of_clean(s.drop_last(), addr);
        if s.last().recovery_addr@ != addr {
            lemma_records_push(records_not_of(s.drop_last(), addr), s.last(), addr);
        }
    }
}

/// Claiming twice leaves what claiming once left.
pub proof fn lemma_records_not_of_idempotent(s: Seq<IBCTransfer>, addr: Seq<char>)
    ensures
        records_not_of(records_not_of(s, addr), addr) == records_not_of(s, addr),
    decreases s.len(),
{
    if s.len() > 0 {
        lemma_records_not_of_idempotent(s.drop_last(), addr);
        if s.last().recovery_addr@ != addr {
            lemma_records_push(records_not_of(s.drop_last(), addr), s.last(), addr);
        }
    }
}

/// A claim by `addr` leaves the records of every other address as they were.
pub proof fn lemma_records_not_of_other(s: Seq<IBCTransfer>, addr: Seq<char>, other: Seq<char>)
    requires
        other != addr,
    ensures
        records_of(records_not_of(s, addr), other) == records_of(s, other),
    decreases s.len(),
{
    if s.len() > 0 {
        lemma_records_not_of_other(s.drop_last(), addr, other);
        if s.last().recovery_addr@ != addr {
            lemma_records_push(records_not_of(s.drop_last(), addr), s.last(), other);
        }
    }
}

/// The whole state of one contract instance.
pub struct ContractState {
    pub config: Config,
    pub swap_reply_state: Option<SwapMsgReplyState>,
    pub forward_reply_state: Option<ForwardMsgReplyState>,
    /// In-flight packets, keyed by (channel, sequence).
    pub inflight_packets: Vec<IBCTransfer>,
    /// The recovery ledger: each record is owed to its `recovery_addr`.
    pub recovery_states: Vec<IBCTransfer>,
}

/// The abstract state: the registry and the ledger as sequences.
pub struct ContractView {
    pub config: Config,
    pub swap_reply_state: Option<SwapMsgReplyState>,
    pub forward_reply_state: Option<ForwardMsgReplyState>,
    pub inflight: Seq<IBCTransfer>,
    pub recovery: Seq<IBCTransfer>,
}

impl View for ContractState {
    type V = ContractView;

    open spec fn view(&self) -> ContractView {
        ContractView {
            config: self.config,
            swap_reply_state: self.swap_reply_state,
            forward_reply_state: self.forward_reply_state,
            inflight: self.inflight_packets@,
            recovery: self.recovery_states@,
        }
    }
}

impl ContractView {
    /// The state right after instantiation.
    pub open spec fn initial(config: Config) -> ContractView {
        ContractView {
            config,
            swap_reply_state: None,
            forward_reply_state: None,
            inflight: Seq::empty(),
            recovery: Seq::empty(),
        }
    }

    /// No two in-flight packets share a key.
    pub open spec fn wf(self) -> bool {
        keys_unique(self.inflight)
    }

    /// A saga waits for its swap or forward result.
    pub open spec fn saga_pending(self) -> bool {
        self.swap_reply_state is Some || self.forward_reply_state is Some
    }

    /// The records owed to `addr`.
    pub open spec fn recoverable(self, addr: Seq<char>) -> Seq<IBCTransfer> {
        records_of(self.recovery, addr)
    }

    /// The state after `addr` claimed everything owed to it.
    pub open spec fn after_claim(self, addr: Seq<char>) -> ContractView {
        ContractView { recovery: records_not_of(self.recovery, addr), ..self }
    }
}

impl ContractState {
    /// A fresh contract with an empty registry and ledger.
    pub fn new(config: Config) -> (r: Self)
        ensures
            r@ == ContractView::initial(config),
    {
        let r = ContractState {
            config,
            swap_reply_state: None,
            forward_reply_state: None,
            inflight_packets: Vec::new(),
            recovery_states: Vec::new(),
        };
        proof {
            assert(r@.inflight =~= Seq::<IBCTransfer>::empty());
            assert(r@.recovery =~= Seq::<IBCTransfer>::empty());
        }
        r
    }

    /// Saves `t` in the registry under its key, replacing an entry with that key.
    pub fn save_packet(&mut self, t: IBCTransfer)
        ensures
            final(self)@ == (ContractView { inflight: with_packet(old(self)@.inflight, t), ..old(self)@ }),
            old(self)@.wf() ==> final(self)@.wf(),
    {
        proof {
            if old(self)@.wf() {
                lemma_with_packet_unique(old(self)@.inflight, t);
            }
        }
        match self.packet_position(&t.channel_id, t.sequence) {
            Some(i) => {
                self.inflight_packets.set(i, t);
            },
            None => {
                self.inflight_packets.push(t);
            },
        }
    }

    /// Removes and returns the packet sent on `channel` under `sequence`, if tracked.
    pub fn take_packet(&mut self, channel: &String, sequence: u64) -> (r: Option<IBCTransfer>)
        ensures
            match find_packet(old(self)@.inflight, channel@, sequence) {
                Some(i) => {
                    &&& r == Some(old(self)@.inflight[i])
                    &&& final(self)@ == (ContractView { inflight: old(self)@.inflight.remove(i), ..old(self)@ })
                },
                None => r is None && final(self)@ == old(self)@,
            },
            old(self)@.wf() ==> final(self)@.wf(),
    {
        match self.packet_position(channel, sequence) {
            Some(i) => {
                proof {
                    if old(self)@.wf() {
                        lemma_find_some(old(self)@.inflight, channel@, sequence);
                        lemma_remove_unique(old(self)@.inflight, i as int);
                    }
                }
                Some(self.inflight_packets.remove(i))
            },
            None => None,
        }
    }

    /// The records owed to `addr`, oldest first.
    pub fn recoverable(&self, addr: &String) -> (r: Vec<IBCTransfer>)
        ensures
            r@ == self@.recoverable(addr@),
    {
        let ghost s = self@.recovery;
        let mut r: Vec<IBCTransfer> = Vec::new();
        let mut i: usize = 0;
        while i < self.recovery_states.len()
            invariant
                s == self@.recovery,
                0 <= i <= s.len(),
                r@ == records_of(s.subrange(0, i as int), addr@),
            decreases s.len() - i,
        {
            proof {
                assert(s.subrange(0, i + 1) =~= s.subrange(0, i as int).push(s[i as int]));
                lemma_records_push(s.subrange(0, i as int), s[i as int], addr@);
            }
            if self.recovery_states[i].recovery_addr == *addr {
                r.push(self.recovery_states[i].clone());
            }
            i += 1;
        }
        assert(s.subrange(0, s.len() as int) =~= s);
        r
    }

    /// Removes and returns every record owed to `addr`, oldest first.
    pub fn claim_recoverable(&mut self, addr: &String) -> (r: Vec<IBCTransfer>)
        ensures
            r@ == old(self)@.recoverable(addr@),
            final(self)@ == old(self)@.after_claim(addr@),
    {
        let ghost s = self@.recovery;
        let mut taken: Vec<IBCTransfer> = Vec::new();
        let mut kept: Vec<IBCTransfer> = Vec::new();
        let mut i: usize = 0;
        while i < self.recovery_states.len()
            invariant
                self@ == old(self)@,
                s == self@.recovery,
                0 <= i <= s.len(),
                taken@ == records_of(s.subrange(0, i as int), addr@),
                kept@ == records_not_of(s.subrange(0, i as int), addr@),
            decreases s.len() - i,
        {
            proof {
                assert(s.subrange(0, i + 1) =~= s.subrange(0, i as int).push(s[i as int]));
                lemma_records_push(s.subrange(0, i as int), s[i as int], addr@);
            }
            if self.recovery_states[i].recovery_addr == *addr {
                taken.push(self.recovery_states[i].clone());
            } else {
                kept.push(self.recovery_states[i].clone());
            }
            i += 1;
        }
        assert(s.subrange(0, s.len() as int) =~= s);
        self.recovery_states = kept;
        taken
    }

    /// Adds a record to the ledger, owed to its `recovery_addr`.
    pub fn append_recovery(&mut self, t: IBCTransfer)
        ensures
            final(self)@ == (ContractView { recovery: old(self)@.recovery.push(t), ..old(self)@ }),
    {
        self.recovery_states.push(t);
    }

    /// Position of the in-flight packet sent on `channel` under `sequence`.
    pub fn packet_position(&self, channel: &String, sequence: u64) -> (r: Option<usize>)
        ensures
            r matches Some(i) ==> find_packet(self@.inflight, channel@, sequence) == Some(i as int),
            r is None ==> find_packet(self@.inflight, channel@, sequence) is None,
    {
        let ghost s = self@.inflight;
        let mut i: usize = 0;
        while i < self.inflight_packets.len()
            invariant
                s == self@.inflight,
                0 <= i <= s.len(),
                forall|j: int| 0 <= j < i ==> !has_key(#[trigger] s[j], channel@, sequence),
            decreases s.len() - i,
        {
            if self.inflight_packets[i].sequence == sequence && self.inflight_packets[i].channel_id
                == *channel {
                proof {
                    assert(first_with_key(s, i as int, channel@, sequence));
                    let k = choose|k: int| first_with_key(s, k, channel@, sequence);
                    assert(first_with_key(s, k, channel@, sequence));
                    if k < i {
                        assert(!has_key(s[k], channel@, sequence));
                    } else if k > i {
                        assert(!has_key(s[i as int], channel@, sequence));
                    }
                }
                return Some(i);
            }
            i += 1;
        }
        proof {
            assert forall|k: int| !first_with_key(s, k, channel@, sequence) by {
                if 0 <= k < s.len() {
                    assert(!has_key(s[k], channel@, sequence));
                }
            }
        }
        None
    }
}

} // verus!

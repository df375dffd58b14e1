//! The agent-memory contract: each minted token is one agent identity, whose
//! owner or authorised agent wallet appends JSON memory summaries; every entry
//! keeps its keccak-256 digest for later integrity checks.
use vstd::prelude::*;
use crate::host::CallContext;
use crate::primitives::{Address, B256, U256, keccak256, keccak256_digest, be_bytes, be_value};

verus! {

/// Why a call to the agent-memory contract was refused.
#[derive(Clone, Copy, Debug, PartialEq, Eq, Structural)]
pub enum AgentMemoryError {
    InvalidOwner,
    TokenNotFound,
    NotAuthorized,
    EmptyMemory,
    IndexOutOfBounds,
    NotTokenOwner,
}

impl AgentMemoryError {
    pub open spec fn message_spec(&self) -> Seq<char> {
        match self {
            AgentMemoryError::InvalidOwner => "invalid owner"@,
            AgentMemoryError::TokenNotFound => "token not found"@,
            AgentMemoryError::NotAuthorized => "not authorized"@,
            AgentMemoryError::EmptyMemory => "empty memory"@,
            AgentMemoryError::IndexOutOfBounds => "index out of bounds"@,
            AgentMemoryError::NotTokenOwner => "not token owner"@,
        }
    }

    /// The revert message of the error.
    pub fn message(&self) -> (s: &'static str)
        ensures
            s@ == self.message_spec(),
    {
        match self {
            AgentMemoryError::InvalidOwner => "invalid owner",
            AgentMemoryError::TokenNotFound => "token not found",
            AgentMemoryError::NotAuthorized => "not authorized",
            AgentMemoryError::EmptyMemory => "empty memory",
            AgentMemoryError::IndexOutOfBounds => "index out of bounds",
            AgentMemoryError::NotTokenOwner => "not token owner",
        }
    }
}

/// A log entry emitted by the contract.
#[derive(Clone, Copy, Debug)]
pub enum AgentMemoryEvent {
    AgentMinted { token_id: U256, owner: Address, agent: Address },
    MemoryPushed { token_id: U256, entry_index: U256, content_hash: B256, timestamp: U256 },
}

/// The mathematical form of a log entry.
pub enum AgentMemoryEventView {
    AgentMinted { token_id: nat, owner: Address, agent: Address },
    MemoryPushed { token_id: nat, entry_index: nat, content_hash: Seq<u8>, timestamp: nat },
}

impl View for AgentMemoryEvent {
    type V = AgentMemoryEventView;

    open spec fn view(&self) -> AgentMemoryEventView {
        match self {
            AgentMemoryEvent::AgentMinted { token_id, owner, agent } => {
                AgentMemoryEventView::AgentMinted { token_id: token_id@, owner: *owner, agent: *agent }
            },
            AgentMemoryEvent::MemoryPushed { token_id, entry_index, content_hash, timestamp } => {
                AgentMemoryEventView::MemoryPushed {
                    token_id: token_id@,
                    entry_index: entry_index@,
                    content_hash: content_hash.bytes@,
                    timestamp: timestamp@,
                }
            },
        }
    }
}

/// One stored memory entry.
pub struct MemoryEntry {
    pub data: Vec<u8>,
    pub hash: B256,
    pub timestamp: U256,
    pub description: String,
}

pub struct MemoryEntryView {
    pub data: Seq<u8>,
    pub hash: Seq<u8>,
    pub timestamp: nat,
    pub description: Seq<char>,
}

impl View for MemoryEntry {
    type V = MemoryEntryView;

    open spec fn view(&self) -> MemoryEntryView {
        MemoryEntryView {
            data: self.data@,
            hash: self.hash.bytes@,
            timestamp: self.timestamp@,
            description: self.description@,
        }
    }
}

/// One minted agent identity.
pub struct AgentToken {
    pub owner: Address,
    pub agent: Address,
    pub entries: Vec<MemoryEntry>,
}

pub struct AgentTokenView {
    pub owner: Address,
    pub agent: Address,
    pub entries: Seq<MemoryEntryView>,
}

impl View for AgentToken {
    type V = AgentTokenView;

    open spec fn view(&self) -> AgentTokenView {
        AgentTokenView {
            owner: self.owner,
            agent: self.agent,
            entries: self.entries@.map_values(|e: MemoryEntry| e@),
        }
    }
}

/// The contract's storage as mathematics: token `i` is `tokens[i]`, and
/// `events` is the log emitted so far.
pub struct AgentMemoryState {
    pub tokens: Seq<AgentTokenView>,
    pub events: Seq<AgentMemoryEventView>,
}

impl AgentMemoryState {
    /// Every minted token has a non-zero owner.
    pub open spec fn wf(self) -> bool {
        forall|i: int| 0 <= i < self.tokens.len() ==> !(#[trigger] self.tokens[i]).owner.is_zero_spec()
    }

    pub open spec fn minted(self, token_id: nat) -> bool {
        token_id < self.tokens.len()
    }

    /// `mint(to, agent)`: the next token id goes to `to`, with `agent` as its agent wallet.
    pub open spec fn mint(self, to: Address, agent: Address) -> (AgentMemoryState, Result<
        nat,
        AgentMemoryError,
    >) {
        if to.is_zero_spec() {
            (self, Err(AgentMemoryError::InvalidOwner))
        } else {
            let id = self.tokens.len();
            (
                AgentMemoryState {
                    tokens: self.tokens.push(
                        AgentTokenView { owner: to, agent: agent, entries: Seq::empty() },
                    ),
                    events: self.events.push(
                        AgentMemoryEventView::AgentMinted { token_id: id, owner: to, agent: agent },
                    ),
                },
                Ok(id),
            )
        }
    }

    /// `push_memory` called by `sender` at block time `now`.
    pub open spec fn push_memory(
        self,
        sender: Address,
        now: u64,
        token_id: nat,
        data: Seq<u8>,
        description: Seq<char>,
    ) -> (AgentMemoryState, Result<(), AgentMemoryError>) {
        if !self.minted(token_id) {
            (self, Err(AgentMemoryError::TokenNotFound))
        } else {
            let t = self.tokens[token_id as int];
            if sender != t.owner && sender != t.agent {
                (self, Err(AgentMemoryError::NotAuthorized))
            } else if data.len() == 0 {
                (self, Err(AgentMemoryError::EmptyMemory))
            } else {
                let index = t.entries.len();
                let hash = keccak256_digest(data);
                let entry = MemoryEntryView {
                    data: data,
                    hash: hash,
                    timestamp: now as nat,
                    description: description,
                };
                (
                    AgentMemoryState {
                        tokens: self.tokens.update(
                            token_id as int,
                            AgentTokenView { entries: t.entries.push(entry), ..t },
                        ),
                        events: self.events.push(
                            AgentMemoryEventView::MemoryPushed {
                                token_id: token_id,
                                entry_index: index,
                                content_hash: hash,
                                timestamp: now as nat,
                            },
                        ),
                    },
                    Ok(()),
                )
            }
        }
    }

    /// `set_agent_address` called by `sender`.
    pub open spec fn set_agent_address(self, sender: Address, token_id: nat, agent: Address) -> (
        AgentMemoryState,
        Result<(), AgentMemoryError>,
    ) {
        if !self.minted(token_id) {
            (self, Err(AgentMemoryError::TokenNotFound))
        } else if sender != self.tokens[token_id as int].owner {
            (self, Err(AgentMemoryError::NotTokenOwner))
        } else {
            (
                AgentMemoryState {
                    tokens: self.tokens.update(
                        token_id as int,
                        AgentTokenView { agent: agent, ..self.tokens[token_id as int] },
                    ),
                    events: self.events,
                },
                Ok(()),
            )
        }
    }

    /// Number of entries of a token (zero for a token never minted).
    pub open spec fn memory_count(self, token_id: nat) -> nat {
        if self.minted(token_id) {
            self.tokens[token_id as int].entries.len()
        } else {
            0
        }
    }

    pub open spec fn check_bounds(self, token_id: nat, index: nat) -> Result<(), AgentMemoryError> {
        if !self.minted(token_id) {
            Err(AgentMemoryError::TokenNotFound)
        } else if index >= self.memory_count(token_id) {
            Err(AgentMemoryError::IndexOutOfBounds)
        } else {
            Ok(())
        }
    }

    /// The entry at `index` of `token_id`, if the bounds check passes.
    pub open spec fn entry(self, token_id: nat, index: nat) -> Result<
        MemoryEntryView,
        AgentMemoryError,
    > {
        match self.check_bounds(token_id, index) {
            Ok(_) => Ok(self.tokens[token_id as int].entries[index as int]),
            Err(e) => Err(e),
        }
    }

    pub open spec fn memory_data(self, token_id: nat, index: nat) -> Result<Seq<u8>, AgentMemoryError> {
        match self.entry(token_id, index) {
            Ok(e) => Ok(e.data),
            Err(e) => Err(e),
        }
    }

    pub open spec fn memory_hash(self, token_id: nat, index: nat) -> Result<Seq<u8>, AgentMemoryError> {
        match self.entry(token_id, index) {
            Ok(e) => Ok(e.hash),
            Err(e) => Err(e),
        }
    }

    pub open spec fn memory_timestamp(self, token_id: nat, index: nat) -> Result<nat, AgentMemoryError> {
        match self.entry(token_id, index) {
            Ok(e) => Ok(e.timestamp),
            Err(e) => Err(e),
        }
    }

    /// `verify_memory`: the entry exists and the digest of `data` is its stored digest.
    pub open spec fn verify_memory(self, token_id: nat, index: nat, data: Seq<u8>) -> bool {
        match self.entry(token_id, index) {
            Ok(e) => keccak256_digest(data) == e.hash,
            Err(_) => false,
        }
    }

    /// Owner of a token; `None` stands for the zero address of a token never minted.
    pub open spec fn owner_of(self, token_id: nat) -> Option<Address> {
        if self.minted(token_id) {
            Some(self.tokens[token_id as int].owner)
        } else {
            None
        }
    }

    /// Agent wallet of a token; `None` stands for the zero address of a token never minted.
    pub open spec fn agent_of(self, token_id: nat) -> Option<Address> {
        if self.minted(token_id) {
            Some(self.tokens[token_id as int].agent)
        } else {
            None
        }
    }

    pub open spec fn total_supply(self) -> nat {
        self.tokens.len()
    }
}

/// An address result that stands for `spec`, where `None` stands for the zero address.
pub open spec fn address_matches(r: Address, spec: Option<Address>) -> bool {
    match spec {
        Some(a) => r == a,
        None => r.is_zero_spec(),
    }
}

/// Maps the `U256` of a result to its value.
pub open spec fn result_value<E>(r: Result<U256, E>) -> Result<nat, E> {
    match r {
        Ok(v) => Ok(v@),
        Err(e) => Err(e),
    }
}

/// The flat storage key of entry `index` of `token_id`: the keccak-256 digest
/// of the two 32-byte big-endian words, read as a big-endian number.
pub open spec fn entry_key_spec(token_id: nat, index: nat) -> nat {
    be_value(keccak256_digest(be_bytes(token_id, 32) + be_bytes(index, 32)))
}

/// Derives the flat storage key of entry `index` of `token_id`.
pub fn entry_key(token_id: U256, index: U256) -> (r: U256)
    ensures
        r@ == entry_key_spec(token_id@, index@),
        keccak256_digest(be_bytes(token_id@, 32) + be_bytes(index@, 32)).len() == 32,
{
    let t = token_id.to_be_bytes();
    let i = index.to_be_bytes();
    let mut buf: Vec<u8> = Vec::new();
    let mut k: usize = 0;
    while k < 32
        invariant
            k <= 32,
            buf@ == t@.take(k as int),
        decreases 32 - k,
    {
        buf.push(t[k]);
        k = k + 1;
        assert(buf@ =~= t@.take(k as int));
    }
    let mut k: usize = 0;
    while k < 32
        invariant
            k <= 32,
            buf@ == t@ + i@.take(k as int),
        decreases 32 - k,
    {
        buf.push(i[k]);
        k = k + 1;
        assert(buf@ =~= t@ + i@.take(k as int));
    }
    assert(t@.take(32) =~= t@);
    assert(i@.take(32) =~= i@);
    let h = keccak256(buf.as_slice());
    U256::from_be_bytes(h.bytes)
}

/// The agent-memory contract, with the call context that the chain supplies.
pub struct RaxcAgentMemory {
    vm: CallContext,
    tokens: Vec<AgentToken>,
    events: Vec<AgentMemoryEvent>,
}

impl View for RaxcAgentMemory {
    type V = AgentMemoryState;

    closed spec fn view(&self) -> AgentMemoryState {
        AgentMemoryState {
            tokens: self.tokens@.map_values(|t: AgentToken| t@),
            events: self.events@.map_values(|e: AgentMemoryEvent| e@),
        }
    }
}

impl RaxcAgentMemory {
    /// The call context in force.
    pub closed spec fn env(&self) -> CallContext {
        self.vm
    }

    /// A contract with empty storage.
    pub fn new() -> (r: RaxcAgentMemory)
        ensures
            r@.tokens.len() == 0,
            r@.events.len() == 0,
            r@.wf(),
            r.env().sender.is_zero_spec(),
            r.env().block_timestamp == 0,
            r.env().value@ == 0,
    {
        let r = RaxcAgentMemory { vm: CallContext::new(), tokens: Vec::new(), events: Vec::new() };
        assert(r@.tokens =~= Seq::<AgentTokenView>::empty());
        assert(r@.events =~= Seq::<AgentMemoryEventView>::empty());
        r
    }

    /// Sets the caller of the next calls.
    pub fn set_sender(&mut self, sender: Address)
        ensures
            final(self)@ == old(self)@,
            final(self).env() == (CallContext { sender: sender, ..old(self).env() }),
    {
        self.vm.sender = sender;
    }

    /// Sets the block time of the next calls.
    pub fn set_block_timestamp(&mut self, timestamp: u64)
        ensures
            final(self)@ == old(self)@,
            final(self).env() == (CallContext { block_timestamp: timestamp, ..old(self).env() }),
    {
        self.vm.block_timestamp = timestamp;
    }

    /// The log emitted so far.
    pub fn events(&self) -> (r: &Vec<AgentMemoryEvent>)
        ensures
            r@.map_values(|e: AgentMemoryEvent| e@) == self@.events,
    {
        &self.events
    }

    /// Looks a token up by id.
    fn token_index(&self, token_id: U256) -> (r: Option<usize>)
        ensures
            match r {
                Some(t) => t == token_id@ && self@.minted(token_id@),
                None => !self@.minted(token_id@),
            },
            r matches Some(t) ==> t < self.tokens@.len() && self@.tokens[t as int]
                == self.tokens@[t as int]@,
    {
        token_id.to_index(self.tokens.len())
    }

    /// Mints a new agent identity for owner `to` with agent wallet `agent`;
    /// returns its token id.
    pub fn mint(&mut self, to: Address, agent: Address) -> (r: Result<U256, AgentMemoryError>)
        requires
            old(self)@.wf(),
        ensures
            final(self)@.wf(),
            final(self).env() == old(self).env(),
            final(self)@ == old(self)@.mint(to, agent).0,
            result_value(r) == old(self)@.mint(to, agent).1,
    {
        if to.is_zero() {
            return Err(AgentMemoryError::InvalidOwner);
        }
        let token_id = U256::from_usize(self.tokens.len());
        self.tokens.push(AgentToken { owner: to, agent, entries: Vec::new() });
        self.events.push(AgentMemoryEvent::AgentMinted { token_id, owner: to, agent });
        proof {
            let post = old(self)@.mint(to, agent).0;
            let last = self.tokens@.len() - 1;
            assert(self.tokens@[last]@.entries =~= Seq::<MemoryEntryView>::empty());
            assert(self@.tokens =~= post.tokens);
            assert(self@.events =~= post.events);
        }
        Ok(token_id)
    }

    /// Appends a memory entry to `token_id`; only its owner or agent wallet may.
    pub fn push_memory(&mut self, token_id: U256, summary_json: Vec<u8>, description: String) -> (r:
        Result<(), AgentMemoryError>)
        requires
            old(self)@.wf(),
        ensures
            final(self)@.wf(),
            final(self).env() == old(self).env(),
            final(self)@ == old(self)@.push_memory(
                old(self).env().sender,
                old(self).env().block_timestamp,
                token_id@,
                summary_json@,
                description@,
            ).0,
            r == old(self)@.push_memory(
                old(self).env().sender,
                old(self).env().block_timestamp,
                token_id@,
                summary_json@,
                description@,
            ).1,
    {
        let t = match self.token_index(token_id) {
            Some(t) => t,
            None => return Err(AgentMemoryError::TokenNotFound),
        };
        let caller = self.vm.sender;
        let owner = self.tokens[t].owner;
        let agent = self.tokens[t].agent;
        if caller != owner && caller != agent {
            return Err(AgentMemoryError::NotAuthorized);
        }
        if summary_json.len() == 0 {
            return Err(AgentMemoryError::EmptyMemory);
        }
        let index = self.tokens[t].entries.len();
        let hash = keccak256(summary_json.as_slice());
        let now = U256::from_u64(self.vm.block_timestamp);
        let entry = MemoryEntry { data: summary_json, hash, timestamp: now, description };
        let ghost entry_view = entry@;
        self.tokens[t].entries.push(entry);
        self.events.push(
            AgentMemoryEvent::MemoryPushed {
                token_id,
                entry_index: U256::from_usize(index),
                content_hash: hash,
                timestamp: now,
            },
        );
        proof {
            let post = old(self)@.push_memory(
                old(self).vm.sender,
                old(self).vm.block_timestamp,
                token_id@,
                entry_view.data,
                entry_view.description,
            ).0;
            assert(self.tokens@[t as int]@.entries =~= old(self).tokens@[t as int]@.entries.push(
                entry_view,
            ));
            assert(self@.tokens =~= post.tokens);
            assert(self@.events =~= post.events);
        }
        Ok(())
    }

    /// The bounds check shared by the entry readers.
    fn check_bounds(&self, token_id: U256, index: U256) -> (r: Result<(usize, usize), AgentMemoryError>)
        ensures
            match r {
                Ok((t, i)) => self@.check_bounds(token_id@, index@) == Ok::<(), AgentMemoryError>(())
                    && t == token_id@ && i == index@ && t < self.tokens@.len() && i
                    < self.tokens@[t as int].entries@.len() && self@.tokens[t as int].entries[i as int]
                    == self.tokens@[t as int].entries@[i as int]@,
                Err(e) => self@.check_bounds(token_id@, index@) == Err::<(), AgentMemoryError>(e),
            },
    {
        let t = match self.token_index(token_id) {
            Some(t) => t,
            None => return Err(AgentMemoryError::TokenNotFound),
        };
        match index.to_index(self.tokens[t].entries.len()) {
            Some(i) => {
                assert(self@.tokens[t as int].entries[i as int]
                    == self.tokens@[t as int].entries@[i as int]@);
                Ok((t, i))
            },
            None => Err(AgentMemoryError::IndexOutOfBounds),
        }
    }

    /// The JSON bytes of entry `index` of `token_id`.
    pub fn get_memory_data(&self, token_id: U256, index: U256) -> (r: Result<Vec<u8>, AgentMemoryError>)
        ensures
            match r {
                Ok(v) => self@.memory_data(token_id@, index@) == Ok::<Seq<u8>, AgentMemoryError>(v@),
                Err(e) => self@.memory_data(token_id@, index@) == Err::<Seq<u8>, AgentMemoryError>(e),
            },
    {
        let (t, i) = self.check_bounds(token_id, index)?;
        let data = vstd::slice::slice_to_vec(self.tokens[t].entries[i].data.as_slice());
        Ok(data)
    }

    /// The stored keccak-256 digest of entry `index` of `token_id`.
    pub fn get_memory_hash(&self, token_id: U256, index: U256) -> (r: Result<B256, AgentMemoryError>)
        ensures
            match r {
                Ok(h) => self@.memory_hash(token_id@, index@) == Ok::<Seq<u8>, AgentMemoryError>(
                    h.bytes@,
                ),
                Err(e) => self@.memory_hash(token_id@, index@) == Err::<Seq<u8>, AgentMemoryError>(e),
            },
    {
        let (t, i) = self.check_bounds(token_id, index)?;
        Ok(self.tokens[t].entries[i].hash)
    }

    /// The block time at which entry `index` of `token_id` was pushed.
    pub fn get_memory_timestamp(&self, token_id: U256, index: U256) -> (r: Result<U256, AgentMemoryError>)
        ensures
            result_value(r) == self@.memory_timestamp(token_id@, index@),
    {
        let (t, i) = self.check_bounds(token_id, index)?;
        Ok(self.tokens[t].entries[i].timestamp)
    }

    /// Whether `data` hashes to the stored digest of entry `index` of `token_id`.
    pub fn verify_memory(&self, token_id: U256, index: U256, data: Vec<u8>) -> (r: bool)
        ensures
            r == self@.verify_memory(token_id@, index@, data@),
    {
        let (t, i) = match self.check_bounds(token_id, index) {
            Ok(p) => p,
            Err(_) => return false,
        };
        let stored = self.tokens[t].entries[i].hash;
        let computed = keccak256(data.as_slice());
        proof {
            crate::primitives::lemma_b256_eq_bytes(stored, computed);
        }
        stored == computed
    }

    /// Number of entries of `token_id`.
    pub fn memory_count(&self, token_id: U256) -> (r: U256)
        ensures
            r@ == self@.memory_count(token_id@),
    {
        match self.token_index(token_id) {
            Some(t) => {
                assert(self@.tokens[t as int].entries.len() == self.tokens@[t as int].entries@.len());
                U256::from_usize(self.tokens[t].entries.len())
            },
            None => U256::zero(),
        }
    }

    /// Owner of `token_id` (the zero address for a token never minted).
    pub fn owner_of(&self, token_id: U256) -> (r: Address)
        ensures
            address_matches(r, self@.owner_of(token_id@)),
    {
        match self.token_index(token_id) {
            Some(t) => self.tokens[t].owner,
            None => Address::zero(),
        }
    }

    /// Agent wallet of `token_id` (the zero address for a token never minted).
    pub fn get_agent_address(&self, token_id: U256) -> (r: Address)
        ensures
            address_matches(r, self@.agent_of(token_id@)),
    {
        match self.token_index(token_id) {
            Some(t) => self.tokens[t].agent,
            None => Address::zero(),
        }
    }

    /// Replaces the agent wallet of `token_id`; only its owner may.
    pub fn set_agent_address(&mut self, token_id: U256, agent: Address) -> (r: Result<
        (),
        AgentMemoryError,
    >)
        requires
            old(self)@.wf(),
        ensures
            final(self)@.wf(),
            final(self).env() == old(self).env(),
            final(self)@ == old(self)@.set_agent_address(old(self).env().sender, token_id@, agent).0,
            r == old(self)@.set_agent_address(old(self).env().sender, token_id@, agent).1,
    {
        let t = match self.token_index(token_id) {
            Some(t) => t,
            None => return Err(AgentMemoryError::TokenNotFound),
        };
        if self.vm.sender != self.tokens[t].owner {
            return Err(AgentMemoryError::NotTokenOwner);
        }
        self.tokens[t].agent = agent;
        proof {
            let post = old(self)@.set_agent_address(old(self).vm.sender, token_id@, agent).0;
            assert(self@.tokens =~= post.tokens);
        }
        Ok(())
    }

    /// Number of tokens minted.
    pub fn total_supply(&self) -> (r: U256)
        ensures
            r@ == self@.total_supply(),
    {
        U256::from_usize(self.tokens.len())
    }
}

/// Minting hands out the next token id: it equals the supply before the call,
/// the supply grows by one, and the new token has the given owner and agent
/// and no entries. A zero owner is refused and changes nothing.
pub proof fn lemma_mint_issues_next_id(s: AgentMemoryState, to: Address, agent: Address)
    requires
        s.wf(),
    ensures
        s.mint(to, agent).0.wf(),
        to.is_zero_spec() ==> s.mint(to, agent) == (s, Err::<nat, AgentMemoryError>(
            AgentMemoryError::InvalidOwner,
        )),
        !to.is_zero_spec() ==> {
            let (s2, r) = s.mint(to, agent);
            &&& r == Ok::<nat, AgentMemoryError>(s.total_supply())
            &&& s2.total_supply() == s.total_supply() + 1
            &&& s2.owner_of(s.total_supply()) == Some(to)
            &&& s2.agent_of(s.total_supply()) == Some(agent)
            &&& s2.memory_count(s.total_supply()) == 0
            &&& s2.events == s.events.push(
                AgentMemoryEventView::AgentMinted { token_id: s.total_supply(), owner: to, agent: agent },
            )
            &&& forall|t: nat, i: nat|
                #![trigger s2.entry(t, i)]
                s.minted(t) ==> s2.entry(t, i) == s.entry(t, i)
        },
{
}

/// What a successful push wrote can be read back: the entry count grows by
/// one, and the new last entry holds the data, its keccak-256 digest and the
/// block time, so `verify_memory` accepts the same data at that index. The
/// one event logged names the token, that index (the entry count before the
/// push), the digest and the block time.
pub proof fn lemma_push_then_read(
    s: AgentMemoryState,
    sender: Address,
    now: u64,
    token_id: nat,
    data: Seq<u8>,
    description: Seq<char>,
)
    requires
        s.wf(),
        s.push_memory(sender, now, token_id, data, description).1 is Ok,
    ensures
        ({
            let s2 = s.push_memory(sender, now, token_id, data, description).0;
            let n = s.memory_count(token_id);
            &&& s2.wf()
            &&& s2.memory_count(token_id) == n + 1
            &&& s2.memory_data(token_id, n) == Ok::<Seq<u8>, AgentMemoryError>(data)
            &&& s2.memory_hash(token_id, n) == Ok::<Seq<u8>, AgentMemoryError>(
                keccak256_digest(data),
            )
            &&& s2.memory_timestamp(token_id, n) == Ok::<nat, AgentMemoryError>(now as nat)
            &&& s2.verify_memory(token_id, n, data)
            &&& forall|other: Seq<u8>|
                s2.verify_memory(token_id, n, other) == (keccak256_digest(other)
                    == keccak256_digest(data))
            &&& s2.events == s.events.push(
                AgentMemoryEventView::MemoryPushed {
                    token_id: token_id,
                    entry_index: n,
                    content_hash: keccak256_digest(data),
                    timestamp: now as nat,
                },
            )
        }),
{
}

/// Pushing only appends: every entry that could be read before is read back
/// unchanged afterwards, and no owner, agent or other token's count changes.
pub proof fn lemma_push_is_append_only(
    s: AgentMemoryState,
    sender: Address,
    now: u64,
    token_id: nat,
    data: Seq<u8>,
    description: Seq<char>,
)
    requires
        s.wf(),
    ensures
        ({
            let s2 = s.push_memory(sender, now, token_id, data, description).0;
            &&& s2.total_supply() == s.total_supply()
            &&& forall|t: nat, i: nat|
                #![trigger s2.entry(t, i)]
                s.check_bounds(t, i) is Ok ==> s2.entry(t, i) == s.entry(t, i)
            &&& forall|t: nat|
                #![trigger s2.owner_of(t)]
                s2.owner_of(t) == s.owner_of(t) && s2.agent_of(t) == s.agent_of(t)
            &&& forall|t: nat| #![trigger s2.memory_count(t)] t != token_id ==> s2.memory_count(t) == s.memory_count(t)
        }),
{
    let s2 = s.push_memory(sender, now, token_id, data, description).0;
    assert forall|t: nat, i: nat| #![trigger s2.entry(t, i)] s.check_bounds(t, i) is Ok implies s2.entry(t, i) == s.entry(t, i) by {
        if s.push_memory(sender, now, token_id, data, description).1 is Ok && t == token_id {
            assert(s2.tokens[t as int].entries[i as int] == s.tokens[t as int].entries[i as int]);
        }
    }
}

/// Only the owner or the agent wallet of a minted token can push, and only
/// non-empty data; every refused push leaves the storage and the log as they were.
pub proof fn lemma_push_authority(
    s: AgentMemoryState,
    sender: Address,
    now: u64,
    token_id: nat,
    data: Seq<u8>,
    description: Seq<char>,
)
    ensures
        ({
            let (s2, r) = s.push_memory(sender, now, token_id, data, description);
            &&& r is Ok <==> (s.minted(token_id) && (sender == s.tokens[token_id as int].owner
                || sender == s.tokens[token_id as int].agent) && data.len() > 0)
            &&& r is Err ==> s2 == s
        }),
{
}

/// Only the owner of a minted token can replace its agent wallet; the owner
/// and the entries stay as they were, and a refused call changes nothing.
pub proof fn lemma_set_agent_authority(s: AgentMemoryState, sender: Address, token_id: nat, agent: Address)
    requires
        s.wf(),
    ensures
        ({
            let (s2, r) = s.set_agent_address(sender, token_id, agent);
            &&& s2.wf()
            &&& r is Ok <==> (s.minted(token_id) && sender == s.tokens[token_id as int].owner)
            &&& r is Err ==> s2 == s
            &&& s2.total_supply() == s.total_supply()
            &&& r is Ok ==> {
                &&& s2.agent_of(token_id) == Some(agent)
                &&& s2.owner_of(token_id) == s.owner_of(token_id)
                &&& forall|t: nat, i: nat| #![trigger s2.entry(t, i)] s2.entry(t, i) == s.entry(t, i)
            }
        }),
{
    let (s2, r) = s.set_agent_address(sender, token_id, agent);
    if r is Ok {
        assert forall|t: nat, i: nat| #![trigger s2.entry(t, i)] s2.entry(t, i) == s.entry(t, i) by {
            if t == token_id {
                assert(s2.tokens[t as int].entries == s.tokens[t as int].entries);
            }
        }
    }
}

/// The log only grows: every call keeps the events already emitted, a
/// successful mint or push adds exactly one event, and a refused call or an
/// agent change adds none.
pub proof fn lemma_log_is_append_only(
    s: AgentMemoryState,
    sender: Address,
    now: u64,
    token_id: nat,
    to: Address,
    agent: Address,
    data: Seq<u8>,
    description: Seq<char>,
)
    ensures
        ({
            let (m, rm) = s.mint(to, agent);
            let (p, rp) = s.push_memory(sender, now, token_id, data, description);
            let (a, _) = s.set_agent_address(sender, token_id, agent);
            &&& m.events.len() == s.events.len() + if rm is Ok { 1int } else { 0int }
            &&& m.events.subrange(0, s.events.len() as int) == s.events
            &&& p.events.len() == s.events.len() + if rp is Ok { 1int } else { 0int }
            &&& p.events.subrange(0, s.events.len() as int) == s.events
            &&& a.events == s.events
        }),
{
    let (m, rm) = s.mint(to, agent);
    let (p, rp) = s.push_memory(sender, now, token_id, data, description);
    assert(m.events.subrange(0, s.events.len() as int) =~= s.events);
    assert(p.events.subrange(0, s.events.len() as int) =~= s.events);
}

/// Verifying an entry is comparing digests: `verify_memory` accepts `data`
/// exactly when `get_memory_hash` gives the digest of `data`, and reading
/// the data of an entry succeeds exactly when reading its digest does.
pub proof fn lemma_verify_is_hash_comparison(s: AgentMemoryState, token_id: nat, index: nat, data: Seq<u8>)
    ensures
        s.verify_memory(token_id, index, data) <==> s.memory_hash(token_id, index) == Ok::<
            Seq<u8>,
            AgentMemoryError,
        >(keccak256_digest(data)),
        s.memory_data(token_id, index) is Ok <==> s.memory_hash(token_id, index) is Ok,
        s.memory_hash(token_id, index) is Ok <==> (s.minted(token_id) && index < s.memory_count(
            token_id,
        )),
{
}

/// A call to the agent-memory contract, with the caller and block time that
/// the chain supplies.
pub enum AgentMemoryCall {
    Mint { to: Address, agent: Address },
    Push { sender: Address, now: u64, token_id: nat, data: Seq<u8>, description: Seq<char> },
    SetAgent { sender: Address, token_id: nat, agent: Address },
}

impl AgentMemoryState {
    /// The state after one call.
    pub open spec fn apply(self, call: AgentMemoryCall) -> AgentMemoryState {
        match call {
            AgentMemoryCall::Mint { to, agent } => self.mint(to, agent).0,
            AgentMemoryCall::Push { sender, now, token_id, data, description } => self.push_memory(
                sender,
                now,
                token_id,
                data,
                description,
            ).0,
            AgentMemoryCall::SetAgent { sender, token_id, agent } => self.set_agent_address(
                sender,
                token_id,
                agent,
            ).0,
        }
    }

    /// The state after a sequence of calls, in order.
    pub open spec fn run(self, calls: Seq<AgentMemoryCall>) -> AgentMemoryState
        decreases calls.len(),
    {
        if calls.len() == 0 {
            self
        } else {
            self.run(calls.drop_last()).apply(calls.last())
        }
    }

    /// How many of the calls are mints that succeed when the calls run in order.
    pub open spec fn successful_mints(self, calls: Seq<AgentMemoryCall>) -> nat
        decreases calls.len(),
    {
        if calls.len() == 0 {
            0
        } else {
            let before = self.run(calls.drop_last());
            self.successful_mints(calls.drop_last()) + match calls.last() {
                AgentMemoryCall::Mint { to, agent } => if before.mint(to, agent).1 is Ok {
                    1nat
                } else {
                    0nat
                },
                _ => 0nat,
            }
        }
    }
}

/// Over any sequence of calls: the state stays well formed; the supply grows
/// by exactly the number of successful mints; a token is owned (by a non-zero
/// address) exactly when its id is below the supply; owners never change;
/// and every entry that could be read before is read back unchanged, so a
/// pushed entry keeps its data, digest and time for good.
pub proof fn lemma_memory_is_append_only(s: AgentMemoryState, calls: Seq<AgentMemoryCall>)
    requires
        s.wf(),
    ensures
        ({
            let s2 = s.run(calls);
            &&& s2.wf()
            &&& s2.total_supply() == s.total_supply() + s.successful_mints(calls)
            &&& forall|t: nat|
                #![trigger s2.owner_of(t)]
                (s2.owner_of(t) is Some <==> t < s2.total_supply()) && (s2.owner_of(t) matches Some(
                    o,
                ) ==> !o.is_zero_spec())
            &&& forall|t: nat| #![trigger s2.memory_count(t)] t >= s2.total_supply() ==> s2.memory_count(t) == 0
            &&& forall|t: nat|
                #![trigger s2.owner_of(t)]
                s.minted(t) ==> s2.owner_of(t) == s.owner_of(t)
            &&& forall|t: nat, i: nat|
                #![trigger s2.entry(t, i)]
                s.check_bounds(t, i) is Ok ==> s2.entry(t, i) == s.entry(t, i)
        }),
    decreases calls.len(),
{
    if calls.len() > 0 {
        lemma_memory_is_append_only(s, calls.drop_last());
        let mid = s.run(calls.drop_last());
        let s2 = s.run(calls);
        assert(s2 == mid.apply(calls.last()));
        match calls.last() {
            AgentMemoryCall::Mint { to, agent } => {
                lemma_mint_issues_next_id(mid, to, agent);
                assert forall|t: nat| #![trigger s2.owner_of(t)] mid.minted(t) implies s2.owner_of(t) == mid.owner_of(t) by {}
            },
            AgentMemoryCall::Push { sender, now, token_id, data, description } => {
                lemma_push_is_append_only(mid, sender, now, token_id, data, description);
                lemma_push_authority(mid, sender, now, token_id, data, description);
            },
            AgentMemoryCall::SetAgent { sender, token_id, agent } => {
                lemma_set_agent_authority(mid, sender, token_id, agent);
            },
        }
        assert forall|t: nat, i: nat| #![trigger s2.entry(t, i)] s.check_bounds(t, i) is Ok implies s2.entry(t, i) == s.entry(t, i) by {
            assert(mid.entry(t, i) == s.entry(t, i));
            assert(mid.check_bounds(t, i) is Ok);
        }
        assert forall|t: nat| #![trigger s2.owner_of(t)] s.minted(t) implies s2.owner_of(t) == s.owner_of(t) by {
            assert(mid.owner_of(t) == s.owner_of(t));
            assert(mid.minted(t));
        }
    }
}

} // verus!

//! The light-client verification protocol.
//!
//! A verification pass is a pure function of the trusted height, the
//! target height and the current wrapped client state, plus the headers
//! and consensus snapshots the chain adapter fetches. The decision logic
//! is all here: `verify_request` performs the identity checks and computes
//! the fetch plan before any network traffic; `collect_headers` and
//! `collect_consensuses` judge what the fetches returned; the assemble
//! functions package the result. The transport layer only moves bytes
//! between these functions and the chain.

use vstd::prelude::*;
use vstd::string::StringExecFns;
use crate::celo_state::{celo_client_state_decodable, CeloClientState};
use crate::client_state::AnyClientState;
use crate::compat::{build_wasm_header, CeloBlock, NativeConsensus, NativeHeader};
use crate::error::{ClientType, Error};
use crate::header::Header;
use crate::height::Height;

verus! {

/// The result of a verification pass: the entity at the requested target
/// height, plus the ordered supporting entities for every intermediate
/// height.
#[derive(Debug, Clone, PartialEq, Eq)]
pub struct Verified<T> {
    pub target: T,
    pub supporting: Vec<T>,
}

/// A client-update event as the misbehaviour checker receives it.
#[derive(Debug, Clone, PartialEq, Eq)]
pub struct UpdateClient {
    pub client_id: Vec<u8>,
    pub consensus_height: Height,
}

/// Fork evidence: two conflicting headers for one height.
#[derive(Debug, Clone, PartialEq, Eq)]
pub struct MisbehaviourEvidence {
    pub first: Header,
    pub second: Header,
}

/// What one header fetch produced: nothing at that height, a block that
/// does not convert to a header, or the header.
#[derive(Debug, Clone, PartialEq, Eq)]
pub enum FetchedHeader {
    Missing,
    Invalid,
    Fetched(NativeHeader),
}

/// What one consensus-snapshot fetch produced.
#[derive(Debug, Clone, PartialEq, Eq)]
pub enum FetchedSnapshot {
    Missing,
    Fetched(NativeConsensus),
}

/// The light client of the committee chain: stateless but for the revision
/// it is configured to serve.
pub struct LightClient {
    pub chain_revision: u64,
}

// ---------------------------------------------------------------------------
// The supporting-height set
// ---------------------------------------------------------------------------

/// Every height strictly between the trusted and the target height, in
/// ascending order: the minimal supporting set under the protocol's trust
/// model. Empty when the target is at most one above the trusted height —
/// and in particular for a genesis request (target height zero).
pub open spec fn spec_supporting_heights(trusted: Height, target: Height) -> Seq<u64> {
    if target.revision_height > trusted.revision_height + 1 {
        Seq::new(
            (target.revision_height - trusted.revision_height - 1) as nat,
            |i: int| (trusted.revision_height + 1 + i) as u64,
        )
    } else {
        Seq::empty()
    }
}

pub fn supporting_heights(trusted: Height, target: Height) -> (r: Vec<u64>)
    ensures
        r@ == spec_supporting_heights(trusted, target),
{
    let mut out: Vec<u64> = Vec::new();
    if target.revision_height > trusted.revision_height {
        let mut h: u64 = trusted.revision_height;
        while h + 1 < target.revision_height
            invariant
                trusted.revision_height <= h < target.revision_height,
                out@ =~= spec_supporting_heights(trusted, target).take(
                    h - trusted.revision_height,
                ),
            decreases target.revision_height - h,
        {
            h = h + 1;
            out.push(h);
        }
        proof {
            assert(out@ =~= spec_supporting_heights(trusted, target));
        }
    }
    out
}

/// Law: equal revisions with the target directly above the trusted height
/// need no supporting headers.
pub proof fn lemma_adjacent_target_no_support(trusted: Height, target: Height)
    requires
        target.revision_height == trusted.revision_height + 1,
    ensures
        spec_supporting_heights(trusted, target).len() == 0,
{
}

/// Law: a genesis request (target height zero) needs no supporting
/// headers, whatever the trusted height.
pub proof fn lemma_genesis_target_no_support(trusted: Height, target: Height)
    requires
        target.revision_height == 0,
    ensures
        spec_supporting_heights(trusted, target).len() == 0,
{
}

/// Law: the supporting set is exactly the open interval between the
/// trusted and the target height — one entry per intermediate height,
/// strictly ascending, each strictly between the two endpoints.
pub proof fn lemma_supporting_set_is_open_interval(trusted: Height, target: Height)
    ensures
        spec_supporting_heights(trusted, target).len() == if target.revision_height
            > trusted.revision_height + 1 {
            target.revision_height - trusted.revision_height - 1
        } else {
            0int
        },
        forall|i: int|
            0 <= i < spec_supporting_heights(trusted, target).len()
                ==> trusted.revision_height < #[trigger] spec_supporting_heights(
                trusted,
                target,
            )[i] < target.revision_height,
        forall|i: int, j: int|
            0 <= i < j < spec_supporting_heights(trusted, target).len()
                ==> #[trigger] spec_supporting_heights(trusted, target)[i]
                < #[trigger] spec_supporting_heights(trusted, target)[j],
{
}

// ---------------------------------------------------------------------------
// The verification pass
// ---------------------------------------------------------------------------

/// What `verify_request` decides, as a function of its inputs.
pub open spec fn spec_verify_request(
    chain_revision: u64,
    trusted: Height,
    target: Height,
    client_state: AnyClientState,
) -> Result<Seq<u64>, Error> {
    if trusted.revision_number != target.revision_number || trusted.revision_number
        != chain_revision {
        Err(Error::RevisionMismatch)
    } else {
        match client_state {
            AnyClientState::Other(t) => Err(
                Error::ClientTypeMismatch { expected: ClientType::Wasm, got: t },
            ),
            AnyClientState::Wasm(cs) => {
                if !celo_client_state_decodable(cs.data@) {
                    Err(
                        Error::ClientTypeMismatch {
                            expected: ClientType::Wasm,
                            got: ClientType::Wasm,
                        },
                    )
                } else {
                    Ok(spec_supporting_heights(trusted, target))
                }
            },
        }
    }
}

/// Law: heights of differing revisions are rejected as a revision
/// mismatch, whatever the client state; the fetch plan only exists (and
/// so network traffic only happens) when every revision agrees.
pub proof fn lemma_verify_rejects_revision_mismatch(
    chain_revision: u64,
    trusted: Height,
    target: Height,
    client_state: AnyClientState,
)
    requires
        trusted.revision_number != target.revision_number || trusted.revision_number
            != chain_revision,
    ensures
        spec_verify_request(chain_revision, trusted, target, client_state) == Err::<
            Seq<u64>,
            Error,
        >(Error::RevisionMismatch),
{
}

/// Law: whenever verification plans a fetch at all, the plan is exactly
/// the open interval of heights between trusted and target.
pub proof fn lemma_verify_plan_is_open_interval(
    chain_revision: u64,
    trusted: Height,
    target: Height,
    client_state: AnyClientState,
)
    ensures
        spec_verify_request(chain_revision, trusted, target, client_state) matches Ok(s) ==> s
            == spec_supporting_heights(trusted, target),
{
}

/// Law: a target directly above the trusted height verifies with no
/// supporting headers.
pub proof fn lemma_verify_adjacent_no_support(
    chain_revision: u64,
    trusted: Height,
    target: Height,
    client_state: AnyClientState,
)
    requires
        target.revision_height == trusted.revision_height + 1,
    ensures
        spec_verify_request(chain_revision, trusted, target, client_state) matches Ok(s)
            ==> s.len() == 0,
{
}

/// Law: a genesis request (target height zero) verifies with no
/// supporting headers, whatever the trusted height.
pub proof fn lemma_verify_genesis_no_support(
    chain_revision: u64,
    trusted: Height,
    target: Height,
    client_state: AnyClientState,
)
    requires
        target.revision_height == 0,
    ensures
        spec_verify_request(chain_revision, trusted, target, client_state) matches Ok(s)
            ==> s.len() == 0,
{
}

impl LightClient {
    pub fn new(chain_revision: u64) -> (r: LightClient)
        ensures
            r.chain_revision == chain_revision,
    {
        LightClient { chain_revision }
    }

    /// The checks and the fetch plan of a verification pass, before any
    /// network traffic.
    ///
    /// Rejected with `RevisionMismatch` when the two heights disagree on
    /// their revision or disagree with the configured revision; with
    /// `ClientTypeMismatch` when the wrapped client state is not of the
    /// wasm family, or its payload does not decode as this chain family's
    /// native client state. Otherwise the supporting heights to fetch:
    /// every height strictly between trusted and target.
    pub fn verify_request(
        &self,
        trusted: Height,
        target: Height,
        client_state: &AnyClientState,
    ) -> (r: Result<Vec<u64>, Error>)
        ensures
            match r {
                Ok(v) => spec_verify_request(self.chain_revision, trusted, target, *client_state)
                    == Ok::<Seq<u64>, Error>(v@),
                Err(e) => spec_verify_request(self.chain_revision, trusted, target, *client_state)
                    == Err::<Seq<u64>, Error>(e),
            },
    {
        if trusted.revision_number != target.revision_number || trusted.revision_number
            != self.chain_revision {
            return Err(Error::RevisionMismatch);
        }
        match client_state {
            AnyClientState::Other(t) => Err(
                Error::ClientTypeMismatch { expected: ClientType::Wasm, got: *t },
            ),
            AnyClientState::Wasm(cs) => {
                if !CeloClientState::check_encoding(&cs.data) {
                    Err(
                        Error::ClientTypeMismatch {
                            expected: ClientType::Wasm,
                            got: ClientType::Wasm,
                        },
                    )
                } else {
                    Ok(supporting_heights(trusted, target))
                }
            },
        }
    }

    /// Pair each supporting header with the consensus snapshot at its
    /// height, and the target header with the target snapshot.
    pub fn verify_assemble(
        &self,
        headers: Verified<NativeHeader>,
        consensuses: Verified<NativeConsensus>,
    ) -> (r: Verified<CeloBlock>)
        ensures
            r.target.header == headers.target,
            r.target.consensus_state == consensuses.target,
            r.supporting@.len() == if headers.supporting@.len() <= consensuses.supporting@.len() {
                headers.supporting@.len()
            } else {
                consensuses.supporting@.len()
            },
            forall|i: int|
                0 <= i < r.supporting@.len() ==> #[trigger] r.supporting@[i].header
                    == headers.supporting@[i] && r.supporting@[i].consensus_state
                    == consensuses.supporting@[i],
    {
        let ghost orig_h = headers.supporting@;
        let ghost orig_c = consensuses.supporting@;
        let Verified { target: target_header, supporting: mut hs } = headers;
        let Verified { target: target_consensus, supporting: mut cs } = consensuses;
        let mut supporting: Vec<CeloBlock> = Vec::new();
        while hs.len() > 0 && cs.len() > 0
            invariant
                supporting@.len() + hs@.len() == orig_h.len(),
                supporting@.len() + cs@.len() == orig_c.len(),
                hs@ == orig_h.subrange(supporting@.len() as int, orig_h.len() as int),
                cs@ == orig_c.subrange(supporting@.len() as int, orig_c.len() as int),
                forall|i: int|
                    0 <= i < supporting@.len() ==> #[trigger] supporting@[i].header == orig_h[i]
                        && supporting@[i].consensus_state == orig_c[i],
            decreases hs@.len(),
        {
            let h = hs.remove(0);
            let c = cs.remove(0);
            supporting.push(CeloBlock { header: h, consensus_state: c });
        }
        Verified {
            target: CeloBlock { header: target_header, consensus_state: target_consensus },
            supporting,
        }
    }

    /// Map a verified set of chain-native headers to wrapped headers at
    /// the given revision, preserving order and emptiness.
    pub fn header_and_minimal_set_assemble(
        &self,
        revision_number: u64,
        headers: Verified<NativeHeader>,
    ) -> (r: Verified<Header>)
        ensures
            r.target@.height == (Height {
                revision_number,
                revision_height: headers.target.number,
            }),
            r.target@.data == headers.target.encoding@,
            r.supporting@.len() == headers.supporting@.len(),
            forall|i: int|
                0 <= i < r.supporting@.len() ==> (#[trigger] r.supporting@[i])@.height == (Height {
                    revision_number,
                    revision_height: headers.supporting@[i].number,
                }) && r.supporting@[i]@.data == headers.supporting@[i].encoding@,
    {
        wrap_headers(revision_number, headers)
    }

    /// Fork-evidence detection is not offered by this adapter yet; the
    /// unsupported outcome is distinguishable from "no evidence".
    pub fn check_misbehaviour(
        &self,
        update: &UpdateClient,
        client_state: &AnyClientState,
    ) -> (r: Result<Option<MisbehaviourEvidence>, Error>)
        ensures
            r matches Err(Error::Unsupported(_)),
    {
        let _ = update;
        let _ = client_state;
        Err(Error::Unsupported(String::from_str("misbehaviour detection")))
    }
}

/// Map a verified set of chain-native headers to wrapped headers at the
/// given revision, preserving order and emptiness.
pub fn wrap_headers(revision_number: u64, headers: Verified<NativeHeader>) -> (r: Verified<
    Header,
>)
    ensures
        r.target@.height == (Height { revision_number, revision_height: headers.target.number }),
        r.target@.data == headers.target.encoding@,
        r.supporting@.len() == headers.supporting@.len(),
        forall|i: int|
            0 <= i < r.supporting@.len() ==> (#[trigger] r.supporting@[i])@.height == (Height {
                revision_number,
                revision_height: headers.supporting@[i].number,
            }) && r.supporting@[i]@.data == headers.supporting@[i].encoding@,
{
    let ghost orig = headers.supporting@;
    let Verified { target, supporting: mut hs } = headers;
    let mut supporting: Vec<Header> = Vec::new();
    while hs.len() > 0
        invariant
            supporting@.len() + hs@.len() == orig.len(),
            hs@ == orig.subrange(supporting@.len() as int, orig.len() as int),
            forall|i: int|
                0 <= i < supporting@.len() ==> (#[trigger] supporting@[i])@.height == (Height {
                    revision_number,
                    revision_height: orig[i].number,
                }) && supporting@[i]@.data == orig[i].encoding@,
        decreases hs@.len(),
    {
        let h = hs.remove(0);
        supporting.push(build_wasm_header(h, revision_number));
    }
    Verified { target: build_wasm_header(target, revision_number), supporting }
}

// ---------------------------------------------------------------------------
// Judging fetched data
// ---------------------------------------------------------------------------

/// Did every fetch return its header?
pub open spec fn all_headers_fetched(s: Seq<FetchedHeader>) -> bool {
    forall|i: int| 0 <= i < s.len() ==> (#[trigger] s[i]) is Fetched
}

/// The fetched headers, in fetch order.
pub open spec fn fetched_headers(s: Seq<FetchedHeader>) -> Seq<NativeHeader>
    recommends
        all_headers_fetched(s),
{
    Seq::new(s.len(), |i: int| s[i]->Fetched_0)
}

/// The first fetch outcome that is not a header, or the length when every
/// fetch returned one.
pub open spec fn first_unfetched_header(s: Seq<FetchedHeader>) -> int
    decreases s.len(),
{
    if s.len() == 0 {
        0
    } else if !(s[0] is Fetched) {
        0
    } else {
        1 + first_unfetched_header(s.drop_first())
    }
}

proof fn lemma_first_unfetched_header_at(s: Seq<FetchedHeader>, i: int)
    requires
        0 <= i <= s.len(),
        forall|j: int| 0 <= j < i ==> (#[trigger] s[j]) is Fetched,
        i < s.len() ==> !(s[i] is Fetched),
    ensures
        first_unfetched_header(s) == i,
    decreases i,
{
    if s.len() == 0 {
    } else if i == 0 {
    } else {
        let t = s.drop_first();
        assert forall|j: int| 0 <= j < i - 1 implies (#[trigger] t[j]) is Fetched by {
            assert(t[j] == s[j + 1]);
        }
        if i - 1 < t.len() {
            assert(t[i - 1] == s[i]);
        }
        lemma_first_unfetched_header_at(t, i - 1);
    }
}

/// Did every fetch return its snapshot?
pub open spec fn all_snapshots_fetched(s: Seq<FetchedSnapshot>) -> bool {
    forall|i: int| 0 <= i < s.len() ==> (#[trigger] s[i]) is Fetched
}

/// The fetched snapshots, in fetch order.
pub open spec fn fetched_snapshots(s: Seq<FetchedSnapshot>) -> Seq<NativeConsensus>
    recommends
        all_snapshots_fetched(s),
{
    Seq::new(s.len(), |i: int| s[i]->Fetched_0)
}

/// Judge a batch of header fetches. There is no partial success: the
/// first supporting height the chain reports no block for fails the batch
/// as not found, the first block that does not convert fails it as a
/// decode fault, and a missing or unconvertible target does the same; the
/// batch succeeds only with every requested header in hand, in order.
#[verifier::loop_isolation(false)]
pub fn collect_headers(supporting: Vec<FetchedHeader>, target: FetchedHeader) -> (r: Result<
    Verified<NativeHeader>,
    Error,
>)
    ensures
        ({
            let k = first_unfetched_header(supporting@);
            &&& (k < supporting@.len() && supporting@[k] is Missing) ==> (r matches Err(
                Error::NotFound(m),
            ) && m@ == "supporting header not found"@)
            &&& (k < supporting@.len() && supporting@[k] is Invalid) ==> (r matches Err(
                Error::Decode(m),
            ) && m@ == "Block -> Header conversion fail"@)
            &&& k == supporting@.len() ==> match target {
                FetchedHeader::Missing => (r matches Err(Error::NotFound(m)) && m@
                    == "target header not found"@),
                FetchedHeader::Invalid => (r matches Err(Error::Decode(m)) && m@
                    == "Block -> Header conversion fail"@),
                FetchedHeader::Fetched(t) => (r matches Ok(v) && v.target == t && v.supporting@
                    == fetched_headers(supporting@)),
            }
        }),
{
    let ghost orig = supporting@;
    let mut rest = supporting;
    let mut kept: Vec<NativeHeader> = Vec::new();
    while rest.len() > 0
        invariant
            rest@.len() <= orig.len(),
            rest@ == orig.subrange(orig.len() - rest@.len(), orig.len() as int),
            forall|j: int|
                0 <= j < orig.len() - rest@.len() ==> (#[trigger] orig[j]) is Fetched,
            kept@.len() == orig.len() - rest@.len(),
            forall|j: int| 0 <= j < kept@.len() ==> #[trigger] kept@[j] == orig[j]->Fetched_0,
        decreases rest@.len(),
    {
        let ghost done = orig.len() - rest@.len();
        let item = rest.remove(0);
        proof {
            assert(rest@ =~= orig.subrange(orig.len() - rest@.len(), orig.len() as int));
        }
        match item {
            FetchedHeader::Missing => {
                proof {
                    lemma_first_unfetched_header_at(orig, done);
                }
                return Err(Error::NotFound(String::from_str("supporting header not found")));
            },
            FetchedHeader::Invalid => {
                proof {
                    lemma_first_unfetched_header_at(orig, done);
                }
                return Err(Error::Decode(String::from_str("Block -> Header conversion fail")));
            },
            FetchedHeader::Fetched(h) => {
                kept.push(h);
            },
        }
    }
    proof {
        lemma_first_unfetched_header_at(orig, orig.len() as int);
        assert(kept@ =~= fetched_headers(orig));
    }
    match target {
        FetchedHeader::Missing => Err(
            Error::NotFound(String::from_str("target header not found")),
        ),
        FetchedHeader::Invalid => Err(
            Error::Decode(String::from_str("Block -> Header conversion fail")),
        ),
        FetchedHeader::Fetched(t) => Ok(Verified { target: t, supporting: kept }),
    }
}

/// Judge a batch of consensus-snapshot fetches. There is no partial
/// success: any supporting height the chain reports no snapshot for fails
/// the batch as not found, as does a missing target snapshot; the batch
/// succeeds only with every requested snapshot in hand, in order.
#[verifier::loop_isolation(false)]
pub fn collect_consensuses(supporting: Vec<FetchedSnapshot>, target: FetchedSnapshot) -> (r:
    Result<Verified<NativeConsensus>, Error>)
    ensures
        !all_snapshots_fetched(supporting@) ==> (r matches Err(Error::NotFound(m)) && m@
            == "supporting snapshot not found"@),
        all_snapshots_fetched(supporting@) ==> match target {
            FetchedSnapshot::Missing => (r matches Err(Error::NotFound(m)) && m@
                == "target snapshot not found"@),
            FetchedSnapshot::Fetched(t) => (r matches Ok(v) && v.target == t && v.supporting@
                == fetched_snapshots(supporting@)),
        },
{
    let ghost orig = supporting@;
    let mut rest = supporting;
    let mut kept: Vec<NativeConsensus> = Vec::new();
    while rest.len() > 0
        invariant
            rest@.len() <= orig.len(),
            rest@ == orig.subrange(orig.len() - rest@.len(), orig.len() as int),
            forall|j: int|
                0 <= j < orig.len() - rest@.len() ==> (#[trigger] orig[j]) is Fetched,
            kept@.len() == orig.len() - rest@.len(),
            forall|j: int| 0 <= j < kept@.len() ==> #[trigger] kept@[j] == orig[j]->Fetched_0,
        decreases rest@.len(),
    {
        let ghost done = orig.len() - rest@.len();
        let item = rest.remove(0);
        proof {
            assert(rest@ =~= orig.subrange(orig.len() - rest@.len(), orig.len() as int));
        }
        match item {
            FetchedSnapshot::Missing => {
                proof {
                    assert(!(orig[done] is Fetched));
                }
                return Err(Error::NotFound(String::from_str("supporting snapshot not found")));
            },
            FetchedSnapshot::Fetched(c) => {
                kept.push(c);
            },
        }
    }
    proof {
        assert(kept@ =~= fetched_snapshots(orig));
    }
    match target {
        FetchedSnapshot::Missing => Err(
            Error::NotFound(String::from_str("target snapshot not found")),
        ),
        FetchedSnapshot::Fetched(t) => Ok(Verified { target: t, supporting: kept }),
    }
}

} // verus!

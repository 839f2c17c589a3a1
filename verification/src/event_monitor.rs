//! The event monitor's decision logic.
//!
//! The monitor is one cooperative background task: each iteration it first
//! polls its command channel without blocking and stops on a shutdown
//! command (or a dropped channel), and only then awaits the next block
//! notification and publishes its translation. Because the command poll
//! comes first and stopping publishes nothing, no batch is published after
//! a shutdown command is observed: `monitor_run` states and proves that of
//! every scripted run, and the task in the transport layer takes the same
//! decisions in the same order.

use vstd::prelude::*;
use vstd::string::StringExecFns;
use crate::chain::IbcEvent;
use crate::height::Height;
use crate::identifier::{ChainId, ChainIdV};

verus! {

/// A command the relayer sends the monitor.
#[derive(Debug, Clone, Copy, PartialEq, Eq, Structural)]
pub enum MonitorCmd {
    Shutdown,
}

/// What one non-blocking poll of the command channel produced.
#[derive(Debug, Clone, Copy, PartialEq, Eq, Structural)]
pub enum CmdPoll {
    Command(MonitorCmd),
    Disconnected,
    Empty,
}

/// What one await on the block subscription produced: a new head's block
/// number, a closed subscription, or a transport failure.
#[derive(Debug, Clone, PartialEq, Eq)]
pub enum BlockNotification {
    Head(u64),
    Closed,
    Failed(String),
}

/// A monitor fault, published to the stream as data.
#[derive(Debug, Clone, PartialEq, Eq)]
pub enum EventError {
    CollectEventsFailed(String),
    Rpc(String),
}

/// One uniform event batch: the chain, the height it happened at, and the
/// events themselves.
#[derive(Debug, Clone, PartialEq, Eq)]
pub struct EventBatch {
    pub chain_id: ChainId,
    pub height: Height,
    pub events: Vec<IbcEvent>,
}

/// Does this poll outcome stop the monitor? Yes on a shutdown command,
/// and when the command channel is gone.
pub open spec fn monitor_stops(poll: CmdPoll) -> bool {
    poll is Command || poll is Disconnected
}

/// Must the monitor stop before touching the subscription?
pub fn monitor_should_stop(poll: &CmdPoll) -> (r: bool)
    ensures
        r == monitor_stops(*poll),
{
    match poll {
        CmdPoll::Command(MonitorCmd::Shutdown) => true,
        CmdPoll::Disconnected => true,
        CmdPoll::Empty => false,
    }
}

/// What the uniform stream item for one block notification must be: a new
/// head becomes a one-event batch at that head's height under the given
/// revision; a closed subscription and a transport failure each become
/// their typed monitor error — published as data, never a panic.
pub open spec fn spec_stream_item(
    revision_number: u64,
    chain_id: ChainIdV,
    note: BlockNotification,
    item: Result<EventBatch, EventError>,
) -> bool {
    match note {
        BlockNotification::Head(n) => item matches Ok(b) && b.chain_id@ == chain_id && b.height
            == (Height { revision_number, revision_height: n }) && b.events@ == seq![
            IbcEvent::NewBlock(Height { revision_number, revision_height: n }),
        ],
        BlockNotification::Closed => item matches Err(EventError::CollectEventsFailed(m)) && m@
            == "header_subscription: empty event"@,
        BlockNotification::Failed(e) => item matches Err(EventError::Rpc(m)) && m@ == e@,
    }
}

/// Translate one block notification into the uniform stream item.
pub fn translate_notification(
    revision_number: u64,
    chain_id: &ChainId,
    note: BlockNotification,
) -> (r: Result<EventBatch, EventError>)
    ensures
        spec_stream_item(revision_number, chain_id@, note, r),
{
    match note {
        BlockNotification::Head(n) => {
            let height = Height::new(revision_number, n);
            let mut events: Vec<IbcEvent> = Vec::new();
            events.push(IbcEvent::NewBlock(height));
            Ok(EventBatch { chain_id: chain_id.clone_id(), height, events })
        },
        BlockNotification::Closed => Err(
            EventError::CollectEventsFailed(String::from_str("header_subscription: empty event")),
        ),
        BlockNotification::Failed(e) => Err(EventError::Rpc(e)),
    }
}

/// The iteration at which the monitor stops: the index of the first
/// stopping poll, or the script's length when none stops it.
pub open spec fn spec_first_stop(polls: Seq<CmdPoll>) -> int
    decreases polls.len(),
{
    if polls.len() == 0 {
        0
    } else if monitor_stops(polls[0]) {
        0
    } else {
        1 + spec_first_stop(polls.drop_first())
    }
}

proof fn lemma_first_stop_at(polls: Seq<CmdPoll>, i: int)
    requires
        0 <= i <= polls.len(),
        forall|j: int| 0 <= j < i ==> !monitor_stops(#[trigger] polls[j]),
        i < polls.len() ==> monitor_stops(polls[i]),
    ensures
        spec_first_stop(polls) == i,
    decreases i,
{
    if polls.len() == 0 {
    } else if i == 0 {
    } else {
        let t = polls.drop_first();
        assert forall|j: int| 0 <= j < i - 1 implies !monitor_stops(#[trigger] t[j]) by {
            assert(t[j] == polls[j + 1]);
        }
        if i - 1 < t.len() {
            assert(t[i - 1] == polls[i]);
        }
        lemma_first_stop_at(t, i - 1);
    }
}

/// Law: once a stopping poll is observed, nothing further is published —
/// in particular, a shutdown command at the head of the script yields an
/// empty stream, whatever the subscription would have delivered.
pub proof fn lemma_stop_publishes_nothing_after(polls: Seq<CmdPoll>, i: int)
    requires
        0 <= i < polls.len(),
        monitor_stops(polls[i]),
    ensures
        spec_first_stop(polls) <= i,
    decreases i,
{
    if i == 0 {
    } else if monitor_stops(polls[0]) {
    } else {
        let t = polls.drop_first();
        assert(t[i - 1] == polls[i]);
        lemma_stop_publishes_nothing_after(t, i - 1);
    }
}

/// The monitor loop over a scripted command channel and subscription: the
/// background task's decisions as one pure function, so that the stream's
/// shutdown guarantee can be stated of every run. One stream item is
/// published per iteration before the first stopping poll — with its
/// content fixed by `spec_stream_item` — and nothing at or after it.
#[verifier::loop_isolation(false)]
pub fn monitor_run(
    revision_number: u64,
    chain_id: &ChainId,
    polls: &Vec<CmdPoll>,
    notes: Vec<BlockNotification>,
) -> (published: Vec<Result<EventBatch, EventError>>)
    requires
        polls@.len() <= notes@.len(),
    ensures
        published@.len() == spec_first_stop(polls@),
        forall|i: int|
            0 <= i < published@.len() ==> spec_stream_item(
                revision_number,
                chain_id@,
                notes@[i],
                #[trigger] published@[i],
            ),
{
    let ghost all_notes = notes@;
    let mut notes = notes;
    let mut published: Vec<Result<EventBatch, EventError>> = Vec::new();
    let mut i: usize = 0;
    while i < polls.len()
        invariant
            polls@.len() <= all_notes.len(),
            i <= polls@.len(),
            notes@ == all_notes.subrange(i as int, all_notes.len() as int),
            published@.len() == i,
            forall|j: int| 0 <= j < i ==> !monitor_stops(#[trigger] polls@[j]),
            forall|j: int|
                0 <= j < i ==> spec_stream_item(
                    revision_number,
                    chain_id@,
                    all_notes[j],
                    #[trigger] published@[j],
                ),
        decreases polls@.len() - i,
    {
        let poll = polls[i];
        if monitor_should_stop(&poll) {
            proof {
                lemma_first_stop_at(polls@, i as int);
            }
            return published;
        }
        let note = notes.remove(0);
        proof {
            assert(notes@ =~= all_notes.subrange(i + 1, all_notes.len() as int));
        }
        published.push(translate_notification(revision_number, chain_id, note));
        i = i + 1;
    }
    proof {
        lemma_first_stop_at(polls@, polls@.len() as int);
    }
    published
}

} // verus!

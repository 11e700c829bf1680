//! The order in which the network stack is brought up, and which failures
//! stop it.
//!
//! Discovery is started, then the listener is bound, then each bootstrap
//! peer is dialled in turn. The first two are needed: if one of them fails,
//! the bring-up is aborted. A dial is not: a peer that cannot be reached is
//! reported, and the next one is tried.

use crate::address::clone_multiaddr;
use libp2p::Multiaddr;
use vstd::prelude::*;

verus! {

/// How far a bring-up has come.
#[derive(Clone, Copy, Debug, PartialEq, Eq, Structural)]
pub enum Stage {
    /// Nothing was asked for yet.
    Fresh,
    /// Discovery is being started.
    Discovering,
    /// The listener is being bound.
    Listening,
    /// The bootstrap peer at this position is being dialled.
    Dialing(usize),
    /// The stack is up.
    Up,
    /// A step that the stack depends on has failed.
    Aborted,
}

/// What the caller is to do next.
pub enum BringupStep {
    /// Start peer discovery.
    Discover,
    /// Listen on this address.
    Listen(Multiaddr),
    /// Dial this peer.
    Dial(Multiaddr),
    /// The stack is up: run the event loop and the input reader.
    Run,
    /// Give up: a step that the stack depends on has failed.
    Abort,
}

/// The stage that follows `stage`, for a bring-up with `peers` bootstrap
/// peers, once the step asked for at `stage` has gone well (`ok`) or not.
pub open spec fn next_stage(stage: Stage, peers: nat, ok: bool) -> Stage {
    match stage {
        Stage::Fresh => Stage::Discovering,
        Stage::Discovering => if ok {
            Stage::Listening
        } else {
            Stage::Aborted
        },
        Stage::Listening => if !ok {
            Stage::Aborted
        } else if peers > 0 {
            Stage::Dialing(0)
        } else {
            Stage::Up
        },
        Stage::Dialing(i) => if i + 1 < peers {
            Stage::Dialing((i + 1) as usize)
        } else {
            Stage::Up
        },
        Stage::Up => Stage::Up,
        Stage::Aborted => Stage::Aborted,
    }
}

/// Whether `step` is what a bring-up with the given listen address and
/// bootstrap peers asks for on reaching `stage`.
pub open spec fn step_at(step: BringupStep, stage: Stage, listen: Multiaddr, peers: Seq<Multiaddr>) -> bool {
    match stage {
        Stage::Fresh => false,
        Stage::Discovering => step == BringupStep::Discover,
        Stage::Listening => step == BringupStep::Listen(listen),
        Stage::Dialing(i) => i < peers.len() && step == BringupStep::Dial(peers[i as int]),
        Stage::Up => step == BringupStep::Run,
        Stage::Aborted => step == BringupStep::Abort,
    }
}

/// The stage reached from `stage` after the steps asked for have ended as
/// `outcomes` say, one after the other.
pub open spec fn stage_after(stage: Stage, peers: nat, outcomes: Seq<bool>) -> Stage
    decreases outcomes.len(),
{
    if outcomes.len() == 0 {
        stage
    } else {
        next_stage(stage_after(stage, peers, outcomes.drop_last()), peers, outcomes.last())
    }
}

/// A bring-up under way.
pub struct BringupScript {
    listen: Multiaddr,
    peers: Vec<Multiaddr>,
    stage: Stage,
}

impl BringupScript {
    /// The address to listen on.
    pub closed spec fn listen(&self) -> Multiaddr {
        self.listen
    }

    /// The bootstrap peers, in the order in which they are dialled.
    pub closed spec fn peers(&self) -> Seq<Multiaddr> {
        self.peers@
    }

    /// How far the bring-up has come.
    pub closed spec fn stage(&self) -> Stage {
        self.stage
    }

    /// A position that is being dialled is that of a peer.
    pub closed spec fn wf(&self) -> bool {
        match self.stage {
            Stage::Dialing(i) => i < self.peers@.len(),
            _ => true,
        }
    }

    /// A bring-up that listens on `listen` and then dials `peers`, with
    /// nothing asked for yet.
    pub fn new(listen: Multiaddr, peers: Vec<Multiaddr>) -> (script: Self)
        ensures
            script.wf(),
            script.listen() == listen,
            script.peers() == peers@,
            script.stage() == Stage::Fresh,
    {
        BringupScript { listen, peers, stage: Stage::Fresh }
    }

    /// Whether the stack is up.
    pub fn is_up(&self) -> (up: bool)
        ensures
            up == (self.stage() == Stage::Up),
    {
        match self.stage {
            Stage::Up => true,
            _ => false,
        }
    }

    /// Takes note of how the step asked for last ended, and says what to do
    /// next. On the first call nothing was asked for yet, and `ok` is not
    /// looked at.
    pub fn advance(&mut self, ok: bool) -> (step: BringupStep)
        requires
            old(self).wf(),
        ensures
            final(self).wf(),
            final(self).listen() == old(self).listen(),
            final(self).peers() == old(self).peers(),
            final(self).stage() == next_stage(old(self).stage(), old(self).peers().len(), ok),
            step_at(step, final(self).stage(), old(self).listen(), old(self).peers()),
    {
        let count = self.peers.len();
        let next = match self.stage {
            Stage::Fresh => Stage::Discovering,
            Stage::Discovering => if ok {
                Stage::Listening
            } else {
                Stage::Aborted
            },
            Stage::Listening => if !ok {
                Stage::Aborted
            } else if count > 0 {
                Stage::Dialing(0)
            } else {
                Stage::Up
            },
            Stage::Dialing(i) => if i < count - 1 {
                Stage::Dialing(i + 1)
            } else {
                Stage::Up
            },
            Stage::Up => Stage::Up,
            Stage::Aborted => Stage::Aborted,
        };
        self.stage = next;
        match next {
            Stage::Fresh => BringupStep::Abort,
            Stage::Discovering => BringupStep::Discover,
            Stage::Listening => BringupStep::Listen(clone_multiaddr(&self.listen)),
            Stage::Dialing(i) => BringupStep::Dial(clone_multiaddr(&self.peers[i])),
            Stage::Up => BringupStep::Run,
            Stage::Aborted => BringupStep::Abort,
        }
    }
}

/// A dial that fails does not stop the bring-up: whatever the dials come
/// to, each peer is dialled in its turn, and after the last the stack is up.
pub proof fn lemma_dials_are_not_needed(peers: usize, dialed: usize, outcomes: Seq<bool>)
    requires
        dialed < peers,
        outcomes.len() <= peers - dialed,
    ensures
        stage_after(Stage::Dialing(dialed), peers as nat, outcomes) == if dialed + outcomes.len()
            < peers {
            Stage::Dialing((dialed + outcomes.len()) as usize)
        } else {
            Stage::Up
        },
    decreases outcomes.len(),
{
    if outcomes.len() > 0 {
        lemma_dials_are_not_needed(peers, dialed, outcomes.drop_last());
    }
}

/// Discovery and the listener are needed: once one of them has failed, the
/// bring-up is aborted and stays so.
pub proof fn lemma_needed_steps_abort(peers: nat, outcomes: Seq<bool>)
    ensures
        stage_after(Stage::Discovering, peers, seq![false] + outcomes) == Stage::Aborted,
        stage_after(Stage::Listening, peers, seq![false] + outcomes) == Stage::Aborted,
    decreases outcomes.len(),
{
    let all = seq![false] + outcomes;
    if outcomes.len() == 0 {
        assert(all.drop_last() =~= Seq::<bool>::empty());
        assert(all.last() == false);
        assert(stage_after(Stage::Discovering, peers, all.drop_last()) == Stage::Discovering);
        assert(stage_after(Stage::Listening, peers, all.drop_last()) == Stage::Listening);
    } else {
        assert(all.drop_last() =~= seq![false] + outcomes.drop_last());
        lemma_needed_steps_abort(peers, outcomes.drop_last());
    }
}

} // verus!

use tokio::sync::oneshot::{Receiver, Sender};
use vstd::prelude::*;

verus! {

#[verifier::external_type_specification]
#[verifier::external_body]
#[verifier::reject_recursive_types(T)]
pub struct ExSender<T>(Sender<T>);

#[verifier::external_type_specification]
#[verifier::external_body]
#[verifier::reject_recursive_types(T)]
pub struct ExReceiver<T>(Receiver<T>);

#[verifier::external_type_specification]
#[verifier::external_body]
pub struct ExRecvError(tokio::sync::oneshot::error::RecvError);

/// The channel that a signal sends on.
pub uninterp spec fn signal_channel(tx: Sender<()>) -> nat;

/// The channel that a receiver observes.
pub uninterp spec fn receiver_channel(rx: Receiver<()>) -> nat;

/// Relies on tokio's `oneshot::channel`: a fresh single-use signal and the
/// receiver that observes it, the two ends of one channel.
#[verifier::external_body]
fn unit_channel() -> (r: (Sender<()>, Receiver<()>))
    ensures
        signal_channel(r.0) == receiver_channel(r.1),
{
    tokio::sync::oneshot::channel()
}

/// Relies on tokio's `oneshot::Sender::send`: hands the value to the
/// receiver, or back where the receiver is gone.
pub assume_specification<T>[ Sender::<T>::send ](tx: Sender<T>, t: T) -> Result<(), T>;

/// A waiter registered for one identifier.
struct PendingAck {
    id: String,
    signal: Sender<()>,
}

/// The pending table after a waiter registers for `id` on `channel`: a
/// waiter already there for `id` is replaced.
pub open spec fn after_wait(
    pending: Map<Seq<char>, nat>,
    id: Seq<char>,
    channel: nat,
) -> Map<Seq<char>, nat> {
    pending.insert(id, channel)
}

/// The pending table after an acknowledgment for `id`: its waiter, if any,
/// is resolved and leaves.
pub open spec fn after_ack(pending: Map<Seq<char>, nat>, id: Seq<char>) -> Map<Seq<char>, nat> {
    pending.remove(id)
}

/// Correlates acknowledgments with the operations waiting for them: at most
/// one waiter per identifier.
///
/// A second registration for an identifier replaces the first. The earlier
/// signal is then dropped unsent, and its receiver observes it closed rather
/// than acknowledged.
pub struct AckManager {
    pending: Vec<PendingAck>,
}

impl View for AckManager {
    /// Each identifier with a waiter, and the channel its signal sends on.
    type V = Map<Seq<char>, nat>;

    closed spec fn view(&self) -> Map<Seq<char>, nat> {
        Map::new(
            |k: Seq<char>| self.ids().contains(k),
            |k: Seq<char>|
                self.channels()[choose|i: int| 0 <= i < self.ids().len() && self.ids()[i] == k],
        )
    }
}

impl AckManager {
    closed spec fn ids(&self) -> Seq<Seq<char>> {
        self.pending@.map_values(|p: PendingAck| p.id@)
    }

    closed spec fn channels(&self) -> Seq<nat> {
        self.pending@.map_values(|p: PendingAck| signal_channel(p.signal))
    }

    /// The waiter at `i` stands in the view under its identifier.
    proof fn lemma_entry(&self, i: int)
        requires
            self.wf(),
            0 <= i < self.pending@.len(),
        ensures
            self@.dom().contains(self.ids()[i]),
            self@[self.ids()[i]] == self.channels()[i],
    {
        assert(self.ids().contains(self.ids()[i]));
        let j = choose|j: int| 0 <= j < self.ids().len() && self.ids()[j] == self.ids()[i];
        assert(j == i);
    }

    /// No identifier has two waiters.
    pub closed spec fn wf(&self) -> bool {
        self.ids().no_duplicates()
    }

    pub fn new() -> (r: Self)
        ensures
            r.wf(),
            r@ == Map::<Seq<char>, nat>::empty(),
    {
        let r = Self { pending: Vec::new() };
        assert(r.ids() =~= Seq::<Seq<char>>::empty());
        assert(r@ =~= Map::<Seq<char>, nat>::empty());
        r
    }

    /// Where a waiter for `id` stands, if one does.
    fn position(&self, id: &String) -> (r: Option<usize>)
        ensures
            match r {
                Some(i) => i < self.pending@.len() && self.ids()[i as int] == id@,
                None => !self.ids().contains(id@),
            },
    {
        let n = self.pending.len();
        let mut i: usize = 0;
        while i < n
            invariant
                n == self.pending@.len(),
                self.ids().len() == n,
                i <= n,
                forall|j: int| 0 <= j < i ==> self.ids()[j] != id@,
            decreases n - i,
        {
            if self.pending[i].id == *id {
                return Some(i);
            }
            i = i + 1;
        }
        None
    }

    /// Takes out the waiter at `i`, and returns its signal.
    fn take(&mut self, i: usize) -> (r: Sender<()>)
        requires
            old(self).wf(),
            i < old(self).pending@.len(),
        ensures
            final(self).wf(),
            final(self)@ == old(self)@.remove(old(self).ids()[i as int]),
            old(self)@[old(self).ids()[i as int]] == signal_channel(r),
    {
        let ghost old_self = *self;
        let ghost before = self.ids();
        let ghost id = before[i as int];
        proof {
            old_self.lemma_entry(i as int);
        }
        let p = self.pending.remove(i);
        assert(self.ids() =~= before.remove(i as int));
        assert(self.channels() =~= old_self.channels().remove(i as int));
        proof {
            assert(self.ids().no_duplicates()) by {
                assert forall|a: int, b: int| 0 <= a < b < self.ids().len() implies self.ids()[a]
                    != self.ids()[b] by {
                    let a2 = if a < i { a } else { a + 1 };
                    let b2 = if b < i { b } else { b + 1 };
                    assert(self.ids()[a] == before[a2]);
                    assert(self.ids()[b] == before[b2]);
                }
            }
            assert forall|s: Seq<char>| #[trigger]
                self@.dom().contains(s) <==> old_self@.remove(id).dom().contains(s) by {
                if self.ids().contains(s) {
                    let k = choose|k: int| 0 <= k < self.ids().len() && self.ids()[k] == s;
                    let k2 = if k < i { k } else { k + 1 };
                    assert(before[k2] == s);
                    assert(k2 != i);
                }
                if before.contains(s) && s != id {
                    let k = choose|k: int| 0 <= k < before.len() && before[k] == s;
                    assert(k != i);
                    let k2 = if k < i { k } else { k - 1 };
                    assert(self.ids()[k2] == s);
                }
            }
            assert forall|s: Seq<char>| #[trigger] self@.dom().contains(s) implies self@[s]
                == old_self@[s] by {
                let k = choose|k: int| 0 <= k < self.ids().len() && self.ids()[k] == s;
                let k2 = if k < i { k } else { k + 1 };
                self.lemma_entry(k);
                old_self.lemma_entry(k2);
            }
            assert(self@ =~= old_self@.remove(id));
        }
        p.signal
    }

    /// Registers a waiter for `id` and returns the receiver that observes its
    /// acknowledgment: the view maps `id` to that receiver's channel. The
    /// caller bounds the wait itself.
    pub fn wait_for_ack(&mut self, id: &String) -> (r: Receiver<()>)
        requires
            old(self).wf(),
        ensures
            final(self).wf(),
            final(self)@ == after_wait(old(self)@, id@, receiver_channel(r)),
    {
        if let Some(i) = self.position(id) {
            let _ = self.take(i);
        } else {
            assert(self@ =~= self@.remove(id@));
        }
        let ghost mid = *self;
        let ghost before = self.ids();
        assert(!before.contains(id@)) by {
            assert(!self@.dom().contains(id@));
        }
        let (tx, rx) = unit_channel();
        self.pending.push(PendingAck { id: id.clone(), signal: tx });
        assert(self.ids() =~= before.push(id@));
        assert(self.channels() =~= mid.channels().push(receiver_channel(rx)));
        proof {
            assert(self.ids().no_duplicates()) by {
                assert forall|a: int, b: int| 0 <= a < b < self.ids().len() implies self.ids()[a]
                    != self.ids()[b] by {
                    assert(self.ids()[a] == before[a]);
                    if b == before.len() {
                        assert(self.ids()[b] == id@);
                    } else {
                        assert(self.ids()[b] == before[b]);
                    }
                }
            }
            let target = mid@.insert(id@, receiver_channel(rx));
            assert forall|s: Seq<char>| #[trigger]
                self@.dom().contains(s) <==> target.dom().contains(s) by {
                if self.ids().contains(s) && s != id@ {
                    let k = choose|k: int| 0 <= k < self.ids().len() && self.ids()[k] == s;
                    assert(k < before.len());
                    assert(before[k] == s);
                }
                if before.contains(s) {
                    let k = choose|k: int| 0 <= k < before.len() && before[k] == s;
                    assert(self.ids()[k] == s);
                }
                if s == id@ {
                    assert(self.ids()[before.len() as int] == s);
                }
            }
            assert forall|s: Seq<char>| #[trigger] self@.dom().contains(s) implies self@[s]
                == target[s] by {
                let k = choose|k: int| 0 <= k < self.ids().len() && self.ids()[k] == s;
                self.lemma_entry(k);
                if k < before.len() {
                    mid.lemma_entry(k);
                }
            }
            assert(self@ =~= target);
        }
        rx
    }

    /// Resolves and removes the waiter for `id`; true iff there was one.
    /// The signal sent is the one on the channel the view gave `id`.
    /// Without a waiter nothing changes.
    pub fn handle_ack(&mut self, id: &String) -> (r: bool)
        requires
            old(self).wf(),
        ensures
            final(self).wf(),
            r == old(self)@.dom().contains(id@),
            final(self)@ == after_ack(old(self)@, id@),
    {
        match self.position(id) {
            Some(i) => {
                let signal = self.take(i);
                let _ = signal.send(());
                true
            },
            None => {
                assert(self@ =~= self@.remove(id@));
                false
            },
        }
    }
}

/// A waiter registered for `id` on a receiver's channel is the one that the
/// next acknowledgment for `id` resolves; that acknowledgment leaves the
/// other waiters as they were.
pub proof fn lemma_ack_resolves_waiter(pending: Map<Seq<char>, nat>, id: Seq<char>, channel: nat)
    ensures
        after_wait(pending, id, channel).dom().contains(id),
        after_wait(pending, id, channel)[id] == channel,
        after_ack(after_wait(pending, id, channel), id) == pending.remove(id),
{
    assert(after_ack(after_wait(pending, id, channel), id) =~= pending.remove(id));
}

/// A second registration for `id` replaces the first: the next
/// acknowledgment for `id` resolves the second receiver's channel, and no
/// waiter on the first remains.
pub proof fn lemma_second_registration_replaces(
    pending: Map<Seq<char>, nat>,
    id: Seq<char>,
    first: nat,
    second: nat,
)
    ensures
        after_wait(after_wait(pending, id, first), id, second)[id] == second,
        after_wait(after_wait(pending, id, first), id, second) == after_wait(pending, id, second),
{
    assert(after_wait(after_wait(pending, id, first), id, second) =~= after_wait(
        pending,
        id,
        second,
    ));
}

/// An acknowledgment for which no waiter is registered changes nothing.
pub proof fn lemma_unknown_ack_is_noop(pending: Map<Seq<char>, nat>, id: Seq<char>)
    requires
        !pending.dom().contains(id),
    ensures
        after_ack(pending, id) == pending,
{
    assert(after_ack(pending, id) =~= pending);
}

} // verus!

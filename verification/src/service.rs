//! The coordination service: the registry of live instances, their per-instance
//! event queues, the liveness state machine, and the operations the transport
//! layer calls.
//!
//! Liveness follows a generation discipline: every instance carries a
//! generation counter, and every armed eviction timer remembers the generation
//! it was armed under.  A heartbeat bumps the generation, which supersedes
//! every timer armed before it; a timer whose generation no longer matches
//! evicts nothing.  Eviction and stop notification are coupled: a firing
//! timer that still matches removes the instance and publishes exactly one
//! stop notice on the bus.

use vstd::prelude::*;

use crate::bus::MessageBus;
use crate::bus::PublishOutcome;
use crate::messages::Message;
use crate::messages::RobloxEvent;
use crate::messages::RobloxMessage;
use crate::messages::StartMessage;
use crate::messages::StatusMessage;
use crate::messages::StopMessage;
use crate::messages::SvcError;

verus! {

/// Number of slots on the inbound message bus.
pub const BUS_CAPACITY: usize = 100;

/// Seconds of silence after which an instance is evicted; the transport layer
/// arms each liveness timer with this delay.
pub const LIVENESS_TTL_SECS: u64 = 10;

/// One registered remote execution instance: its identity, its queue of
/// outbound commands awaiting delivery, and the generation of its liveness
/// timer.
pub struct StudioInstance {
    /// Opaque identity, unique within the registry.
    pub id: String,
    /// Outbound commands in arrival order, cleared as a whole on drain.
    pub event_queue: Vec<RobloxEvent>,
    /// Generation of the one timer currently armed for this instance.
    pub generation: u64,
}

impl StudioInstance {
    /// A fresh instance: an empty queue at generation 0 — the generation the
    /// timer armed at creation runs under.
    pub fn new(id: String) -> (r: StudioInstance)
        ensures
            r.id == id,
            r.event_queue@ == Seq::<RobloxEvent>::empty(),
            r.generation == 0u64,
    {
        StudioInstance { id, event_queue: Vec::new(), generation: 0 }
    }
}

/// Holds when some instance in `insts` has the id that reads `id`.
pub open spec fn reg_has(insts: Seq<StudioInstance>, id: Seq<char>) -> bool {
    exists|i: int| 0 <= i < insts.len() && insts[i].id@ == id
}

/// The position of the instance with id `id`; meaningful under `reg_unique`
/// when `reg_has` holds.
pub open spec fn reg_index(insts: Seq<StudioInstance>, id: Seq<char>) -> int {
    choose|i: int| 0 <= i < insts.len() && insts[i].id@ == id
}

/// No two instances share an id.
pub open spec fn reg_unique(insts: Seq<StudioInstance>) -> bool {
    forall|i: int, j: int| 0 <= i < j < insts.len() ==> insts[i].id@ != insts[j].id@
}

/// The event queue of the instance with id `id`.
pub open spec fn queue_of(insts: Seq<StudioInstance>, id: Seq<char>) -> Seq<RobloxEvent> {
    insts[reg_index(insts, id)].event_queue@
}

/// The timer generation of the instance with id `id`.
pub open spec fn gen_of(insts: Seq<StudioInstance>, id: Seq<char>) -> u64 {
    insts[reg_index(insts, id)].generation
}

/// Under uniqueness, `reg_index` is the one position holding `id`.
pub proof fn lemma_reg_index(insts: Seq<StudioInstance>, id: Seq<char>)
    requires
        reg_unique(insts),
        reg_has(insts, id),
    ensures
        0 <= reg_index(insts, id) < insts.len(),
        insts[reg_index(insts, id)].id@ == id,
        forall|i: int| 0 <= i < insts.len() && insts[i].id@ == id ==> i == reg_index(insts, id),
{
    let k = reg_index(insts, id);
    assert(0 <= k < insts.len() && insts[k].id@ == id);
    assert forall|i: int| 0 <= i < insts.len() && insts[i].id@ == id implies i == k by {
        if i < k {
            assert(insts[i].id@ != insts[k].id@);
        } else if k < i {
            assert(insts[k].id@ != insts[i].id@);
        }
    }
}

/// The registry after a heartbeat for `id`: the same instances, with the
/// generation of `id` bumped and everything else untouched.
pub open spec fn spec_heartbeat(insts: Seq<StudioInstance>, id: Seq<char>) -> Seq<StudioInstance> {
    let k = reg_index(insts, id);
    insts.update(k, StudioInstance {
        id: insts[k].id,
        event_queue: insts[k].event_queue,
        generation: (insts[k].generation + 1) as u64,
    })
}

/// One read-and-clear drain for `id`: `out` is everything that was queued,
/// the queue is left empty, and nothing else changes.
pub open spec fn drain_transition(
    pre: Seq<StudioInstance>,
    post: Seq<StudioInstance>,
    id: Seq<char>,
    out: Seq<RobloxEvent>,
) -> bool {
    &&& reg_has(pre, id)
    &&& out == queue_of(pre, id)
    &&& post.len() == pre.len()
    &&& reg_has(post, id)
    &&& queue_of(post, id) == Seq::<RobloxEvent>::empty()
    &&& gen_of(post, id) == gen_of(pre, id)
    &&& forall|j: int| 0 <= j < pre.len() ==> post[j].id == pre[j].id
    &&& forall|j: int| 0 <= j < pre.len() && pre[j].id@ != id ==> post[j] == pre[j]
}

/// The registry after a timer armed under `generation` fires for `id`: the
/// instance is evicted only if it is still present and the timer was not
/// superseded by a later heartbeat.
pub open spec fn spec_timer_fire(
    insts: Seq<StudioInstance>,
    id: Seq<char>,
    generation: u64,
) -> Seq<StudioInstance> {
    if reg_has(insts, id) && gen_of(insts, id) == generation {
        insts.remove(reg_index(insts, id))
    } else {
        insts
    }
}

/// The coordination service: the registry, the inbound bus, and whether the
/// service still accepts work.
pub struct Svc {
    /// The registry: every live instance, each id at most once.
    pub instances: Vec<StudioInstance>,
    /// The bounded inbound bus toward the single consumer.
    pub bus: MessageBus,
    /// Cleared by a graceful-shutdown request.
    pub running: bool,
}

impl Svc {
    /// The registry never holds two instances of one id, and the bus keeps
    /// its own discipline.
    pub open spec fn wf(self) -> bool {
        &&& reg_unique(self.instances@)
        &&& self.bus.wf()
    }

    /// A fresh service: no instances, an empty bus with `BUS_CAPACITY` slots,
    /// accepting work.
    pub fn new() -> (s: Svc)
        ensures
            s.wf(),
            s.instances@ == Seq::<StudioInstance>::empty(),
            s.bus.contents() == Seq::<Message>::empty(),
            s.bus.capacity == BUS_CAPACITY,
            !s.bus.closed,
            s.running,
    {
        Svc { instances: Vec::new(), bus: MessageBus::new(BUS_CAPACITY), running: true }
    }

    /// The position of the instance with id `server`, if it is registered.
    fn find_index(&self, server: &String) -> (r: Option<usize>)
        requires
            self.wf(),
        ensures
            match r {
                Some(i) => reg_has(self.instances@, server@)
                    && i as int == reg_index(self.instances@, server@),
                None => !reg_has(self.instances@, server@),
            },
    {
        let n = self.instances.len();
        let mut i: usize = 0;
        while i < n
            invariant
                self.wf(),
                n == self.instances@.len(),
                i <= n,
                forall|j: int| 0 <= j < i ==> self.instances@[j].id@ != server@,
            decreases n - i,
        {
            if self.instances[i].id == *server {
                proof {
                    assert(reg_has(self.instances@, server@));
                    lemma_reg_index(self.instances@, server@);
                }
                return Some(i);
            }
            i += 1;
        }
        None
    }

    /// Whether an instance with id `server` is currently registered.
    pub fn contains(&self, server: &String) -> (r: bool)
        requires
            self.wf(),
        ensures
            r == reg_has(self.instances@, server@),
    {
        self.find_index(server).is_some()
    }

    /// Ensure an instance with id `server` is registered: an idempotent
    /// lookup when it is present, otherwise a fresh instance with an empty
    /// queue at generation 0.  `Some(g)` asks the transport to arm one
    /// liveness timer under generation `g`; `None` means the instance already
    /// existed and its timer stands.
    pub fn create_server(&mut self, server: String) -> (r: Option<u64>)
        requires
            old(self).wf(),
        ensures
            final(self).wf(),
            final(self).bus == old(self).bus,
            final(self).running == old(self).running,
            reg_has(final(self).instances@, server@),
            reg_has(old(self).instances@, server@) ==> r is None && *final(self) == *old(self),
            !reg_has(old(self).instances@, server@) ==> {
                &&& r is Some && r->Some_0 == 0u64
                &&& final(self).instances@.len() == old(self).instances@.len() + 1
                &&& final(self).instances@.take(old(self).instances@.len() as int)
                    == old(self).instances@
                &&& final(self).instances@.last().id == server
                &&& final(self).instances@.last().event_queue@ == Seq::<RobloxEvent>::empty()
                &&& final(self).instances@.last().generation == 0u64
                &&& queue_of(final(self).instances@, server@) == Seq::<RobloxEvent>::empty()
                &&& gen_of(final(self).instances@, server@) == 0u64
            },
    {
        match self.find_index(&server) {
            Some(_) => None,
            None => {
                let ghost olds = self.instances@;
                let inst = StudioInstance::new(server);
                self.instances.push(inst);
                proof {
                    let news = self.instances@;
                    let n = olds.len() as int;
                    assert(news[n].id@ == server@);
                    assert(reg_has(news, server@));
                    assert forall|i: int, j: int| 0 <= i < j < news.len()
                        implies news[i].id@ != news[j].id@ by {
                        if j < n {
                            assert(news[i] == olds[i] && news[j] == olds[j]);
                        } else {
                            assert(news[i] == olds[i] && news[j].id@ == server@);
                            assert(!reg_has(olds, server@));
                        }
                    }
                    lemma_reg_index(news, server@);
                    assert(reg_index(news, server@) == n);
                    assert(news.take(n) =~= olds);
                }
                Some(0)
            }
        }
    }

    /// Refresh the liveness of a registered instance: its timer generation is
    /// bumped, which supersedes every timer armed before the call.  The new
    /// generation is returned so the transport arms exactly one fresh timer;
    /// a heartbeat for an unregistered id is refused, never an implicit
    /// creation.
    pub fn heartbeat(&mut self, server: &String) -> (r: Result<u64, SvcError>)
        requires
            old(self).wf(),
            reg_has(old(self).instances@, server@)
                ==> gen_of(old(self).instances@, server@) < u64::MAX,
        ensures
            final(self).wf(),
            final(self).bus == old(self).bus,
            final(self).running == old(self).running,
            r is Err <==> !reg_has(old(self).instances@, server@),
            r is Err ==> r->Err_0 == SvcError::UnknownInstance && *final(self) == *old(self),
            r is Ok ==> {
                &&& final(self).instances@ == spec_heartbeat(old(self).instances@, server@)
                &&& r->Ok_0 == gen_of(old(self).instances@, server@) + 1
                &&& reg_has(final(self).instances@, server@)
                &&& gen_of(final(self).instances@, server@)
                    == gen_of(old(self).instances@, server@) + 1
                &&& queue_of(final(self).instances@, server@)
                    == queue_of(old(self).instances@, server@)
            },
    {
        match self.find_index(server) {
            None => Err(SvcError::UnknownInstance),
            Some(i) => {
                proof {
                    lemma_reg_index(old(self).instances@, server@);
                }
                let inst = self.instances.remove(i);
                let StudioInstance { id, event_queue, generation } = inst;
                let new_gen = generation + 1;
                self.instances.insert(i, StudioInstance { id, event_queue, generation: new_gen });
                proof {
                    let olds = old(self).instances@;
                    let news = self.instances@;
                    let k = i as int;
                    assert(news =~= spec_heartbeat(olds, server@));
                    assert forall|p: int, q: int| 0 <= p < q < news.len()
                        implies news[p].id@ != news[q].id@ by {
                        assert(news[p].id@ == olds[p].id@ && news[q].id@ == olds[q].id@);
                    }
                    assert(news[k].id@ == server@);
                    assert(reg_has(news, server@));
                    lemma_reg_index(news, server@);
                    assert(reg_index(news, server@) == k);
                }
                Ok(new_gen)
            }
        }
    }

    /// A liveness timer armed under `generation` for `server` has fired.  If
    /// the instance is gone or a later heartbeat superseded the timer, nothing
    /// changes.  Otherwise the instance is evicted and exactly one stop notice
    /// for it is published — unless the bus is closed, in which case the
    /// instance is left untouched and the fault is reported.
    pub fn timer_fire(&mut self, server: &String, generation: u64) -> (r: Result<bool, SvcError>)
        requires
            old(self).wf(),
        ensures
            final(self).wf(),
            final(self).running == old(self).running,
            final(self).bus.capacity == old(self).bus.capacity,
            final(self).bus.closed == old(self).bus.closed,
            !(reg_has(old(self).instances@, server@)
                && gen_of(old(self).instances@, server@) == generation)
                ==> r is Ok && r->Ok_0 == false && *final(self) == *old(self),
            reg_has(old(self).instances@, server@)
                && gen_of(old(self).instances@, server@) == generation
                && old(self).bus.closed
                ==> r is Err && r->Err_0 == SvcError::DispatchFailure
                    && *final(self) == *old(self),
            reg_has(old(self).instances@, server@)
                && gen_of(old(self).instances@, server@) == generation
                && !old(self).bus.closed
                ==> {
                    &&& r is Ok && r->Ok_0 == true
                    &&& final(self).instances@
                        == spec_timer_fire(old(self).instances@, server@, generation)
                    &&& !reg_has(final(self).instances@, server@)
                    &&& final(self).bus.contents()
                        == old(self).bus.contents().push(Message::Stop { server: *server })
                },
    {
        match self.find_index(server) {
            None => Ok(false),
            Some(i) => {
                if self.instances[i].generation != generation {
                    proof {
                        lemma_reg_index(self.instances@, server@);
                    }
                    return Ok(false);
                }
                if self.bus.closed {
                    return Err(SvcError::DispatchFailure);
                }
                proof {
                    lemma_reg_index(old(self).instances@, server@);
                }
                let inst = self.instances.remove(i);
                let msg = Message::Stop { server: server.clone() };
                let res = self.bus.publish(msg);
                proof {
                    let olds = old(self).instances@;
                    let news = self.instances@;
                    let k = i as int;
                    assert(news == spec_timer_fire(olds, server@, generation));
                    assert forall|j: int| 0 <= j < news.len()
                        implies news[j].id@ != server@ by {
                        if j < k {
                            assert(news[j] == olds[j]);
                        } else {
                            assert(news[j] == olds[j + 1]);
                        }
                    }
                    assert(!reg_has(news, server@));
                    assert forall|p: int, q: int| 0 <= p < q < news.len()
                        implies news[p].id@ != news[q].id@ by {
                        if q < k {
                            assert(news[p] == olds[p] && news[q] == olds[q]);
                        } else if p < k {
                            assert(news[p] == olds[p] && news[q] == olds[q + 1]);
                        } else {
                            assert(news[p] == olds[p + 1] && news[q] == olds[q + 1]);
                        }
                    }
                }
                match res {
                    Ok(_) => Ok(true),
                    Err(e) => Err(e),
                }
            }
        }
    }

    /// Append `ev` to the queue of the instance at position `i`, touching
    /// nothing else.
    fn push_event(&mut self, i: usize, ev: RobloxEvent)
        requires
            old(self).wf(),
            i < old(self).instances@.len(),
        ensures
            final(self).wf(),
            final(self).bus == old(self).bus,
            final(self).running == old(self).running,
            final(self).instances@.len() == old(self).instances@.len(),
            final(self).instances@[i as int].id == old(self).instances@[i as int].id,
            final(self).instances@[i as int].generation
                == old(self).instances@[i as int].generation,
            final(self).instances@[i as int].event_queue@
                == old(self).instances@[i as int].event_queue@.push(ev),
            forall|j: int| 0 <= j < old(self).instances@.len() && j != i
                ==> final(self).instances@[j] == old(self).instances@[j],
    {
        let inst = self.instances.remove(i);
        let StudioInstance { id, mut event_queue, generation } = inst;
        event_queue.push(ev);
        self.instances.insert(i, StudioInstance { id, event_queue, generation });
        proof {
            let olds = old(self).instances@;
            let news = self.instances@;
            assert forall|j: int| 0 <= j < olds.len() && j != i
                implies news[j] == olds[j] by {
                if j < i {
                    assert(olds.remove(i as int)[j] == olds[j]);
                } else {
                    assert(olds.remove(i as int)[j - 1] == olds[j]);
                }
            }
            assert forall|p: int, q: int| 0 <= p < q < news.len()
                implies news[p].id@ != news[q].id@ by {
                assert(news[p].id@ == olds[p].id@ && news[q].id@ == olds[q].id@);
            }
        }
    }

    /// Queue an outbound command for `server`, creating the instance first
    /// when the id is unknown — a producer of commands never needs the
    /// instance to have registered.  `Some(g)` asks the transport to arm one
    /// liveness timer under generation `g` for the instance just created.
    pub fn queue_event(&mut self, server: String, msg: RobloxEvent) -> (r: Option<u64>)
        requires
            old(self).wf(),
        ensures
            final(self).wf(),
            final(self).bus == old(self).bus,
            final(self).running == old(self).running,
            reg_has(final(self).instances@, server@),
            reg_has(old(self).instances@, server@) ==> {
                &&& r is None
                &&& final(self).instances@.len() == old(self).instances@.len()
                &&& queue_of(final(self).instances@, server@)
                    == queue_of(old(self).instances@, server@).push(msg)
                &&& gen_of(final(self).instances@, server@)
                    == gen_of(old(self).instances@, server@)
                &&& forall|j: int| 0 <= j < old(self).instances@.len()
                    ==> final(self).instances@[j].id == old(self).instances@[j].id
                &&& forall|j: int| 0 <= j < old(self).instances@.len()
                    && old(self).instances@[j].id@ != server@
                    ==> final(self).instances@[j] == old(self).instances@[j]
            },
            !reg_has(old(self).instances@, server@) ==> {
                &&& r is Some && r->Some_0 == 0u64
                &&& final(self).instances@.len() == old(self).instances@.len() + 1
                &&& final(self).instances@.take(old(self).instances@.len() as int)
                    == old(self).instances@
                &&& final(self).instances@.last().id == server
                &&& queue_of(final(self).instances@, server@)
                    == Seq::<RobloxEvent>::empty().push(msg)
                &&& gen_of(final(self).instances@, server@) == 0u64
            },
    {
        match self.find_index(&server) {
            Some(i) => {
                proof {
                    lemma_reg_index(old(self).instances@, server@);
                }
                self.push_event(i, msg);
                proof {
                    let news = self.instances@;
                    assert(news[i as int].id@ == server@);
                    assert(reg_has(news, server@));
                    lemma_reg_index(news, server@);
                    assert(reg_index(news, server@) == i as int);
                }
                None
            }
            None => {
                let created = self.create_server(server.clone());
                let found = self.find_index(&server);
                match found {
                    Some(i) => {
                        let ghost mid = self.instances@;
                        proof {
                            lemma_reg_index(mid, server@);
                            assert(i as int == mid.len() - 1);
                        }
                        self.push_event(i, msg);
                        proof {
                            let news = self.instances@;
                            assert(news[i as int].id@ == server@);
                            assert(reg_has(news, server@));
                            lemma_reg_index(news, server@);
                            assert(reg_index(news, server@) == i as int);
                            assert(news.take(old(self).instances@.len() as int)
                                =~= old(self).instances@);
                            assert(queue_of(news, server@)
                                =~= Seq::<RobloxEvent>::empty().push(msg));
                        }
                    }
                    None => {
                        // create_server just registered the id, so the
                        // lookup cannot miss.
                        proof {
                            assert(false);
                        }
                    }
                }
                created
            }
        }
    }

    /// Atomically hand out everything queued for `server` and clear its
    /// queue: the read-and-clear poll.  An unknown id is a lookup failure,
    /// distinct from the auto-create path of `queue_event`.
    pub fn drain(&mut self, server: &String) -> (r: Result<Vec<RobloxEvent>, SvcError>)
        requires
            old(self).wf(),
        ensures
            final(self).wf(),
            final(self).bus == old(self).bus,
            final(self).running == old(self).running,
            r is Err <==> !reg_has(old(self).instances@, server@),
            r is Err ==> r->Err_0 == SvcError::UnknownInstance && *final(self) == *old(self),
            r is Ok ==> drain_transition(
                old(self).instances@,
                final(self).instances@,
                server@,
                r->Ok_0@,
            ),
    {
        match self.find_index(server) {
            None => Err(SvcError::UnknownInstance),
            Some(i) => {
                proof {
                    lemma_reg_index(old(self).instances@, server@);
                }
                let inst = self.instances.remove(i);
                let StudioInstance { id, event_queue, generation } = inst;
                self.instances.insert(i, StudioInstance { id, event_queue: Vec::new(), generation });
                proof {
                    let olds = old(self).instances@;
                    let news = self.instances@;
                    assert forall|j: int| 0 <= j < olds.len() && j != i
                        implies news[j] == olds[j] by {
                        if j < i {
                            assert(olds.remove(i as int)[j] == olds[j]);
                        } else {
                            assert(olds.remove(i as int)[j - 1] == olds[j]);
                        }
                    }
                    assert forall|p: int, q: int| 0 <= p < q < news.len()
                        implies news[p].id@ != news[q].id@ by {
                        assert(news[p].id@ == olds[p].id@ && news[q].id@ == olds[q].id@);
                    }
                    assert(news[i as int].id@ == server@);
                    assert(reg_has(news, server@));
                    lemma_reg_index(news, server@);
                    assert(reg_index(news, server@) == i as int);
                }
                Ok(event_queue)
            }
        }
    }

    /// Liveness check-in: refresh the timer of the named instance.  A missing
    /// parameter and an unknown id are distinct client errors.
    pub fn ping(&mut self, server: Option<String>) -> (r: Result<u64, SvcError>)
        requires
            old(self).wf(),
            server matches Some(s) ==> (reg_has(old(self).instances@, s@)
                ==> gen_of(old(self).instances@, s@) < u64::MAX),
        ensures
            final(self).wf(),
            final(self).bus == old(self).bus,
            final(self).running == old(self).running,
            server is None ==> r is Err && r->Err_0 == SvcError::MissingParameter
                && *final(self) == *old(self),
            server matches Some(s) ==> {
                &&& r is Err <==> !reg_has(old(self).instances@, s@)
                &&& r is Err ==> r->Err_0 == SvcError::UnknownInstance
                    && *final(self) == *old(self)
                &&& r is Ok ==> final(self).instances@ == spec_heartbeat(old(self).instances@, s@)
                    && r->Ok_0 == gen_of(old(self).instances@, s@) + 1
            },
    {
        match server {
            None => Err(SvcError::MissingParameter),
            Some(s) => self.heartbeat(&s),
        }
    }

    /// Explicit registration: ensure the instance exists — arming liveness
    /// when it is created — then announce the start on the bus.  The `Option`
    /// in the result asks the transport to arm a timer as in `create_server`;
    /// a closed bus leaves the registration standing and reports the fault.
    pub fn start_handler(&mut self, msg: StartMessage) -> (r: Result<
        (Option<u64>, PublishOutcome),
        SvcError,
    >)
        requires
            old(self).wf(),
        ensures
            final(self).wf(),
            final(self).running == old(self).running,
            final(self).bus.capacity == old(self).bus.capacity,
            final(self).bus.closed == old(self).bus.closed,
            reg_has(final(self).instances@, msg.server@),
            reg_has(old(self).instances@, msg.server@)
                ==> final(self).instances@ == old(self).instances@
                    && (r is Ok ==> r->Ok_0.0 is None),
            !reg_has(old(self).instances@, msg.server@) ==> {
                &&& final(self).instances@.len() == old(self).instances@.len() + 1
                &&& final(self).instances@.take(old(self).instances@.len() as int)
                    == old(self).instances@
                &&& final(self).instances@.last().id == msg.server
                &&& final(self).instances@.last().event_queue@ == Seq::<RobloxEvent>::empty()
                &&& final(self).instances@.last().generation == 0u64
                &&& r is Ok ==> r->Ok_0.0 == Some(0u64)
            },
            r is Err <==> old(self).bus.closed,
            r is Err ==> r->Err_0 == SvcError::DispatchFailure
                && final(self).bus == old(self).bus,
            r is Ok ==> final(self).bus.contents()
                == old(self).bus.contents().push(Message::Start { server: msg.server }),
            r is Ok ==> (r->Ok_0.1 == PublishOutcome::Delivered
                <==> old(self).bus.queue@.len() < old(self).bus.capacity),
    {
        let created = self.create_server(msg.server.clone());
        let res = self.bus.publish(Message::Start { server: msg.server });
        match res {
            Ok(outcome) => Ok((created, outcome)),
            Err(e) => Err(e),
        }
    }

    /// Explicit stop request: announce the stop on the bus.  The registry is
    /// untouched — a registered instance of that id stays until its own timer
    /// evicts it.
    pub fn stop_handler(&mut self, msg: StopMessage) -> (r: Result<PublishOutcome, SvcError>)
        requires
            old(self).wf(),
        ensures
            final(self).wf(),
            final(self).instances@ == old(self).instances@,
            final(self).running == old(self).running,
            final(self).bus.capacity == old(self).bus.capacity,
            final(self).bus.closed == old(self).bus.closed,
            r is Err <==> old(self).bus.closed,
            r is Err ==> r->Err_0 == SvcError::DispatchFailure && *final(self) == *old(self),
            r is Ok ==> final(self).bus.contents()
                == old(self).bus.contents().push(Message::Stop { server: msg.server }),
            r is Ok ==> (r->Ok_0 == PublishOutcome::Delivered
                <==> old(self).bus.queue@.len() < old(self).bus.capacity),
    {
        self.bus.publish(Message::Stop { server: msg.server })
    }

    /// Telemetry intake: publish the whole batch as one message toward the
    /// consumer.
    pub fn messages_handler(&mut self, messages: Vec<RobloxMessage>) -> (r: Result<
        PublishOutcome,
        SvcError,
    >)
        requires
            old(self).wf(),
        ensures
            final(self).wf(),
            final(self).instances@ == old(self).instances@,
            final(self).running == old(self).running,
            final(self).bus.capacity == old(self).bus.capacity,
            final(self).bus.closed == old(self).bus.closed,
            r is Err <==> old(self).bus.closed,
            r is Err ==> r->Err_0 == SvcError::DispatchFailure && *final(self) == *old(self),
            r is Ok ==> final(self).bus.contents()
                == old(self).bus.contents().push(Message::Messages(messages)),
            r is Ok ==> (r->Ok_0 == PublishOutcome::Delivered
                <==> old(self).bus.queue@.len() < old(self).bus.capacity),
    {
        self.bus.publish(Message::Messages(messages))
    }

    /// Poll for outbound commands: the read-and-clear drain behind the
    /// events endpoint.  A missing parameter and an unknown id are distinct
    /// client errors.
    pub fn events_handler(&mut self, server: Option<String>) -> (r: Result<
        Vec<RobloxEvent>,
        SvcError,
    >)
        requires
            old(self).wf(),
        ensures
            final(self).wf(),
            final(self).bus == old(self).bus,
            final(self).running == old(self).running,
            server is None ==> r is Err && r->Err_0 == SvcError::MissingParameter
                && *final(self) == *old(self),
            server matches Some(s) ==> {
                &&& r is Err <==> !reg_has(old(self).instances@, s@)
                &&& r is Err ==> r->Err_0 == SvcError::UnknownInstance
                    && *final(self) == *old(self)
                &&& r is Ok ==> r->Ok_0@ == queue_of(old(self).instances@, s@)
                    && reg_has(final(self).instances@, s@)
                    && queue_of(final(self).instances@, s@) == Seq::<RobloxEvent>::empty()
                    && gen_of(final(self).instances@, s@) == gen_of(old(self).instances@, s@)
                    && final(self).instances@.len() == old(self).instances@.len()
            },
    {
        match server {
            None => Err(SvcError::MissingParameter),
            Some(s) => self.drain(&s),
        }
    }

    /// The status endpoint's answer: the service reports itself running.
    pub fn status_handler(&self) -> (r: StatusMessage)
        ensures
            r == (StatusMessage { run: true }),
    {
        StatusMessage { run: true }
    }

    /// Take the oldest inbound message in flight, if any: the consumer's
    /// poll.  The transport layer blocks or times out around it; an empty
    /// answer is the normal timeout outcome, not an error.
    pub fn recv(&mut self) -> (r: Option<Message>)
        requires
            old(self).wf(),
        ensures
            final(self).wf(),
            final(self).instances@ == old(self).instances@,
            final(self).running == old(self).running,
            final(self).bus.capacity == old(self).bus.capacity,
            final(self).bus.closed == old(self).bus.closed,
            old(self).bus.contents().len() == 0 ==> r is None && *final(self) == *old(self),
            old(self).bus.contents().len() > 0 ==> r is Some
                && r->Some_0 == old(self).bus.contents()[0]
                && final(self).bus.contents() == old(self).bus.contents().drop_first(),
    {
        self.bus.recv()
    }

    /// Record a graceful-shutdown request: new inbound work is to be
    /// rejected by the transport; registry and bus are not force-drained.
    pub fn stop(&mut self)
        requires
            old(self).wf(),
        ensures
            final(self).wf(),
            !final(self).running,
            final(self).instances@ == old(self).instances@,
            final(self).bus == old(self).bus,
    {
        self.running = false;
    }

    /// Record that the consumer side is gone: every later publish fails with
    /// `DispatchFailure` instead of aborting anything.
    pub fn close_bus(&mut self)
        requires
            old(self).wf(),
        ensures
            final(self).wf(),
            final(self).instances@ == old(self).instances@,
            final(self).running == old(self).running,
            final(self).bus == (MessageBus { closed: true, ..old(self).bus }),
    {
        self.bus.close();
    }
}

/// A heartbeat changes exactly one thing: the named instance's generation,
/// bumped by one.  Registration, uniqueness, every queue and every other
/// instance are untouched.
pub proof fn lemma_spec_heartbeat(insts: Seq<StudioInstance>, id: Seq<char>)
    requires
        reg_unique(insts),
        reg_has(insts, id),
        gen_of(insts, id) < u64::MAX,
    ensures
        reg_unique(spec_heartbeat(insts, id)),
        reg_has(spec_heartbeat(insts, id), id),
        spec_heartbeat(insts, id).len() == insts.len(),
        gen_of(spec_heartbeat(insts, id), id) == gen_of(insts, id) + 1,
        queue_of(spec_heartbeat(insts, id), id) == queue_of(insts, id),
        forall|j: int| 0 <= j < insts.len() && insts[j].id@ != id
            ==> spec_heartbeat(insts, id)[j] == insts[j],
{
    lemma_reg_index(insts, id);
    let k = reg_index(insts, id);
    let s2 = spec_heartbeat(insts, id);
    assert(s2[k].id@ == id);
    assert(reg_has(s2, id));
    assert forall|p: int, q: int| 0 <= p < q < s2.len()
        implies s2[p].id@ != s2[q].id@ by {
        assert(s2[p].id@ == insts[p].id@ && s2[q].id@ == insts[q].id@);
    }
    lemma_reg_index(s2, id);
    assert(reg_index(s2, id) == k);
}

/// Law: a heartbeat extends liveness past every timer armed before it.  Any
/// such timer carries a generation no larger than the pre-heartbeat one,
/// while the heartbeat leaves the instance registered under a strictly
/// larger generation — so that timer firing evicts nothing, and the
/// instance is still present afterwards.  Applied to each heartbeat in
/// turn, beats within the window keep the instance live indefinitely.
pub proof fn lemma_heartbeat_extends_liveness(
    insts: Seq<StudioInstance>,
    id: Seq<char>,
    stale: u64,
)
    requires
        reg_unique(insts),
        reg_has(insts, id),
        gen_of(insts, id) < u64::MAX,
        stale <= gen_of(insts, id),
    ensures
        reg_has(spec_heartbeat(insts, id), id),
        spec_timer_fire(spec_heartbeat(insts, id), id, stale) == spec_heartbeat(insts, id),
        reg_has(spec_timer_fire(spec_heartbeat(insts, id), id, stale), id),
{
    lemma_spec_heartbeat(insts, id);
}

/// The registry after `n` consecutive heartbeats for `id`.
pub open spec fn spec_heartbeats(
    insts: Seq<StudioInstance>,
    id: Seq<char>,
    n: nat,
) -> Seq<StudioInstance>
    decreases n,
{
    if n == 0 {
        insts
    } else {
        spec_heartbeat(spec_heartbeats(insts, id, (n - 1) as nat), id)
    }
}

/// Law: any number of heartbeats keeps the instance registered with its
/// queue intact — liveness is extended indefinitely, one generation per
/// beat.
pub proof fn lemma_repeated_heartbeats_keep_live(
    insts: Seq<StudioInstance>,
    id: Seq<char>,
    n: nat,
)
    requires
        reg_unique(insts),
        reg_has(insts, id),
        gen_of(insts, id) + n <= u64::MAX,
    ensures
        reg_unique(spec_heartbeats(insts, id, n)),
        reg_has(spec_heartbeats(insts, id, n), id),
        gen_of(spec_heartbeats(insts, id, n), id) == gen_of(insts, id) + n,
        queue_of(spec_heartbeats(insts, id, n), id) == queue_of(insts, id),
    decreases n,
{
    if n > 0 {
        lemma_repeated_heartbeats_keep_live(insts, id, (n - 1) as nat);
        lemma_spec_heartbeat(spec_heartbeats(insts, id, (n - 1) as nat), id);
    }
}

/// The queue after the enqueued events in `msgs` land one at a time, in the
/// order in which the calls completed.
pub open spec fn queue_after_enqueues(
    q: Seq<RobloxEvent>,
    msgs: Seq<RobloxEvent>,
) -> Seq<RobloxEvent>
    decreases msgs.len(),
{
    if msgs.len() == 0 {
        q
    } else {
        queue_after_enqueues(q.push(msgs[0]), msgs.drop_first())
    }
}

/// Law: drain is read-and-clear.  The first drain hands out exactly what was
/// queued and leaves the queue empty, so a second drain with no intervening
/// enqueue hands out the empty sequence.
pub proof fn lemma_drain_read_and_clear(
    s1: Seq<StudioInstance>,
    s2: Seq<StudioInstance>,
    s3: Seq<StudioInstance>,
    id: Seq<char>,
    out1: Seq<RobloxEvent>,
    out2: Seq<RobloxEvent>,
)
    requires
        drain_transition(s1, s2, id, out1),
        drain_transition(s2, s3, id, out2),
    ensures
        out1 == queue_of(s1, id),
        out2 == Seq::<RobloxEvent>::empty(),
{
}

/// Law: however concurrent enqueues for one id serialize, each is reflected
/// exactly once in the queue a later drain returns — no loss and no
/// duplication.  The queue ends as the old contents followed by the events
/// in completion order, and counting with multiplicity each event occurs
/// exactly as often as it was enqueued.
pub proof fn lemma_enqueues_all_reflected(q: Seq<RobloxEvent>, msgs: Seq<RobloxEvent>)
    ensures
        queue_after_enqueues(q, msgs) == q + msgs,
        queue_after_enqueues(q, msgs).to_multiset()
            == q.to_multiset().add(msgs.to_multiset()),
        queue_after_enqueues(q, msgs).len() == q.len() + msgs.len(),
    decreases msgs.len(),
{
    if msgs.len() == 0 {
        assert(queue_after_enqueues(q, msgs) =~= q + msgs);
    } else {
        lemma_enqueues_all_reflected(q.push(msgs[0]), msgs.drop_first());
        assert(q.push(msgs[0]) + msgs.drop_first() =~= q + msgs);
    }
    vstd::seq_lib::lemma_multiset_commutative(q, msgs);
}

} // verus!

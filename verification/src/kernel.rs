//! The kernel: the owner of a fleet of shards.
//!
//! A kernel is built from the outcome of discovery, holds the shards until
//! they are started, hands each to a worker of its own, and closes the fleet
//! down when the process is interrupted.

use crate::gateway::{open_shard, send_close, share};
use crate::shard::{fleet_ids, is_fleet, ShardId};
use crate::signal::{ShutdownSignal, SignalObserver};
use std::sync::Arc;
use tokio::task::{JoinError, JoinHandle};
use twilight_gateway::{Config, Intents, MessageSender, Shard};
use twilight_http::Client;
use vstd::prelude::*;

verus! {

/// What the control plane answered when asked how many shards to run.
#[derive(Clone, Copy, Debug, PartialEq, Eq, Structural)]
pub enum Discovery {
    /// The recommended number of shards.
    Recommended { shards: u32 },
    /// The control plane refused the credentials or could not be reached.
    Failed,
}

/// What became of waiting for the process to be interrupted.
#[derive(Clone, Copy, Debug, PartialEq, Eq, Structural)]
pub enum Interrupt {
    /// The interrupt arrived.
    Observed,
    /// The process could not subscribe to the interrupt.
    SubscriptionFailed,
}

/// The ways in which the kernel fails.
#[derive(Clone, Copy, Debug, PartialEq, Eq, Structural)]
pub enum KernelError {
    /// Discovery failed: no kernel.
    Setup,
    /// The cache could not be reached: no kernel.
    CacheSetup,
    /// The process could not subscribe to the interrupt.
    InterruptSubscription,
    /// The worker of this shard did not finish cleanly.
    WorkerJoin { shard: ShardId },
}

/// A shard that has not been started.
pub struct Connection {
    pub id: ShardId,
    pub shard: Shard,
}

/// The means to ask a started shard to close.
pub struct ControlHandle {
    pub id: ShardId,
    pub sender: MessageSender,
}

/// The means to wait for a shard's worker to finish.
pub struct WorkerHandle {
    pub id: ShardId,
    pub task: JoinHandle<()>,
}

/// The record of one close request.
#[derive(Clone, Copy, Debug, PartialEq, Eq, Structural)]
pub struct CloseReceipt {
    pub shard: ShardId,
    /// Whether the shard took the request. A shard that is gone takes none;
    /// that is no error.
    pub accepted: bool,
}

/// What a shutdown leaves for its caller to do: the workers to wait for.
pub struct Shutdown {
    pub closes: Vec<CloseReceipt>,
    pub workers: Vec<WorkerHandle>,
}

/// A worker that has been waited for.
pub struct Joined {
    pub shard: ShardId,
    pub outcome: Result<(), JoinError>,
}

/// Everything a worker is given when it is spawned.
pub struct WorkerContext<C> {
    pub id: ShardId,
    pub shard: Shard,
    pub cache: C,
    pub http: Arc<Client>,
    pub shutdown: SignalObserver,
}

/// The fleet as the kernel sees it: which shards wait to be started, which
/// have a control handle and a worker, and whether shutdown has begun.
pub struct KernelView {
    pub shards: Seq<ShardId>,
    pub senders: Seq<ShardId>,
    pub tasks: Seq<ShardId>,
    pub shutdown: bool,
}

impl KernelView {
    /// A kernel straight after discovery recommended `total` shards.
    pub open spec fn fresh(total: u32) -> KernelView {
        KernelView {
            shards: fleet_ids(total),
            senders: Seq::empty(),
            tasks: Seq::empty(),
            shutdown: false,
        }
    }

    /// The kernel after its waiting shards were started.
    pub open spec fn started(self) -> KernelView {
        KernelView {
            shards: Seq::empty(),
            senders: self.senders + self.shards,
            tasks: self.tasks + self.shards,
            shutdown: self.shutdown,
        }
    }

    /// The shards that are asked to close when the kernel learns of
    /// `interrupt`, in the order in which they are asked.
    pub open spec fn close_requests(self, interrupt: Interrupt) -> Seq<ShardId> {
        match interrupt {
            Interrupt::Observed => self.senders,
            Interrupt::SubscriptionFailed => Seq::empty(),
        }
    }

    /// The kernel after it learned of `interrupt`.
    pub open spec fn closed(self, interrupt: Interrupt) -> KernelView {
        match interrupt {
            Interrupt::Observed => KernelView {
                shards: self.shards,
                senders: Seq::empty(),
                tasks: Seq::empty(),
                shutdown: true,
            },
            Interrupt::SubscriptionFailed => self,
        }
    }

    /// The shards that wait and the shards that run each form a whole fleet
    /// or are none at all; every running shard has both a control handle and a
    /// worker; and no fleet waits while another runs.
    pub open spec fn wf(self) -> bool {
        &&& is_fleet(self.shards)
        &&& is_fleet(self.senders)
        &&& self.tasks == self.senders
        &&& (self.shards.len() == 0 || self.senders.len() == 0)
    }
}

/// The identifiers of a list of waiting shards.
pub open spec fn connection_ids(connections: Seq<Connection>) -> Seq<ShardId> {
    Seq::new(connections.len(), |i: int| connections[i].id)
}

/// The identifiers of a list of control handles.
pub open spec fn control_ids(handles: Seq<ControlHandle>) -> Seq<ShardId> {
    Seq::new(handles.len(), |i: int| handles[i].id)
}

/// The identifiers of a list of worker handles.
pub open spec fn worker_ids(handles: Seq<WorkerHandle>) -> Seq<ShardId> {
    Seq::new(handles.len(), |i: int| handles[i].id)
}

/// The shards that a list of close receipts speaks of.
pub open spec fn receipt_ids(receipts: Seq<CloseReceipt>) -> Seq<ShardId> {
    Seq::new(receipts.len(), |i: int| receipts[i].shard)
}

/// The first worker of `joined` that did not finish cleanly, if there is one.
pub open spec fn first_failure(joined: Seq<Joined>) -> Option<ShardId>
    decreases joined.len(),
{
    if joined.len() == 0 {
        None
    } else if joined.first().outcome is Err {
        Some(joined.first().shard)
    } else {
        first_failure(joined.drop_first())
    }
}

/// Whether `handle` is what `spawn` returned for the worker of `connection`:
/// a worker that was given that very shard, the kernel's client, a clone of
/// the kernel's cache handle and a reader of the shutdown signal that has
/// seen what the signal held.
pub open spec fn spawned_for<C: Clone, F: Fn(WorkerContext<C>) -> JoinHandle<()>>(
    spawn: F,
    connection: Connection,
    http: Arc<Client>,
    cache: C,
    shutdown: bool,
    handle: WorkerHandle,
) -> bool {
    &&& handle.id == connection.id
    &&& exists|context: WorkerContext<C>|
        {
            &&& context.id == connection.id
            &&& context.shard == connection.shard
            &&& context.http == http
            &&& cloned(cache, context.cache)
            &&& context.shutdown.has_seen() == shutdown
            &&& call_ensures(spawn, (context,), handle.task)
        }
}

/// The owner of a fleet of shards and of what the shards share.
pub struct Kernel<C = ()> {
    token: String,
    intents: Intents,
    shutdown: ShutdownSignal,
    http: Arc<Client>,
    senders: Vec<ControlHandle>,
    tasks: Vec<WorkerHandle>,
    shards: Vec<Connection>,
    cache: C,
}

impl<C> View for Kernel<C> {
    type V = KernelView;

    closed spec fn view(&self) -> KernelView {
        KernelView {
            shards: connection_ids(self.shards@),
            senders: control_ids(self.senders@),
            tasks: worker_ids(self.tasks@),
            shutdown: self.shutdown.is_raised(),
        }
    }
}

impl<C> Kernel<C> {
    /// The token that the fleet logs in with.
    pub closed spec fn token(&self) -> Seq<char> {
        self.token@
    }

    /// The event categories that the fleet subscribes to.
    pub closed spec fn intents(&self) -> Intents {
        self.intents
    }

    /// The control-plane client that the workers share.
    pub closed spec fn http(&self) -> Arc<Client> {
        self.http
    }

    /// The cache handle that the workers share.
    pub closed spec fn cache(&self) -> C {
        self.cache
    }

    /// The shards that wait to be started.
    pub closed spec fn waiting(&self) -> Seq<Connection> {
        self.shards@
    }

    /// The control handles of the started shards.
    pub closed spec fn controls(&self) -> Seq<ControlHandle> {
        self.senders@
    }

    /// The worker handles of the started shards.
    pub closed spec fn workers(&self) -> Seq<WorkerHandle> {
        self.tasks@
    }

    /// The kernel's view is well formed.
    pub open spec fn wf(&self) -> bool {
        self@.wf()
    }

    /// The view names the shards of the kernel's lists, item by item.
    pub proof fn lemma_view_names_lists(&self)
        ensures
            self@.shards == connection_ids(self.waiting()),
            self@.senders == control_ids(self.controls()),
            self@.tasks == worker_ids(self.workers()),
    {
    }

    /// Builds the kernel from what discovery and the cache connection
    /// yielded.
    ///
    /// A failed discovery is a setup error, whatever became of the cache. With
    /// a recommendation and no cache, the cache setup failed. With both, the
    /// kernel holds one unstarted shard for each recommended shard, numbered
    /// from 0, all sharing the gateway configuration `config`; nothing is
    /// started and the shutdown signal is lowered.
    pub fn new(
        token: String,
        intents: Intents,
        http: Arc<Client>,
        config: Config,
        discovery: Discovery,
        cache: Option<C>,
    ) -> (kernel: Result<Kernel<C>, KernelError>)
        ensures
            discovery is Failed ==> (kernel matches Err(e) && e == KernelError::Setup),
            discovery is Recommended && cache is None ==> (kernel matches Err(e) && e
                == KernelError::CacheSetup),
            discovery is Recommended && cache is Some ==> (kernel matches Ok(k) && k.wf() && k@
                == KernelView::fresh(discovery->shards) && k.token() == token@ && k.intents()
                == intents && k.http() == http && k.cache() == cache->Some_0),
    {
        let total = match discovery {
            Discovery::Recommended { shards } => shards,
            Discovery::Failed => {
                return Err(KernelError::Setup);
            },
        };
        let cache = match cache {
            Some(cache) => cache,
            None => {
                return Err(KernelError::CacheSetup);
            },
        };
        let mut shards: Vec<Connection> = Vec::new();
        let mut number: u32 = 0;
        while number < total
            invariant
                number <= total,
                shards@.len() == number,
                forall|i: int|
                    0 <= i < number ==> (#[trigger] shards@[i]).id == (ShardId {
                        number: i as u32,
                        total,
                    }),
            decreases total - number,
        {
            let id = ShardId { number, total };
            let shard = open_shard(id, &config);
            shards.push(Connection { id, shard });
            number = number + 1;
        }
        assert(connection_ids(shards@) =~= fleet_ids(total));
        let kernel = Kernel {
            token,
            intents,
            shutdown: ShutdownSignal::new(),
            http,
            senders: Vec::new(),
            tasks: Vec::new(),
            shards,
            cache,
        };
        assert(control_ids(kernel.senders@) =~= Seq::empty());
        assert(worker_ids(kernel.tasks@) =~= Seq::empty());
        assert(Seq::<ShardId>::empty() =~= fleet_ids(0));
        Ok(kernel)
    }

    /// Starts every waiting shard.
    ///
    /// Each shard, in order, gets a control handle, which the kernel keeps,
    /// and is handed to `spawn` together with a clone of the cache handle, the
    /// control-plane client and a reader of the shutdown signal. The worker
    /// handle that `spawn` returns is kept too. Afterwards no shard waits, so
    /// a second call starts nothing.
    pub fn run<F>(&mut self, spawn: F) where C: Clone, F: Fn(WorkerContext<C>) -> JoinHandle<()>
        requires
            old(self).wf(),
            forall|context: WorkerContext<C>|
                context.id.wf() ==> #[trigger] call_requires(spawn, (context,)),
        ensures
            final(self).wf(),
            final(self)@ == old(self)@.started(),
            final(self).workers().len() == old(self).workers().len() + old(self).waiting().len(),
            forall|i: int|
                0 <= i < old(self).workers().len() ==> final(self).workers()[i] == old(
                    self,
                ).workers()[i],
            forall|i: int|
                0 <= i < old(self).waiting().len() ==> spawned_for(
                    spawn,
                    #[trigger] old(self).waiting()[i],
                    old(self).http(),
                    old(self).cache(),
                    old(self)@.shutdown,
                    final(self).workers()[old(self).workers().len() + i],
                ),
            final(self).token() == old(self).token(),
            final(self).intents() == old(self).intents(),
            final(self).http() == old(self).http(),
            final(self).cache() == old(self).cache(),
    {
        let ghost before = self@;
        let mut waiting: Vec<Connection> = Vec::new();
        std::mem::swap(&mut self.shards, &mut waiting);
        let ghost queue = waiting@;
        let ghost ids = connection_ids(queue);
        let mut started: usize = 0;
        for connection in iter: waiting
            invariant
                started == iter.index(),
                iter.seq() == queue,
                queue.len() <= usize::MAX,
                ids == connection_ids(queue),
                forall|context: WorkerContext<C>|
                    context.id.wf() ==> #[trigger] call_requires(spawn, (context,)),
                is_fleet(ids),
                self.shards@.len() == 0,
                self.token() == old(self).token(),
                self.intents() == old(self).intents(),
                self.http() == old(self).http(),
                self.cache() == old(self).cache(),
                self.shutdown.is_raised() == before.shutdown,
                control_ids(self.senders@) == before.senders + ids.take(started as int),
                worker_ids(self.tasks@) == before.tasks + ids.take(started as int),
                self.tasks@.len() == old(self).tasks@.len() + started,
                forall|i: int|
                    0 <= i < old(self).tasks@.len() ==> self.tasks@[i] == old(self).tasks@[i],
                forall|i: int|
                    0 <= i < started ==> spawned_for(
                        spawn,
                        #[trigger] queue[i],
                        old(self).http(),
                        old(self).cache(),
                        before.shutdown,
                        self.tasks@[old(self).tasks@.len() + i],
                    ),
        {
            let ghost senders_before = self.senders@;
            let ghost tasks_before = self.tasks@;
            let Connection { id, shard } = connection;
            let sender = shard.sender();
            self.senders.push(ControlHandle { id, sender });
            assert(control_ids(self.senders@) =~= control_ids(senders_before).push(id));
            let context = WorkerContext {
                id,
                shard,
                cache: self.cache.clone(),
                http: share(&self.http),
                shutdown: self.shutdown.observer(),
            };
            let ghost handed = context;
            assert(id == fleet_ids(ids.len() as u32)[started as int]);
            let task = spawn(context);
            self.tasks.push(WorkerHandle { id, task });
            assert(handed.shutdown.has_seen() == before.shutdown);
            assert(worker_ids(self.tasks@) =~= worker_ids(tasks_before).push(id));
            started = started + 1;
        }
        assert(ids.take(started as int) =~= ids);
        assert(Seq::<ShardId>::empty() =~= fleet_ids(0));
        assert(self@.shards =~= Seq::empty());
    }

    /// The identifiers of the shards that wait to be started, in order.
    pub fn waiting_ids(&self) -> (ids: Vec<ShardId>)
        ensures
            ids@ == self@.shards,
    {
        let mut ids: Vec<ShardId> = Vec::new();
        let mut at: usize = 0;
        while at < self.shards.len()
            invariant
                at <= self.shards@.len(),
                ids@ == connection_ids(self.shards@).take(at as int),
            decreases self.shards@.len() - at,
        {
            ids.push(self.shards[at].id);
            at = at + 1;
        }
        ids
    }

    /// The identifiers of the started shards, in the order in which they
    /// were started.
    pub fn running_ids(&self) -> (ids: Vec<ShardId>)
        ensures
            ids@ == self@.senders,
    {
        let mut ids: Vec<ShardId> = Vec::new();
        let mut at: usize = 0;
        while at < self.senders.len()
            invariant
                at <= self.senders@.len(),
                ids@ == control_ids(self.senders@).take(at as int),
            decreases self.senders@.len() - at,
        {
            ids.push(self.senders[at].id);
            at = at + 1;
        }
        ids
    }

    /// The number of workers that the kernel holds a handle on.
    pub fn worker_count(&self) -> (count: usize)
        ensures
            count == self@.tasks.len(),
    {
        self.tasks.len()
    }

    /// Whether shutdown has begun.
    pub fn shutdown_requested(&self) -> (requested: bool)
        ensures
            requested == self@.shutdown,
    {
        self.shutdown.raised()
    }

    /// A new reader of the kernel's shutdown signal.
    pub fn observer(&self) -> (observer: SignalObserver)
        ensures
            observer.has_seen() == self@.shutdown,
    {
        self.shutdown.observer()
    }

    /// The control-plane client.
    pub fn http_handle(&self) -> (http: Arc<Client>)
        ensures
            http == self.http(),
    {
        share(&self.http)
    }

    /// The cache handle.
    pub fn cache_handle(&self) -> (cache: &C)
        ensures
            *cache == self.cache(),
    {
        &self.cache
    }

    /// Closes the fleet down once the process is interrupted.
    ///
    /// Where the process could not subscribe to the interrupt, nothing is
    /// touched and the failure is returned. Otherwise the shutdown signal is
    /// raised first, then every started shard is asked once to close, in the
    /// order in which the shards were started. A shard that is already gone
    /// refuses the request, which is recorded and is no error. The kernel
    /// gives up its control handles and hands over its worker handles for the
    /// caller to wait on, so that a second call asks no shard again.
    pub fn handle_close(&mut self, interrupt: Interrupt) -> (outcome: Result<Shutdown, KernelError>)
        requires
            old(self).wf(),
        ensures
            final(self).wf(),
            final(self)@ == old(self)@.closed(interrupt),
            final(self).token() == old(self).token(),
            final(self).intents() == old(self).intents(),
            final(self).http() == old(self).http(),
            final(self).cache() == old(self).cache(),
            final(self).waiting() == old(self).waiting(),
            interrupt is SubscriptionFailed ==> (outcome matches Err(e) && e
                == KernelError::InterruptSubscription && final(self).controls() == old(
                self,
            ).controls() && final(self).workers() == old(self).workers()),
            interrupt is Observed ==> (outcome matches Ok(shutdown) && receipt_ids(
                shutdown.closes@,
            ) == old(self)@.close_requests(interrupt) && shutdown.workers@ == old(
                self,
            ).workers()),
    {
        match interrupt {
            Interrupt::SubscriptionFailed => {
                return Err(KernelError::InterruptSubscription);
            },
            Interrupt::Observed => {},
        }
        self.shutdown.raise();
        let mut senders: Vec<ControlHandle> = Vec::new();
        std::mem::swap(&mut self.senders, &mut senders);
        let mut workers: Vec<WorkerHandle> = Vec::new();
        std::mem::swap(&mut self.tasks, &mut workers);
        let mut closes: Vec<CloseReceipt> = Vec::new();
        let mut asked: usize = 0;
        while asked < senders.len()
            invariant
                asked <= senders@.len(),
                receipt_ids(closes@) == control_ids(senders@).take(asked as int),
            decreases senders@.len() - asked,
        {
            let handle = &senders[asked];
            let accepted = send_close(&handle.sender);
            closes.push(CloseReceipt { shard: handle.id, accepted });
            assert(control_ids(senders@).take(asked + 1) =~= control_ids(senders@).take(
                asked as int,
            ).push(handle.id));
            asked = asked + 1;
        }
        assert(Seq::<ShardId>::empty() =~= fleet_ids(0));
        assert(control_ids(self.senders@) =~= Seq::empty());
        assert(worker_ids(self.tasks@) =~= Seq::empty());
        Ok(Shutdown { closes, workers })
    }
}

/// Starting a fresh kernel gives every discovered shard one control handle and
/// one worker, in the order of the shards, and leaves no shard waiting.
pub proof fn lemma_start_covers_fleet(total: u32)
    ensures
        KernelView::fresh(total).wf(),
        KernelView::fresh(total).started().wf(),
        KernelView::fresh(total).started().shards.len() == 0,
        KernelView::fresh(total).started().senders == fleet_ids(total),
        KernelView::fresh(total).started().tasks == fleet_ids(total),
        KernelView::fresh(total).started().senders.len() == total,
        KernelView::fresh(total).started().tasks.len() == total,
{
    assert(Seq::<ShardId>::empty() =~= fleet_ids(0));
}

/// Starting twice is starting once: the second start finds no shard waiting.
pub proof fn lemma_start_is_spent(kernel: KernelView)
    requires
        kernel.wf(),
    ensures
        kernel.started().wf(),
        kernel.started().started() == kernel.started(),
{
    assert(Seq::<ShardId>::empty() =~= fleet_ids(0));
}

/// A shutdown asks every started shard to close exactly once: each started
/// shard is among the requests, and no shard is asked twice.
pub proof fn lemma_close_asks_each_shard_once(kernel: KernelView)
    requires
        kernel.wf(),
    ensures
        kernel.close_requests(Interrupt::Observed) == kernel.senders,
        forall|i: int, j: int|
            0 <= i < j < kernel.senders.len() ==> kernel.close_requests(Interrupt::Observed)[i]
                != kernel.close_requests(Interrupt::Observed)[j],
{
}

/// After a shutdown no shard is asked to close again, whatever follows: a
/// second shutdown makes no request and changes nothing.
pub proof fn lemma_second_close_asks_nothing(kernel: KernelView, again: Interrupt)
    requires
        kernel.wf(),
    ensures
        kernel.closed(Interrupt::Observed).wf(),
        kernel.closed(Interrupt::Observed).close_requests(again).len() == 0,
        kernel.closed(Interrupt::Observed).closed(again) == kernel.closed(Interrupt::Observed),
{
    assert(Seq::<ShardId>::empty() =~= fleet_ids(0));
}

/// Nothing the kernel does lowers the shutdown signal: once shutdown has
/// begun, it has begun after every start and every further shutdown.
pub proof fn lemma_shutdown_is_kept(kernel: KernelView, interrupt: Interrupt)
    requires
        kernel.shutdown,
    ensures
        kernel.started().shutdown,
        kernel.closed(interrupt).shutdown,
{
}

/// Tells whether every worker that was waited for finished cleanly, and names
/// the first that did not.
pub fn confirm(joined: &Vec<Joined>) -> (outcome: Result<(), KernelError>)
    ensures
        outcome == match first_failure(joined@) {
            None => Ok::<(), KernelError>(()),
            Some(shard) => Err(KernelError::WorkerJoin { shard }),
        },
{
    let mut at: usize = 0;
    assert(joined@.skip(0) =~= joined@);
    while at < joined.len()
        invariant
            at <= joined@.len(),
            first_failure(joined@) == first_failure(joined@.skip(at as int)),
        decreases joined@.len() - at,
    {
        if joined[at].outcome.is_err() {
            let shard = joined[at].shard;
            return Err(KernelError::WorkerJoin { shard });
        }
        assert(joined@.skip(at as int).drop_first() =~= joined@.skip(at + 1));
        at = at + 1;
    }
    Ok(())
}

} // verus!

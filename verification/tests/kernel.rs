use kernel::kernel::{
    confirm, CloseReceipt, Discovery, Interrupt, Joined, Kernel, KernelError, WorkerContext,
};
use kernel::shard::ShardId;
use std::sync::Arc;
use tokio::runtime::{Builder, Runtime};
use twilight_gateway::{Config, Intents};
use twilight_http::Client;

fn runtime() -> Runtime {
    Builder::new_current_thread().build().unwrap()
}

fn client(token: &str) -> Arc<Client> {
    Arc::new(Client::new(token.to_string()))
}

fn config(rt: &Runtime, token: &str) -> Config {
    let _guard = rt.enter();
    Config::new(token.to_string(), Intents::empty())
}

fn fleet(rt: &Runtime, total: u32) -> Kernel<u32> {
    let built = Kernel::new(
        "test_token".to_string(),
        Intents::empty(),
        client("test_token"),
        config(rt, "test_token"),
        Discovery::Recommended { shards: total },
        Some(7u32),
    );
    match built {
        Ok(kernel) => kernel,
        Err(error) => panic!("no kernel: {:?}", error),
    }
}

fn ids(total: u32) -> Vec<ShardId> {
    (0..total).map(|number| ShardId { number, total }).collect()
}

#[test]
fn it_works() {
    assert_eq!(2 + 2, 4);
}

#[test]
fn test_kernel_creation() {
    let token = "test_token".to_string();
    let intents = Intents::empty();

    let result: Result<Kernel<String>, KernelError> = Kernel::new(
        token,
        intents,
        client("test_token"),
        config(&runtime(), "test_token"),
        Discovery::Failed,
        Some("redis://localhost".to_string()),
    );
    assert!(result.is_err());
}

#[test]
fn test_kernel_struct_fields() {
    let kernel = std::mem::size_of::<Kernel>();
    assert!(kernel > 0, "Kernel debería tener un tamaño mayor a 0");
}

#[test]
fn test_handle_close_compilation() {
    let token = "dummy_test".to_string();
    let intents = Intents::empty();

    let kernel_result: Result<Kernel<String>, KernelError> = Kernel::new(
        token,
        intents,
        client("dummy_test"),
        config(&runtime(), "dummy_test"),
        Discovery::Failed,
        Some("redis://localhost".to_string()),
    );
    if let Ok(mut kernel) = kernel_result {
        let _ = kernel.handle_close(Interrupt::Observed);
    }

    assert!(true, "Test de compilación pasado");
}

#[test]
fn test_default_generic_type() {
    let _kernel: Kernel;
    assert!(true, "Tipo genérico por defecto funciona correctamente");
}

#[test]
fn failed_discovery_is_a_setup_error() {
    let result: Result<Kernel<u32>, KernelError> = Kernel::new(
        "bad".to_string(),
        Intents::empty(),
        client("bad"),
        config(&runtime(), "bad"),
        Discovery::Failed,
        Some(1),
    );
    assert_eq!(result.err(), Some(KernelError::Setup));
}

#[test]
fn failed_discovery_outranks_a_missing_cache() {
    let result: Result<Kernel<u32>, KernelError> = Kernel::new(
        "bad".to_string(),
        Intents::empty(),
        client("bad"),
        config(&runtime(), "bad"),
        Discovery::Failed,
        None,
    );
    assert_eq!(result.err(), Some(KernelError::Setup));
}

#[test]
fn missing_cache_is_a_cache_setup_error() {
    let result: Result<Kernel<u32>, KernelError> = Kernel::new(
        "token".to_string(),
        Intents::empty(),
        client("token"),
        config(&runtime(), "token"),
        Discovery::Recommended { shards: 2 },
        None,
    );
    assert_eq!(result.err(), Some(KernelError::CacheSetup));
}

#[test]
fn new_kernel_holds_the_whole_fleet_unstarted() {
    let rt = runtime();
    let kernel = fleet(&rt, 4);
    assert_eq!(kernel.waiting_ids(), ids(4));
    assert_eq!(kernel.running_ids(), Vec::new());
    assert_eq!(kernel.worker_count(), 0);
    assert!(!kernel.shutdown_requested());
    assert_eq!(*kernel.cache_handle(), 7);
}

#[test]
fn three_shards_start_and_close() {
    let rt = runtime();
    let mut kernel = fleet(&rt, 3);
    kernel.run(|context: WorkerContext<u32>| rt.spawn(async move { drop(context) }));
    assert_eq!(kernel.waiting_ids(), Vec::new());
    assert_eq!(kernel.running_ids(), ids(3));
    assert_eq!(kernel.worker_count(), 3);

    let shutdown = kernel.handle_close(Interrupt::Observed).unwrap();
    assert!(kernel.shutdown_requested());
    let asked: Vec<ShardId> = shutdown.closes.iter().map(|receipt| receipt.shard).collect();
    assert_eq!(asked, ids(3));
    assert_eq!(shutdown.workers.len(), 3);
    assert_eq!(kernel.running_ids(), Vec::new());
    assert_eq!(kernel.worker_count(), 0);

    let mut joined = Vec::new();
    for worker in shutdown.workers {
        let outcome = rt.block_on(worker.task);
        joined.push(Joined { shard: worker.id, outcome });
    }
    assert_eq!(joined.len(), 3);
    assert_eq!(confirm(&joined), Ok(()));
}

#[test]
fn close_reaches_the_shard_of_each_worker() {
    let rt = runtime();
    let mut kernel = fleet(&rt, 2);
    let (hold_tx, hold_rx) = std::sync::mpsc::channel::<WorkerContext<u32>>();
    kernel.run(move |context: WorkerContext<u32>| {
        hold_tx.send(context).unwrap();
        rt.spawn(async {})
    });
    let held: Vec<WorkerContext<u32>> = hold_rx.try_iter().collect();
    assert_eq!(held.len(), 2);
    assert_eq!(held[0].id, ShardId { number: 0, total: 2 });
    assert_eq!(held[1].id, ShardId { number: 1, total: 2 });
    assert_eq!(held[0].shard.id().number(), 0);
    assert_eq!(held[1].shard.id().number(), 1);
    assert_eq!(held[1].shard.id().total(), 2);
    assert_eq!(held[0].cache, 7);

    let shutdown = kernel.handle_close(Interrupt::Observed).unwrap();
    assert_eq!(
        shutdown.closes,
        vec![
            CloseReceipt { shard: ShardId { number: 0, total: 2 }, accepted: true },
            CloseReceipt { shard: ShardId { number: 1, total: 2 }, accepted: true },
        ]
    );
}

#[test]
fn close_of_a_shard_that_is_gone_is_no_error() {
    let rt = runtime();
    let mut kernel = fleet(&rt, 2);
    kernel.run(|context: WorkerContext<u32>| {
        drop(context);
        rt.spawn(async {})
    });
    let shutdown = kernel.handle_close(Interrupt::Observed).unwrap();
    assert_eq!(
        shutdown.closes,
        vec![
            CloseReceipt { shard: ShardId { number: 0, total: 2 }, accepted: false },
            CloseReceipt { shard: ShardId { number: 1, total: 2 }, accepted: false },
        ]
    );
}

#[test]
fn second_shutdown_asks_nothing() {
    let rt = runtime();
    let mut kernel = fleet(&rt, 3);
    kernel.run(|context: WorkerContext<u32>| rt.spawn(async move { drop(context) }));
    let first = kernel.handle_close(Interrupt::Observed).unwrap();
    assert_eq!(first.closes.len(), 3);
    let second = kernel.handle_close(Interrupt::Observed).unwrap();
    assert_eq!(second.closes.len(), 0);
    assert_eq!(second.workers.len(), 0);
    assert!(kernel.shutdown_requested());
}

#[test]
fn second_start_finds_nothing_to_start() {
    let rt = runtime();
    let mut kernel = fleet(&rt, 2);
    kernel.run(|context: WorkerContext<u32>| rt.spawn(async move { drop(context) }));
    kernel.run(|context: WorkerContext<u32>| rt.spawn(async move { drop(context) }));
    assert_eq!(kernel.running_ids(), ids(2));
    assert_eq!(kernel.worker_count(), 2);
    assert_eq!(kernel.waiting_ids(), Vec::new());
}

#[test]
fn empty_fleet_starts_and_closes_at_once() {
    let rt = runtime();
    let mut kernel = fleet(&rt, 0);
    assert_eq!(kernel.waiting_ids(), Vec::new());
    kernel.run(|context: WorkerContext<u32>| rt.spawn(async move { drop(context) }));
    assert_eq!(kernel.running_ids(), Vec::new());
    assert_eq!(kernel.worker_count(), 0);
    let shutdown = kernel.handle_close(Interrupt::Observed).unwrap();
    assert_eq!(shutdown.closes.len(), 0);
    assert_eq!(shutdown.workers.len(), 0);
    assert_eq!(confirm(&Vec::new()), Ok(()));
}

#[test]
fn failed_interrupt_subscription_touches_nothing() {
    let rt = runtime();
    let mut kernel = fleet(&rt, 2);
    kernel.run(|context: WorkerContext<u32>| rt.spawn(async move { drop(context) }));
    let outcome = kernel.handle_close(Interrupt::SubscriptionFailed);
    assert_eq!(outcome.err(), Some(KernelError::InterruptSubscription));
    assert!(!kernel.shutdown_requested());
    assert_eq!(kernel.running_ids(), ids(2));
    assert_eq!(kernel.worker_count(), 2);
}

#[test]
fn workers_started_after_shutdown_see_the_signal() {
    let rt = runtime();
    let mut kernel = fleet(&rt, 1);
    let _ = kernel.handle_close(Interrupt::Observed).unwrap();
    let (seen_tx, seen_rx) = std::sync::mpsc::channel::<bool>();
    kernel.run(move |mut context: WorkerContext<u32>| {
        seen_tx.send(context.shutdown.observe()).unwrap();
        rt.spawn(async {})
    });
    assert_eq!(seen_rx.try_iter().collect::<Vec<bool>>(), vec![true]);
}

#[test]
fn workers_learn_of_a_shutdown_that_follows_their_start() {
    let rt = runtime();
    let mut kernel = fleet(&rt, 2);
    let (hold_tx, hold_rx) = std::sync::mpsc::channel::<WorkerContext<u32>>();
    kernel.run(move |context: WorkerContext<u32>| {
        hold_tx.send(context).unwrap();
        rt.spawn(async {})
    });
    let mut held: Vec<WorkerContext<u32>> = hold_rx.try_iter().collect();
    assert!(!held[0].shutdown.observe());
    assert!(!held[1].shutdown.observe());
    let _ = kernel.handle_close(Interrupt::Observed).unwrap();
    assert!(held[0].shutdown.observe());
    assert!(held[1].shutdown.observe());
    assert!(held[0].shutdown.observe());
}

#[test]
fn failed_worker_is_surfaced() {
    let rt = runtime();
    let failing = rt.spawn(async { panic!("worker failed") });
    let fine = rt.spawn(async {});
    let late = rt.spawn(async { panic!("worker failed") });
    let joined = vec![
        Joined { shard: ShardId { number: 0, total: 3 }, outcome: rt.block_on(fine) },
        Joined { shard: ShardId { number: 1, total: 3 }, outcome: rt.block_on(failing) },
        Joined { shard: ShardId { number: 2, total: 3 }, outcome: rt.block_on(late) },
    ];
    assert_eq!(
        confirm(&joined),
        Err(KernelError::WorkerJoin { shard: ShardId { number: 1, total: 3 } })
    );
}

#[test]
fn kernel_hands_out_its_own_client() {
    let rt = runtime();
    let http = client("test_token");
    let built: Result<Kernel<u32>, KernelError> = Kernel::new(
        "test_token".to_string(),
        Intents::empty(),
        Arc::clone(&http),
        config(&rt, "test_token"),
        Discovery::Recommended { shards: 1 },
        Some(9),
    );
    let mut kernel = built.unwrap();
    assert!(Arc::ptr_eq(&kernel.http_handle(), &http));
    let (hold_tx, hold_rx) = std::sync::mpsc::channel::<WorkerContext<u32>>();
    kernel.run(move |context: WorkerContext<u32>| {
        hold_tx.send(context).unwrap();
        rt.spawn(async {})
    });
    let held: Vec<WorkerContext<u32>> = hold_rx.try_iter().collect();
    assert!(Arc::ptr_eq(&held[0].http, &http));
    assert_eq!(held[0].cache, 9);
}

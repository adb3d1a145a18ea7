//! The gateway client, as far as the kernel touches it.
//!
//! Nothing in this file is proved. It declares the client's types, so that
//! the kernel can hold and pass on values of them, and states what the
//! kernel relies on when it calls into the client.

use crate::shard::ShardId;
use std::sync::Arc;
use twilight_gateway::error::ReceiveMessageError;
use twilight_gateway::queue::InMemoryQueue;
use twilight_gateway::{Config, Event, Intents, MessageSender, Shard};
use vstd::prelude::*;

verus! {

/// The queue through which the shards of one fleet take turns to identify.
#[verifier::external_type_specification]
#[verifier::external_body]
pub struct ExInMemoryQueue(InMemoryQueue);

/// The configuration that the shards of one fleet share.
#[verifier::external_type_specification]
#[verifier::external_body]
#[verifier::reject_recursive_types(Q)]
pub struct ExConfig<Q>(Config<Q>);

/// One shard's connection to the gateway.
#[verifier::external_type_specification]
#[verifier::external_body]
#[verifier::reject_recursive_types(Q)]
pub struct ExShard<Q>(Shard<Q>);

/// The sending end of a shard's control channel.
#[verifier::external_type_specification]
#[verifier::external_body]
pub struct ExMessageSender(MessageSender);

/// The set of event categories that a fleet subscribes to.
#[verifier::external_type_specification]
#[verifier::external_body]
pub struct ExIntents(Intents);

/// An event that a shard delivered.
#[verifier::external_type_specification]
#[verifier::external_body]
pub struct ExEvent(Event);

/// A failure to receive or decode a message from the gateway.
#[verifier::external_type_specification]
#[verifier::external_body]
pub struct ExReceiveMessageError(ReceiveMessageError);

/// The control-plane client.
#[verifier::external_type_specification]
#[verifier::external_body]
pub struct ExClient(twilight_http::Client);

/// The handle on a spawned task.
#[verifier::external_type_specification]
#[verifier::external_body]
#[verifier::reject_recursive_types(T)]
pub struct ExJoinHandle<T>(tokio::task::JoinHandle<T>);

/// What awaiting a failed task yields.
#[verifier::external_type_specification]
#[verifier::external_body]
pub struct ExJoinError(tokio::task::JoinError);

/// `Shard::sender`: a new sending end of the shard's control channel. Nothing
/// is claimed of the result.
pub assume_specification<Q>[ Shard::<Q>::sender ](shard: &Shard<Q>) -> MessageSender;

/// `Shard::with_config` on `ShardId::new(id.number, id.total)` and a clone of
/// `config`: a shard that has not connected yet. `ShardId::new` panics unless
/// the number lies below the total, hence the precondition. Nothing is claimed
/// of the result.
#[verifier::external_body]
pub(crate) fn open_shard(id: ShardId, config: &Config) -> (shard: Shard)
    requires
        id.wf(),
{
    Shard::with_config(twilight_gateway::ShardId::new(id.number, id.total), config.clone())
}

/// `MessageSender::close` with a normal close frame. The result tells whether
/// the request was accepted: the client refuses it only where the shard is
/// gone. Nothing is claimed of the result.
#[verifier::external_body]
pub(crate) fn send_close(sender: &MessageSender) -> (accepted: bool) {
    sender.close(twilight_gateway::CloseFrame::NORMAL).is_ok()
}

/// Tells the event that reports a closed connection, `Event::GatewayClose`,
/// from the others. Nothing is claimed of the result.
#[verifier::external_body]
pub(crate) fn is_gateway_close(event: &Event) -> (close: bool) {
    match event {
        Event::GatewayClose(_) => true,
        _ => false,
    }
}

/// `Arc::clone`: another handle on the same value.
#[verifier::external_body]
pub(crate) fn share<T>(handle: &Arc<T>) -> (shared: Arc<T>)
    ensures
        shared == *handle,
{
    Arc::clone(handle)
}

} // verus!

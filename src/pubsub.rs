use crate::gossip::PublishError;
use libp2p::gossipsub::{self, AllowAllSubscriptionFilter, IdentTopic, IdentityTransform};
use vstd::prelude::*;

verus! {

#[verifier::external_type_specification]
#[verifier::external_body]
#[verifier::reject_recursive_types(D)]
#[verifier::reject_recursive_types(F)]
pub struct ExGossipsubBehaviour<D, F>(gossipsub::Behaviour<D, F>);

#[verifier::external_type_specification]
#[verifier::external_body]
pub struct ExIdentityTransform(gossipsub::IdentityTransform);

#[verifier::external_type_specification]
#[verifier::external_body]
pub struct ExAllowAllSubscriptionFilter(gossipsub::AllowAllSubscriptionFilter);


/// The gossipsub behaviour this library publishes through: identity data
/// transform, and every topic allowed.
pub type Gossipsub = gossipsub::Behaviour<IdentityTransform, AllowAllSubscriptionFilter>;

/// Relies on gossipsub's `Behaviour::publish`: it signs `payload` and queues
/// it for the topic's peers, or refuses it; each of its errors is handed on
/// as the matching `PublishError`. Whether it succeeds depends on the peers
/// connected at the time, so nothing is promised of the outcome.
#[verifier::external_body]
pub(crate) fn gossip_publish(gossip: &mut Gossipsub, topic: &String, payload: Vec<u8>) -> (r: Result<(), PublishError>) {
    match gossip.publish(IdentTopic::new(topic.as_str()), payload) {
        Ok(_) => Ok(()),
        Err(e) => Err(match e {
            gossipsub::PublishError::NoPeersSubscribedToTopic => PublishError::NoSubscribers,
            gossipsub::PublishError::MessageTooLarge => PublishError::PayloadTooLarge,
            gossipsub::PublishError::AllQueuesFull(_) => PublishError::Backpressure,
            gossipsub::PublishError::Duplicate => PublishError::Duplicate,
            gossipsub::PublishError::SigningError(_) => PublishError::SigningFailed,
            gossipsub::PublishError::TransformFailed(_) => PublishError::TransformFailed,
        }),
    }
}

} // verus!

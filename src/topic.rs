use vstd::prelude::*;

verus! {

/// Relies on libp2p gossipsub's `IdentTopic`: the `TopicHash` of a topic
/// built from a name is that name unchanged (`IdentityHash`).
#[verifier::external_body]
pub(crate) fn topic_hash(name: &String) -> (r: String)
    ensures
        r@ == name@,
{
    libp2p::gossipsub::IdentTopic::new(name.as_str()).hash().into_string()
}

} // verus!

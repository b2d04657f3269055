//! Relays: the rendezvous points that edges connect out to.

use vstd::prelude::*;

verus! {

/// Marks a type that stands for a rendezvous relay.
pub trait Relay {

}

/// A relay reached over the public network.
#[derive(Clone, Copy, Debug, PartialEq, Eq, Structural)]
pub struct WebRelay;

} // verus!

//! Identity and addressing: multihash values, messages and subscriptions.

use vstd::prelude::*;

pub mod base58;
pub mod hash;
pub mod keys;
pub mod message;
pub mod subscription;

pub use hash::{Multihash, MultihashView};
pub use keys::{Keypair, KeypairError, Pubkey};
pub use message::{Message, MessageView};
pub use subscription::Subscription;

verus! {

/// Values that are identified by a hash of their contents.
pub trait Addressable {
    /// The content address, as a mathematical value.
    spec fn address(&self) -> MultihashView;

    /// The content address. It depends on the contents alone, and asking for it
    /// leaves them as they are.
    fn multihash(&mut self) -> (h: Multihash)
        ensures
            h@ == old(self).address(),
            final(self).address() == old(self).address(),
    ;
}

} // verus!

use vstd::prelude::*;

verus! {

/// Identity of an authenticated participant: the 128 bits of its UUID.
#[derive(Clone, Copy, Debug, PartialEq, Eq, Hash, Structural)]
pub struct UserId(pub u128);

/// Identity of a conversation: the 128 bits of its UUID.
#[derive(Clone, Copy, Debug, PartialEq, Eq, Hash, Structural)]
pub struct ConversationId(pub u128);

} // verus!

//! Snowflake identifiers of the remote API: non-zero 64-bit integers.

use vstd::prelude::*;

verus! {

/// Identifier of a channel.
pub struct ChannelId {
    id: u64,
}

impl ChannelId {
    #[verifier::type_invariant]
    spec fn inv(self) -> bool {
        self.id != 0
    }

    /// The numeric value of the identifier, never zero.
    pub closed spec fn value(self) -> u64 {
        self.id
    }

    /// An identifier of value `n`, or `None` where `n` is zero.
    pub fn new(n: u64) -> (r: Option<Self>)
        ensures
            n == 0 <==> r is None,
            r matches Some(id) ==> id.value() == n,
    {
        if n == 0 {
            None
        } else {
            Some(ChannelId { id: n })
        }
    }

    /// The numeric value of the identifier.
    pub fn get(self) -> (r: u64)
        ensures
            r == self.value(),
            r != 0,
    {
        proof {
            use_type_invariant(&self);
        }
        self.id
    }
}

impl Clone for ChannelId {
    fn clone(&self) -> (r: Self)
        ensures
            r == *self,
    {
        *self
    }
}

impl Copy for ChannelId {}

/// Identifier of a guild.
pub struct GuildId {
    id: u64,
}

impl GuildId {
    #[verifier::type_invariant]
    spec fn inv(self) -> bool {
        self.id != 0
    }

    /// The numeric value of the identifier, never zero.
    pub closed spec fn value(self) -> u64 {
        self.id
    }

    /// An identifier of value `n`, or `None` where `n` is zero.
    pub fn new(n: u64) -> (r: Option<Self>)
        ensures
            n == 0 <==> r is None,
            r matches Some(id) ==> id.value() == n,
    {
        if n == 0 {
            None
        } else {
            Some(GuildId { id: n })
        }
    }

    /// The numeric value of the identifier.
    pub fn get(self) -> (r: u64)
        ensures
            r == self.value(),
            r != 0,
    {
        proof {
            use_type_invariant(&self);
        }
        self.id
    }
}

impl Clone for GuildId {
    fn clone(&self) -> (r: Self)
        ensures
            r == *self,
    {
        *self
    }
}

impl Copy for GuildId {}

/// Identifier of a user.
pub struct UserId {
    id: u64,
}

impl UserId {
    #[verifier::type_invariant]
    spec fn inv(self) -> bool {
        self.id != 0
    }

    /// The numeric value of the identifier, never zero.
    pub closed spec fn value(self) -> u64 {
        self.id
    }

    /// An identifier of value `n`, or `None` where `n` is zero.
    pub fn new(n: u64) -> (r: Option<Self>)
        ensures
            n == 0 <==> r is None,
            r matches Some(id) ==> id.value() == n,
    {
        if n == 0 {
            None
        } else {
            Some(UserId { id: n })
        }
    }

    /// The numeric value of the identifier.
    pub fn get(self) -> (r: u64)
        ensures
            r == self.value(),
            r != 0,
    {
        proof {
            use_type_invariant(&self);
        }
        self.id
    }
}

impl Clone for UserId {
    fn clone(&self) -> (r: Self)
        ensures
            r == *self,
    {
        *self
    }
}

impl Copy for UserId {}

} // verus!

//! The unit of isolation: a guild together with the text channel that
//! receives its notifications.

use vstd::prelude::*;

verus! {

/// A guild and the text channel used for its notifications.
#[derive(Debug, Clone, Copy, PartialEq, Eq, Structural, Hash)]
pub struct GuildChannelID {
    pub guild_id: u64,
    pub channel_id: u64,
}

impl GuildChannelID {
    /// The two identifiers packed into one number: the guild in the upper
    /// sixty-four bits, the channel in the lower.
    pub open spec fn spec_key(self) -> u128 {
        (self.guild_id as u128 * 0x1_0000_0000_0000_0000u128 + self.channel_id as u128) as u128
    }

    /// Packs the two identifiers into one number.
    #[verifier::when_used_as_spec(spec_key)]
    pub fn key(self) -> (k: u128)
        ensures
            k == self.spec_key(),
    {
        (self.guild_id as u128) * 0x1_0000_0000_0000_0000u128 + (self.channel_id as u128)
    }
}

/// Two scopes with the same packed number are the same scope.
pub proof fn lemma_key_injective(a: GuildChannelID, b: GuildChannelID)
    requires
        a.spec_key() == b.spec_key(),
    ensures
        a == b,
{
    assert(a.spec_key() / 0x1_0000_0000_0000_0000u128 == a.guild_id);
    assert(b.spec_key() / 0x1_0000_0000_0000_0000u128 == b.guild_id);
    assert(a.spec_key() % 0x1_0000_0000_0000_0000u128 == a.channel_id);
    assert(b.spec_key() % 0x1_0000_0000_0000_0000u128 == b.channel_id);
}

impl From<(u64, u64)> for GuildChannelID {
    fn from(tuple: (u64, u64)) -> (scope: Self) {
        GuildChannelID { guild_id: tuple.0, channel_id: tuple.1 }
    }
}

impl vstd::std_specs::convert::FromSpecImpl<(u64, u64)> for GuildChannelID {
    open spec fn obeys_from_spec() -> bool {
        true
    }

    open spec fn from_spec(tuple: (u64, u64)) -> Self {
        GuildChannelID { guild_id: tuple.0, channel_id: tuple.1 }
    }
}

impl From<GuildChannelID> for (u64, u64) {
    fn from(scope: GuildChannelID) -> (tuple: Self) {
        (scope.guild_id, scope.channel_id)
    }
}

impl vstd::std_specs::convert::FromSpecImpl<GuildChannelID> for (u64, u64) {
    open spec fn obeys_from_spec() -> bool {
        true
    }

    open spec fn from_spec(scope: GuildChannelID) -> Self {
        (scope.guild_id, scope.channel_id)
    }
}

} // verus!

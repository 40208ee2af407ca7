use vstd::prelude::*;

verus! {

/// Identity of an isolated chat space; the unit across which all session
/// state is partitioned. Supplied externally, never generated here.
#[derive(Clone, Copy, PartialEq, Eq, Structural, Debug)]
pub struct GuildId(pub u64);

/// Identity of a destination for outbound text or a voice stream: the reply
/// channel where status text is sent, or the voice channel where audio is
/// rendered.
#[derive(Clone, Copy, PartialEq, Eq, Structural, Debug)]
pub struct ChannelId(pub u64);

} // verus!

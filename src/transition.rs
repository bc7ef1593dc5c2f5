use vstd::prelude::*;

verus! {

/// A member's voice-channel membership at one instant.
#[derive(Clone, Copy, Debug, PartialEq, Eq, Structural)]
pub struct PresenceSnapshot {
    pub user_id: u64,
    /// The guild the event was delivered for; absent on a malformed event.
    pub guild_id: Option<u64>,
    /// The voice channel the member is in; absent when in none.
    pub channel_id: Option<u64>,
}

/// How a pair of consecutive snapshots of one member relate.
#[derive(Clone, Copy, Debug, PartialEq, Eq, Structural)]
pub enum Transition {
    /// The member entered voice chat.
    Joined,
    /// The member left every voice channel.
    Left,
    /// Any other change: a move between channels, a mute, a deafen.
    Other,
}

impl Transition {
    /// Only joins and leaves are announced.
    pub open spec fn is_actionable(self) -> bool {
        self is Joined || self is Left
    }

    pub fn actionable(&self) -> (r: bool)
        ensures
            r == self.is_actionable(),
    {
        match self {
            Transition::Joined => true,
            Transition::Left => true,
            Transition::Other => false,
        }
    }
}

/// The classification rules: no prior state means a join; a prior state and
/// no current channel means a leave; anything else is some other change.
pub open spec fn spec_classify(previous: Option<PresenceSnapshot>, current: PresenceSnapshot) -> Transition {
    match previous {
        None => Transition::Joined,
        Some(_) => if current.channel_id is None {
            Transition::Left
        } else {
            Transition::Other
        },
    }
}

/// Classifies the change from `previous` (if any prior state is known) to `current`.
pub fn classify(previous: Option<PresenceSnapshot>, current: PresenceSnapshot) -> (r: Transition)
    ensures
        r == spec_classify(previous, current),
{
    match previous {
        None => Transition::Joined,
        Some(_) => match current.channel_id {
            None => Transition::Left,
            Some(_) => Transition::Other,
        },
    }
}

/// With no prior state known, a member seen in a channel has joined.
pub proof fn lemma_no_previous_is_join(current: PresenceSnapshot)
    requires
        current.channel_id is Some,
    ensures
        spec_classify(None, current) == Transition::Joined,
{
}

/// A member who was in a channel and now is in none has left.
pub proof fn lemma_departure_is_leave(previous: PresenceSnapshot, current: PresenceSnapshot)
    requires
        previous.channel_id is Some,
        current.channel_id is None,
    ensures
        spec_classify(Some(previous), current) == Transition::Left,
{
}

/// A member in a channel before and after (the same one or another) has made
/// some other change, whatever else differs between the snapshots.
pub proof fn lemma_in_channel_change_is_other(previous: PresenceSnapshot, current: PresenceSnapshot)
    requires
        previous.channel_id is Some,
        current.channel_id is Some,
    ensures
        spec_classify(Some(previous), current) == Transition::Other,
        !spec_classify(Some(previous), current).is_actionable(),
{
}

} // verus!

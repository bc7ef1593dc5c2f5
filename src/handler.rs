use vstd::prelude::*;
use crate::notice::{
    build_notice, option_view, resolve_display_name, spec_display_name, spec_notice, Notice, NoticeTime,
    NoticeView, JST_OFFSET_SECONDS,
};
use crate::settings::Settings;
use crate::transition::{classify, spec_classify, PresenceSnapshot, Transition};

verus! {

/// Why an event leads to no notice.
#[derive(Clone, Copy, Debug, PartialEq, Eq, Structural)]
pub enum SkipReason {
    /// The event came without a guild: it cannot be classified.
    MissingGuild,
    /// The event belongs to a guild that is not monitored.
    OtherGuild,
    /// The change is neither a join nor a leave.
    NotAnnounced,
}

/// What to do with one voice-state event.
#[derive(Clone, Copy, Debug, PartialEq, Eq, Structural)]
pub enum Decision {
    Skip(SkipReason),
    /// Announce this join or leave.
    Announce(Transition),
}

/// A notice and the channel it is to be sent to.
#[derive(Clone, Debug)]
pub struct Dispatch {
    pub channel_id: u64,
    pub notice: Notice,
}

/// Handles voice-state events for one monitored guild.
#[derive(Clone, Debug)]
pub struct Handler {
    pub settings: Settings,
}

/// The guild filter first, then the classification; only joins and leaves are announced.
pub open spec fn spec_decide(guild_id: u64, previous: Option<PresenceSnapshot>, current: PresenceSnapshot) -> Decision {
    match current.guild_id {
        None => Decision::Skip(SkipReason::MissingGuild),
        Some(g) => if g != guild_id {
            Decision::Skip(SkipReason::OtherGuild)
        } else if spec_classify(previous, current).is_actionable() {
            Decision::Announce(spec_classify(previous, current))
        } else {
            Decision::Skip(SkipReason::NotAnnounced)
        },
    }
}

impl Handler {
    pub fn new(settings: Settings) -> (r: Handler)
        ensures
            r.settings == settings,
    {
        Handler { settings }
    }

    /// Decides what a change from `previous` to `current` calls for.
    pub fn voice_state_update(&self, previous: Option<PresenceSnapshot>, current: PresenceSnapshot) -> (r: Decision)
        ensures
            r == spec_decide(self.settings.guild_id, previous, current),
            r matches Decision::Announce(t) ==> t.is_actionable(),
    {
        let guild_id = match current.guild_id {
            None => return Decision::Skip(SkipReason::MissingGuild),
            Some(g) => g,
        };
        if guild_id != self.settings.guild_id {
            return Decision::Skip(SkipReason::OtherGuild);
        }
        let t = classify(previous, current);
        if t.actionable() {
            Decision::Announce(t)
        } else {
            Decision::Skip(SkipReason::NotAnnounced)
        }
    }

    /// The notice announcing `t`, addressed to the log channel. The member is
    /// named by `nickname`, else `display_name`, else a placeholder; the notice
    /// is stamped with the instant `unix_seconds` + `nanos`.
    pub fn notice_for(
        &self,
        t: Transition,
        nickname: Option<String>,
        display_name: Option<String>,
        unix_seconds: i64,
        nanos: u32,
    ) -> (r: Dispatch)
        requires
            t.is_actionable(),
        ensures
            r.channel_id == self.settings.log_channel_id,
            r.notice@ == spec_notice(
                t,
                spec_display_name(option_view(nickname), option_view(display_name)),
                NoticeTime { unix_seconds, nanos, utc_offset_seconds: JST_OFFSET_SECONDS },
            ),
    {
        let name = resolve_display_name(nickname, display_name);
        let notice = build_notice(t, name.as_str(), unix_seconds, nanos);
        Dispatch { channel_id: self.settings.log_channel_id, notice }
    }
}

/// An event from a guild other than the monitored one is never announced,
/// whatever the snapshots hold.
pub proof fn lemma_other_guild_never_announced(
    guild_id: u64,
    previous: Option<PresenceSnapshot>,
    current: PresenceSnapshot,
)
    requires
        current.guild_id != Some(guild_id),
    ensures
        spec_decide(guild_id, previous, current) is Skip,
{
}

/// Building a notice twice from the same transition, name and instant gives
/// the same notice; at different instants only the timestamp differs.
pub proof fn lemma_notice_deterministic(
    t: Transition,
    name: Seq<char>,
    time1: NoticeTime,
    time2: NoticeTime,
    n1: NoticeView,
    n2: NoticeView,
)
    requires
        n1 == spec_notice(t, name, time1),
        n2 == spec_notice(t, name, time2),
    ensures
        n1.title == n2.title,
        n1.description == n2.description,
        n1.color == n2.color,
        time1 == time2 ==> n1 == n2,
{
}

} // verus!

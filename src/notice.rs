use vstd::prelude::*;
use crate::transition::Transition;

verus! {

/// The fixed label every notice carries as its title.
pub const NOTICE_TITLE: &'static str = "Voice Channel Notice";

/// The name shown when neither a nickname nor a display name is known.
pub const UNKNOWN_USER: &'static str = "Unknown user";

/// Notices are stamped in Japan Standard Time, UTC+9:00.
pub const JST_OFFSET_SECONDS: i32 = 32400;

/// Colour of a join notice, as 0xRRGGBB.
pub const JOIN_RGB: u32 = 0x2aed24;

/// Colour of a leave notice, as 0xRRGGBB.
pub const LEAVE_RGB: u32 = 0xed2424;

/// The sentence that follows the bold name in a join notice.
pub const JOIN_PHRASE: &'static str = "** がVCに入りました";

/// The sentence that follows the bold name in a leave notice.
pub const LEAVE_PHRASE: &'static str = "** がVCから抜けました";

/// The opening of the bold name.
pub const BOLD_OPEN: &'static str = "**";

/// The categorical colour of a notice.
#[derive(Clone, Copy, Debug, PartialEq, Eq, Structural)]
pub enum NoticeColor {
    Positive,
    Negative,
}

impl NoticeColor {
    pub open spec fn spec_rgb(self) -> u32 {
        match self {
            NoticeColor::Positive => JOIN_RGB,
            NoticeColor::Negative => LEAVE_RGB,
        }
    }

    /// The colour as 0xRRGGBB, for the transport to render.
    pub fn rgb(&self) -> (r: u32)
        ensures
            r == self.spec_rgb(),
    {
        match self {
            NoticeColor::Positive => JOIN_RGB,
            NoticeColor::Negative => LEAVE_RGB,
        }
    }
}

/// An instant, with the offset from UTC in which it is to be shown.
#[derive(Clone, Copy, Debug, PartialEq, Eq, Structural)]
pub struct NoticeTime {
    /// Seconds since the Unix epoch.
    pub unix_seconds: i64,
    /// Nanoseconds past `unix_seconds`.
    pub nanos: u32,
    /// Local time minus UTC, in seconds.
    pub utc_offset_seconds: i32,
}

/// A notice ready for dispatch.
#[derive(Clone, Debug)]
pub struct Notice {
    pub title: String,
    pub description: String,
    pub color: NoticeColor,
    pub timestamp: NoticeTime,
}

/// What a notice holds, with its texts as character sequences.
pub struct NoticeView {
    pub title: Seq<char>,
    pub description: Seq<char>,
    pub color: NoticeColor,
    pub timestamp: NoticeTime,
}

impl View for Notice {
    type V = NoticeView;

    open spec fn view(&self) -> NoticeView {
        NoticeView {
            title: self.title@,
            description: self.description@,
            color: self.color,
            timestamp: self.timestamp,
        }
    }
}

/// The characters of an optional string.
pub open spec fn option_view(o: Option<String>) -> Option<Seq<char>> {
    match o {
        Some(s) => Some(s@),
        None => None,
    }
}

/// Nickname first, then display name, then the placeholder.
pub open spec fn spec_display_name(nickname: Option<Seq<char>>, display_name: Option<Seq<char>>) -> Seq<char> {
    match nickname {
        Some(n) => n,
        None => match display_name {
            Some(d) => d,
            None => UNKNOWN_USER@,
        },
    }
}

/// Picks the name a notice shows: the guild nickname if there is one, else the
/// display name, else a placeholder.
pub fn resolve_display_name(nickname: Option<String>, display_name: Option<String>) -> (r: String)
    ensures
        r@ == spec_display_name(option_view(nickname), option_view(display_name)),
{
    match nickname {
        Some(n) => n,
        None => match display_name {
            Some(d) => d,
            None => String::from_str(UNKNOWN_USER),
        },
    }
}

pub open spec fn spec_phrase(t: Transition) -> Seq<char> {
    if t is Joined {
        JOIN_PHRASE@
    } else {
        LEAVE_PHRASE@
    }
}

/// The body of a notice: the name in bold, then what the member did.
pub open spec fn spec_description(t: Transition, name: Seq<char>) -> Seq<char> {
    BOLD_OPEN@ + name + spec_phrase(t)
}

pub open spec fn spec_color(t: Transition) -> NoticeColor {
    if t is Joined {
        NoticeColor::Positive
    } else {
        NoticeColor::Negative
    }
}

/// The notice announcing `t` for the member named `name`, stamped with `time`.
pub open spec fn spec_notice(t: Transition, name: Seq<char>, time: NoticeTime) -> NoticeView {
    NoticeView {
        title: NOTICE_TITLE@,
        description: spec_description(t, name),
        color: spec_color(t),
        timestamp: time,
    }
}

/// The body text announcing `t` for `name`.
pub fn describe(t: Transition, name: &str) -> (r: String)
    requires
        t.is_actionable(),
    ensures
        r@ == spec_description(t, name@),
{
    let mut s = String::from_str(BOLD_OPEN);
    s.append(name);
    match t {
        Transition::Joined => s.append(JOIN_PHRASE),
        _ => s.append(LEAVE_PHRASE),
    }
    s
}

/// Relies on chrono::FixedOffset::east_opt, which accepts an offset strictly
/// within one day either way, and FixedOffset::local_minus_utc, which gives it back.
#[verifier::external_body]
fn fixed_offset_east(secs: i32) -> (r: Option<i32>)
    ensures
        r == (if -86_400 < secs && secs < 86_400 { Some(secs) } else { None::<i32> }),
{
    match chrono::FixedOffset::east_opt(secs) {
        Some(offset) => Some(offset.local_minus_utc()),
        None => None,
    }
}

/// The instant `unix_seconds` + `nanos` as shown in Japan Standard Time.
pub fn jst_time(unix_seconds: i64, nanos: u32) -> (r: NoticeTime)
    ensures
        r == (NoticeTime { unix_seconds, nanos, utc_offset_seconds: JST_OFFSET_SECONDS }),
{
    let offset = fixed_offset_east(JST_OFFSET_SECONDS);
    match offset {
        Some(o) => NoticeTime { unix_seconds, nanos, utc_offset_seconds: o },
        None => unreached(),
    }
}

/// Builds the notice announcing `t` for the member named `name` at the given instant.
pub fn build_notice(t: Transition, name: &str, unix_seconds: i64, nanos: u32) -> (r: Notice)
    requires
        t.is_actionable(),
    ensures
        r@ == spec_notice(t, name@, NoticeTime { unix_seconds, nanos, utc_offset_seconds: JST_OFFSET_SECONDS }),
{
    let color = match t {
        Transition::Joined => NoticeColor::Positive,
        _ => NoticeColor::Negative,
    };
    Notice {
        title: String::from_str(NOTICE_TITLE),
        description: describe(t, name),
        color,
        timestamp: jst_time(unix_seconds, nanos),
    }
}

} // verus!

//! Voice-channel presence notices: decides whether a change in a member's
//! voice state is a join or a leave of the monitored guild, and builds the
//! notice that announces it in the log channel.

pub mod handler;
pub mod notice;
pub mod settings;
pub mod transition;

pub use handler::{Decision, Dispatch, Handler, SkipReason};
pub use notice::{Notice, NoticeColor, NoticeTime};
pub use settings::{ConfigError, SecretKey, Settings};
pub use transition::{classify, PresenceSnapshot, Transition};

use vstd::prelude::*;
use crate::notice::option_view;

verus! {

/// Process-wide configuration, fixed at startup.
#[derive(Clone, Debug)]
pub struct Settings {
    /// Credential for the gateway and the message transport.
    pub discord_token: String,
    /// The one guild whose voice events are announced.
    pub guild_id: u64,
    /// The text channel that receives the notices.
    pub log_channel_id: u64,
}

/// The secrets the configuration is read from.
#[derive(Clone, Copy, Debug, PartialEq, Eq, Structural)]
pub enum SecretKey {
    DiscordToken,
    GuildId,
    LogChannelId,
}

impl SecretKey {
    /// The name under which the secret is stored.
    pub fn name(&self) -> (r: &'static str)
        ensures
            r@ == self.spec_name(),
    {
        match self {
            SecretKey::DiscordToken => "DISCORD_TOKEN",
            SecretKey::GuildId => "GUILD_ID",
            SecretKey::LogChannelId => "LOG_CHANNEL_ID",
        }
    }

    pub open spec fn spec_name(self) -> Seq<char> {
        match self {
            SecretKey::DiscordToken => "DISCORD_TOKEN"@,
            SecretKey::GuildId => "GUILD_ID"@,
            SecretKey::LogChannelId => "LOG_CHANNEL_ID"@,
        }
    }
}

/// A configuration that cannot be used: the process must not start.
#[derive(Clone, Copy, Debug, PartialEq, Eq, Structural)]
pub enum ConfigError {
    /// The secret is not set.
    Missing(SecretKey),
    /// The secret is set but is not a decimal number that fits in 64 bits.
    Unparsable(SecretKey),
}

pub open spec fn is_digit(c: char) -> bool {
    '0' <= c && c <= '9'
}

pub open spec fn digit_value(c: char) -> int {
    c as int - '0' as int
}

/// The number that a string of decimal digits spells.
pub open spec fn decimal_value(s: Seq<char>) -> int
    decreases s.len(),
{
    if s.len() == 0 {
        0
    } else {
        decimal_value(s.drop_last()) * 10 + digit_value(s.last())
    }
}

pub open spec fn all_digits(s: Seq<char>) -> bool {
    forall|i: int| 0 <= i < s.len() ==> is_digit(#[trigger] s[i])
}

/// The digits of an identifier: the text after one optional leading `+`.
pub open spec fn id_digits(s: Seq<char>) -> Seq<char> {
    if s.len() > 0 && s[0] == '+' {
        s.drop_first()
    } else {
        s
    }
}

/// An optional `+`, then a non-empty run of decimal digits whose value fits
/// in a `u64`.
pub open spec fn is_id(s: Seq<char>) -> bool {
    &&& id_digits(s).len() > 0
    &&& all_digits(id_digits(s))
    &&& decimal_value(id_digits(s)) <= u64::MAX
}

proof fn lemma_drop_last_digits(s: Seq<char>)
    requires
        all_digits(s),
        s.len() > 0,
    ensures
        all_digits(s.drop_last()),
        is_digit(s.last()),
{
    let d = s.drop_last();
    assert forall|i: int| 0 <= i < d.len() implies is_digit(#[trigger] d[i]) by {
        assert(d[i] == s[i]);
    }
}

/// A prefix of a digit string never spells more than the whole string.
proof fn lemma_prefix_value_le(s: Seq<char>, j: int)
    requires
        all_digits(s),
        0 <= j <= s.len(),
    ensures
        0 <= decimal_value(s.subrange(0, j)) <= decimal_value(s),
    decreases s.len(),
{
    if s.len() == 0 {
        assert(s.subrange(0, j) =~= s);
    } else {
        let d = s.drop_last();
        lemma_drop_last_digits(s);
        if j < s.len() {
            lemma_prefix_value_le(d, j);
            assert(d.subrange(0, j) =~= s.subrange(0, j));
        } else {
            lemma_prefix_value_le(d, d.len() as int);
            assert(d.subrange(0, d.len() as int) =~= d);
            assert(s.subrange(0, j) =~= s);
        }
    }
}

/// Reads a numeric identifier: an optional `+`, then a non-empty run of
/// decimal digits that fits in a `u64`.
pub fn parse_id(s: &str) -> (r: Option<u64>)
    ensures
        r is Some <==> is_id(s@),
        r matches Some(v) ==> v == decimal_value(id_digits(s@)),
{
    let n = s.unicode_len();
    let start: usize = if n > 0 && s.get_char(0) == '+' { 1 } else { 0 };
    let ghost digits = s@.subrange(start as int, n as int);
    assert(digits =~= id_digits(s@));
    if start == n {
        return None;
    }
    let mut value: u64 = 0;
    let mut i: usize = start;
    while i < n
        invariant
            n == s@.len(),
            start <= i <= n,
            digits == s@.subrange(start as int, n as int),
            digits == id_digits(s@),
            all_digits(s@.subrange(start as int, i as int)),
            value == decimal_value(s@.subrange(start as int, i as int)),
        decreases n - i,
    {
        let c = s.get_char(i);
        let ghost next_prefix = s@.subrange(start as int, i as int + 1);
        proof {
            assert(next_prefix.drop_last() =~= s@.subrange(start as int, i as int));
            assert(next_prefix =~= digits.subrange(0, i - start + 1));
        }
        if c < '0' || c > '9' {
            assert(!all_digits(digits)) by {
                assert(!is_digit(digits[i - start]));
            }
            return None;
        }
        let d: u64 = (c as u32 - '0' as u32) as u64;
        let next = match value.checked_mul(10) {
            Some(m) => m.checked_add(d),
            None => None,
        };
        match next {
            Some(v) => {
                value = v;
            },
            None => {
                proof {
                    if all_digits(digits) {
                        lemma_prefix_value_le(digits, i - start + 1);
                    }
                }
                return None;
            },
        }
        proof {
            assert forall|k: int| 0 <= k < next_prefix.len() implies is_digit(#[trigger] next_prefix[k]) by {
                if k < next_prefix.len() - 1 {
                    assert(next_prefix[k] == s@.subrange(start as int, i as int)[k]);
                }
            }
        }
        i = i + 1;
    }
    assert(s@.subrange(start as int, n as int) =~= digits);
    Some(value)
}

/// The first fault among the three secrets, in the order token, guild, log
/// channel: one that is unset, or an identifier that does not parse.
pub open spec fn config_error(
    token: Option<Seq<char>>,
    guild: Option<Seq<char>>,
    log: Option<Seq<char>>,
) -> Option<ConfigError> {
    if token is None {
        Some(ConfigError::Missing(SecretKey::DiscordToken))
    } else if guild is None {
        Some(ConfigError::Missing(SecretKey::GuildId))
    } else if !is_id(guild->0) {
        Some(ConfigError::Unparsable(SecretKey::GuildId))
    } else if log is None {
        Some(ConfigError::Missing(SecretKey::LogChannelId))
    } else if !is_id(log->0) {
        Some(ConfigError::Unparsable(SecretKey::LogChannelId))
    } else {
        None
    }
}

impl Settings {
    /// Builds the configuration from the three secrets, each of which may be
    /// unset; reports the first fault that `config_error` names.
    pub fn from_secrets(
        discord_token: Option<String>,
        guild_id: Option<String>,
        log_channel_id: Option<String>,
    ) -> (r: Result<Settings, ConfigError>)
        ensures
            r is Err <==> config_error(option_view(discord_token), option_view(guild_id), option_view(log_channel_id)) is Some,
            r matches Err(e) ==> config_error(option_view(discord_token), option_view(guild_id), option_view(log_channel_id)) == Some(e),
            r matches Ok(s) ==> {
                &&& s.discord_token@ == discord_token->0@
                &&& s.guild_id == decimal_value(id_digits(guild_id->0@))
                &&& s.log_channel_id == decimal_value(id_digits(log_channel_id->0@))
            },
    {
        let token = match discord_token {
            Some(t) => t,
            None => return Err(ConfigError::Missing(SecretKey::DiscordToken)),
        };
        let guild = match guild_id {
            Some(g) => match parse_id(g.as_str()) {
                Some(v) => v,
                None => return Err(ConfigError::Unparsable(SecretKey::GuildId)),
            },
            None => return Err(ConfigError::Missing(SecretKey::GuildId)),
        };
        let log = match log_channel_id {
            Some(l) => match parse_id(l.as_str()) {
                Some(v) => v,
                None => return Err(ConfigError::Unparsable(SecretKey::LogChannelId)),
            },
            None => return Err(ConfigError::Missing(SecretKey::LogChannelId)),
        };
        Ok(Settings { discord_token: token, guild_id: guild, log_channel_id: log })
    }
}

} // verus!

use vstd::prelude::*;
use crate::identity::{lemma_parse_spec_wf, parse_spec, Identity, IdentityV};

verus! {

/// Why a configuration was rejected at load time.
#[derive(Clone, Copy, Debug, PartialEq, Eq, Structural)]
pub enum ConfigError {
    BadBotIdentity,
    BadRoomIdentity,
    EmptyCredential,
    EmptyNickname,
}

/// Mathematical model of the bot's configuration.
pub struct SettingsV {
    pub bot: IdentityV,
    pub credential: Seq<char>,
    pub nickname: Seq<char>,
    pub room: IdentityV,
}

impl SettingsV {
    /// All fields non-empty, both identities well formed.
    pub open spec fn wf(self) -> bool {
        &&& self.bot.wf()
        &&& self.room.wf()
        &&& self.credential.len() > 0
        &&& self.nickname.len() > 0
    }
}

/// The settings value that the raw configuration fields denote, or the
/// error raised for the first field that fails validation: the account
/// identifier and the room identifier must parse, and the credential and
/// the display nickname must be non-empty.
pub open spec fn settings_of(
    bot_jid: Seq<char>,
    credential: Seq<char>,
    nickname: Seq<char>,
    room_jid: Seq<char>,
) -> Result<SettingsV, ConfigError> {
    if parse_spec(bot_jid) is None {
        Err(ConfigError::BadBotIdentity)
    } else if parse_spec(room_jid) is None {
        Err(ConfigError::BadRoomIdentity)
    } else if credential.len() == 0 {
        Err(ConfigError::EmptyCredential)
    } else if nickname.len() == 0 {
        Err(ConfigError::EmptyNickname)
    } else {
        Ok(SettingsV {
            bot: parse_spec(bot_jid).unwrap(),
            credential,
            nickname,
            room: parse_spec(room_jid).unwrap(),
        })
    }
}

/// Immutable identity and configuration of the bot: account identity,
/// credential, display nickname, and the target room. Constructed once at
/// start-up, shared read-only afterwards.
#[derive(Debug)]
pub struct Settings {
    pub bot: Identity,
    pub credential: String,
    pub nickname: String,
    pub room: Identity,
}

impl View for Settings {
    type V = SettingsV;

    open spec fn view(&self) -> SettingsV {
        SettingsV {
            bot: self.bot@,
            credential: self.credential@,
            nickname: self.nickname@,
            room: self.room@,
        }
    }
}

impl Settings {
    /// Validate the raw configuration fields. A malformed field fails
    /// loading here, before the session core ever starts.
    pub fn new(bot_jid: &str, credential: String, nickname: String, room_jid: &str) -> (r:
        Result<Settings, ConfigError>)
        ensures
            (match r {
                Ok(s) => settings_of(bot_jid@, credential@, nickname@, room_jid@)
                    == Ok::<SettingsV, ConfigError>(s@) && s@.wf(),
                Err(e) => settings_of(bot_jid@, credential@, nickname@, room_jid@)
                    == Err::<SettingsV, ConfigError>(e),
            }),
    {
        proof {
            lemma_parse_spec_wf(bot_jid@);
            lemma_parse_spec_wf(room_jid@);
        }
        let bot = match Identity::parse(bot_jid) {
            Some(id) => id,
            None => {
                return Err(ConfigError::BadBotIdentity);
            },
        };
        let room = match Identity::parse(room_jid) {
            Some(id) => id,
            None => {
                return Err(ConfigError::BadRoomIdentity);
            },
        };
        if credential.as_str().is_empty() {
            return Err(ConfigError::EmptyCredential);
        }
        if nickname.as_str().is_empty() {
            return Err(ConfigError::EmptyNickname);
        }
        Ok(Settings { bot, credential, nickname, room })
    }
}

} // verus!

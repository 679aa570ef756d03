//! The configuration file's content, and how it becomes [`Settings`].

use crate::settings::{
    set_ai_default_model, set_ai_endpoint, set_ai_engage_time, set_ai_init_prompt, set_ai_token,
    set_owner_id, Settings, SettingsView,
};
use vstd::prelude::*;

verus! {

/// Everything the configuration file holds.
#[derive(Clone, Debug, PartialEq, Eq)]
pub struct Config {
    pub api: Api,
    pub bot: Bot,
    pub redis: Redis,
    pub ai: Ai,
}

/// The chat transport to connect to.
#[derive(Clone, Debug, PartialEq, Eq)]
pub struct Api {
    pub url: String,
    pub access_token: String,
}

/// Who owns the bot.
#[derive(Clone, Debug, PartialEq, Eq)]
pub struct Bot {
    pub owner: u64,
}

/// The shared key-value store.
#[derive(Clone, Debug, PartialEq, Eq)]
pub struct Redis {
    pub url: String,
}

/// The conversational backend.
#[derive(Clone, Debug, PartialEq, Eq)]
pub struct Ai {
    pub token: String,
    pub endpoint: String,
    pub default_model: String,
    pub init_prompt: String,
    pub engage_time: i64,
    pub auto_join: bool,
}

/// The address of the chat transport with its access token as the query.
pub open spec fn transport_address(api: &Api) -> Seq<char> {
    api.url@ + "/?access_token="@ + api.access_token@
}

impl Api {
    /// The address to open the transport connection at.
    pub fn address(&self) -> (r: String)
        ensures
            r@ == transport_address(self),
    {
        let mut out = self.url.clone();
        out.append("/?access_token=");
        out.append(self.access_token.as_str());
        out
    }
}

/// Takes the owner and the backend's token, endpoint, default model, initial
/// prompt and engage time from the configuration. Answers to unaddressed
/// messages stay as they were: they are switched on with
/// [`set_ai_auto_join`](crate::settings::set_ai_auto_join) alone.
pub fn apply_config(settings: &mut Settings, config: &Config)
    ensures
        final(settings)@ == (SettingsView {
            owner_id: config.bot.owner,
            ai_token: config.ai.token@,
            ai_endpoint: config.ai.endpoint@,
            ai_default_model: config.ai.default_model@,
            ai_engage_time: config.ai.engage_time,
            init_prompt: config.ai.init_prompt@,
            ai_auto_join: old(settings)@.ai_auto_join,
        }),
{
    set_owner_id(settings, config.bot.owner);
    set_ai_token(settings, config.ai.token.clone());
    set_ai_endpoint(settings, config.ai.endpoint.clone());
    set_ai_default_model(settings, config.ai.default_model.clone());
    set_ai_init_prompt(settings, config.ai.init_prompt.clone());
    set_ai_engage_time(settings, config.ai.engage_time);
}

} // verus!

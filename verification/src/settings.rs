//! The settings that the relay runs with: one value, built at startup and
//! handed to whatever needs it.

use vstd::prelude::*;

verus! {

/// What the relay needs to know about its owner and about the backend.
#[derive(Clone, Debug, PartialEq, Eq)]
pub struct Settings {
    /// The user who may run privileged commands.
    pub owner_id: u64,
    /// The session token that is sent to the backend as a cookie.
    pub ai_token: String,
    /// Where chat requests are posted.
    pub ai_endpoint: String,
    /// The model of a room that has none of its own.
    pub ai_default_model: String,
    /// How long a room stays engaged after the assistant was addressed, in seconds.
    pub ai_engage_time: i64,
    /// The text put before the first question of a session.
    pub init_prompt: String,
    /// Whether the assistant answers unaddressed messages in an engaged room.
    pub ai_auto_join: bool,
}

/// The mathematical value of [`Settings`].
pub struct SettingsView {
    pub owner_id: u64,
    pub ai_token: Seq<char>,
    pub ai_endpoint: Seq<char>,
    pub ai_default_model: Seq<char>,
    pub ai_engage_time: i64,
    pub init_prompt: Seq<char>,
    pub ai_auto_join: bool,
}

impl View for Settings {
    type V = SettingsView;

    open spec fn view(&self) -> SettingsView {
        SettingsView {
            owner_id: self.owner_id,
            ai_token: self.ai_token@,
            ai_endpoint: self.ai_endpoint@,
            ai_default_model: self.ai_default_model@,
            ai_engage_time: self.ai_engage_time,
            init_prompt: self.init_prompt@,
            ai_auto_join: self.ai_auto_join,
        }
    }
}

/// The settings before anything was configured.
pub open spec fn initial_settings() -> SettingsView {
    SettingsView {
        owner_id: 0,
        ai_token: Seq::empty(),
        ai_endpoint: "https://api.monica.im/api/custom_bot/chat"@,
        ai_default_model: "openai-o-3-mini"@,
        ai_engage_time: 60,
        init_prompt: Seq::empty(),
        ai_auto_join: false,
    }
}

impl Settings {
    /// The settings before anything was configured.
    pub fn new() -> (r: Settings)
        ensures
            r@ == initial_settings(),
    {
        Settings {
            owner_id: 0,
            ai_token: String::new(),
            ai_endpoint: "https://api.monica.im/api/custom_bot/chat".to_owned(),
            ai_default_model: "openai-o-3-mini".to_owned(),
            ai_engage_time: 60,
            init_prompt: String::new(),
            ai_auto_join: false,
        }
    }
}

impl Default for Settings {
    fn default() -> (r: Settings)
        ensures
            r@ == initial_settings(),
    {
        Settings::new()
    }
}

/// Names the owner.
pub fn set_owner_id(settings: &mut Settings, id: u64)
    ensures
        final(settings)@ == (SettingsView { owner_id: id, ..old(settings)@ }),
{
    settings.owner_id = id;
}

/// Sets the backend's session token.
pub fn set_ai_token(settings: &mut Settings, token: String)
    ensures
        final(settings)@ == (SettingsView { ai_token: token@, ..old(settings)@ }),
{
    settings.ai_token = token;
}

/// Sets the address that chat requests are posted to.
pub fn set_ai_endpoint(settings: &mut Settings, endpoint: String)
    ensures
        final(settings)@ == (SettingsView { ai_endpoint: endpoint@, ..old(settings)@ }),
{
    settings.ai_endpoint = endpoint;
}

/// Sets the model of rooms that have none of their own.
pub fn set_ai_default_model(settings: &mut Settings, model: String)
    ensures
        final(settings)@ == (SettingsView { ai_default_model: model@, ..old(settings)@ }),
{
    settings.ai_default_model = model;
}

/// Sets the text put before the first question of a session.
pub fn set_ai_init_prompt(settings: &mut Settings, prompt: String)
    ensures
        final(settings)@ == (SettingsView { init_prompt: prompt@, ..old(settings)@ }),
{
    settings.init_prompt = prompt;
}

/// Sets how long a room stays engaged, in seconds.
pub fn set_ai_engage_time(settings: &mut Settings, time: i64)
    ensures
        final(settings)@ == (SettingsView { ai_engage_time: time, ..old(settings)@ }),
{
    settings.ai_engage_time = time;
}

/// Switches answers to unaddressed messages on or off.
pub fn set_ai_auto_join(settings: &mut Settings, auto_join: bool)
    ensures
        final(settings)@ == (SettingsView { ai_auto_join: auto_join, ..old(settings)@ }),
{
    settings.ai_auto_join = auto_join;
}

/// The site that the backend's session cookie belongs to.
pub fn cookie_site() -> (r: &'static str)
    ensures
        r@ == "https://api.monica.im"@,
{
    "https://api.monica.im"
}

/// The cookie that carries the session token to the backend.
pub open spec fn cookie_of(token: Seq<char>) -> Seq<char> {
    "session_id="@ + token
}

impl Settings {
    /// The cookie that carries the session token to the backend.
    pub fn session_cookie(&self) -> (r: String)
        ensures
            r@ == cookie_of(self.ai_token@),
    {
        let mut cookie = "session_id=".to_owned();
        cookie.append(self.ai_token.as_str());
        cookie
    }
}

} // verus!

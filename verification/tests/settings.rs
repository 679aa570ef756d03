use chat_relay::config::{apply_config, Ai, Api, Bot, Config, Redis};
use chat_relay::settings::{
    set_ai_auto_join, set_ai_default_model, set_ai_endpoint, set_ai_engage_time,
    set_ai_init_prompt, set_ai_token, set_owner_id, Settings,
};

fn sample_config() -> Config {
    Config {
        api: Api { url: "ws://127.0.0.1:3001".to_string(), access_token: "s3".to_string() },
        bot: Bot { owner: 42 },
        redis: Redis { url: "redis://127.0.0.1/".to_string() },
        ai: Ai {
            token: "tok".to_string(),
            endpoint: "https://example.invalid/chat".to_string(),
            default_model: "gpt-4.1".to_string(),
            init_prompt: "You are a bot.\n".to_string(),
            engage_time: 90,
            auto_join: true,
        },
    }
}

#[test]
fn settings_start_with_the_defaults() {
    let settings = Settings::new();
    assert_eq!(settings.owner_id, 0);
    assert_eq!(settings.ai_token, "");
    assert_eq!(settings.ai_endpoint, "https://api.monica.im/api/custom_bot/chat");
    assert_eq!(settings.ai_default_model, "openai-o-3-mini");
    assert_eq!(settings.ai_engage_time, 60);
    assert_eq!(settings.init_prompt, "");
    assert!(!settings.ai_auto_join);
    assert_eq!(Settings::default(), settings);
}

#[test]
fn each_setter_changes_its_own_setting_only() {
    let mut settings = Settings::new();
    set_owner_id(&mut settings, 7);
    assert_eq!(settings, Settings { owner_id: 7, ..Settings::new() });
    set_ai_token(&mut settings, "t".to_string());
    set_ai_endpoint(&mut settings, "e".to_string());
    set_ai_default_model(&mut settings, "m".to_string());
    set_ai_init_prompt(&mut settings, "p".to_string());
    set_ai_engage_time(&mut settings, -3);
    set_ai_auto_join(&mut settings, true);
    assert_eq!(
        settings,
        Settings {
            owner_id: 7,
            ai_token: "t".to_string(),
            ai_endpoint: "e".to_string(),
            ai_default_model: "m".to_string(),
            ai_engage_time: -3,
            init_prompt: "p".to_string(),
            ai_auto_join: true,
        }
    );
}

#[test]
fn apply_config_takes_six_settings_and_leaves_auto_join() {
    let mut settings = Settings::new();
    apply_config(&mut settings, &sample_config());
    assert_eq!(
        settings,
        Settings {
            owner_id: 42,
            ai_token: "tok".to_string(),
            ai_endpoint: "https://example.invalid/chat".to_string(),
            ai_default_model: "gpt-4.1".to_string(),
            ai_engage_time: 90,
            init_prompt: "You are a bot.\n".to_string(),
            ai_auto_join: false,
        }
    );
    set_ai_auto_join(&mut settings, true);
    apply_config(&mut settings, &sample_config());
    assert!(settings.ai_auto_join);
}

#[test]
fn transport_address_carries_the_access_token() {
    assert_eq!(sample_config().api.address(), "ws://127.0.0.1:3001/?access_token=s3");
}

use vstd::prelude::*;

verus! {

/// Process-wide settings, read once at start-up.
#[derive(Debug, Clone)]
pub struct Settings {
    pub server: ServerConfig,
    pub telegram: TelegramConfig,
    pub github: GitHubConfig,
    pub routing: Vec<RouteConfig>,
}

/// Address that the HTTP listener binds to.
#[derive(Debug, Clone)]
pub struct ServerConfig {
    pub host: String,
    pub port: u16,
}

/// Credential of the chat bot.
#[derive(Debug, Clone)]
pub struct TelegramConfig {
    pub bot_token: String,
}

/// Shared secret that inbound webhooks are signed with.
#[derive(Debug, Clone)]
pub struct GitHubConfig {
    pub webhook_secret: String,
}

/// One subscription rule: which repositories and event kinds go to which chat.
#[derive(Debug, Clone)]
pub struct RouteConfig {
    pub repo_pattern: String,
    pub chat_id: i64,
    pub events: Vec<String>,
}

} // verus!

//! The demonstration endpoints: the health report and the chat.

use vstd::prelude::*;

verus! {

/// What the health endpoint reports about the service.
#[derive(Clone, Debug, PartialEq, Eq)]
pub struct ServiceStatus {
    pub status: String,
    pub service: String,
    pub version: String,
    pub rust: String,
    pub modules: Vec<String>,
}

/// The health report: the service is live, and serves the chat and this report.
pub fn service_status() -> (s: ServiceStatus)
    ensures
        s.status@ == "live"@,
        s.service@ == "Aura Rust Core"@,
        s.version@ == "0.1.0-yc"@,
        s.rust@ == "1.88"@,
        s.modules@.len() == 2,
        s.modules@[0]@ == "chat"@,
        s.modules@[1]@ == "health"@,
{
    let mut modules: Vec<String> = Vec::new();
    modules.push("chat".to_string());
    modules.push("health".to_string());
    ServiceStatus {
        status: "live".to_string(),
        service: "Aura Rust Core".to_string(),
        version: "0.1.0-yc".to_string(),
        rust: "1.88".to_string(),
        modules,
    }
}

/// The reply of the demonstration chat to `message`.
pub open spec fn spec_chat_reply(message: Seq<char>) -> Seq<char> {
    "[DEMO MODE] Aura On-Device Engine: '"@ + message
        + "'. Privacy-first AI. Auth, Agents, Skills coming post-YC."@
}

/// The reply of the demonstration chat to `message`: the message quoted in a
/// fixed announcement.
pub fn chat_reply(message: &str) -> (r: String)
    ensures
        r@ == spec_chat_reply(message@),
{
    let mut r = "[DEMO MODE] Aura On-Device Engine: '".to_string();
    r.append(message);
    r.append("'. Privacy-first AI. Auth, Agents, Skills coming post-YC.");
    r
}

/// What the chat answers: the reply, the model that wrote it, how long it
/// took, and that nothing left the device.
#[derive(Clone, Debug, PartialEq, Eq)]
pub struct ChatResponse {
    pub reply: String,
    pub model: String,
    pub latency_ms: u128,
    pub private: bool,
}

/// The chat's answer `reply`, which took `latency_ms` milliseconds to write.
pub fn chat_response(reply: String, latency_ms: u128) -> (r: ChatResponse)
    ensures
        r.reply == reply,
        r.model@ == "Aura-Core-Rust-1.88"@,
        r.latency_ms == latency_ms,
        r.private,
{
    ChatResponse {
        reply,
        model: "Aura-Core-Rust-1.88".to_string(),
        latency_ms,
        private: true,
    }
}

} // verus!

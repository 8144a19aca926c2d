use aura::auth::Claims;
use aura::chat::{chat_reply, chat_response, service_status};
use aura::dashboard::{agent_stats, dashboard, stats_agent};
use aura::discovery::{search_statement, SearchQuery, SqlArg};
use aura::listing::{page, Page, DEFAULT_PAGE_SIZE, MAX_PAGE_SIZE};
use aura::text::parse_capped;
use aura::models::{
    Agent, ApiResponse, CreateAgentRequest, CreateSkillRequest, CreateTransactionRequest, F64Bits,
    Skill, Transaction,
};
use aura::records::{
    agent_record, copy_optional_text, new_agent, new_skill, new_transaction, skill_record,
    transaction_record,
};
use aura::reply::{found_reply, list_reply, reply_error, reply_ok, stored_reply, user_agent, AgentUse, Resource, Status, StoreError};
use aura::ownership::{listed, skills_of_agents, transactions_of_agents, user_agents};
use aura::transactions::{
    is_known_status, requested_status, status_change, status_change_at, status_update_reply, updated_transaction,
};

fn is_uuid_v4(s: &str) -> bool {
    let b = s.as_bytes();
    b.len() == 36
        && b[8] == b'-' && b[13] == b'-' && b[18] == b'-' && b[23] == b'-'
        && b[14] == b'4'
        && matches!(b[19], b'8' | b'9' | b'a' | b'b')
        && b.iter().enumerate().all(|(i, c)| [8, 13, 18, 23].contains(&i) || c.is_ascii_digit() || (b'a'..=b'f').contains(c))
}

#[test]
fn api_response_envelopes() {
    let ok = ApiResponse::success(5u32);
    assert!(ok.success);
    assert_eq!(ok.data, Some(5));
    assert_eq!(ok.error, None);
    let err = ApiResponse::<u32>::error("boom".to_string());
    assert!(!err.success);
    assert_eq!(err.data, None);
    assert_eq!(err.error, Some("boom".to_string()));
}

#[test]
fn status_codes() {
    assert_eq!(Status::Success.code(), 200);
    assert_eq!(Status::Created.code(), 201);
    assert_eq!(Status::BadRequest.code(), 400);
    assert_eq!(Status::Unauthorized.code(), 401);
    assert_eq!(Status::NotFound.code(), 404);
    assert_eq!(Status::ServerError.code(), 500);
    let r = reply_error::<()>(Status::NotFound, "nope");
    assert_eq!(r.body.error, Some("nope".to_string()));
    let r2 = reply_ok(3u8);
    assert_eq!(r2.status, Status::Success);
    assert_eq!(r2.body.data, Some(3));
}

fn agent_body() -> CreateAgentRequest {
    CreateAgentRequest {
        name: "AI Assistant Pro".to_string(),
        description: Some("Expert in data analysis".to_string()),
        capabilities: None,
    }
}

#[test]
fn agent_record_starts_with_zero_reputation() {
    let a = agent_record("a1".to_string(), "u1".to_string(), &agent_body(), "T".to_string());
    assert_eq!(a, Agent {
        id: "a1".to_string(),
        user_id: "u1".to_string(),
        name: "AI Assistant Pro".to_string(),
        description: Some("Expert in data analysis".to_string()),
        capabilities: None,
        reputation_score: F64Bits(0.0f64.to_bits()),
        created_at: "T".to_string(),
        updated_at: "T".to_string(),
    });
}

#[test]
fn new_agent_belongs_to_the_authenticated_user() {
    let claims = Claims { sub: "user-9".to_string(), exp: 0 };
    let a = new_agent(&claims, &agent_body());
    assert!(is_uuid_v4(&a.id), "{}", a.id);
    assert_eq!(a.user_id, "user-9");
    assert_eq!(f64::from_bits(a.reputation_score.0), 0.0);
    assert!(a.created_at.ends_with("+00:00"));
    assert_eq!(a.created_at, a.updated_at);
    let b = new_agent(&claims, &agent_body());
    assert_ne!(a.id, b.id);
}

#[test]
fn skill_records_keep_the_price() {
    let body = CreateSkillRequest {
        title: "Data Analysis Report".to_string(),
        description: None,
        category: "Data Analysis".to_string(),
        price: F64Bits(150.5f64.to_bits()),
    };
    let s = skill_record("s1".to_string(), "a1".to_string(), &body, "T".to_string());
    assert_eq!(s.agent_id, "a1");
    assert_eq!(f64::from_bits(s.price.0), 150.5);
    assert_eq!(s.category, "Data Analysis");
    let s2 = new_skill("a2".to_string(), &body);
    assert!(is_uuid_v4(&s2.id));
    assert_eq!(s2.agent_id, "a2");
    assert_eq!(s2.created_at, s2.updated_at);
}

#[test]
fn transactions_start_pending() {
    let body = CreateTransactionRequest {
        buyer_agent_id: "b".to_string(),
        seller_agent_id: "s".to_string(),
        skill_id: "k".to_string(),
        amount: F64Bits(99.0f64.to_bits()),
    };
    let t = transaction_record("t1".to_string(), &body, "T".to_string());
    assert_eq!(t, Transaction {
        id: "t1".to_string(),
        buyer_agent_id: "b".to_string(),
        seller_agent_id: "s".to_string(),
        skill_id: "k".to_string(),
        status: "pending".to_string(),
        amount: F64Bits(99.0f64.to_bits()),
        created_at: "T".to_string(),
        updated_at: "T".to_string(),
    });
    let t2 = new_transaction(&body);
    assert!(is_uuid_v4(&t2.id));
    assert_eq!(t2.status, "pending");
}

#[test]
fn optional_text_copies() {
    assert_eq!(copy_optional_text(&None), None);
    assert_eq!(copy_optional_text(&Some("x".to_string())), Some("x".to_string()));
}

#[test]
fn found_reply_cases() {
    let r = found_reply::<u8>(Err(StoreError), Resource::Agent);
    assert_eq!((r.status, r.body.error), (Status::ServerError, Some("Database error".to_string())));
    let r = found_reply::<u8>(Ok(None), Resource::Agent);
    assert_eq!((r.status, r.body.error), (Status::NotFound, Some("Agent not found".to_string())));
    let r = found_reply::<u8>(Ok(Some(7)), Resource::Agent);
    assert_eq!((r.status, r.body.data), (Status::Success, Some(7)));
}

#[test]
fn list_reply_cases() {
    let r = list_reply::<u8>(Err(StoreError));
    assert_eq!((r.status, r.body.error), (Status::ServerError, Some("Database error".to_string())));
    let r = list_reply(Ok(vec![3u8, 1, 2]));
    assert_eq!(r.body.data, Some(vec![3, 1, 2]));
}

#[test]
fn stored_reply_cases() {
    let r = stored_reply(5u8, Err(StoreError), Resource::Agent);
    assert_eq!((r.status, r.body.error), (Status::ServerError, Some("Failed to create agent".to_string())));
    let r = stored_reply(5u8, Ok(()), Resource::Agent);
    assert_eq!((r.status, r.body.data), (Status::Created, Some(5)));
    assert_eq!(r.status.code(), 201);
    assert!(r.body.success);
    assert_eq!(r.body.error, None);
}

#[test]
fn user_agent_cases() {
    let r = user_agent::<Skill>(Ok(Some("a1".to_string())), AgentUse::Publishing);
    assert_eq!(r.ok(), Some("a1".to_string()));
    let e = user_agent::<Skill>(Ok(None), AgentUse::Publishing).err().unwrap();
    assert_eq!((e.status, e.body.error), (Status::BadRequest, Some("Agent not found for user".to_string())));
    let e = user_agent::<Skill>(Ok(None), AgentUse::Viewing).err().unwrap();
    assert_eq!(e.status, Status::NotFound);
    let e = user_agent::<Skill>(Err(StoreError), AgentUse::Viewing).err().unwrap();
    assert_eq!((e.status, e.body.error), (Status::ServerError, Some("Database error".to_string())));
}

#[test]
fn requested_status_defaults_to_completed() {
    assert_eq!(requested_status(None), "completed");
    assert_eq!(requested_status(Some("cancelled".to_string())), "cancelled");
    let c = status_change::<Transaction>("t1", None).ok().unwrap();
    assert_eq!(c.transaction_id, "t1");
    assert_eq!(c.status, "completed");
    assert!(c.updated_at.ends_with("+00:00"));
}

#[test]
fn known_statuses() {
    for s in ["pending", "in_progress", "completed", "cancelled"] {
        assert!(is_known_status(&s.to_string()));
    }
    for s in ["bogus", "", "Completed", "in progress", "pending "] {
        assert!(!is_known_status(&s.to_string()));
    }
}

#[test]
fn unknown_status_is_refused() {
    let e = status_change::<Transaction>("t1", Some("bogus".to_string())).err().unwrap();
    assert_eq!(e.status, Status::BadRequest);
    assert_eq!(e.status.code(), 400);
    assert!(!e.body.success);
    assert_eq!(e.body.data, None);
    assert_eq!(
        e.body.error,
        Some("Invalid status: must be pending, in_progress, completed or cancelled".to_string())
    );
}

#[test]
fn status_change_at_the_given_time() {
    let c = status_change_at::<Transaction>("t9", Some("in_progress".to_string()), "NOW".to_string()).ok().unwrap();
    assert_eq!(c.transaction_id, "t9");
    assert_eq!(c.status, "in_progress");
    assert_eq!(c.updated_at, "NOW");
}

fn transaction(id: &str, buyer: &str, seller: &str) -> Transaction {
    Transaction {
        id: id.to_string(),
        buyer_agent_id: buyer.to_string(),
        seller_agent_id: seller.to_string(),
        skill_id: "k".to_string(),
        status: "pending".to_string(),
        amount: F64Bits(150.0f64.to_bits()),
        created_at: "C".to_string(),
        updated_at: "C".to_string(),
    }
}

#[test]
fn updated_transaction_changes_status_and_time_only() {
    let c = status_change_at::<Transaction>("t1", Some("completed".to_string()), "U".to_string()).ok().unwrap();
    let t = updated_transaction(c, Ok(Some(transaction("t1", "b", "s")))).ok().unwrap();
    let mut expected = transaction("t1", "b", "s");
    expected.status = "completed".to_string();
    expected.updated_at = "U".to_string();
    assert_eq!(t, expected);
}

#[test]
fn updated_transaction_of_a_missing_transaction() {
    let c = status_change_at::<Transaction>("t1", None, "U".to_string()).ok().unwrap();
    let e = updated_transaction(c.clone(), Ok(None)).err().unwrap();
    assert_eq!((e.status, e.body.error), (Status::NotFound, Some("Transaction not found".to_string())));
    let e = updated_transaction(c, Err(StoreError)).err().unwrap();
    assert_eq!((e.status, e.body.error), (Status::ServerError, Some("Database error".to_string())));
}

#[test]
fn status_update_replies() {
    let t = transaction("t1", "b", "s");
    let r = status_update_reply(t.clone(), Ok(1));
    assert_eq!(r.status, Status::Success);
    assert_eq!(r.body.data, Some(t.clone()));
    let r = status_update_reply(t.clone(), Ok(0));
    assert_eq!((r.status, r.body.error), (Status::NotFound, Some("Transaction not found".to_string())));
    assert_eq!(r.status.code(), 404);
    let r = status_update_reply(t, Err(StoreError));
    assert_eq!((r.status, r.body.error), (Status::ServerError, Some("Failed to update transaction".to_string())));
}

#[test]
fn user_agents_cases() {
    let ids = vec!["a1".to_string(), "a2".to_string()];
    assert_eq!(user_agents::<Skill>(Ok(ids.clone()), AgentUse::Viewing).ok(), Some(ids));
    let e = user_agents::<Skill>(Ok(vec![]), AgentUse::Viewing).err().unwrap();
    assert_eq!((e.status, e.body.error), (Status::NotFound, Some("Agent not found for user".to_string())));
    let e = user_agents::<Skill>(Ok(vec![]), AgentUse::Publishing).err().unwrap();
    assert_eq!(e.status, Status::BadRequest);
    let e = user_agents::<Skill>(Err(StoreError), AgentUse::Viewing).err().unwrap();
    assert_eq!((e.status, e.body.error), (Status::ServerError, Some("Database error".to_string())));
}

#[test]
fn listed_identifiers() {
    let ids = vec!["a1".to_string(), "a2".to_string()];
    assert!(listed(&ids, &"a2".to_string()));
    assert!(!listed(&ids, &"a3".to_string()));
    assert!(!listed(&vec![], &"a1".to_string()));
}

#[test]
fn skills_of_every_agent_of_the_user() {
    let mk = |id: &str, agent: &str| {
        let mut s = skill(id);
        s.agent_id = agent.to_string();
        s
    };
    let all = vec![mk("s1", "a1"), mk("s2", "x"), mk("s3", "a2"), mk("s4", "a1")];
    let ids = vec!["a1".to_string(), "a2".to_string()];
    let mine = skills_of_agents(&ids, all);
    let got: Vec<&str> = mine.iter().map(|s| s.id.as_str()).collect();
    assert_eq!(got, vec!["s1", "s3", "s4"]);
}

#[test]
fn transactions_of_every_agent_of_the_user() {
    let all = vec![
        transaction("t1", "a1", "x"),
        transaction("t2", "x", "y"),
        transaction("t3", "y", "a2"),
        transaction("t4", "a2", "a1"),
    ];
    let ids = vec!["a1".to_string(), "a2".to_string()];
    let mine = transactions_of_agents(&ids, all);
    let got: Vec<&str> = mine.iter().map(|t| t.id.as_str()).collect();
    assert_eq!(got, vec!["t1", "t3", "t4"]);
}

fn skill(id: &str) -> Skill {
    Skill {
        id: id.to_string(),
        agent_id: "a1".to_string(),
        title: "t".to_string(),
        description: None,
        category: "c".to_string(),
        price: F64Bits(1.0f64.to_bits()),
        created_at: "T".to_string(),
        updated_at: "T".to_string(),
    }
}

#[test]
fn dashboard_counts_what_it_lists() {
    let d = dashboard(
        "a1".to_string(),
        Ok(vec![skill("s1"), skill("s2")]),
        Ok(vec![]),
        Ok(Some(F64Bits(2500.5f64.to_bits()))),
        Ok(F64Bits(4.8f64.to_bits())),
    );
    assert_eq!(d.agent_id, "a1");
    assert_eq!(d.skills_count, 2);
    assert_eq!(d.transactions_count, 0);
    assert_eq!(f64::from_bits(d.total_earnings.0), 2500.5);
    assert_eq!(f64::from_bits(d.reputation_score.0), 4.8);
}

#[test]
fn dashboard_failed_queries_count_as_empty() {
    let d = dashboard("a1".to_string(), Err(StoreError), Err(StoreError), Ok(None), Err(StoreError));
    assert_eq!(d.owned_skills.len(), 0);
    assert_eq!(d.skills_count, 0);
    assert_eq!(d.total_earnings, F64Bits(0));
    assert_eq!(d.reputation_score, F64Bits(0));
    let d2 = dashboard("a1".to_string(), Ok(vec![]), Ok(vec![]), Err(StoreError), Ok(F64Bits(7)));
    assert_eq!(d2.total_earnings, F64Bits(0));
    assert_eq!(d2.reputation_score, F64Bits(7));
}

fn agent() -> Agent {
    agent_record("a1".to_string(), "u1".to_string(), &agent_body(), "T".to_string())
}

#[test]
fn stats_of_a_missing_agent() {
    let e = stats_agent(Ok(None)).err().unwrap();
    assert_eq!((e.status, e.body.error), (Status::NotFound, Some("Agent not found".to_string())));
    let e = stats_agent(Err(StoreError)).err().unwrap();
    assert_eq!(e.status, Status::NotFound);
    assert_eq!(stats_agent(Ok(Some(agent()))).ok(), Some(agent()));
}

#[test]
fn agent_stats_values() {
    let s = agent_stats(agent(), Ok(5), Err(StoreError), Ok(Some(F64Bits(3))));
    assert_eq!(s.skills_count, 5);
    assert_eq!(s.transactions_count, 0);
    assert_eq!(s.total_earnings, F64Bits(3));
    assert_eq!(s.reputation_score, agent().reputation_score);
    assert_eq!(s.agent, agent());
}

#[test]
fn search_without_parameters() {
    let q = SearchQuery { q: None, category: None, min_price: None, max_price: None };
    let st = search_statement(&q);
    assert_eq!(
        st.sql,
        "SELECT id, agent_id, title, description, category, price, created_at, updated_at FROM skills WHERE 1=1 LIMIT 50"
    );
    assert!(st.args.is_empty());
    let q2 = SearchQuery { q: Some(String::new()), category: None, min_price: None, max_price: None };
    assert_eq!(search_statement(&q2), st);
}

#[test]
fn search_with_every_parameter() {
    let q = SearchQuery {
        q: Some("data".to_string()),
        category: Some("Data Analysis".to_string()),
        min_price: Some(F64Bits(100.0f64.to_bits())),
        max_price: Some(F64Bits(500.5f64.to_bits())),
    };
    let st = search_statement(&q);
    assert_eq!(
        st.sql,
        "SELECT id, agent_id, title, description, category, price, created_at, updated_at FROM skills WHERE 1=1 AND (title LIKE ? OR description LIKE ?) AND category = ? AND price >= ? AND price <= ? LIMIT 50"
    );
    assert_eq!(st.args, vec![
        SqlArg::Text("%data%".to_string()),
        SqlArg::Text("%data%".to_string()),
        SqlArg::Text("Data Analysis".to_string()),
        SqlArg::Real(F64Bits(100.0f64.to_bits())),
        SqlArg::Real(F64Bits(500.5f64.to_bits())),
    ]);
    assert_eq!(st.sql.matches('?').count(), st.args.len());
}

#[test]
fn search_text_never_enters_the_statement() {
    let plain = SearchQuery { q: Some("x".to_string()), category: Some("c".to_string()), min_price: None, max_price: None };
    let quoted = SearchQuery {
        q: Some("x' OR '1'='1".to_string()),
        category: Some("c'; DROP TABLE skills; --".to_string()),
        min_price: None,
        max_price: None,
    };
    let a = search_statement(&plain);
    let b = search_statement(&quoted);
    assert_eq!(a.sql, b.sql);
    assert_eq!(b.args[2], SqlArg::Text("c'; DROP TABLE skills; --".to_string()));
}

#[test]
fn search_with_only_price_bounds() {
    let q = SearchQuery { q: None, category: None, min_price: None, max_price: Some(F64Bits(7)) };
    let st = search_statement(&q);
    assert!(st.sql.ends_with("WHERE 1=1 AND price <= ? LIMIT 50"));
    assert_eq!(st.args, vec![SqlArg::Real(F64Bits(7))]);
}

#[test]
fn default_page() {
    assert_eq!(page(None, None), Page { limit: 50, offset: 0 });
    assert_eq!(DEFAULT_PAGE_SIZE, 50);
    assert_eq!(MAX_PAGE_SIZE, 100);
}

#[test]
fn page_from_parameters() {
    assert_eq!(page(Some("20"), Some("40")), Page { limit: 20, offset: 40 });
    assert_eq!(page(Some("0"), Some("0")), Page { limit: 0, offset: 0 });
    assert_eq!(page(Some("100"), None), Page { limit: 100, offset: 0 });
}

#[test]
fn page_size_is_capped() {
    assert_eq!(page(Some("101"), None).limit, 100);
    assert_eq!(page(Some("99999999999999999999999999"), None).limit, 100);
    assert_eq!(page(None, Some("99999999999999999999999999")).offset, i64::MAX);
}

#[test]
fn page_ignores_what_is_not_a_number() {
    assert_eq!(page(Some("abc"), Some("x1")), Page { limit: 50, offset: 0 });
    assert_eq!(page(Some(""), Some("")), Page { limit: 50, offset: 0 });
    assert_eq!(page(Some("-1"), Some("+3")), Page { limit: 50, offset: 0 });
    assert_eq!(page(Some("1 0"), Some("٣")), Page { limit: 50, offset: 0 });
}

#[test]
fn numerals_are_read_with_a_cap() {
    assert_eq!(parse_capped("007", 1000), Some(7));
    assert_eq!(parse_capped("1000", 999), Some(999));
    assert_eq!(parse_capped("18446744073709551616", u64::MAX), Some(u64::MAX));
    assert_eq!(parse_capped("12a", 1000), None);
    assert_eq!(parse_capped("", 1000), None);
    assert_eq!(parse_capped("9", 5), Some(5));
}

#[test]
fn chat_reply_quotes_the_message() {
    assert_eq!(
        chat_reply("hello"),
        "[DEMO MODE] Aura On-Device Engine: 'hello'. Privacy-first AI. Auth, Agents, Skills coming post-YC."
    );
}

#[test]
fn chat_response_fields() {
    let r = chat_response(chat_reply("hi"), 3);
    assert_eq!(r.reply, "[DEMO MODE] Aura On-Device Engine: 'hi'. Privacy-first AI. Auth, Agents, Skills coming post-YC.");
    assert_eq!(r.model, "Aura-Core-Rust-1.88");
    assert_eq!(r.latency_ms, 3);
    assert!(r.private);
}

#[test]
fn health_report() {
    let s = service_status();
    assert_eq!(s.status, "live");
    assert_eq!(s.service, "Aura Rust Core");
    assert_eq!(s.version, "0.1.0-yc");
    assert_eq!(s.rust, "1.88");
    assert_eq!(s.modules, vec!["chat".to_string(), "health".to_string()]);
}

#[test]
fn messages_of_each_kind_of_record() {
    assert_eq!(Resource::Skill.not_found_message(), "Skill not found");
    assert_eq!(Resource::Transaction.not_found_message(), "Transaction not found");
    assert_eq!(Resource::Skill.create_failure_message(), "Failed to create skill");
    assert_eq!(Resource::Transaction.create_failure_message(), "Failed to create transaction");
    let r = found_reply::<u8>(Ok(None), Resource::Transaction);
    assert_eq!(r.body.error, Some("Transaction not found".to_string()));
}

#[test]
fn user_transactions_are_capped_at_one_hundred() {
    let mut all = Vec::new();
    for i in 0..105 {
        all.push(transaction(&format!("t{}", i), "a1", "x"));
        all.push(transaction(&format!("o{}", i), "x", "y"));
    }
    let ids = vec!["a1".to_string()];
    let mine = transactions_of_agents(&ids, all);
    assert_eq!(mine.len(), 100);
    assert_eq!(mine[0].id, "t0");
    assert_eq!(mine[99].id, "t99");
}

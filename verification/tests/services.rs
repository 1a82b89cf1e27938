use repo_reaper::ai_local::{
    configured_url, gateway_root, health_url, is_local_openai_base, models_url, normalize,
    openai_base_url,
};
use repo_reaper::github::{
    api_url, auth_header, fork_branch_ref_path, fork_branches_path, fork_path, head_ref,
    is_duplicate, issue_context_text, latest_review_state, merged_branch, rate_limit_info,
    repo_short_name, CommentFacts,
};
use repo_reaper::llm::{
    agent_or_env_key, chat_completions_url, cooling_down_message, cost_rates, estimate_cost_units,
    gemini_url, groq_base_url, is_rate_limit_error, mentions_rate_limit, ollama_base_url,
    ollama_chat_url, openai_bearer, parse_json, route, strip_json_fence, unknown_provider_message,
    Cooldowns, CostRates, ProviderRoute,
};
use repo_reaper::webhook::{
    cron_next, followup_base, followup_body, followup_branch, followup_dir, followup_message,
    handle_delivery, route_webhook, signature_ok, toggled, NextRun, WebhookDecision, WebhookFacts,
};

#[test]
fn configured_url_takes_trimmed_non_blank_values() {
    assert_eq!(configured_url(Some("  http://x/v1/ ")), Some("http://x/v1/".to_string()));
    assert_eq!(configured_url(Some("   ")), None);
    assert_eq!(configured_url(None), None);
}

#[test]
fn openai_base_prefers_gateway_then_env_then_public() {
    assert_eq!(openai_base_url(None, None), "https://api.openai.com/v1");
    assert_eq!(openai_base_url(None, Some("http://o")), "http://o");
    assert_eq!(openai_base_url(Some(" "), Some(" http://o ")), "http://o");
    assert_eq!(openai_base_url(Some("http://g"), Some("http://o")), "http://g");
}

#[test]
fn gateway_urls_drop_trailing_slashes_and_v1() {
    assert_eq!(normalize(" http://h/v1// "), "http://h/v1");
    assert_eq!(gateway_root("http://h:8787/v1/"), "http://h:8787");
    assert_eq!(gateway_root("http://h"), "http://h");
    assert_eq!(health_url("http://h:8787/v1/"), "http://h:8787/health");
    assert_eq!(models_url("http://h:8787/v1"), "http://h:8787/v1/models");
}

#[test]
fn local_bases_are_recognised() {
    assert!(is_local_openai_base("http://LOCALHOST:1/v1", None));
    assert!(is_local_openai_base("http://127.0.0.1:8787/v1", None));
    assert!(!is_local_openai_base("https://api.openai.com/v1", None));
    assert!(is_local_openai_base("https://gw.example/v1/", Some("https://gw.example/v1")));
}

#[test]
fn providers_route_to_their_api() {
    assert_eq!(route("groq"), ProviderRoute::Groq);
    assert_eq!(route("anthropic"), ProviderRoute::Anthropic);
    assert_eq!(route("Groq"), ProviderRoute::Unknown);
    assert_eq!(cooling_down_message("openai"), "Provider openai is cooling down");
    assert_eq!(unknown_provider_message("x"), "Unknown provider: x");
    assert_eq!(groq_base_url(None), "https://api.groq.com/openai/v1");
    assert_eq!(ollama_base_url(Some("http://o:1")), "http://o:1");
    assert_eq!(chat_completions_url("http://b"), "http://b/chat/completions");
    assert_eq!(ollama_chat_url("http://b"), "http://b/api/chat");
    assert_eq!(
        gemini_url("gemini-pro", "K"),
        "https://generativelanguage.googleapis.com/v1beta/models/gemini-pro:generateContent?key=K"
    );
}

#[test]
fn keys_come_from_agent_then_environment() {
    assert_eq!(agent_or_env_key(Some("a"), Some("e")), Some("a".to_string()));
    assert_eq!(agent_or_env_key(None, Some("e")), Some("e".to_string()));
    assert_eq!(openai_bearer(Some("  "), Some("env"), false), None);
    assert_eq!(openai_bearer(None, Some("env"), false), Some("env".to_string()));
    assert_eq!(openai_bearer(None, None, true), Some("patchhive-local".to_string()));
    assert_eq!(openai_bearer(None, None, false), None);
}

#[test]
fn cost_table_matches_models() {
    assert_eq!(cost_rates("anthropic", "opus-3"), CostRates { input: 15000, output: 75000 });
    assert_eq!(cost_rates("anthropic", "sonnet-4"), CostRates { input: 3000, output: 15000 });
    assert_eq!(cost_rates("anthropic", "haiku-3"), CostRates { input: 250, output: 1250 });
    assert_eq!(cost_rates("openai", "gpt-4o-mini"), CostRates { input: 150, output: 600 });
    assert_eq!(cost_rates("openai", "gpt-4o"), CostRates { input: 2500, output: 10000 });
    assert_eq!(cost_rates("openai", "o3"), CostRates { input: 2500, output: 10000 });
    assert_eq!(cost_rates("gemini", "x"), CostRates { input: 350, output: 1050 });
    assert_eq!(cost_rates("groq", "x"), CostRates { input: 590, output: 790 });
    assert_eq!(cost_rates("ollama", "x"), CostRates { input: 0, output: 0 });
    assert_eq!(cost_rates("other", "m"), CostRates { input: 3000, output: 15000 });
}

#[test]
fn cost_estimate_counts_quarter_tokens() {
    assert_eq!(estimate_cost_units("ab", "cd", "xyz", "openai", "gpt-4o"), 40000);
    assert_eq!(estimate_cost_units("é", "", "", "groq", "x"), 2 * 590);
}

#[test]
fn json_fences_are_stripped() {
    assert_eq!(strip_json_fence("  ```json\n{\"a\":1}\n```  "), "{\"a\":1}");
    assert_eq!(strip_json_fence("```\n[1]\n```"), "[1]");
    assert_eq!(strip_json_fence("{}"), "{}");
}

#[test]
fn replies_parse_as_json_or_report_raw_text() {
    let v = parse_json("```json\n{\"a\": 1}\n```").ok().unwrap();
    assert_eq!(v["a"].as_i64(), Some(1));
    let e = parse_json("not json").err().unwrap();
    assert!(e.starts_with("JSON parse error: "));
    assert!(e.ends_with("\nRaw: not json"));
}

#[test]
fn rate_limits_are_read_case_insensitively() {
    assert!(is_rate_limit_error("HTTP 429 Too Many Requests"));
    assert!(is_rate_limit_error("Rate Limit exceeded"));
    assert!(is_rate_limit_error("QUOTA used up"));
    assert!(!is_rate_limit_error("connection refused"));
    assert!(mentions_rate_limit("quota"));
    assert!(!mentions_rate_limit("Quota"));
}

#[test]
fn cooldown_blocks_a_provider_until_it_expires() {
    let mut c = Cooldowns::new();
    assert!(c.provider_available("openai", 0));
    c.set_cooldown("openai", 90, 1000);
    assert!(!c.provider_available("openai", 90_999));
    assert!(c.provider_available("openai", 91_000));
    assert!(c.provider_available("groq", 1000));
    assert_eq!(c.get_cooldowns(1000), vec![("openai".to_string(), 90_000)]);
    assert!(c.get_cooldowns(91_000).is_empty());
    c.set_cooldown("openai", 10, 2000);
    assert_eq!(c.entries.len(), 1);
    assert!(c.provider_available("openai", 12_000));
    c.clear_cooldown("openai");
    assert!(c.provider_available("openai", 2000));
}

#[test]
fn rate_limit_errors_start_a_cooldown() {
    let mut c = Cooldowns::new();
    assert!(c.note_call_error("groq", "Groq 429: slow down", 0));
    assert!(!c.provider_available("groq", 89_999));
    assert!(!c.note_call_error("gemini", "bad request", 0));
    assert!(c.provider_available("gemini", 0));
}

#[test]
fn a_rate_limited_provider_is_refused_for_ninety_seconds() {
    let mut c = Cooldowns::new();
    assert_eq!(c.admit_call("openai", 5), Ok(ProviderRoute::OpenAi));
    assert_eq!(c.admit_call("mystery", 5), Ok(ProviderRoute::Unknown));
    assert!(c.note_call_error("openai", "Rate Limit exceeded", 1000));
    assert_eq!(c.admit_call("openai", 1000), Err("Provider openai is cooling down".to_string()));
    assert_eq!(c.admit_call("openai", 90_999), Err("Provider openai is cooling down".to_string()));
    assert_eq!(c.admit_call("openai", 91_000), Ok(ProviderRoute::OpenAi));
    assert_eq!(c.admit_call("groq", 1000), Ok(ProviderRoute::Groq));
    assert!(!c.note_call_error("groq", "timeout", 1000));
    assert_eq!(c.admit_call("groq", 1000), Ok(ProviderRoute::Groq));
}

#[test]
fn github_requests_are_authorised_with_a_token() {
    assert_eq!(auth_header(None, ""), None);
    assert_eq!(auth_header(Some("t"), "e"), Some("Bearer t".to_string()));
    assert_eq!(auth_header(None, "e"), Some("Bearer e".to_string()));
    assert_eq!(auth_header(Some(""), "e"), None);
    assert_eq!(api_url("/rate_limit"), "https://api.github.com/rate_limit");
}

#[test]
fn fork_paths_use_the_short_repo_name() {
    assert_eq!(repo_short_name("acme/widget"), "widget");
    assert_eq!(repo_short_name("solo"), "solo");
    assert_eq!(fork_path("bot", "acme/widget"), "/repos/bot/widget");
    assert_eq!(fork_branches_path("bot", "acme/widget"), "/repos/bot/widget/branches");
    assert_eq!(
        fork_branch_ref_path("bot", "acme/widget", "reaper/issue-1"),
        "/repos/bot/widget/git/refs/heads/reaper/issue-1"
    );
    assert_eq!(head_ref("bot", "b"), "bot:b");
}

#[test]
fn duplicates_are_open_prs_or_existing_branches() {
    assert!(is_duplicate(0, &vec![None, Some("reaper/issue-1".to_string())], "reaper/issue-1"));
    assert!(is_duplicate(1, &vec![], "x"));
    assert!(!is_duplicate(0, &vec![Some("main".to_string())], "x"));
}

#[test]
fn issue_context_takes_ten_comments() {
    let mut comments = Vec::new();
    for i in 0..12 {
        comments.push(CommentFacts { login: Some(format!("u{i}")), body: Some(format!("c{i}")) });
    }
    comments[0].login = None;
    comments[1].body = Some("x".repeat(700));
    let text = issue_context_text(&comments);
    let parts: Vec<&str> = text.split("\n\n").collect();
    assert_eq!(parts.len(), 10);
    assert_eq!(parts[0], "**@?**: c0");
    assert_eq!(parts[1], format!("**@u1**: {}", "x".repeat(600)));
    assert_eq!(parts[9], "**@u9**: c9");
    assert_eq!(issue_context_text(&vec![]), "");
}

#[test]
fn rate_limit_reset_is_never_negative() {
    let r = rate_limit_info(Some(10), None, Some(2000), 1000);
    assert_eq!((r.remaining, r.limit, r.reset_at, r.reset_in), (10, 5000, 2000, 1000));
    let s = rate_limit_info(None, Some(60), Some(500), 1000);
    assert_eq!((s.remaining, s.limit, s.reset_at, s.reset_in), (0, 60, 500, 0));
}

#[test]
fn latest_review_state_skips_other_states() {
    let s = |v: &str| Some(v.to_string());
    assert_eq!(latest_review_state(&vec![s("APPROVED"), s("DISMISSED"), None]), "APPROVED");
    assert_eq!(latest_review_state(&vec![s("COMMENTED"), s("CHANGES_REQUESTED")]), "CHANGES_REQUESTED");
    assert_eq!(latest_review_state(&vec![]), "");
    assert_eq!(merged_branch(None, 7), "reaper/issue-7");
    assert_eq!(merged_branch(Some(3), 7), "reaper/issue-3");
}

const JEFE_MAC: &str = "5bdcc146bf60754e6a042426089575c75a003f089d2739839dec58b964ec3843";

#[test]
fn signatures_are_checked_when_a_secret_is_set() {
    let body = b"what do ya want for nothing?";
    assert!(!signature_ok("", None, body));
    let sig = format!("sha256={JEFE_MAC}");
    assert!(signature_ok("Jefe", Some(&sig), body));
    let upper = format!("sha256={}", JEFE_MAC.to_uppercase());
    assert!(signature_ok("Jefe", Some(&upper), body));
    assert!(!signature_ok("Jefe", Some(&sig), b"what do ya want for something?"));
    assert!(!signature_ok("Jefe", Some(JEFE_MAC), body));
    assert!(!signature_ok("Jefe", None, body));
    assert!(!signature_ok("Jefe", Some("sha256=abc"), body));
    assert!(!signature_ok("Jefe", Some("sha256=zz"), body));
}

fn facts(event: &str, action: Option<&str>, labels: &[&str], is_pr: bool, who: Option<&str>) -> WebhookFacts {
    WebhookFacts {
        event: event.to_string(),
        action: action.map(|a| a.to_string()),
        labels: labels.iter().map(|l| l.to_string()).collect(),
        issue_number: Some(5),
        issue_is_pr: is_pr,
        commenter: who.map(|w| w.to_string()),
    }
}

#[test]
fn deliveries_trigger_fixes_and_followups() {
    let bug = facts("issues", Some("opened"), &["bug"], false, None);
    assert_eq!(route_webhook(&bug, true, "bot"), WebhookDecision::FixNewBug { issue: 5 });
    assert_eq!(route_webhook(&bug, false, "bot"), WebhookDecision::NotWatched);
    let feature = facts("issues", Some("opened"), &["feature"], false, None);
    assert_eq!(route_webhook(&feature, true, "bot"), WebhookDecision::NotWatched);
    let comment = facts("issue_comment", Some("created"), &[], true, Some("maintainer"));
    assert_eq!(route_webhook(&comment, true, "bot"), WebhookDecision::PrComment);
    let own = facts("issue_comment", Some("created"), &[], true, Some("bot"));
    assert_eq!(route_webhook(&own, true, "bot"), WebhookDecision::Ignored);
    let push = facts("push", None, &[], false, None);
    assert_eq!(route_webhook(&push, true, "bot"), WebhookDecision::Ignored);
}

#[test]
fn without_a_secret_every_delivery_is_refused() {
    let body = b"what do ya want for nothing?";
    let sig = format!("sha256={JEFE_MAC}");
    let bug = facts("issues", Some("opened"), &["bug"], false, None);
    assert!(!signature_ok("", Some(&sig), body));
    assert_eq!(handle_delivery("", Some(&sig), body, &bug, true, "bot"), None);
    assert_eq!(handle_delivery("", None, body, &bug, true, "bot"), None);
    assert_eq!(handle_delivery("Jefe", None, body, &bug, true, "bot"), None);
    assert_eq!(
        handle_delivery("Jefe", Some(&sig), body, &bug, true, "bot"),
        Some(WebhookDecision::FixNewBug { issue: 5 })
    );
}

#[test]
fn followups_name_their_branch_and_body() {
    assert_eq!(followup_branch(12), "reaper/followup-12");
    assert_eq!(followup_dir(12), "/tmp/repo-reaper/followup-12");
    assert_eq!(followup_message(12), "fix: follow-up based on maintainer feedback (re #12)");
    assert_eq!(
        followup_body(12, "please fix", "changed x"),
        "Follow-up fix based on maintainer feedback on #12.\n\n**Maintainer:** please fix\n\n**What changed:** changed x\n\n*RepoReaper by PatchHive*"
    );
    assert_eq!(followup_base(None, Some("dev".to_string())), "dev");
    assert_eq!(followup_base(Some("rel".to_string()), Some("dev".to_string())), "rel");
    assert_eq!(followup_base(None, None), "main");
}

#[test]
fn schedules_run_after_now() {
    assert_eq!(cron_next("hourly", 1000), NextRun { at_secs: 4600, on_the_second: false });
    assert_eq!(cron_next("nightly", 1000), NextRun { at_secs: 86400, on_the_second: true });
    assert_eq!(cron_next("nightly", 86399), NextRun { at_secs: 86400, on_the_second: true });
    assert_eq!(cron_next("nightly", -1), NextRun { at_secs: 0, on_the_second: true });
    assert_eq!(cron_next("nightly", -86401), NextRun { at_secs: -86400, on_the_second: true });
    assert_eq!(cron_next("weekly", 0), NextRun { at_secs: 604800, on_the_second: false });
    assert_eq!(cron_next("every tuesday", 0), NextRun { at_secs: 86400, on_the_second: false });
    assert_eq!(toggled(0), 1);
    assert_eq!(toggled(5), 0);
}

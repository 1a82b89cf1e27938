use repo_reaper::agent::AgentConfig;
use repo_reaper::settings::{
    clean_model_ids, clean_optional, config_updates, config_view, discovery_plan, endpoint,
    env_value_from_content, gemini_model_id, model_listing, normalize_repo_list_type,
    provider_api_key, reset_agent, role_table, setting_value, static_provider_models,
    updated_env_content, ConfigEnv, ConfigFields, DiscoveryEnv, DiscoveryPlan, KeyEnv,
};
use repo_reaper::startup::{
    count_errors, health_status, perf_column, ready_providers, startup_checks, CheckLevel,
    GatewayProvider, GatewayReport,
    GithubProbe, StartupFacts,
};

fn no_keys() -> KeyEnv {
    KeyEnv {
        anthropic: None,
        openai: None,
        gemini: None,
        google: None,
        groq: None,
        custom: None,
        provider: None,
    }
}

fn env(gateway: bool) -> DiscoveryEnv {
    DiscoveryEnv {
        gateway_configured: gateway,
        openai_base_url: None,
        groq_base_url: None,
        custom_base_url: None,
        ollama_base_url: None,
        keys: no_keys(),
    }
}

#[test]
fn providers_have_builtin_model_lists() {
    assert_eq!(
        static_provider_models("groq"),
        vec!["llama-3.3-70b-versatile", "llama-3.1-8b-instant", "mixtral-8x7b-32768"]
    );
    assert_eq!(static_provider_models("openai").len(), 19);
    assert!(static_provider_models("unknown").is_empty());
    let roles: Vec<String> = role_table().into_iter().map(|r| r.id).collect();
    assert_eq!(roles, vec!["scout", "judge", "reaper", "smith", "gatekeeper"]);
}

#[test]
fn repo_list_types_are_normalised() {
    assert_eq!(normalize_repo_list_type(" Opt-Out "), Some("opt_out"));
    assert_eq!(normalize_repo_list_type("BLOCKLIST"), Some("denylist"));
    assert_eq!(normalize_repo_list_type("allowlist"), Some("allowlist"));
    assert_eq!(normalize_repo_list_type("x"), None);
}

#[test]
fn env_file_values_are_read_from_the_first_matching_line() {
    let content = "# c\nA=1\n  B = two  \nB=3\n";
    assert_eq!(env_value_from_content(content, "B"), Some("two".to_string()));
    assert_eq!(env_value_from_content(content, "A"), Some("1".to_string()));
    assert_eq!(env_value_from_content(content, "C"), None);
    assert_eq!(env_value_from_content("#A=1\nX\n", "A"), None);
    assert_eq!(env_value_from_content("A=1=2\r\n", "A"), Some("1=2".to_string()));
    assert_eq!(setting_value(None, Some("p")), "p");
    assert_eq!(setting_value(Some("f".to_string()), Some("p")), "f");
    assert_eq!(setting_value(None, None), "");
}

#[test]
fn saving_replaces_assignments_and_appends_updates() {
    let updates = vec![("B".to_string(), "9".to_string()), ("D".to_string(), "4".to_string())];
    assert_eq!(updated_env_content("A=1\n  B=2\nC=3", &updates), "A=1\nC=3\nB=9\nD=4\n");
    assert_eq!(updated_env_content("", &vec![]), "");
    let written = updated_env_content("# keep\nX=1\n", &vec![("X".to_string(), " v ".to_string())]);
    assert_eq!(written, "# keep\nX= v \n");
    assert_eq!(env_value_from_content(&written, "X"), Some("v".to_string()));
}

#[test]
fn masked_secrets_and_blank_values_are_not_saved() {
    let f = ConfigFields {
        bot_token: Some("(set)".to_string()),
        bot_user: Some("bob".to_string()),
        bot_email: None,
        api_key: Some("***".to_string()),
        patchhive_ai_url: None,
        ollama_url: None,
        webhook_secret: Some("s3cret".to_string()),
        cost_budget: Some(String::new()),
        min_conf: Some("*5".to_string()),
    };
    assert_eq!(
        config_updates(&f),
        vec![
            ("BOT_GITHUB_USER".to_string(), "bob".to_string()),
            ("WEBHOOK_SECRET".to_string(), "s3cret".to_string()),
            ("MIN_REVIEW_CONFIDENCE".to_string(), "*5".to_string()),
        ]
    );
}

#[test]
fn model_ids_are_trimmed_and_deduplicated() {
    let ids = vec![" a ".to_string(), String::new(), "b".to_string(), "a".to_string(), "  ".to_string()];
    assert_eq!(clean_model_ids(ids), vec!["a".to_string(), "b".to_string()]);
    assert_eq!(clean_optional(Some("  k ")), Some("k".to_string()));
    assert_eq!(clean_optional(Some("  ")), None);
}

#[test]
fn provider_keys_fall_back_in_order() {
    let mut k = no_keys();
    k.gemini = Some(" ".to_string());
    k.google = Some("g".to_string());
    k.provider = Some(" p ".to_string());
    assert_eq!(provider_api_key("gemini", &k), Some("g".to_string()));
    assert_eq!(provider_api_key("unknown", &k), Some("p".to_string()));
    k.openai = Some("o".to_string());
    assert_eq!(provider_api_key("custom", &k), Some("o".to_string()));
    assert_eq!(provider_api_key("anthropic", &no_keys()), None);
}

#[test]
fn model_listings_are_planned_per_provider() {
    assert!(matches!(discovery_plan("openai", None, None, &env(true)), Ok(DiscoveryPlan::Gateway)));
    match discovery_plan("openai", Some("k"), None, &env(true)) {
        Ok(DiscoveryPlan::OpenAiCompatible { base, key }) => {
            assert_eq!(base, "https://api.openai.com/v1");
            assert_eq!(key, Some("k".to_string()));
        },
        _ => panic!("expected an OpenAI-compatible listing"),
    }
    assert_eq!(
        discovery_plan("anthropic", None, None, &env(false)).err(),
        Some("No Anthropic API key available for model discovery".to_string())
    );
    assert_eq!(
        discovery_plan("gemini", None, None, &env(false)).err(),
        Some("No Gemini API key available for model discovery".to_string())
    );
    assert_eq!(
        discovery_plan("custom", None, None, &env(false)).err(),
        Some("No custom OpenAI-compatible base URL available for model discovery".to_string())
    );
    assert_eq!(discovery_plan("foo", None, None, &env(false)).err(), Some("Unknown provider: foo".to_string()));
    match discovery_plan("ollama", None, Some(" http://o/ "), &env(false)) {
        Ok(DiscoveryPlan::Ollama { base }) => assert_eq!(base, "http://o/"),
        _ => panic!("expected an Ollama listing"),
    }
    match discovery_plan("groq", None, None, &env(false)) {
        Ok(DiscoveryPlan::OpenAiCompatible { base, key }) => {
            assert_eq!(base, "https://api.groq.com/openai/v1");
            assert_eq!(key, None);
        },
        _ => panic!("expected a Groq listing"),
    }
}

#[test]
fn listings_fall_back_to_builtin_models() {
    let l = model_listing("foo", Ok((vec!["m".to_string()], "provider-api".to_string())));
    assert!(l.models.is_empty());
    assert_eq!(l.source, "unsupported");
    assert_eq!(l.error, Some("Unknown provider: foo".to_string()));
    let l = model_listing("groq", Ok((vec![], "provider-api".to_string())));
    assert_eq!(l.models.len(), 3);
    assert_eq!(l.source, "static_fallback");
    assert_eq!(l.error, Some("provider-api returned no models".to_string()));
    let l = model_listing("groq", Ok((vec!["m".to_string()], "provider-api".to_string())));
    assert_eq!(l.models, vec!["m".to_string()]);
    assert_eq!(l.source, "provider-api");
    assert_eq!(l.error, None);
    let l = model_listing("groq", Err("boom".to_string()));
    assert_eq!(l.source, "static_fallback");
    assert_eq!(l.error, Some("boom".to_string()));
}

#[test]
fn endpoints_and_model_ids_are_tidied() {
    assert_eq!(endpoint("http://o//", "/api/tags"), "http://o/api/tags");
    assert_eq!(gemini_model_id("models/gemini-pro"), "gemini-pro");
    assert_eq!(gemini_model_id("gemini-pro"), "gemini-pro");
}

#[test]
fn saved_agents_are_idle_with_an_id() {
    let a = AgentConfig {
        id: String::new(),
        name: "n".to_string(),
        role: "reaper".to_string(),
        provider: "openai".to_string(),
        model: "m".to_string(),
        api_key: None,
        bot_token: None,
        bot_user: None,
        status: "working".to_string(),
        current_task: "t".to_string(),
    };
    let r = reset_agent(a, "abcd1234".to_string());
    assert_eq!(r.id, "abcd1234");
    assert_eq!(r.status, "idle");
    assert_eq!(r.current_task, "");
}

fn all_set() -> StartupFacts {
    StartupFacts {
        bot_token_set: true,
        bot_user_set: true,
        provider_key_set: true,
        github: Some(GithubProbe::Valid { login: Some("reaper-bot".to_string()) }),
        gateway: None,
        repo_memory_configured: false,
        webhook_secret_set: true,
    }
}

#[test]
fn startup_checks_report_a_healthy_configuration() {
    let checks = startup_checks(&all_set());
    let msgs: Vec<&str> = checks.iter().map(|c| c.message.as_str()).collect();
    assert_eq!(
        msgs,
        vec![
            "BOT_GITHUB_TOKEN is set",
            "BOT_GITHUB_USER is set",
            "GitHub token valid — authenticated as @reaper-bot",
            "WEBHOOK_SECRET is set — GitHub webhook signatures will be verified",
        ]
    );
    assert!(checks.iter().all(|c| c.level == CheckLevel::Success));
    assert_eq!(count_errors(&checks), 0);
    assert_eq!(health_status(0, true), "ok");
}

#[test]
fn startup_checks_report_missing_settings() {
    let f = StartupFacts {
        bot_token_set: false,
        bot_user_set: false,
        provider_key_set: false,
        github: Some(GithubProbe::Unauthorized),
        gateway: Some(GatewayReport { ok: true, ready: vec!["codex".to_string(), "copilot".to_string()], error: None }),
        repo_memory_configured: true,
        webhook_secret_set: false,
    };
    let checks = startup_checks(&f);
    let msgs: Vec<&str> = checks.iter().map(|c| c.message.as_str()).collect();
    assert_eq!(msgs[0], "Missing BOT_GITHUB_TOKEN (GitHub PAT (repo + PR scopes)) — set in .env or Config panel");
    assert_eq!(msgs[1], "Missing BOT_GITHUB_USER (GitHub bot username) — set in .env or Config panel");
    assert_eq!(msgs[2], "PATCHHIVE_AI_URL is set — OpenAI-compatible agents can use the local Codex/Copilot gateway");
    assert_eq!(msgs[3], "No PROVIDER_API_KEY set — Anthropic, Gemini, and Groq agents still need per-agent or global keys");
    assert_eq!(msgs[4], "BOT_GITHUB_TOKEN is invalid or expired");
    assert_eq!(msgs[5], "PatchHive AI gateway reachable — ready providers: codex, copilot");
    assert_eq!(checks[6].level, CheckLevel::Info);
    assert_eq!(msgs[7], "WEBHOOK_SECRET is not set — the /webhook/github endpoint will reject webhook delivery until it is configured");
    assert_eq!(checks.len(), 8);
    assert_eq!(count_errors(&checks), 3);
    assert_eq!(health_status(3, true), "degraded");
    assert_eq!(health_status(0, false), "degraded");
}

#[test]
fn startup_checks_report_gateway_and_github_trouble() {
    let mut f = all_set();
    f.provider_key_set = false;
    f.github = Some(GithubProbe::OtherStatus { status: "403 Forbidden".to_string() });
    f.gateway = Some(GatewayReport { ok: false, ready: vec![], error: None });
    let msgs: Vec<String> = startup_checks(&f).into_iter().map(|c| c.message).collect();
    assert_eq!(msgs[4], "GitHub returned 403 Forbidden");
    assert_eq!(msgs[5], "PATCHHIVE_AI_URL is set, but the local AI gateway is not ready: unknown error");
    f.gateway = None;
    f.github = Some(GithubProbe::Unreachable { error: "dns".to_string() });
    let msgs: Vec<String> = startup_checks(&f).into_iter().map(|c| c.message).collect();
    assert_eq!(msgs[2], "No PROVIDER_API_KEY set — each agent must carry its own key");
    assert_eq!(msgs[3], "Could not validate GitHub token: dns");
}

#[test]
fn performance_counters_follow_outcomes() {
    assert_eq!(perf_column("fixed"), "total_fixed");
    assert_eq!(perf_column("skipped"), "total_skipped");
    assert_eq!(perf_column("error"), "total_errors");
}

#[test]
fn the_settings_page_never_receives_a_secret() {
    let env = ConfigEnv {
        bot_token: "ghp_abc".to_string(),
        bot_user: "reaper-bot".to_string(),
        bot_email: "bot@example.com".to_string(),
        api_key: String::new(),
        patchhive_ai_url: "http://127.0.0.1:8787/v1".to_string(),
        ollama_url: String::new(),
        webhook_secret: "s3cret".to_string(),
        cost_budget: "5".to_string(),
        min_conf: "40".to_string(),
    };
    let v = config_view(&env);
    assert_eq!(v.bot_token, "");
    assert!(v.bot_token_set);
    assert_eq!(v.api_key, "");
    assert!(!v.api_key_set);
    assert_eq!(v.webhook_secret, "");
    assert!(v.webhook_secret_set);
    assert_eq!(v.bot_user, "reaper-bot");
    assert_eq!(v.patchhive_ai_url, "http://127.0.0.1:8787/v1");
    assert_eq!(v.min_conf, "40");
}

#[test]
fn only_providers_that_are_up_and_logged_in_are_ready() {
    let p = |n: &str, ok: bool, logged_in: bool| GatewayProvider { name: n.to_string(), ok, logged_in };
    let listed = vec![p("codex", true, true), p("copilot", true, false), p("ollama", false, true), p("gemini", true, true)];
    assert_eq!(ready_providers(&listed), vec!["codex".to_string(), "gemini".to_string()]);
    assert!(ready_providers(&vec![]).is_empty());
}

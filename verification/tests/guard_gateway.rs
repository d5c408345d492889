use session_gateway::gateway::{failure_response, gateway_plan, GatewayFailure};
use session_gateway::guard::{classify_caller, split_ws, GuardDecision, TrustTier};
use session_gateway::ServerInfo;

#[test]
fn bot_header_is_admitted_with_its_token() {
    match classify_caller(Some("DiscordBot sometoken")) {
        GuardDecision::Admitted(TrustTier::Bot { token }) => assert_eq!(token, "sometoken"),
        _ => panic!("a bot header must be admitted"),
    }
}

#[test]
fn guild_header_is_admitted_with_its_identifier() {
    match classify_caller(Some("DiscordGuild 42")) {
        GuardDecision::Admitted(TrustTier::Guild { guild_id }) => assert_eq!(guild_id, "42"),
        _ => panic!("a guild header must be admitted"),
    }
}

#[test]
fn browser_header_is_rejected_as_unauthorized() {
    assert!(matches!(
        classify_caller(Some("Mozilla/5.0")),
        GuardDecision::Unauthorized
    ));
}

#[test]
fn absent_header_is_a_bad_request() {
    assert!(matches!(classify_caller(None), GuardDecision::BadRequest));
}

#[test]
fn wrong_token_counts_are_rejected() {
    assert!(matches!(classify_caller(Some("")), GuardDecision::Unauthorized));
    assert!(matches!(classify_caller(Some("DiscordBot")), GuardDecision::Unauthorized));
    assert!(matches!(
        classify_caller(Some("DiscordBot a b")),
        GuardDecision::Unauthorized
    ));
    assert!(matches!(
        classify_caller(Some("discordbot lowercase")),
        GuardDecision::Unauthorized
    ));
}

#[test]
fn header_tokenization_collapses_whitespace_runs() {
    assert_eq!(
        split_ws("  DiscordBot\t  tok  "),
        vec!["DiscordBot".to_string(), "tok".to_string()]
    );
    assert_eq!(split_ws(""), Vec::<String>::new());
    assert_eq!(split_ws("   \t "), Vec::<String>::new());
    assert_eq!(split_ws("one"), vec!["one".to_string()]);
}

#[test]
fn equal_shard_identifiers_resolve_to_the_same_instance() {
    let headers = vec![("upgrade".to_string(), "websocket".to_string())];
    let first = gateway_plan("abc", "GET", "https://api/guild/gateway/abc", &headers);
    let second = gateway_plan("abc", "GET", "https://api/guild/gateway/abc", &headers);
    assert_eq!(first.instance_name, second.instance_name);
    let other = gateway_plan("xyz", "GET", "https://api/guild/gateway/xyz", &headers);
    assert_ne!(first.instance_name, other.instance_name);
}

#[test]
fn forwarded_request_keeps_url_and_headers() {
    let headers = vec![
        ("upgrade".to_string(), "websocket".to_string()),
        ("x-custom".to_string(), "kept".to_string()),
    ];
    let plan = gateway_plan("abc", "GET", "https://api/guild/gateway/abc", &headers);
    assert_eq!(plan.method, "GET");
    assert_eq!(plan.url, "https://api/guild/gateway/abc");
    assert_eq!(plan.headers, headers);
}

#[test]
fn every_gateway_failure_answers_distinctly() {
    let failures = [
        GatewayFailure::InstanceLookup,
        GatewayFailure::InvalidId,
        GatewayFailure::StubAcquire,
        GatewayFailure::RequestBuild,
        GatewayFailure::HeaderCopy,
        GatewayFailure::Forward,
    ];
    let responses: Vec<(u16, String)> = failures.iter().map(|f| failure_response(*f)).collect();
    for i in 0..responses.len() {
        for j in 0..responses.len() {
            if i != j {
                assert_ne!(responses[i].0, responses[j].0);
                assert_ne!(responses[i].1, responses[j].1);
            }
        }
    }
    assert_eq!(
        failure_response(GatewayFailure::InvalidId),
        (400, "Invalid object ID".to_string())
    );
    assert_eq!(
        failure_response(GatewayFailure::Forward),
        (502, "Error fetching durable object".to_string())
    );
}

#[test]
fn server_info_hands_back_its_urls() {
    let info = ServerInfo::new("https://api.example".to_string(), "https://web.example".to_string());
    assert_eq!(info.api_host(), "https://api.example");
    assert_eq!(info.webpage(), "https://web.example");
}

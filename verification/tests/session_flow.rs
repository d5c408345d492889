use session_gateway::auth::DiscordOAuthAccessToken;
use session_gateway::cookie::CookieJar;
use session_gateway::session::{
    add_success_cookies, logout, redirect_callback_begin, redirect_callback_finish,
    remove_error_cookies, set_cookies, status_after_profile, status_after_refresh, status_begin,
    CallbackOutcome, CallbackStep, RefreshFollowUp, StatusOutcome, StatusStep, UpstreamError,
};
use session_gateway::user::DiscordUser;
use session_gateway::ServerInfo;

fn jar_from(lines: &[&str]) -> CookieJar {
    let headers: Vec<String> = lines.iter().map(|s| s.to_string()).collect();
    CookieJar::from_headers(&headers)
}

fn server() -> ServerInfo {
    ServerInfo::new(
        "https://api.example".to_string(),
        "http://localhost:5173".to_string(),
    )
}

fn token() -> DiscordOAuthAccessToken {
    DiscordOAuthAccessToken::new(
        "new-access".to_string(),
        "new-refresh".to_string(),
        "Bearer".to_string(),
        604800,
        "identify guilds email".to_string(),
    )
}

fn profile() -> DiscordUser {
    DiscordUser {
        id: "80351110224678912".to_string(),
        username: "Nelly".to_string(),
        discriminator: "1337".to_string(),
        global_name: Some("Nelly".to_string()),
        bot: Some(false),
        avatar: Some("8342729096ea3675442027381ff50dfe".to_string()),
        verified: true,
        email: Some("nelly@example.com".to_string()),
        flags: 64,
        banner: None,
        accent_color: Some(16711680),
        premium_type: 1,
        public_flags: 64,
    }
}

#[test]
fn status_with_access_cookie_never_refreshes() {
    let jar = jar_from(&["discord_token=live-token"]);
    match status_begin(&jar, true) {
        StatusStep::FetchProfile { access_token } => assert_eq!(access_token, "live-token"),
        _ => panic!("an unexpired access cookie must go straight to the profile fetch"),
    }
    // even without provider configuration: no refresh would be needed
    assert!(matches!(
        status_begin(&jar, false),
        StatusStep::FetchProfile { .. }
    ));
}

#[test]
fn status_with_only_refresh_cookie_attempts_refresh() {
    let jar = jar_from(&["discord_refresh_token=long-lived"]);
    match status_begin(&jar, true) {
        StatusStep::Refresh { refresh_token } => assert_eq!(refresh_token, "long-lived"),
        _ => panic!("a lone refresh cookie must lead to a refresh attempt"),
    }
}

#[test]
fn status_logged_out_is_unauthorized_without_any_call() {
    let jar = jar_from(&[""]);
    assert!(matches!(status_begin(&jar, true), StatusStep::Unauthorized));
}

#[test]
fn status_needing_refresh_without_config_is_a_server_error() {
    let jar = jar_from(&["discord_refresh_token=r"]);
    assert!(matches!(status_begin(&jar, false), StatusStep::ServerError));
}

#[test]
fn refresh_success_then_profile_success_updates_cookies() {
    let jar = jar_from(&["discord_refresh_token=long-lived"]);
    let follow = status_after_refresh(&jar, Ok(token()));
    let (access_token, refreshed) = match follow {
        RefreshFollowUp::FetchProfile { access_token, refreshed } => (access_token, refreshed),
        RefreshFollowUp::Unauthorized => panic!("a successful refresh must fetch the profile"),
    };
    assert_eq!(access_token, "new-access");
    let headers = refreshed.set_cookie_headers();
    assert_eq!(
        headers,
        vec![
            "discord_token=new-access; Path=/; HttpOnly; Secure; SameSite=None; Max-Age=604800"
                .to_string(),
            "discord_refresh_token=new-refresh; Path=/; HttpOnly; Secure; SameSite=None"
                .to_string(),
        ]
    );
    let outcome = status_after_profile(&jar, Some(refreshed), Ok(profile()));
    match outcome {
        StatusOutcome::Authorized { user, set_cookies } => {
            assert_eq!(user.username, "Nelly");
            assert_eq!(set_cookies.expect("refreshed cookies").set_cookie_headers().len(), 2);
        },
        StatusOutcome::Unauthorized { .. } => panic!("both calls succeeded"),
    }
}

#[test]
fn refresh_failure_is_unauthorized_and_leaves_cookies_untouched() {
    let jar = jar_from(&["discord_refresh_token=long-lived"]);
    let follow = status_after_refresh(&jar, Err(UpstreamError::RequestFailed));
    assert!(matches!(follow, RefreshFollowUp::Unauthorized));
    // the inbound jar has no recorded change: no Set-Cookie is emitted
    assert_eq!(jar.set_cookie_headers().len(), 0);
}

#[test]
fn profile_failure_clears_both_session_cookies() {
    let jar = jar_from(&["discord_token=fresh"]);
    let outcome = status_after_profile(&jar, None, Err(UpstreamError::Unauthorized));
    match outcome {
        StatusOutcome::Unauthorized { cleared } => {
            let headers = cleared.set_cookie_headers();
            assert_eq!(
                headers,
                vec![
                    "discord_token=; Path=/; HttpOnly; Max-Age=0".to_string(),
                    "discord_refresh_token=; Path=/; HttpOnly; Max-Age=0".to_string(),
                ]
            );
        },
        StatusOutcome::Authorized { .. } => panic!("a failed profile fetch must be unauthorized"),
    }
}

#[test]
fn callback_without_code_redirects_without_any_call() {
    let step = redirect_callback_begin(None, true, &server());
    match step {
        CallbackStep::RedirectOnly(r) => {
            assert_eq!(r.status, 307);
            assert_eq!(r.location, "http://localhost:5173/dashboard");
        },
        CallbackStep::ExchangeCode { .. } => panic!("no code: nothing to exchange"),
    }
}

#[test]
fn callback_without_config_redirects_without_any_call() {
    let step = redirect_callback_begin(Some("code"), false, &server());
    assert!(matches!(step, CallbackStep::RedirectOnly(_)));
}

#[test]
fn callback_with_code_proceeds_to_the_exchange() {
    let step = redirect_callback_begin(Some("auth-code"), true, &server());
    match step {
        CallbackStep::ExchangeCode { code } => assert_eq!(code, "auth-code"),
        CallbackStep::RedirectOnly(_) => panic!("a present code must be exchanged"),
    }
}

#[test]
fn callback_exchange_success_sets_cookies_and_goes_to_the_dashboard() {
    let jar = jar_from(&[""]);
    let outcome = redirect_callback_finish(&jar, Ok(token()), &server());
    match outcome {
        CallbackOutcome::Success { jar, redirect } => {
            assert_eq!(redirect.status, 302);
            assert_eq!(redirect.location, "http://localhost:5173/dashboard");
            assert_eq!(jar.set_cookie_headers().len(), 2);
        },
        CallbackOutcome::Failure { .. } => panic!("the exchange succeeded"),
    }
}

#[test]
fn callback_exchange_failure_redirects_without_cookies() {
    let jar = jar_from(&[""]);
    let outcome = redirect_callback_finish(&jar, Err(UpstreamError::ResponseInvalid), &server());
    match outcome {
        CallbackOutcome::Failure { redirect } => {
            assert_eq!(redirect.status, 303);
            assert_eq!(redirect.location, "http://localhost:5173/dashboard");
        },
        CallbackOutcome::Success { .. } => panic!("the exchange failed"),
    }
}

#[test]
fn login_with_session_is_idempotent() {
    let jar = jar_from(&["discord_token=already"]);
    let r = session_gateway::session::login(&jar, Some("12345"), &server());
    assert_eq!(r.status, 303);
    assert_eq!(r.location, "http://localhost:5173/dashboard");
}

#[test]
fn login_without_session_redirects_to_the_provider() {
    let jar = jar_from(&[""]);
    let r = session_gateway::session::login(&jar, Some("12345"), &server());
    assert_eq!(r.status, 307);
    assert_eq!(
        r.location,
        "https://discord.com/api/v10/oauth2/authorize?client_id=12345\
         &response_type=code\
         &redirect_uri=https%3A%2F%2Fapi.example%2Fapi%2Fauth%2Fredirect\
         &scope=identify+guilds+email"
    );
}

#[test]
fn login_without_configuration_falls_back_to_the_web_page() {
    let jar = jar_from(&[""]);
    let r = session_gateway::session::login(&jar, None, &server());
    assert_eq!(r.status, 303);
    assert_eq!(r.location, "http://localhost:5173");
}

#[test]
fn logout_clears_cookies_and_redirects_even_when_logged_out() {
    let jar = jar_from(&[""]);
    let (cleared, redirect) = logout(&jar, &server());
    assert_eq!(redirect.status, 302);
    assert_eq!(redirect.location, "http://localhost:5173");
    assert_eq!(cleared.set_cookie_headers().len(), 2);
}

#[test]
fn minted_session_cookies_carry_the_hardened_attributes() {
    let (access, refresh) = set_cookies(&token());
    assert_eq!(access.name, "discord_token");
    assert_eq!(access.value, "new-access");
    assert_eq!(access.path.as_deref(), Some("/"));
    assert!(access.http_only);
    assert!(access.secure);
    assert_eq!(access.max_age, Some(604800));
    assert_eq!(refresh.name, "discord_refresh_token");
    assert_eq!(refresh.value, "new-refresh");
    assert_eq!(refresh.max_age, None);
}

#[test]
fn negative_provider_expiry_clamps_the_max_age_to_zero() {
    let odd = DiscordOAuthAccessToken::new(
        "a".to_string(),
        "r".to_string(),
        "Bearer".to_string(),
        -5,
        "identify".to_string(),
    );
    let (access, _) = set_cookies(&odd);
    assert_eq!(access.max_age, Some(0));
}

#[test]
fn success_and_error_jar_pairs_match_the_handler_shapes() {
    let jar = jar_from(&["discord_token=t"]);
    let (a, b) = remove_error_cookies(&jar);
    assert_eq!(a.set_cookie_headers(), vec![
        "discord_token=; Path=/; HttpOnly; Max-Age=0".to_string()
    ]);
    assert_eq!(b.set_cookie_headers(), vec![
        "discord_refresh_token=; Path=/; HttpOnly; Max-Age=0".to_string()
    ]);
    let (c, d) = add_success_cookies(&jar, set_cookies(&token()));
    assert_eq!(c.set_cookie_headers().len(), 1);
    assert_eq!(d.set_cookie_headers().len(), 1);
}

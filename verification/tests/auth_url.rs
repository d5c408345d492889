use session_gateway::auth::{
    DiscordAccessCodeBody, DiscordOAuth2, DiscordOAuth2Scope, DiscordOAuthAccessToken,
    DiscordOAuthGrantType,
};

#[test]
fn authorization_url_is_built_exactly() {
    let request = DiscordOAuth2 {
        client_id: "12345".to_string(),
        redirect_uri: "http://localhost:8787/api/auth/redirect".to_string(),
        scopes: vec![
            DiscordOAuth2Scope::Identify,
            DiscordOAuth2Scope::Guilds,
            DiscordOAuth2Scope::Email,
        ],
    };
    let url = request.get_url();
    assert_eq!(
        url,
        "https://discord.com/api/v10/oauth2/authorize?client_id=12345\
         &response_type=code\
         &redirect_uri=http%3A%2F%2Flocalhost%3A8787%2Fapi%2Fauth%2Fredirect\
         &scope=identify+guilds+email"
    );
}

#[test]
fn scope_list_is_plus_joined_and_not_percent_encoded() {
    let request = DiscordOAuth2 {
        client_id: "c".to_string(),
        redirect_uri: "https://api.example/redirect".to_string(),
        scopes: vec![
            DiscordOAuth2Scope::Identify,
            DiscordOAuth2Scope::Guilds,
            DiscordOAuth2Scope::Email,
        ],
    };
    let url = request.get_url();
    assert!(url.contains("scope=identify+guilds+email"));
    assert!(!url.contains("scope=identify%2Bguilds"));
}

#[test]
fn redirect_uri_is_percent_encoded() {
    let request = DiscordOAuth2 {
        client_id: "c".to_string(),
        redirect_uri: "https://api.example/redirect".to_string(),
        scopes: vec![DiscordOAuth2Scope::Identify],
    };
    let url = request.get_url();
    // the raw URI must not appear; its encoded form must
    assert!(!url.contains("redirect_uri=https://api.example/redirect"));
    assert!(url.contains("redirect_uri=https%3A%2F%2Fapi.example%2Fredirect"));
}

#[test]
fn empty_scope_list_yields_empty_scope_parameter() {
    let request = DiscordOAuth2 {
        client_id: "c".to_string(),
        redirect_uri: "x".to_string(),
        scopes: vec![],
    };
    let url = request.get_url();
    assert!(url.ends_with("&scope="));
}

#[test]
fn scope_tokens_match_the_provider_wire_names() {
    assert_eq!(DiscordOAuth2Scope::Identify.as_str(), "identify");
    assert_eq!(DiscordOAuth2Scope::Guilds.as_str(), "guilds");
    assert_eq!(DiscordOAuth2Scope::Email.as_str(), "email");
    assert_eq!(DiscordOAuth2Scope::GuildsChannelsRead.as_str(), "guilds.channels.read");
    assert_eq!(
        DiscordOAuth2Scope::ApplicationsCommandsPermissionsUpdate.as_str(),
        "applications.commands.permissions.update"
    );
    assert_eq!(DiscordOAuth2Scope::RoleConnectionsWrite.as_str(), "role_connections.write");
    assert_eq!(DiscordOAuth2Scope::Openid.as_str(), "openid");
}

#[test]
fn grant_types_have_their_wire_names() {
    assert_eq!(DiscordOAuthGrantType::AuthorizationCode.as_str(), "authorization_code");
    assert_eq!(DiscordOAuthGrantType::RefreshToken.as_str(), "refresh_token");
}

#[test]
fn authorization_code_grant_body_has_the_fields_in_wire_order() {
    let body = DiscordAccessCodeBody::authorization_code(
        "id".to_string(),
        "secret".to_string(),
        "the-code".to_string(),
        "https://api/redirect".to_string(),
    );
    let params = body.form_params();
    assert_eq!(
        params,
        vec![
            ("client_id".to_string(), "id".to_string()),
            ("client_secret".to_string(), "secret".to_string()),
            ("grant_type".to_string(), "authorization_code".to_string()),
            ("code".to_string(), "the-code".to_string()),
            ("redirect_uri".to_string(), "https://api/redirect".to_string()),
        ]
    );
}

#[test]
fn refresh_grant_body_carries_the_refresh_token_and_no_code() {
    let body = DiscordAccessCodeBody::refresh(
        "id".to_string(),
        "secret".to_string(),
        "the-refresh".to_string(),
        "https://api/redirect".to_string(),
    );
    let params = body.form_params();
    assert_eq!(
        params,
        vec![
            ("client_id".to_string(), "id".to_string()),
            ("client_secret".to_string(), "secret".to_string()),
            ("grant_type".to_string(), "refresh_token".to_string()),
            ("refresh_token".to_string(), "the-refresh".to_string()),
            ("redirect_uri".to_string(), "https://api/redirect".to_string()),
        ]
    );
}

#[test]
fn token_record_hands_back_its_fields() {
    let token = DiscordOAuthAccessToken::new(
        "acc".to_string(),
        "ref".to_string(),
        "Bearer".to_string(),
        604800,
        "identify guilds email".to_string(),
    );
    assert_eq!(token.access_token(), "acc");
    assert_eq!(token.refresh_token(), "ref");
    assert_eq!(token.expires_in(), 604800);
}

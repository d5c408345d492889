//! The session-lifecycle state machine: login initiation, the OAuth2
//! redirect callback, status resolution, and logout.
//!
//! All session state lives in the caller's cookies. The outbound
//! provider calls happen between the steps below; each step function is
//! pure and says exactly which cookies are set or cleared and where the
//! caller is sent, for every possible outcome of the call before it.
//!
//! The error policy is deliberately asymmetric: a failed refresh keeps
//! the cookies (the refresh token may still be good and the failure
//! transient), while a failed profile fetch right after a token was
//! accepted clears both cookies (evidence that the account/token
//! pairing itself is broken).

use vstd::prelude::*;

use crate::auth::{
    authorization_url_spec, DiscordOAuth2, DiscordOAuth2Scope, DiscordOAuthAccessToken, TokenModel,
};
use crate::cookie::{
    jar_add, jar_get, jar_headers, lemma_add_two_fresh, serialize_cookie_spec, Cookie, CookieJar,
    CookieModel, JarModel, SameSitePolicy,
};
use crate::server_info::ServerInfo;
use crate::text::opt_view;
use crate::user::{DiscordUser, UserModel};

verus! {

/// Why an identity-provider call failed.
#[derive(Debug, Clone, Copy, PartialEq, Eq, Structural)]
pub enum UpstreamError {
    /// The request could not be sent or the transport failed.
    RequestFailed,
    /// The response body did not decode to the expected shape.
    ResponseInvalid,
    /// The provider answered with a non-success status.
    Unauthorized,
}

/// The name of the access-token cookie.
pub open spec fn access_cookie_name() -> Seq<char> {
    "discord_token"@
}

/// The name of the refresh-token cookie.
pub open spec fn refresh_cookie_name() -> Seq<char> {
    "discord_refresh_token"@
}

/// The access cookie's max-age: the provider-reported expiry in
/// seconds, clamped at zero.
pub open spec fn access_max_age(expires_in: i64) -> u64 {
    if expires_in >= 0 {
        expires_in as u64
    } else {
        0
    }
}

/// The access-token session cookie minted from a token exchange.
pub open spec fn access_cookie_model(t: TokenModel) -> CookieModel {
    CookieModel {
        name: access_cookie_name(),
        value: t.access_token,
        path: Some("/"@),
        http_only: true,
        secure: true,
        same_site: Some(SameSitePolicy::CrossSite),
        max_age: Some(access_max_age(t.expires_in)),
    }
}

/// The refresh-token session cookie minted from a token exchange: same
/// attributes, no expiry.
pub open spec fn refresh_cookie_model(t: TokenModel) -> CookieModel {
    CookieModel {
        name: refresh_cookie_name(),
        value: t.refresh_token,
        path: Some("/"@),
        http_only: true,
        secure: true,
        same_site: Some(SameSitePolicy::CrossSite),
        max_age: None,
    }
}

/// The cookie that clears a session cookie: empty value, max-age zero.
pub open spec fn clearing_cookie_model(name: Seq<char>) -> CookieModel {
    CookieModel {
        name,
        value: Seq::empty(),
        path: Some("/"@),
        http_only: true,
        secure: false,
        same_site: None,
        max_age: Some(0),
    }
}

/// Mints the session cookie pair from a token-exchange result.
pub fn set_cookies(tokens: &DiscordOAuthAccessToken) -> (r: (Cookie, Cookie))
    ensures
        r.0@ == access_cookie_model(tokens@),
        r.1@ == refresh_cookie_model(tokens@),
{
    let expires_in = tokens.expires_in();
    let max_age: u64 = if expires_in >= 0 {
        expires_in as u64
    } else {
        0
    };
    let access = Cookie {
        name: "discord_token".to_owned(),
        value: tokens.access_token().to_owned(),
        path: Some("/".to_owned()),
        http_only: true,
        secure: true,
        same_site: Some(SameSitePolicy::CrossSite),
        max_age: Some(max_age),
    };
    let refresh = Cookie {
        name: "discord_refresh_token".to_owned(),
        value: tokens.refresh_token().to_owned(),
        path: Some("/".to_owned()),
        http_only: true,
        secure: true,
        same_site: Some(SameSitePolicy::CrossSite),
        max_age: None,
    };
    (access, refresh)
}

/// Builds the clearing cookie for one session cookie name.
fn clearing_cookie(name: &str) -> (r: Cookie)
    ensures
        r@ == clearing_cookie_model(name@),
{
    Cookie {
        name: name.to_owned(),
        value: String::new(),
        path: Some("/".to_owned()),
        http_only: true,
        secure: false,
        same_site: None,
        max_age: Some(0),
    }
}

/// Two response jars, each clearing one session cookie.
pub fn remove_error_cookies(jar: &CookieJar) -> (r: (CookieJar, CookieJar))
    ensures
        r.0@ == jar_add(jar@, clearing_cookie_model(access_cookie_name())),
        r.1@ == jar_add(jar@, clearing_cookie_model(refresh_cookie_name())),
{
    (
        jar.duplicate().add(clearing_cookie("discord_token")),
        jar.duplicate().add(clearing_cookie("discord_refresh_token")),
    )
}

/// Two response jars, each carrying one cookie of a fresh session pair.
pub fn add_success_cookies(jar: &CookieJar, cookies: (Cookie, Cookie)) -> (r: (
    CookieJar,
    CookieJar,
))
    ensures
        r.0@ == jar_add(jar@, cookies.0@),
        r.1@ == jar_add(jar@, cookies.1@),
{
    let (access, refresh) = cookies;
    (jar.duplicate().add(access), jar.duplicate().add(refresh))
}

/// The jar after minting a fresh session pair from `t`.
pub open spec fn session_jar_spec(j: JarModel, t: TokenModel) -> JarModel {
    jar_add(jar_add(j, access_cookie_model(t)), refresh_cookie_model(t))
}

/// Adds both cookies of a fresh session pair to one jar.
pub fn apply_session_cookies(jar: &CookieJar, tokens: &DiscordOAuthAccessToken) -> (r: CookieJar)
    ensures
        r@ == session_jar_spec(jar@, tokens@),
{
    let (access, refresh) = set_cookies(tokens);
    jar.duplicate().add(access).add(refresh)
}

/// The jar after clearing both session cookies.
pub open spec fn cleared_jar_spec(j: JarModel) -> JarModel {
    jar_add(
        jar_add(j, clearing_cookie_model(access_cookie_name())),
        clearing_cookie_model(refresh_cookie_name()),
    )
}

/// Clears both session cookies in one jar.
pub fn clear_session_cookies(jar: &CookieJar) -> (r: CookieJar)
    ensures
        r@ == cleared_jar_spec(jar@),
{
    jar.duplicate().add(clearing_cookie("discord_token")).add(
        clearing_cookie("discord_refresh_token"),
    )
}

// ---------------------------------------------------------------------------
// Redirect responses.
// ---------------------------------------------------------------------------

/// An HTTP redirect response.
#[derive(Debug, Clone)]
pub struct HttpRedirect {
    pub status: u16,
    pub location: String,
}

/// The mathematical image of an [`HttpRedirect`].
pub ghost struct RedirectModel {
    pub status: u16,
    pub location: Seq<char>,
}

impl View for HttpRedirect {
    type V = RedirectModel;

    open spec fn view(&self) -> RedirectModel {
        RedirectModel { status: self.status, location: self.location@ }
    }
}

/// The dashboard page of the web application.
pub open spec fn dashboard_url_spec(webpage: Seq<char>) -> Seq<char> {
    webpage + "/dashboard"@
}

/// The OAuth2 redirect URI registered with the provider.
pub open spec fn redirect_uri_spec(api_host: Seq<char>) -> Seq<char> {
    api_host + "/api/auth/redirect"@
}

/// The fixed scopes every login attempt requests.
pub open spec fn default_scopes() -> Seq<DiscordOAuth2Scope> {
    seq![
        DiscordOAuth2Scope::Identify,
        DiscordOAuth2Scope::Guilds,
        DiscordOAuth2Scope::Email,
    ]
}

// ---------------------------------------------------------------------------
// login(): idempotent once a session exists; otherwise a one-way
// redirect to the provider, with no cookie mutation either way.
// ---------------------------------------------------------------------------

/// Where `login` sends the caller: with no client identifier
/// configured, back to the web page; already holding an access cookie,
/// to the dashboard; otherwise to the provider's authorization URL.
pub open spec fn login_spec(
    j: JarModel,
    client_id: Option<Seq<char>>,
    api_host: Seq<char>,
    webpage: Seq<char>,
) -> RedirectModel {
    match client_id {
        None => RedirectModel { status: 303, location: webpage },
        Some(cid) => if jar_get(j, access_cookie_name()) is Some {
            RedirectModel { status: 303, location: dashboard_url_spec(webpage) }
        } else {
            RedirectModel {
                status: 307,
                location: authorization_url_spec(
                    cid,
                    redirect_uri_spec(api_host),
                    default_scopes(),
                ),
            }
        },
    }
}

/// Initiates login. Never mutates cookies.
pub fn login(jar: &CookieJar, client_id: Option<&str>, server: &ServerInfo) -> (r: HttpRedirect)
    ensures
        r@ == login_spec(jar@, opt_view(client_id), server.spec_api_host(), server.spec_webpage()),
{
    match client_id {
        None => HttpRedirect { status: 303, location: server.webpage().to_owned() },
        Some(cid) => {
            match jar.get("discord_token") {
                Some(_) => {
                    let mut dashboard: String = server.webpage().to_owned();
                    dashboard.append("/dashboard");
                    HttpRedirect { status: 303, location: dashboard }
                },
                None => {
                    let mut redirect_uri: String = server.api_host().to_owned();
                    redirect_uri.append("/api/auth/redirect");
                    let request = DiscordOAuth2 {
                        client_id: cid.to_owned(),
                        redirect_uri,
                        scopes: vec![
                            DiscordOAuth2Scope::Identify,
                            DiscordOAuth2Scope::Guilds,
                            DiscordOAuth2Scope::Email,
                        ],
                    };
                    proof {
                        assert(request.scopes@ =~= default_scopes());
                    }
                    let url = request.get_url();
                    HttpRedirect { status: 307, location: url }
                },
            }
        },
    }
}

// ---------------------------------------------------------------------------
// redirectCallback(): exchange the authorization code, or bail out to
// the dashboard without touching cookies.
// ---------------------------------------------------------------------------

/// What the callback does before any outbound call.
pub enum CallbackStep {
    /// No exchange happens; the caller is redirected as given.
    RedirectOnly(HttpRedirect),
    /// The authorization code to exchange at the token endpoint.
    ExchangeCode { code: String },
}

/// The mathematical image of a [`CallbackStep`].
pub ghost enum CallbackStepModel {
    RedirectOnly(RedirectModel),
    ExchangeCode { code: Seq<char> },
}

impl View for CallbackStep {
    type V = CallbackStepModel;

    open spec fn view(&self) -> CallbackStepModel {
        match self {
            CallbackStep::RedirectOnly(r) => CallbackStepModel::RedirectOnly(r@),
            CallbackStep::ExchangeCode { code } => CallbackStepModel::ExchangeCode {
                code: code@,
            },
        }
    }
}

/// The callback's first step: with missing configuration, a redirect
/// to the web page; with a missing `code` parameter, a flow treated as
/// abandoned — a redirect to the dashboard, no outbound call, no
/// cookie mutation; otherwise the code goes to the token endpoint.
pub open spec fn callback_begin_spec(
    code: Option<Seq<char>>,
    have_config: bool,
    webpage: Seq<char>,
) -> CallbackStepModel {
    if !have_config {
        CallbackStepModel::RedirectOnly(RedirectModel { status: 307, location: webpage })
    } else {
        match code {
            None => CallbackStepModel::RedirectOnly(
                RedirectModel { status: 307, location: dashboard_url_spec(webpage) },
            ),
            Some(c) => CallbackStepModel::ExchangeCode { code: c },
        }
    }
}

/// Decides the callback's first step.
pub fn redirect_callback_begin(code: Option<&str>, have_config: bool, server: &ServerInfo) -> (r:
    CallbackStep)
    ensures
        r@ == callback_begin_spec(opt_view(code), have_config, server.spec_webpage()),
{
    if !have_config {
        return CallbackStep::RedirectOnly(
            HttpRedirect { status: 307, location: server.webpage().to_owned() },
        );
    }
    match code {
        None => {
            let mut dashboard: String = server.webpage().to_owned();
            dashboard.append("/dashboard");
            CallbackStep::RedirectOnly(HttpRedirect { status: 307, location: dashboard })
        },
        Some(c) => CallbackStep::ExchangeCode { code: c.to_owned() },
    }
}

/// How the callback ends once the exchange came back.
pub enum CallbackOutcome {
    /// The session cookie pair is set and the caller goes to the
    /// dashboard.
    Success { jar: CookieJar, redirect: HttpRedirect },
    /// No cookie is touched; the caller goes to the dashboard still
    /// logged out.
    Failure { redirect: HttpRedirect },
}

/// The mathematical image of a [`CallbackOutcome`].
pub ghost enum CallbackOutcomeModel {
    Success { jar: JarModel, redirect: RedirectModel },
    Failure { redirect: RedirectModel },
}

impl View for CallbackOutcome {
    type V = CallbackOutcomeModel;

    open spec fn view(&self) -> CallbackOutcomeModel {
        match self {
            CallbackOutcome::Success { jar, redirect } => CallbackOutcomeModel::Success {
                jar: jar@,
                redirect: redirect@,
            },
            CallbackOutcome::Failure { redirect } => CallbackOutcomeModel::Failure {
                redirect: redirect@,
            },
        }
    }
}

/// The model of a token-exchange result.
pub open spec fn token_result_view(r: Result<DiscordOAuthAccessToken, UpstreamError>) -> Result<
    TokenModel,
    UpstreamError,
> {
    match r {
        Ok(t) => Ok(t@),
        Err(e) => Err(e),
    }
}

/// The callback's last step: a successful exchange mints the session
/// pair; a failed one preserves the logged-out state and touches no
/// cookie. Either way the caller is sent to the dashboard.
pub open spec fn callback_finish_spec(
    j: JarModel,
    result: Result<TokenModel, UpstreamError>,
    webpage: Seq<char>,
) -> CallbackOutcomeModel {
    match result {
        Ok(t) => CallbackOutcomeModel::Success {
            jar: session_jar_spec(j, t),
            redirect: RedirectModel { status: 302, location: dashboard_url_spec(webpage) },
        },
        Err(_) => CallbackOutcomeModel::Failure {
            redirect: RedirectModel { status: 303, location: dashboard_url_spec(webpage) },
        },
    }
}

/// Finishes the callback from the exchange's result.
pub fn redirect_callback_finish(
    jar: &CookieJar,
    result: Result<DiscordOAuthAccessToken, UpstreamError>,
    server: &ServerInfo,
) -> (r: CallbackOutcome)
    ensures
        r@ == callback_finish_spec(jar@, token_result_view(result), server.spec_webpage()),
{
    match result {
        Ok(tokens) => {
            let updated = apply_session_cookies(jar, &tokens);
            let mut dashboard: String = server.webpage().to_owned();
            dashboard.append("/dashboard");
            CallbackOutcome::Success {
                jar: updated,
                redirect: HttpRedirect { status: 302, location: dashboard },
            }
        },
        Err(_) => {
            let mut dashboard: String = server.webpage().to_owned();
            dashboard.append("/dashboard");
            CallbackOutcome::Failure {
                redirect: HttpRedirect { status: 303, location: dashboard },
            }
        },
    }
}

// ---------------------------------------------------------------------------
// statusCheck(): a three-step state machine around the two possible
// outbound calls.
// ---------------------------------------------------------------------------

/// The first step of a status check.
pub enum StatusStep {
    /// Refresh would be needed but the provider configuration is
    /// missing.
    ServerError,
    /// No session cookie at all: unauthenticated.
    Unauthorized,
    /// An access cookie is present: fetch the profile with it, no
    /// refresh.
    FetchProfile { access_token: String },
    /// Only a refresh cookie is present: attempt a refresh.
    Refresh { refresh_token: String },
}

/// The mathematical image of a [`StatusStep`].
pub ghost enum StatusStepModel {
    ServerError,
    Unauthorized,
    FetchProfile { access_token: Seq<char> },
    Refresh { refresh_token: Seq<char> },
}

impl View for StatusStep {
    type V = StatusStepModel;

    open spec fn view(&self) -> StatusStepModel {
        match self {
            StatusStep::ServerError => StatusStepModel::ServerError,
            StatusStep::Unauthorized => StatusStepModel::Unauthorized,
            StatusStep::FetchProfile { access_token } => StatusStepModel::FetchProfile {
                access_token: access_token@,
            },
            StatusStep::Refresh { refresh_token } => StatusStepModel::Refresh {
                refresh_token: refresh_token@,
            },
        }
    }
}

/// The first step: an access cookie wins outright; otherwise the
/// refresh cookie decides between a refresh attempt and an immediate
/// unauthorized answer, and missing configuration is a server error.
pub open spec fn status_begin_spec(j: JarModel, have_config: bool) -> StatusStepModel {
    match jar_get(j, access_cookie_name()) {
        Some(c) => StatusStepModel::FetchProfile { access_token: c.value },
        None => if !have_config {
            StatusStepModel::ServerError
        } else {
            match jar_get(j, refresh_cookie_name()) {
                Some(c) => StatusStepModel::Refresh { refresh_token: c.value },
                None => StatusStepModel::Unauthorized,
            }
        },
    }
}

/// Decides the first step of a status check.
pub fn status_begin(jar: &CookieJar, have_config: bool) -> (r: StatusStep)
    ensures
        r@ == status_begin_spec(jar@, have_config),
{
    match jar.get("discord_token") {
        Some(c) => StatusStep::FetchProfile { access_token: c.value.clone() },
        None => {
            if !have_config {
                StatusStep::ServerError
            } else {
                match jar.get("discord_refresh_token") {
                    Some(c) => StatusStep::Refresh { refresh_token: c.value.clone() },
                    None => StatusStep::Unauthorized,
                }
            }
        },
    }
}

/// What follows a refresh attempt.
pub enum RefreshFollowUp {
    /// The refresh failed: unauthorized, and the cookies stand
    /// untouched.
    Unauthorized,
    /// The refresh succeeded: fetch the profile with the new access
    /// token; `refreshed` carries the updated session cookie pair.
    FetchProfile { access_token: String, refreshed: CookieJar },
}

/// The mathematical image of a [`RefreshFollowUp`].
pub ghost enum RefreshFollowUpModel {
    Unauthorized,
    FetchProfile { access_token: Seq<char>, refreshed: JarModel },
}

impl View for RefreshFollowUp {
    type V = RefreshFollowUpModel;

    open spec fn view(&self) -> RefreshFollowUpModel {
        match self {
            RefreshFollowUp::Unauthorized => RefreshFollowUpModel::Unauthorized,
            RefreshFollowUp::FetchProfile { access_token, refreshed } =>
                RefreshFollowUpModel::FetchProfile {
                access_token: access_token@,
                refreshed: refreshed@,
            },
        }
    }
}

/// The second step: a failed refresh is reported, not treated as
/// logout — no cookie changes; a successful one mints the new pair.
pub open spec fn status_after_refresh_spec(
    j: JarModel,
    result: Result<TokenModel, UpstreamError>,
) -> RefreshFollowUpModel {
    match result {
        Err(_) => RefreshFollowUpModel::Unauthorized,
        Ok(t) => RefreshFollowUpModel::FetchProfile {
            access_token: t.access_token,
            refreshed: session_jar_spec(j, t),
        },
    }
}

/// Decides the step after the refresh call came back.
pub fn status_after_refresh(
    jar: &CookieJar,
    result: Result<DiscordOAuthAccessToken, UpstreamError>,
) -> (r: RefreshFollowUp)
    ensures
        r@ == status_after_refresh_spec(jar@, token_result_view(result)),
{
    match result {
        Err(_) => RefreshFollowUp::Unauthorized,
        Ok(tokens) => {
            let refreshed = apply_session_cookies(jar, &tokens);
            RefreshFollowUp::FetchProfile {
                access_token: tokens.access_token().to_owned(),
                refreshed,
            }
        },
    }
}

/// How a status check ends.
pub enum StatusOutcome {
    /// The profile arrived: 200 with the profile and, after a refresh,
    /// the updated cookie pair.
    Authorized { user: DiscordUser, set_cookies: Option<CookieJar> },
    /// The profile fetch failed after a token was accepted: 401 and
    /// both session cookies cleared.
    Unauthorized { cleared: CookieJar },
}

/// The mathematical image of a [`StatusOutcome`].
pub ghost enum StatusOutcomeModel {
    Authorized { user: UserModel, set_cookies: Option<JarModel> },
    Unauthorized { cleared: JarModel },
}

impl View for StatusOutcome {
    type V = StatusOutcomeModel;

    open spec fn view(&self) -> StatusOutcomeModel {
        match self {
            StatusOutcome::Authorized { user, set_cookies } => StatusOutcomeModel::Authorized {
                user: user@,
                set_cookies: (match set_cookies {
                    Some(j) => Some(j@),
                    None => None,
                }),
            },
            StatusOutcome::Unauthorized { cleared } => StatusOutcomeModel::Unauthorized {
                cleared: cleared@,
            },
        }
    }
}

/// The model of an optional jar.
pub open spec fn opt_jar_view(o: Option<CookieJar>) -> Option<JarModel> {
    match o {
        Some(j) => Some(j@),
        None => None,
    }
}

/// The model of a profile-fetch result.
pub open spec fn user_result_view(r: Result<DiscordUser, UpstreamError>) -> Result<
    UserModel,
    UpstreamError,
> {
    match r {
        Ok(u) => Ok(u@),
        Err(e) => Err(e),
    }
}

/// The last step: a profile clinches the check; a failed fetch after a
/// token was accepted clears both session cookies — asymmetric with a
/// failed refresh, which clears nothing.
pub open spec fn status_after_profile_spec(
    j: JarModel,
    refreshed: Option<JarModel>,
    result: Result<UserModel, UpstreamError>,
) -> StatusOutcomeModel {
    match result {
        Ok(u) => StatusOutcomeModel::Authorized { user: u, set_cookies: refreshed },
        Err(_) => StatusOutcomeModel::Unauthorized { cleared: cleared_jar_spec(j) },
    }
}

/// Decides the outcome once the profile call came back. `jar` is the
/// inbound jar; `refreshed` is the updated jar when a refresh happened.
pub fn status_after_profile(
    jar: &CookieJar,
    refreshed: Option<CookieJar>,
    result: Result<DiscordUser, UpstreamError>,
) -> (r: StatusOutcome)
    ensures
        r@ == status_after_profile_spec(jar@, opt_jar_view(refreshed), user_result_view(result)),
{
    match result {
        Ok(user) => StatusOutcome::Authorized { user, set_cookies: refreshed },
        Err(_) => StatusOutcome::Unauthorized { cleared: clear_session_cookies(jar) },
    }
}

// ---------------------------------------------------------------------------
// logout(): unconditionally clear both cookies, idempotently.
// ---------------------------------------------------------------------------

/// Clears both session cookies and sends the caller to the web page;
/// succeeds even when already logged out.
pub fn logout(jar: &CookieJar, server: &ServerInfo) -> (r: (CookieJar, HttpRedirect))
    ensures
        r.0@ == cleared_jar_spec(jar@),
        r.1@ == (RedirectModel { status: 302, location: server.spec_webpage() }),
{
    (
        clear_session_cookies(jar),
        HttpRedirect { status: 302, location: server.webpage().to_owned() },
    )
}

// ---------------------------------------------------------------------------
// Laws of the state machine.
// ---------------------------------------------------------------------------

/// The two session cookie names differ.
proof fn lemma_session_names_differ()
    ensures
        access_cookie_name() != refresh_cookie_name(),
{
    reveal_strlit("discord_token");
    reveal_strlit("discord_refresh_token");
    assert(access_cookie_name().len() == 13);
    assert(refresh_cookie_name().len() == 21);
}

/// A status check that sees an unexpired access cookie uses it
/// directly: the first step fetches the profile with that cookie's
/// value and is never a refresh, whatever the configuration.
pub proof fn lemma_active_access_never_refreshes(j: JarModel, have_config: bool)
    requires
        jar_get(j, access_cookie_name()) is Some,
    ensures
        status_begin_spec(j, have_config) == (StatusStepModel::FetchProfile {
            access_token: jar_get(j, access_cookie_name())->Some_0.value,
        }),
        !(status_begin_spec(j, have_config) is Refresh),
{
}

/// With only a refresh cookie in an untouched inbound jar, a
/// successful refresh followed by a successful profile fetch yields
/// the profile together with exactly the two updated session cookie
/// headers — one refresh, then one fetch, nothing else.
pub proof fn lemma_refresh_path_success(j: JarModel, t: TokenModel, u: UserModel)
    requires
        jar_get(j, access_cookie_name()) is None,
        jar_get(j, refresh_cookie_name()) is Some,
        j.delta.len() == 0,
    ensures
        status_begin_spec(j, true) == (StatusStepModel::Refresh {
            refresh_token: jar_get(j, refresh_cookie_name())->Some_0.value,
        }),
        status_after_refresh_spec(j, Ok(t)) == (RefreshFollowUpModel::FetchProfile {
            access_token: t.access_token,
            refreshed: session_jar_spec(j, t),
        }),
        status_after_profile_spec(j, Some(session_jar_spec(j, t)), Ok(u))
            == (StatusOutcomeModel::Authorized {
            user: u,
            set_cookies: Some(session_jar_spec(j, t)),
        }),
        jar_headers(session_jar_spec(j, t)) == seq![
            serialize_cookie_spec(access_cookie_model(t)),
            serialize_cookie_spec(refresh_cookie_model(t)),
        ],
{
    lemma_session_names_differ();
    lemma_add_two_fresh(j, access_cookie_model(t), refresh_cookie_model(t));
    assert(jar_headers(j) =~= Seq::<Seq<char>>::empty());
    assert(jar_headers(session_jar_spec(j, t)) =~= seq![
        serialize_cookie_spec(access_cookie_model(t)),
        serialize_cookie_spec(refresh_cookie_model(t)),
    ]);
}

/// With only a refresh cookie, a failed refresh answers unauthorized
/// and carries no jar: no `Set-Cookie` header is emitted and the
/// inbound cookies stand untouched.
pub proof fn lemma_refresh_failure_keeps_cookies(j: JarModel, e: UpstreamError)
    requires
        jar_get(j, access_cookie_name()) is None,
        jar_get(j, refresh_cookie_name()) is Some,
    ensures
        status_begin_spec(j, true) is Refresh,
        status_after_refresh_spec(j, Err(e)) == RefreshFollowUpModel::Unauthorized,
{
}

/// A failed profile fetch after a token was accepted answers
/// unauthorized with both session cookies cleared: for an untouched
/// inbound jar the response carries exactly the two clearing headers,
/// each with max-age zero.
pub proof fn lemma_profile_failure_clears_cookies(
    j: JarModel,
    refreshed: Option<JarModel>,
    e: UpstreamError,
)
    requires
        j.delta.len() == 0,
    ensures
        status_after_profile_spec(j, refreshed, Err(e)) == (StatusOutcomeModel::Unauthorized {
            cleared: cleared_jar_spec(j),
        }),
        jar_headers(cleared_jar_spec(j)) == seq![
            serialize_cookie_spec(clearing_cookie_model(access_cookie_name())),
            serialize_cookie_spec(clearing_cookie_model(refresh_cookie_name())),
        ],
        clearing_cookie_model(access_cookie_name()).max_age == Some(0u64),
        clearing_cookie_model(refresh_cookie_name()).max_age == Some(0u64),
{
    lemma_session_names_differ();
    lemma_add_two_fresh(
        j,
        clearing_cookie_model(access_cookie_name()),
        clearing_cookie_model(refresh_cookie_name()),
    );
    assert(jar_headers(j) =~= Seq::<Seq<char>>::empty());
    assert(jar_headers(cleared_jar_spec(j)) =~= seq![
        serialize_cookie_spec(clearing_cookie_model(access_cookie_name())),
        serialize_cookie_spec(clearing_cookie_model(refresh_cookie_name())),
    ]);
}

/// A callback without a `code` parameter redirects to the dashboard at
/// once: the step carries no code to exchange — zero outbound provider
/// calls — and no jar, so no cookie is set.
pub proof fn lemma_callback_without_code_skips_exchange(webpage: Seq<char>)
    ensures
        callback_begin_spec(None, true, webpage) == CallbackStepModel::RedirectOnly(
            RedirectModel { status: 307, location: dashboard_url_spec(webpage) },
        ),
        !(callback_begin_spec(None, true, webpage) is ExchangeCode),
{
}

} // verus!

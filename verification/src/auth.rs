//! The identity-provider protocol surface that is pure computation:
//! OAuth2 scope names, token records, token-grant form bodies, and
//! authorization-URL construction.
//!
//! The provider's authorization endpoint expects the scope list joined
//! with a literal `+` and NOT percent-encoded, while the redirect URI
//! MUST be percent-encoded; [`DiscordOAuth2::get_url`] pins down that
//! asymmetry exactly.

use vstd::prelude::*;

use crate::text::digit_char;
use vstd::utf8::encode_utf8;

verus! {

/// The OAuth2 scopes the provider recognizes.
#[derive(Debug, Clone, Copy, PartialEq, Eq, Structural)]
pub enum DiscordOAuth2Scope {
    Identify,
    Guilds,
    Email,
    GuildsChannelsRead,
    Rpc,
    RpcVoiceWrite,
    RpcScreenshareRead,
    ApplicationsBuildsRead,
    WebhookIncoming,
    ApplicationsEntitlements,
    ActivitiesInvitesWrite,
    Voice,
    DmChannelsMessagesRead,
    PresencesRead,
    AccountGlobalNameUpdate,
    SdkSocialLayer,
    ApplicationsCommandsPermissionsUpdate,
    LobbiesWrite,
    DmChannelsMessagesWrite,
    PresencesWrite,
    PaymentSourcesCountryCode,
    DmChannelsRead,
    RelationshipsRead,
    ActivitiesRead,
    MessagesRead,
    RpcScreenshareWrite,
    RpcVideoRead,
    ApplicationsCommands,
    RpcNotificationsRead,
    GdmJoin,
    GuildsJoin,
    GuildsMembersRead,
    Connections,
    Bot,
    RpcVoiceRead,
    RpcVideoWrite,
    RpcActivitiesWrite,
    ApplicationsBuildsUpload,
    ApplicationsStoreUpdate,
    ActivitiesWrite,
    RelationshipsWrite,
    RoleConnectionsWrite,
    Openid,
}

/// The scope token the provider expects for each scope.
pub open spec fn scope_str(s: DiscordOAuth2Scope) -> Seq<char> {
    match s {
        DiscordOAuth2Scope::Identify => "identify"@,
        DiscordOAuth2Scope::Guilds => "guilds"@,
        DiscordOAuth2Scope::Email => "email"@,
        DiscordOAuth2Scope::GuildsChannelsRead => "guilds.channels.read"@,
        DiscordOAuth2Scope::Rpc => "rpc"@,
        DiscordOAuth2Scope::RpcVoiceWrite => "rpc.voice.write"@,
        DiscordOAuth2Scope::RpcScreenshareRead => "rpc.screenshare.read"@,
        DiscordOAuth2Scope::ApplicationsBuildsRead => "applications.builds.read"@,
        DiscordOAuth2Scope::WebhookIncoming => "webhook.incoming"@,
        DiscordOAuth2Scope::ApplicationsEntitlements => "applications.entitlements"@,
        DiscordOAuth2Scope::ActivitiesInvitesWrite => "activities.invites.write"@,
        DiscordOAuth2Scope::Voice => "voice"@,
        DiscordOAuth2Scope::DmChannelsMessagesRead => "dm_channels.messages.read"@,
        DiscordOAuth2Scope::PresencesRead => "presences.read"@,
        DiscordOAuth2Scope::AccountGlobalNameUpdate => "account.global_name.update"@,
        DiscordOAuth2Scope::SdkSocialLayer => "sdk.social_layer"@,
        DiscordOAuth2Scope::ApplicationsCommandsPermissionsUpdate
            => "applications.commands.permissions.update"@,
        DiscordOAuth2Scope::LobbiesWrite => "lobbies.write"@,
        DiscordOAuth2Scope::DmChannelsMessagesWrite => "dm_channels.messages.write"@,
        DiscordOAuth2Scope::PresencesWrite => "presences.write"@,
        DiscordOAuth2Scope::PaymentSourcesCountryCode => "payment_sources.country_code"@,
        DiscordOAuth2Scope::DmChannelsRead => "dm_channels.read"@,
        DiscordOAuth2Scope::RelationshipsRead => "relationships.read"@,
        DiscordOAuth2Scope::ActivitiesRead => "activities.read"@,
        DiscordOAuth2Scope::MessagesRead => "messages.read"@,
        DiscordOAuth2Scope::RpcScreenshareWrite => "rpc.screenshare.write"@,
        DiscordOAuth2Scope::RpcVideoRead => "rpc.video.read"@,
        DiscordOAuth2Scope::ApplicationsCommands => "applications.commands"@,
        DiscordOAuth2Scope::RpcNotificationsRead => "rpc.notifications.read"@,
        DiscordOAuth2Scope::GdmJoin => "gdm.join"@,
        DiscordOAuth2Scope::GuildsJoin => "guilds.join"@,
        DiscordOAuth2Scope::GuildsMembersRead => "guilds.members.read"@,
        DiscordOAuth2Scope::Connections => "connections"@,
        DiscordOAuth2Scope::Bot => "bot"@,
        DiscordOAuth2Scope::RpcVoiceRead => "rpc.voice.read"@,
        DiscordOAuth2Scope::RpcVideoWrite => "rpc.video.write"@,
        DiscordOAuth2Scope::RpcActivitiesWrite => "rpc.activities.write"@,
        DiscordOAuth2Scope::ApplicationsBuildsUpload => "applications.builds.upload"@,
        DiscordOAuth2Scope::ApplicationsStoreUpdate => "applications.store.update"@,
        DiscordOAuth2Scope::ActivitiesWrite => "activities.write"@,
        DiscordOAuth2Scope::RelationshipsWrite => "relationships.write"@,
        DiscordOAuth2Scope::RoleConnectionsWrite => "role_connections.write"@,
        DiscordOAuth2Scope::Openid => "openid"@,
    }
}

impl DiscordOAuth2Scope {
    /// The scope token the provider expects.
    pub fn as_str(&self) -> (r: &'static str)
        ensures
            r@ == scope_str(*self),
    {
        match self {
            DiscordOAuth2Scope::Identify => "identify",
            DiscordOAuth2Scope::Guilds => "guilds",
            DiscordOAuth2Scope::Email => "email",
            DiscordOAuth2Scope::GuildsChannelsRead => "guilds.channels.read",
            DiscordOAuth2Scope::Rpc => "rpc",
            DiscordOAuth2Scope::RpcVoiceWrite => "rpc.voice.write",
            DiscordOAuth2Scope::RpcScreenshareRead => "rpc.screenshare.read",
            DiscordOAuth2Scope::ApplicationsBuildsRead => "applications.builds.read",
            DiscordOAuth2Scope::WebhookIncoming => "webhook.incoming",
            DiscordOAuth2Scope::ApplicationsEntitlements => "applications.entitlements",
            DiscordOAuth2Scope::ActivitiesInvitesWrite => "activities.invites.write",
            DiscordOAuth2Scope::Voice => "voice",
            DiscordOAuth2Scope::DmChannelsMessagesRead => "dm_channels.messages.read",
            DiscordOAuth2Scope::PresencesRead => "presences.read",
            DiscordOAuth2Scope::AccountGlobalNameUpdate => "account.global_name.update",
            DiscordOAuth2Scope::SdkSocialLayer => "sdk.social_layer",
            DiscordOAuth2Scope::ApplicationsCommandsPermissionsUpdate
                => "applications.commands.permissions.update",
            DiscordOAuth2Scope::LobbiesWrite => "lobbies.write",
            DiscordOAuth2Scope::DmChannelsMessagesWrite => "dm_channels.messages.write",
            DiscordOAuth2Scope::PresencesWrite => "presences.write",
            DiscordOAuth2Scope::PaymentSourcesCountryCode => "payment_sources.country_code",
            DiscordOAuth2Scope::DmChannelsRead => "dm_channels.read",
            DiscordOAuth2Scope::RelationshipsRead => "relationships.read",
            DiscordOAuth2Scope::ActivitiesRead => "activities.read",
            DiscordOAuth2Scope::MessagesRead => "messages.read",
            DiscordOAuth2Scope::RpcScreenshareWrite => "rpc.screenshare.write",
            DiscordOAuth2Scope::RpcVideoRead => "rpc.video.read",
            DiscordOAuth2Scope::ApplicationsCommands => "applications.commands",
            DiscordOAuth2Scope::RpcNotificationsRead => "rpc.notifications.read",
            DiscordOAuth2Scope::GdmJoin => "gdm.join",
            DiscordOAuth2Scope::GuildsJoin => "guilds.join",
            DiscordOAuth2Scope::GuildsMembersRead => "guilds.members.read",
            DiscordOAuth2Scope::Connections => "connections",
            DiscordOAuth2Scope::Bot => "bot",
            DiscordOAuth2Scope::RpcVoiceRead => "rpc.voice.read",
            DiscordOAuth2Scope::RpcVideoWrite => "rpc.video.write",
            DiscordOAuth2Scope::RpcActivitiesWrite => "rpc.activities.write",
            DiscordOAuth2Scope::ApplicationsBuildsUpload => "applications.builds.upload",
            DiscordOAuth2Scope::ApplicationsStoreUpdate => "applications.store.update",
            DiscordOAuth2Scope::ActivitiesWrite => "activities.write",
            DiscordOAuth2Scope::RelationshipsWrite => "relationships.write",
            DiscordOAuth2Scope::RoleConnectionsWrite => "role_connections.write",
            DiscordOAuth2Scope::Openid => "openid",
        }
    }
}

/// A token-exchange result from the provider: consumed immediately to
/// mint the session cookie pair, never retained.
#[derive(Debug, Clone)]
pub struct DiscordOAuthAccessToken {
    access_token: String,
    refresh_token: String,
    token_type: String,
    expires_in: i64,
    scope: String,
}

/// The mathematical image of a [`DiscordOAuthAccessToken`].
pub ghost struct TokenModel {
    pub access_token: Seq<char>,
    pub refresh_token: Seq<char>,
    pub token_type: Seq<char>,
    pub expires_in: i64,
    pub scope: Seq<char>,
}

impl View for DiscordOAuthAccessToken {
    type V = TokenModel;

    closed spec fn view(&self) -> TokenModel {
        TokenModel {
            access_token: self.access_token@,
            refresh_token: self.refresh_token@,
            token_type: self.token_type@,
            expires_in: self.expires_in,
            scope: self.scope@,
        }
    }
}

impl DiscordOAuthAccessToken {
    /// Builds a token record from the provider's response fields.
    pub fn new(
        access_token: String,
        refresh_token: String,
        token_type: String,
        expires_in: i64,
        scope: String,
    ) -> (r: Self)
        ensures
            r@ == (TokenModel {
                access_token: access_token@,
                refresh_token: refresh_token@,
                token_type: token_type@,
                expires_in: expires_in,
                scope: scope@,
            }),
    {
        DiscordOAuthAccessToken { access_token, refresh_token, token_type, expires_in, scope }
    }

    /// The bearer access token.
    pub fn access_token(&self) -> (r: &str)
        ensures
            r@ == self@.access_token,
    {
        self.access_token.as_str()
    }

    /// The refresh token.
    pub fn refresh_token(&self) -> (r: &str)
        ensures
            r@ == self@.refresh_token,
    {
        self.refresh_token.as_str()
    }

    /// The provider-reported access-token lifetime in seconds.
    pub fn expires_in(&self) -> (r: i64)
        ensures
            r == self@.expires_in,
    {
        self.expires_in
    }
}

/// The OAuth2 grant kinds the token endpoint accepts.
#[derive(Debug, Clone, Copy, PartialEq, Eq, Structural)]
pub enum DiscordOAuthGrantType {
    AuthorizationCode,
    RefreshToken,
}

/// The wire name of a grant kind.
pub open spec fn grant_type_str(g: DiscordOAuthGrantType) -> Seq<char> {
    match g {
        DiscordOAuthGrantType::AuthorizationCode => "authorization_code"@,
        DiscordOAuthGrantType::RefreshToken => "refresh_token"@,
    }
}

impl DiscordOAuthGrantType {
    /// The wire name of the grant kind.
    pub fn as_str(&self) -> (r: &'static str)
        ensures
            r@ == grant_type_str(*self),
    {
        match self {
            DiscordOAuthGrantType::AuthorizationCode => "authorization_code",
            DiscordOAuthGrantType::RefreshToken => "refresh_token",
        }
    }
}

/// The form body of a token-endpoint request: an authorization-code
/// grant carries `code`, a refresh grant carries `refresh_token`.
#[derive(Debug, Clone)]
pub struct DiscordAccessCodeBody {
    client_id: String,
    client_secret: String,
    grant_type: DiscordOAuthGrantType,
    code: Option<String>,
    refresh_token: Option<String>,
    redirect_uri: String,
}

/// The mathematical image of a [`DiscordAccessCodeBody`].
pub ghost struct BodyModel {
    pub client_id: Seq<char>,
    pub client_secret: Seq<char>,
    pub grant_type: DiscordOAuthGrantType,
    pub code: Option<Seq<char>>,
    pub refresh_token: Option<Seq<char>>,
    pub redirect_uri: Seq<char>,
}

impl View for DiscordAccessCodeBody {
    type V = BodyModel;

    closed spec fn view(&self) -> BodyModel {
        BodyModel {
            client_id: self.client_id@,
            client_secret: self.client_secret@,
            grant_type: self.grant_type,
            code: (match self.code {
                Some(c) => Some(c@),
                None => None,
            }),
            refresh_token: (match self.refresh_token {
                Some(t) => Some(t@),
                None => None,
            }),
            redirect_uri: self.redirect_uri@,
        }
    }
}

/// The form fields of a token request, in wire order; an absent `code`
/// or `refresh_token` contributes no field.
pub open spec fn form_params_spec(b: BodyModel) -> Seq<(Seq<char>, Seq<char>)> {
    seq![
        ("client_id"@, b.client_id),
        ("client_secret"@, b.client_secret),
        ("grant_type"@, grant_type_str(b.grant_type)),
    ] + (match b.code {
        Some(c) => seq![("code"@, c)],
        None => Seq::empty(),
    }) + (match b.refresh_token {
        Some(t) => seq![("refresh_token"@, t)],
        None => Seq::empty(),
    }) + seq![("redirect_uri"@, b.redirect_uri)]
}

/// The models of a string-pair sequence.
pub open spec fn pairs_view(v: Seq<(String, String)>) -> Seq<(Seq<char>, Seq<char>)> {
    v.map_values(|p: (String, String)| (p.0@, p.1@))
}

impl DiscordAccessCodeBody {
    /// The body of an authorization-code grant.
    pub fn authorization_code(
        client_id: String,
        client_secret: String,
        code: String,
        redirect_uri: String,
    ) -> (r: Self)
        ensures
            r@ == (BodyModel {
                client_id: client_id@,
                client_secret: client_secret@,
                grant_type: DiscordOAuthGrantType::AuthorizationCode,
                code: Some(code@),
                refresh_token: None,
                redirect_uri: redirect_uri@,
            }),
    {
        DiscordAccessCodeBody {
            client_id,
            client_secret,
            grant_type: DiscordOAuthGrantType::AuthorizationCode,
            code: Some(code),
            refresh_token: None,
            redirect_uri,
        }
    }

    /// The body of a refresh-token grant.
    pub fn refresh(
        client_id: String,
        client_secret: String,
        refresh_token: String,
        redirect_uri: String,
    ) -> (r: Self)
        ensures
            r@ == (BodyModel {
                client_id: client_id@,
                client_secret: client_secret@,
                grant_type: DiscordOAuthGrantType::RefreshToken,
                code: None,
                refresh_token: Some(refresh_token@),
                redirect_uri: redirect_uri@,
            }),
    {
        DiscordAccessCodeBody {
            client_id,
            client_secret,
            grant_type: DiscordOAuthGrantType::RefreshToken,
            code: None,
            refresh_token: Some(refresh_token),
            redirect_uri,
        }
    }

    /// The form fields of this body, in wire order.
    pub fn form_params(&self) -> (r: Vec<(String, String)>)
        ensures
            pairs_view(r@) == form_params_spec(self@),
    {
        let mut out: Vec<(String, String)> = Vec::new();
        out.push(("client_id".to_owned(), self.client_id.clone()));
        out.push(("client_secret".to_owned(), self.client_secret.clone()));
        out.push(("grant_type".to_owned(), self.grant_type.as_str().to_owned()));
        match &self.code {
            Some(c) => {
                out.push(("code".to_owned(), c.clone()));
            },
            None => {},
        }
        match &self.refresh_token {
            Some(t) => {
                out.push(("refresh_token".to_owned(), t.clone()));
            },
            None => {},
        }
        out.push(("redirect_uri".to_owned(), self.redirect_uri.clone()));
        proof {
            assert(pairs_view(out@) =~= form_params_spec(self@));
        }
        out
    }
}

// ---------------------------------------------------------------------------
// Percent-encoding and the authorization URL.
// ---------------------------------------------------------------------------

/// The bytes percent-encoding leaves as they are: ASCII alphanumerics
/// and `-`, `.`, `_`, `~`.
pub open spec fn is_unreserved_byte(b: u8) -> bool {
    (48 <= b && b <= 57)  // '0'..='9'
    || (65 <= b && b <= 90)  // 'A'..='Z'
    || (97 <= b && b <= 122)  // 'a'..='z'
    || b == 45  // '-'
    || b == 46  // '.'
    || b == 95  // '_'
    || b == 126  // '~'
}

/// The uppercase hexadecimal digit for `n`.
pub open spec fn hex_upper(n: nat) -> char {
    if n < 10 {
        digit_char(n)
    } else if n == 10 {
        'A'
    } else if n == 11 {
        'B'
    } else if n == 12 {
        'C'
    } else if n == 13 {
        'D'
    } else if n == 14 {
        'E'
    } else {
        'F'
    }
}

/// The percent-encoding of one byte.
pub open spec fn percent_encode_byte(b: u8) -> Seq<char> {
    if is_unreserved_byte(b) {
        seq![b as char]
    } else {
        seq!['%', hex_upper((b / 16) as nat), hex_upper((b % 16) as nat)]
    }
}

/// The percent-encoding of a byte string.
pub open spec fn percent_encode_bytes(bs: Seq<u8>) -> Seq<char>
    decreases bs.len(),
{
    if bs.len() == 0 {
        Seq::empty()
    } else {
        percent_encode_byte(bs[0]) + percent_encode_bytes(bs.drop_first())
    }
}

/// Relies on `urlencoding::encode`: percent-encodes every byte of the
/// string's UTF-8 encoding except ASCII alphanumerics and `-`, `_`,
/// `.`, `~`, each encoded byte rendered as `%` and two uppercase
/// hexadecimal digits.
#[verifier::external_body]
fn percent_encode_str(s: &str) -> (r: String)
    ensures
        r@ == percent_encode_bytes(encode_utf8(s@)),
{
    urlencoding::encode(s).into_owned()
}

/// The scope tokens joined with a literal `+`.
pub open spec fn join_plus(scopes: Seq<DiscordOAuth2Scope>) -> Seq<char>
    decreases scopes.len(),
{
    if scopes.len() == 0 {
        Seq::empty()
    } else if scopes.len() == 1 {
        scope_str(scopes[0])
    } else {
        join_plus(scopes.drop_last()) + "+"@ + scope_str(scopes.last())
    }
}

/// The provider's authorization URL: the redirect URI percent-encoded,
/// the scope list `+`-joined and NOT percent-encoded.
pub open spec fn authorization_url_spec(
    client_id: Seq<char>,
    redirect_uri: Seq<char>,
    scopes: Seq<DiscordOAuth2Scope>,
) -> Seq<char> {
    "https://discord.com/api/v10/oauth2/authorize?client_id="@ + client_id
        + "&response_type=code&redirect_uri="@ + percent_encode_bytes(encode_utf8(redirect_uri))
        + "&scope="@ + join_plus(scopes)
}

/// An authorization request: built fresh per login attempt, never
/// persisted.
#[derive(Debug, Clone)]
pub struct DiscordOAuth2 {
    pub client_id: String,
    pub redirect_uri: String,
    pub scopes: Vec<DiscordOAuth2Scope>,
}

impl DiscordOAuth2 {
    /// Builds the authorization URL for this request.
    pub fn get_url(&self) -> (r: String)
        ensures
            r@ == authorization_url_spec(self.client_id@, self.redirect_uri@, self.scopes@),
    {
        let mut scope_string = String::new();
        let n = self.scopes.len();
        let mut i: usize = 0;
        while i < n
            invariant
                0 <= i <= n,
                n == self.scopes@.len(),
                scope_string@ == join_plus(self.scopes@.take(i as int)),
            decreases n - i,
        {
            if i > 0 {
                scope_string.append("+");
            }
            let s = self.scopes[i].as_str();
            scope_string.append(s);
            proof {
                let pre = self.scopes@.take(i as int + 1);
                assert(pre.drop_last() =~= self.scopes@.take(i as int));
                assert(pre.last() == self.scopes@[i as int]);
                if i == 0 {
                    assert(scope_string@ =~= join_plus(pre));
                } else {
                    assert(scope_string@ =~= join_plus(pre));
                }
            }
            i = i + 1;
        }
        proof {
            assert(self.scopes@.take(n as int) =~= self.scopes@);
        }
        let mut url: String = "https://discord.com/api/v10/oauth2/authorize?client_id=".to_owned();
        url.append(self.client_id.as_str());
        url.append("&response_type=code&redirect_uri=");
        let encoded = percent_encode_str(self.redirect_uri.as_str());
        url.append(encoded.as_str());
        url.append("&scope=");
        url.append(scope_string.as_str());
        proof {
            assert(url@ =~= authorization_url_spec(
                self.client_id@,
                self.redirect_uri@,
                self.scopes@,
            ));
        }
        url
    }
}

} // verus!

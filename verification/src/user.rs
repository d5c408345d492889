//! The remote user profile, fetched fresh on every status check and
//! never cached beyond one request.

use vstd::prelude::*;

verus! {

/// The provider's current-user record.
#[derive(Debug, Clone)]
pub struct DiscordUser {
    pub id: String,
    pub username: String,
    pub discriminator: String,
    pub global_name: Option<String>,
    pub bot: Option<bool>,
    pub avatar: Option<String>,
    pub verified: bool,
    pub email: Option<String>,
    pub flags: u64,
    pub banner: Option<String>,
    pub accent_color: Option<u32>,
    pub premium_type: u8,
    pub public_flags: u64,
}

/// The mathematical image of a [`DiscordUser`].
pub ghost struct UserModel {
    pub id: Seq<char>,
    pub username: Seq<char>,
    pub discriminator: Seq<char>,
    pub global_name: Option<Seq<char>>,
    pub bot: Option<bool>,
    pub avatar: Option<Seq<char>>,
    pub verified: bool,
    pub email: Option<Seq<char>>,
    pub flags: u64,
    pub banner: Option<Seq<char>>,
    pub accent_color: Option<u32>,
    pub premium_type: u8,
    pub public_flags: u64,
}

/// The model of an optional string.
pub open spec fn opt_str_view(o: Option<String>) -> Option<Seq<char>> {
    match o {
        Some(s) => Some(s@),
        None => None,
    }
}

impl View for DiscordUser {
    type V = UserModel;

    open spec fn view(&self) -> UserModel {
        UserModel {
            id: self.id@,
            username: self.username@,
            discriminator: self.discriminator@,
            global_name: opt_str_view(self.global_name),
            bot: self.bot,
            avatar: opt_str_view(self.avatar),
            verified: self.verified,
            email: opt_str_view(self.email),
            flags: self.flags,
            banner: opt_str_view(self.banner),
            accent_color: self.accent_color,
            premium_type: self.premium_type,
            public_flags: self.public_flags,
        }
    }
}

} // verus!

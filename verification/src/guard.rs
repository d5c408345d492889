//! The access guard for protected routes: classifies the caller's
//! declared-identity header into a closed set of trust tiers, each with
//! its payload, and rejects everything else before it reaches a
//! handler. This layer is a gate, not a router: an admitted request
//! proceeds unmodified.

use vstd::prelude::*;

use crate::cookie::strings_view;
use crate::text::{
    find_ws, find_ws_in_str, lemma_find_ws, lemma_trim_left_props, opt_view, str_eq, trim_left,
    trim_left_str,
};

verus! {

/// The whitespace-delimited tokens of a header value, in order.
pub open spec fn tokens_spec(s: Seq<char>) -> Seq<Seq<char>>
    decreases s.len(),
    via tokens_spec_dec
{
    let t = trim_left(s);
    if t.len() == 0 {
        Seq::empty()
    } else {
        let i = find_ws(t);
        if i < 0 {
            seq![t]
        } else {
            seq![t.take(i)] + tokens_spec(t.skip(i))
        }
    }
}

#[via_fn]
proof fn tokens_spec_dec(s: Seq<char>) {
    lemma_trim_left_props(s);
    lemma_find_ws(trim_left(s));
}

/// Splits a header value on runs of whitespace.
pub fn split_ws(s: &str) -> (r: Vec<String>)
    ensures
        strings_view(r@) == tokens_spec(s@),
    decreases s@.len(),
{
    let t = trim_left_str(s);
    let tn = t.unicode_len();
    if tn == 0 {
        let v: Vec<String> = Vec::new();
        proof {
            assert(strings_view(v@) =~= tokens_spec(s@));
        }
        v
    } else {
        match find_ws_in_str(t) {
            None => {
                let mut v: Vec<String> = Vec::new();
                v.push(t.to_owned());
                proof {
                    assert(strings_view(v@) =~= tokens_spec(s@));
                }
                v
            },
            Some(i) => {
                proof {
                    lemma_find_ws(t@);
                    lemma_trim_left_props(s@);
                }
                let head = t.substring_char(0, i);
                let tail = t.substring_char(i, tn);
                proof {
                    assert(head@ =~= t@.take(i as int));
                    assert(tail@ =~= t@.skip(i as int));
                }
                let mut v: Vec<String> = Vec::new();
                v.push(head.to_owned());
                let mut rest = split_ws(tail);
                let ghost rest_toks = strings_view(rest@);
                v.append(&mut rest);
                proof {
                    assert(strings_view(v@) =~= seq![t@.take(i as int)] + rest_toks);
                }
                v
            },
        }
    }
}

/// A recognized caller class, with the payload its header carries.
pub enum TrustTier {
    /// An automated bot, identified by its bearer-style token.
    Bot { token: String },
    /// A guild-scoped caller, identified by its guild identifier.
    Guild { guild_id: String },
}

/// The mathematical image of a [`TrustTier`].
pub ghost enum TrustTierModel {
    Bot { token: Seq<char> },
    Guild { guild_id: Seq<char> },
}

impl View for TrustTier {
    type V = TrustTierModel;

    open spec fn view(&self) -> TrustTierModel {
        match self {
            TrustTier::Bot { token } => TrustTierModel::Bot { token: token@ },
            TrustTier::Guild { guild_id } => TrustTierModel::Guild { guild_id: guild_id@ },
        }
    }
}

/// What the guard decides for one request.
pub enum GuardDecision {
    /// The declared-identity header is absent.
    BadRequest,
    /// The header matches no recognized tier.
    Unauthorized,
    /// The request proceeds, classified into a tier.
    Admitted(TrustTier),
}

/// The mathematical image of a [`GuardDecision`].
pub ghost enum GuardDecisionModel {
    BadRequest,
    Unauthorized,
    Admitted(TrustTierModel),
}

impl View for GuardDecision {
    type V = GuardDecisionModel;

    open spec fn view(&self) -> GuardDecisionModel {
        match self {
            GuardDecision::BadRequest => GuardDecisionModel::BadRequest,
            GuardDecision::Unauthorized => GuardDecisionModel::Unauthorized,
            GuardDecision::Admitted(t) => GuardDecisionModel::Admitted(t@),
        }
    }
}

/// The guard's decision: an absent header is a bad request; a header of
/// exactly two tokens is admitted when the first token selects a
/// recognized tier, the second being the payload; anything else is
/// unauthorized.
pub open spec fn classify_spec(header: Option<Seq<char>>) -> GuardDecisionModel {
    match header {
        None => GuardDecisionModel::BadRequest,
        Some(h) => {
            let toks = tokens_spec(h);
            if toks.len() == 2 && toks[0] == "DiscordBot"@ {
                GuardDecisionModel::Admitted(TrustTierModel::Bot { token: toks[1] })
            } else if toks.len() == 2 && toks[0] == "DiscordGuild"@ {
                GuardDecisionModel::Admitted(TrustTierModel::Guild { guild_id: toks[1] })
            } else {
                GuardDecisionModel::Unauthorized
            }
        },
    }
}

/// Classifies the caller by its declared-identity header value.
pub fn classify_caller(user_agent: Option<&str>) -> (r: GuardDecision)
    ensures
        r@ == classify_spec(opt_view(user_agent)),
{
    match user_agent {
        None => GuardDecision::BadRequest,
        Some(h) => {
            let toks = split_ws(h);
            if toks.len() == 2 {
                if str_eq(toks[0].as_str(), "DiscordBot") {
                    GuardDecision::Admitted(TrustTier::Bot { token: toks[1].clone() })
                } else if str_eq(toks[0].as_str(), "DiscordGuild") {
                    GuardDecision::Admitted(TrustTier::Guild { guild_id: toks[1].clone() })
                } else {
                    GuardDecision::Unauthorized
                }
            } else {
                GuardDecision::Unauthorized
            }
        },
    }
}

} // verus!

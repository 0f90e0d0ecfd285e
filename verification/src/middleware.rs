//! The decisions taken for every request before it reaches its route: who is
//! asking, and whether they are still within their allowance.
//!
//! Recognising a credential needs the token store, so identity resolution is a
//! small state machine: each step either asks the caller to check a credential
//! and report the outcome, or settles the identity.

use vstd::prelude::*;

use crate::error::AppError;
use crate::ratelimit::{
    AuthUser, RateLimitTier, RateLimiter, admits, checked, lookup, user_upload_key,
};
use crate::text::{decimal, i64_to_decimal, same_text, strip_prefix_spec, strip_prefix_text, u64_to_decimal};
use crate::token::TokenType;

verus! {

broadcast use vstd::string::group_string_axioms;

/// The key that the public frontend presents; its requests are limited per
/// client address under the public tier.
pub const PUBLIC_API_KEY: &'static str = "sk_public_abc123...";

/// The credentials a request carries: the text of its `Authorization` header
/// and of its `X-API-Key` header, when they are present and readable, and the
/// client's address.
#[derive(Debug)]
pub struct IdentityProbe {
    pub authorization: Option<String>,
    pub api_key: Option<String>,
    pub ip: String,
}

/// Who is making a request: a recognised user with the credential they
/// presented, the public frontend, or an anonymous client; the last two by
/// address.
#[derive(Debug)]
pub enum RequestIdentity {
    Authenticated(AuthUser, String),
    Public(String),
    Anonymous(String),
}

/// Where an identity resolution stands.
#[derive(Debug)]
pub enum IdentityStage {
    /// The bearer token is being checked.
    CheckingBearer(String),
    /// The API key is being checked.
    CheckingApiKey(String),
    /// Nothing is left to check.
    Finished,
}

/// What the caller must do next.
#[derive(Debug)]
pub enum IdentityStep {
    /// Check this credential and report whom it belongs to, if anyone.
    Validate(String),
    /// The identity is settled.
    Done(RequestIdentity),
}

/// Abstract identity.
pub enum IdentityView {
    Authenticated(AuthUser, Seq<char>),
    Public(Seq<char>),
    Anonymous(Seq<char>),
}

/// Abstract stage.
pub enum StageView {
    CheckingBearer(Seq<char>),
    CheckingApiKey(Seq<char>),
    Finished,
}

/// Abstract step.
pub enum StepView {
    Validate(Seq<char>),
    Done(IdentityView),
}

/// Abstract credentials of a request.
pub struct ProbeView {
    pub authorization: Option<Seq<char>>,
    pub api_key: Option<Seq<char>>,
    pub ip: Seq<char>,
}

/// The view of an optional string.
pub open spec fn opt_text(o: Option<String>) -> Option<Seq<char>> {
    match o {
        Some(s) => Some(s@),
        None => None,
    }
}

impl View for IdentityProbe {
    type V = ProbeView;

    open spec fn view(&self) -> ProbeView {
        ProbeView {
            authorization: opt_text(self.authorization),
            api_key: opt_text(self.api_key),
            ip: self.ip@,
        }
    }
}

impl View for RequestIdentity {
    type V = IdentityView;

    open spec fn view(&self) -> IdentityView {
        match self {
            RequestIdentity::Authenticated(u, t) => IdentityView::Authenticated(*u, t@),
            RequestIdentity::Public(ip) => IdentityView::Public(ip@),
            RequestIdentity::Anonymous(ip) => IdentityView::Anonymous(ip@),
        }
    }
}

impl View for IdentityStage {
    type V = StageView;

    open spec fn view(&self) -> StageView {
        match self {
            IdentityStage::CheckingBearer(t) => StageView::CheckingBearer(t@),
            IdentityStage::CheckingApiKey(k) => StageView::CheckingApiKey(k@),
            IdentityStage::Finished => StageView::Finished,
        }
    }
}

impl View for IdentityStep {
    type V = StepView;

    open spec fn view(&self) -> StepView {
        match self {
            IdentityStep::Validate(t) => StepView::Validate(t@),
            IdentityStep::Done(i) => StepView::Done(i@),
        }
    }
}

/// The user recognised from a credential of the given owner and kind.
pub open spec fn recognised(owner: (i64, TokenType)) -> AuthUser {
    AuthUser { id: owner.0, rate_limit_tier: owner.1.tier() }
}

/// The step taken on the `X-API-Key` header.
pub open spec fn api_key_step(p: ProbeView) -> (StageView, StepView) {
    match p.api_key {
        Some(k) => if k == PUBLIC_API_KEY@ {
            (StageView::Finished, StepView::Done(IdentityView::Public(p.ip)))
        } else {
            (StageView::CheckingApiKey(k), StepView::Validate(k))
        },
        None => (StageView::Finished, StepView::Done(IdentityView::Anonymous(p.ip))),
    }
}

/// The first step: a bearer token in the `Authorization` header is checked
/// first; without one the `X-API-Key` header is considered.
pub open spec fn first_step(p: ProbeView) -> (StageView, StepView) {
    match p.authorization {
        Some(h) => match strip_prefix_spec(h, "Bearer "@) {
            Some(t) => (StageView::CheckingBearer(t), StepView::Validate(t)),
            None => api_key_step(p),
        },
        None => api_key_step(p),
    }
}

/// The step after the credential being checked turned out to belong to
/// `owner`, or to no one.
pub open spec fn next_step(s: StageView, p: ProbeView, owner: Option<(i64, TokenType)>) -> (
    StageView,
    StepView,
) {
    match s {
        StageView::CheckingBearer(t) => match owner {
            Some(o) => (StageView::Finished, StepView::Done(IdentityView::Authenticated(recognised(o), t))),
            None => api_key_step(p),
        },
        StageView::CheckingApiKey(k) => match owner {
            Some(o) => (StageView::Finished, StepView::Done(IdentityView::Authenticated(recognised(o), k))),
            None => (StageView::Finished, StepView::Done(IdentityView::Anonymous(p.ip))),
        },
        StageView::Finished => (StageView::Finished, StepView::Done(IdentityView::Anonymous(p.ip))),
    }
}

/// Who a request comes from, given whom each credential belongs to: a bearer
/// token that is recognised wins; then the public key; then a recognised API
/// key; otherwise the client is anonymous.
pub open spec fn identity_of(p: ProbeView, owner_of: spec_fn(Seq<char>) -> Option<(i64, TokenType)>) -> IdentityView {
    let bearer = match p.authorization {
        Some(h) => strip_prefix_spec(h, "Bearer "@),
        None => None,
    };
    if bearer is Some && owner_of(bearer->0) is Some {
        IdentityView::Authenticated(recognised(owner_of(bearer->0)->0), bearer->0)
    } else {
        match p.api_key {
            Some(k) => if k == PUBLIC_API_KEY@ {
                IdentityView::Public(p.ip)
            } else if owner_of(k) is Some {
                IdentityView::Authenticated(recognised(owner_of(k)->0), k)
            } else {
                IdentityView::Anonymous(p.ip)
            },
            None => IdentityView::Anonymous(p.ip),
        }
    }
}

fn api_key_stage(probe: &IdentityProbe) -> (r: (IdentityStage, IdentityStep))
    ensures
        (r.0@, r.1@) == api_key_step(probe@),
{
    match &probe.api_key {
        Some(key) => {
            if same_text(key.as_str(), PUBLIC_API_KEY) {
                (IdentityStage::Finished, IdentityStep::Done(RequestIdentity::Public(probe.ip.clone())))
            } else {
                (IdentityStage::CheckingApiKey(key.clone()), IdentityStep::Validate(key.clone()))
            }
        },
        None => (
            IdentityStage::Finished,
            IdentityStep::Done(RequestIdentity::Anonymous(probe.ip.clone())),
        ),
    }
}

/// Starts resolving who makes a request.
pub fn begin_identity(probe: &IdentityProbe) -> (r: (IdentityStage, IdentityStep))
    ensures
        (r.0@, r.1@) == first_step(probe@),
{
    if let Some(header) = &probe.authorization {
        if let Some(token) = strip_prefix_text(header.as_str(), "Bearer ") {
            return (IdentityStage::CheckingBearer(token.clone()), IdentityStep::Validate(token));
        }
    }
    api_key_stage(probe)
}

/// Continues resolving who makes a request, once the credential asked for has
/// been checked: `owner` is its owner and kind, or `None` if it was not
/// recognised.
pub fn continue_identity(stage: IdentityStage, probe: &IdentityProbe, owner: Option<(i64, TokenType)>) -> (r: (
    IdentityStage,
    IdentityStep,
))
    ensures
        (r.0@, r.1@) == next_step(stage@, probe@, owner),
{
    match stage {
        IdentityStage::CheckingBearer(token) => match owner {
            Some((id, token_type)) => {
                let user: AuthUser = AuthUser { id, rate_limit_tier: token_type.rate_limit_tier() };
                (IdentityStage::Finished, IdentityStep::Done(RequestIdentity::Authenticated(user, token)))
            },
            None => api_key_stage(probe),
        },
        IdentityStage::CheckingApiKey(key) => match owner {
            Some((id, token_type)) => {
                let user: AuthUser = AuthUser { id, rate_limit_tier: token_type.rate_limit_tier() };
                (IdentityStage::Finished, IdentityStep::Done(RequestIdentity::Authenticated(user, key)))
            },
            None => (
                IdentityStage::Finished,
                IdentityStep::Done(RequestIdentity::Anonymous(probe.ip.clone())),
            ),
        },
        IdentityStage::Finished => (
            IdentityStage::Finished,
            IdentityStep::Done(RequestIdentity::Anonymous(probe.ip.clone())),
        ),
    }
}

/// The identity that driving the steps settles on, when every credential asked
/// for is answered by `owner_of`: at most two credentials are checked.
pub open spec fn driven_identity(p: ProbeView, owner_of: spec_fn(Seq<char>) -> Option<(i64, TokenType)>) -> Option<IdentityView> {
    let (s0, a0) = first_step(p);
    match a0 {
        StepView::Done(i) => Some(i),
        StepView::Validate(t0) => {
            let (s1, a1) = next_step(s0, p, owner_of(t0));
            match a1 {
                StepView::Done(i) => Some(i),
                StepView::Validate(t1) => {
                    let (s2, a2) = next_step(s1, p, owner_of(t1));
                    match a2 {
                        StepView::Done(i) => Some(i),
                        StepView::Validate(_) => None,
                    }
                },
            }
        },
    }
}

/// Resolving an identity step by step settles, after at most two credential
/// checks, on the identity that the precedence of credentials prescribes.
pub proof fn law_identity_resolution(p: ProbeView, owner_of: spec_fn(Seq<char>) -> Option<(i64, TokenType)>)
    ensures
        driven_identity(p, owner_of) == Some(identity_of(p, owner_of)),
{
}

// ---------------------------------------------------------------- allowances

/// The refusal of a request over its allowance.
pub open spec fn limit_message(tier: RateLimitTier) -> Seq<char> {
    "Rate limit exceeded ("@ + decimal(tier.limit()) + "/min)."@
}

/// Under which tier and key a request is counted, and whether it is counted
/// per credential (rather than per address).
pub open spec fn counting(i: IdentityView) -> (RateLimitTier, Seq<char>, bool) {
    match i {
        IdentityView::Authenticated(u, t) => (u.rate_limit_tier, t, true),
        IdentityView::Public(ip) => (RateLimitTier::FrontendPublic, ip, false),
        IdentityView::Anonymous(ip) => (RateLimitTier::Anonymous, ip, false),
    }
}

fn refusal(prefix: &str, n: usize, suffix: &str) -> (r: String)
    ensures
        r@ == prefix@ + decimal(n as nat) + suffix@,
{
    let mut s: String = prefix.to_owned();
    let digits: String = u64_to_decimal(n as u64);
    s.append(digits.as_str());
    s.append(suffix);
    s
}

/// Counts a request against its identity's allowance: a recognised user per
/// credential under the credential's tier, the public frontend and anonymous
/// clients per address under their tiers. A request over the allowance is
/// refused with the tier's limit in the message.
pub fn rate_limit_gate(limiter: &mut RateLimiter, identity: &RequestIdentity, now: u64) -> (r: Result<
    (),
    AppError,
>)
    ensures
        ({
            let (tier, key, per_token) = counting(identity@);
            let map = if per_token { old(limiter)@.token } else { old(limiter)@.ip };
            &&& (r is Ok) == admits(lookup(map, key), tier, now)
            &&& r is Err ==> (r matches Err(AppError::TooManyRequests(m)) && m@ == limit_message(tier))
            &&& per_token ==> final(limiter)@.token == checked(map, key, tier, now)
                && final(limiter)@.ip == old(limiter)@.ip
            &&& !per_token ==> final(limiter)@.ip == checked(map, key, tier, now)
                && final(limiter)@.token == old(limiter)@.token
            &&& final(limiter)@.font_upload == old(limiter)@.font_upload
            &&& final(limiter)@.comment == old(limiter)@.comment
            &&& final(limiter)@.trusted_domains == old(limiter)@.trusted_domains
        }),
{
    let (tier, allowed): (RateLimitTier, bool) = match identity {
        RequestIdentity::Authenticated(user, token) => {
            let tier: RateLimitTier = user.rate_limit_tier;
            (tier, limiter.check_token(token.as_str(), tier, now))
        },
        RequestIdentity::Public(ip) => {
            let tier: RateLimitTier = RateLimitTier::FrontendPublic;
            (tier, limiter.check_ip(ip.as_str(), tier, now))
        },
        RequestIdentity::Anonymous(ip) => {
            let tier: RateLimitTier = RateLimitTier::Anonymous;
            (tier, limiter.check_ip(ip.as_str(), tier, now))
        },
    };
    if !allowed {
        return Err(AppError::TooManyRequests(refusal("Rate limit exceeded (", tier.max_requests(), "/min).")));
    }
    Ok(())
}

/// Counts a font upload, first per client address and then, for a recognised
/// user, per user; the first count that is over its allowance refuses it.
pub fn font_upload_gate(limiter: &mut RateLimiter, ip: &str, user: Option<AuthUser>, now: u64) -> (r: Result<
    (),
    AppError,
>)
    ensures
        ({
            let fu = old(limiter)@.font_upload;
            let after_ip = checked(fu, ip@, RateLimitTier::FontUpload, now);
            &&& !admits(lookup(fu, ip@), RateLimitTier::FontUpload, now) ==> {
                &&& r matches Err(AppError::TooManyRequests(m))
                &&& m@ == "IP upload rate limit exceeded ("@ + decimal(1) + "/min)."@
                &&& final(limiter)@.font_upload == after_ip
            }
            &&& admits(lookup(fu, ip@), RateLimitTier::FontUpload, now) ==> match user {
                None => r is Ok && final(limiter)@.font_upload == after_ip,
                Some(u) => {
                    let key = user_upload_key(u.id as int);
                    &&& final(limiter)@.font_upload == checked(after_ip, key, RateLimitTier::FontUpload, now)
                    &&& (r is Ok) == admits(lookup(after_ip, key), RateLimitTier::FontUpload, now)
                    &&& r is Err ==> (r matches Err(AppError::TooManyRequests(m))
                        && m@ == "User upload rate limit exceeded (1/min)."@)
                },
            }
            &&& final(limiter)@.ip == old(limiter)@.ip
            &&& final(limiter)@.token == old(limiter)@.token
            &&& final(limiter)@.comment == old(limiter)@.comment
            &&& final(limiter)@.trusted_domains == old(limiter)@.trusted_domains
        }),
{
    if !limiter.check_font_upload(ip, now) {
        let tier: RateLimitTier = RateLimitTier::FontUpload;
        return Err(
            AppError::TooManyRequests(
                refusal("IP upload rate limit exceeded (", tier.max_requests(), "/min)."),
            ),
        );
    }
    if let Some(u) = user {
        let mut key: String = "user:".to_owned();
        let id: String = i64_to_decimal(u.id);
        key.append(id.as_str());
        if !limiter.check_font_upload(key.as_str(), now) {
            return Err(AppError::TooManyRequests("User upload rate limit exceeded (1/min).".to_owned()));
        }
    }
    Ok(())
}

/// Counts a comment by the recognised user; comments need one.
pub fn comment_gate(limiter: &mut RateLimiter, user: Option<AuthUser>, now: u64) -> (r: Result<
    (),
    AppError,
>)
    ensures
        match user {
            None => (r matches Err(AppError::Unauthorized(m)) && m@ == "Auth required for comments"@)
                && final(limiter)@ == old(limiter)@,
            Some(u) => {
                let key = crate::text::signed_decimal(u.id as int);
                &&& (r is Ok) == admits(lookup(old(limiter)@.comment, key), RateLimitTier::Comment, now)
                &&& r is Err ==> (r matches Err(AppError::TooManyRequests(m))
                    && m@ == "Comment rate limit exceeded (10/min)."@)
                &&& final(limiter)@.comment == checked(old(limiter)@.comment, key, RateLimitTier::Comment, now)
                &&& final(limiter)@.ip == old(limiter)@.ip
                &&& final(limiter)@.token == old(limiter)@.token
                &&& final(limiter)@.font_upload == old(limiter)@.font_upload
                &&& final(limiter)@.trusted_domains == old(limiter)@.trusted_domains
            },
        },
{
    let u: AuthUser = match user {
        None => {
            return Err(AppError::Unauthorized("Auth required for comments".to_owned()));
        },
        Some(u) => u,
    };
    if !limiter.check_comment_limit(u.id, now) {
        return Err(AppError::TooManyRequests("Comment rate limit exceeded (10/min).".to_owned()));
    }
    Ok(())
}

} // verus!

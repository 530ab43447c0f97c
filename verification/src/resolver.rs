//! Alias resolution: the decisions of the resolver chain and of the built-in
//! resolvers. Fetching (DNS, HTTP, processes) is done by the caller, which
//! feeds each outcome back here.

use vstd::prelude::*;
use crate::crypto::{check_profile_expiry_at, expired_at};
use crate::errors::SatsPathError;
use crate::privacy::{canonical, canonical_chars};
use crate::profile::SignedPaymentProfile;
use crate::registry::{resolve_spec, Registry};
use crate::text::{
    chars_eq, chars_of, push_chars, push_str, split_once, split_once_chars, string_of,
};

verus! {

/// Something that answers an alias with a signed profile: `Ok` when found,
/// `AliasNotFound` when it does not know the alias, `NetworkError` (or
/// another error) when it could not find out.
pub trait ProfileResolver {
    /// Whether `r` is an answer that this resolver may give for `alias`.
    /// A resolver that says nothing of its answers admits every one.
    open spec fn answered(&self, alias: Seq<char>, r: Result<SignedPaymentProfile, SatsPathError>) -> bool {
        true
    }

    fn resolve_alias(&self, alias: &str) -> (r: Result<SignedPaymentProfile, SatsPathError>)
        ensures
            self.answered(alias@, r),
    ;
}

/// A chain of resolvers, queried in order.
pub struct ChainResolver<R> {
    resolvers: Vec<R>,
}

impl<R> ChainResolver<R> {
    /// The resolvers, in the order they are queried.
    pub closed spec fn view(&self) -> Seq<R> {
        self.resolvers@
    }

    /// An empty chain.
    pub fn new() -> (r: Self)
        ensures
            r.view() == Seq::<R>::empty(),
    {
        ChainResolver { resolvers: Vec::new() }
    }

    /// The chain with `resolver` queried after the current ones.
    pub fn push(self, resolver: R) -> (r: Self)
        ensures
            r.view() == self.view().push(resolver),
    {
        let mut resolvers = self.resolvers;
        resolvers.push(resolver);
        ChainResolver { resolvers }
    }

    /// The resolvers, in the order they are queried.
    pub fn resolvers(&self) -> (r: &Vec<R>)
        ensures
            r@ == self.view(),
    {
        &self.resolvers
    }
}

/// What the chain does with one resolver's outcome.
pub enum ChainStep {
    /// Stop and answer this.
    Return(Result<SignedPaymentProfile, SatsPathError>),
    /// Ask the next resolver.
    Continue,
}

/// The message when a resolver answers for another identifier.
pub open spec fn substitution_message(requested: Seq<char>, returned: Seq<char>) -> Seq<char> {
    "security failure: requested "@ + requested + ", but got profile for "@ + returned
}

/// Decides what the chain does with one resolver's outcome for `alias`: a
/// profile for the same canonical identifier is the answer; one for another
/// identifier is refused (a substituted profile must never be routed to);
/// "not found" and network failures pass to the next resolver; any other
/// error is the answer.
pub fn chain_step(alias: &str, outcome: Result<SignedPaymentProfile, SatsPathError>) -> (r: ChainStep)
    ensures
        match outcome {
            Ok(p) => if canonical(p.profile.alias@) == canonical(alias@) {
                r matches ChainStep::Return(Ok(q)) && q == p
            } else {
                r matches ChainStep::Return(Err(SatsPathError::AliasNotFound(m))) && m@
                    == substitution_message(canonical(alias@), canonical(p.profile.alias@))
            },
            Err(SatsPathError::AliasNotFound(_)) => r is Continue,
            Err(SatsPathError::NetworkError(_)) => r is Continue,
            Err(e) => r matches ChainStep::Return(Err(f)) && f == e,
        },
{
    match outcome {
        Ok(profile) => {
            let requested = canonical_chars(alias);
            let returned = canonical_chars(profile.profile.alias.as_str());
            if !chars_eq(&returned, &requested) {
                let mut msg: Vec<char> = Vec::new();
                push_str(&mut msg, "security failure: requested ");
                push_chars(&mut msg, &requested);
                push_str(&mut msg, ", but got profile for ");
                push_chars(&mut msg, &returned);
                return ChainStep::Return(Err(SatsPathError::AliasNotFound(string_of(msg.as_slice()))));
            }
            ChainStep::Return(Ok(profile))
        },
        Err(SatsPathError::AliasNotFound(m)) => ChainStep::Continue,
        Err(SatsPathError::NetworkError(m)) => ChainStep::Continue,
        Err(e) => ChainStep::Return(Err(e)),
    }
}

/// The chain's answer when every resolver passed.
pub fn chain_exhausted(alias: &str) -> (r: SatsPathError)
    ensures
        r matches SatsPathError::AliasNotFound(a) && a@ == alias@,
{
    SatsPathError::AliasNotFound(alias.to_string())
}

/// Whether a chain answer for `alias` is admissible whatever the resolvers
/// said: a profile is always one for the same canonical identifier.
pub open spec fn chain_answer_ok(alias: Seq<char>, r: Result<SignedPaymentProfile, SatsPathError>) -> bool {
    r matches Ok(p) ==> canonical(p.profile.alias@) == canonical(alias)
}

/// A resolver's outcome that sends the chain on to the next resolver.
pub open spec fn passes_on(outcome: Result<SignedPaymentProfile, SatsPathError>) -> bool {
    ||| outcome matches Err(SatsPathError::AliasNotFound(_))
    ||| outcome matches Err(SatsPathError::NetworkError(_))
}

/// The chain's answer `r` for `alias` on a decisive outcome: the profile
/// when it is for the same canonical identifier, the substitution refusal
/// when it is for another, the error itself otherwise.
pub open spec fn decided_by(
    alias: Seq<char>,
    outcome: Result<SignedPaymentProfile, SatsPathError>,
    r: Result<SignedPaymentProfile, SatsPathError>,
) -> bool {
    match outcome {
        Ok(p) => if canonical(p.profile.alias@) == canonical(alias) {
            r == Ok::<SignedPaymentProfile, SatsPathError>(p)
        } else {
            r matches Err(SatsPathError::AliasNotFound(m)) && m@ == substitution_message(
                canonical(alias),
                canonical(p.profile.alias@),
            )
        },
        Err(e) => r == Err::<SignedPaymentProfile, SatsPathError>(e),
    }
}

/// The chain `resolvers` answered `r` for `alias` after its resolvers gave
/// `outcomes`, in order: each resolver was asked for `alias` itself and gave
/// an answer it admits, every outcome but the last passed on, and the last
/// one decided `r`; or all of them passed on, every resolver was asked, and
/// `r` is "not found" for `alias`.
pub open spec fn chain_answers<R: ProfileResolver>(
    resolvers: Seq<R>,
    alias: Seq<char>,
    outcomes: Seq<Result<SignedPaymentProfile, SatsPathError>>,
    r: Result<SignedPaymentProfile, SatsPathError>,
) -> bool {
    &&& outcomes.len() <= resolvers.len()
    &&& forall|i: int| 0 <= i < outcomes.len() ==> resolvers[i].answered(alias, #[trigger] outcomes[i])
    &&& forall|i: int| 0 <= i < outcomes.len() - 1 ==> passes_on(#[trigger] outcomes[i])
    &&& if outcomes.len() > 0 && !passes_on(outcomes.last()) {
        decided_by(alias, outcomes.last(), r)
    } else {
        &&& outcomes.len() == resolvers.len()
        &&& r matches Err(SatsPathError::AliasNotFound(a)) && a@ == alias
    }
}

impl<R: ProfileResolver> ChainResolver<R> {
    /// Asks each resolver in turn for `alias` and answers with the first
    /// decisive outcome (see `chain_step`); "not found" for `alias` when none
    /// is.
    pub fn resolve_alias(&self, alias: &str) -> (r: Result<SignedPaymentProfile, SatsPathError>)
        ensures
            exists|outcomes: Seq<Result<SignedPaymentProfile, SatsPathError>>|
                chain_answers(self.view(), alias@, outcomes, r),
            chain_answer_ok(alias@, r),
            self.view().len() == 0 ==> (r matches Err(SatsPathError::AliasNotFound(a)) && a@ == alias@),
            r matches Err(SatsPathError::NetworkError(_)) ==> false,
    {
        let ghost mut outcomes: Seq<Result<SignedPaymentProfile, SatsPathError>> = Seq::empty();
        let mut i: usize = 0;
        while i < self.resolvers.len()
            invariant
                i <= self.resolvers@.len(),
                outcomes.len() == i,
                forall|j: int| 0 <= j < i ==> self.resolvers@[j].answered(alias@, #[trigger] outcomes[j]),
                forall|j: int| 0 <= j < i ==> passes_on(#[trigger] outcomes[j]),
            decreases self.resolvers.len() - i,
        {
            let outcome = self.resolvers[i].resolve_alias(alias);
            let ghost seen = outcome;
            proof {
                outcomes = outcomes.push(seen);
            }
            match chain_step(alias, outcome) {
                ChainStep::Return(answer) => {
                    assert(outcomes.last() == seen);
                    assert(chain_answers(self.view(), alias@, outcomes, answer));
                    return answer;
                },
                ChainStep::Continue => {},
            }
            i = i + 1;
        }
        let answer = Err(chain_exhausted(alias));
        assert(chain_answers(self.view(), alias@, outcomes, answer));
        answer
    }
}

/// Resolver for BIP-353 `₿user@domain` names. DNSSEC validation is not
/// implemented, so such names fail closed.
pub struct Bip353Resolver {
    dnssec_required: bool,
}

impl Bip353Resolver {
    /// A resolver that requires DNSSEC.
    pub fn new() -> (r: Self)
        ensures
            r.dnssec_required_spec(),
    {
        Bip353Resolver { dnssec_required: true }
    }

    pub closed spec fn dnssec_required_spec(&self) -> bool {
        self.dnssec_required
    }

    /// Whether DNSSEC validation is required.
    pub fn dnssec_required(&self) -> (r: bool)
        ensures
            r == self.dnssec_required_spec(),
    {
        self.dnssec_required
    }
}

impl ProfileResolver for Bip353Resolver {
    /// "Not found" unless the alias is a `₿` name, which fails closed.
    open spec fn answered(&self, alias: Seq<char>, r: Result<SignedPaymentProfile, SatsPathError>) -> bool {
        if alias.len() > 0 && alias[0] == '₿' {
            r matches Err(SatsPathError::InvalidRoute(_))
        } else {
            r matches Err(SatsPathError::AliasNotFound(a)) && a@ == alias
        }
    }

    /// The resolver's answer for an alias: "not found" unless it is a `₿`
    /// name, which fails closed.
    fn resolve_alias(&self, alias: &str) -> (r: Result<SignedPaymentProfile, SatsPathError>)
        ensures
            alias@.len() > 0 && alias@[0] == '₿' ==> r matches Err(SatsPathError::InvalidRoute(_)),
            !(alias@.len() > 0 && alias@[0] == '₿') ==> (r matches Err(
                SatsPathError::AliasNotFound(a),
            ) && a@ == alias@),
    {
        let v = chars_of(alias);
        if !(v.len() > 0 && v[0] == '₿') {
            return Err(SatsPathError::AliasNotFound(alias.to_string()));
        }
        Err(
            SatsPathError::InvalidRoute(
                "BIP-353 DNSSEC validation is not implemented; failing closed".to_string(),
            ),
        )
    }
}

#[derive(Debug, Clone, PartialEq, Eq)]
pub struct Bip321PaymentUri {
    pub uri: String,
}

/// Nostr resolver scaffold: it never finds a profile.
pub struct NostrResolver;

impl ProfileResolver for NostrResolver {
    /// Always "not found", with the scaffold's message.
    open spec fn answered(&self, alias: Seq<char>, r: Result<SignedPaymentProfile, SatsPathError>) -> bool {
        r matches Err(SatsPathError::AliasNotFound(m)) && m@ == "Nostr resolver scaffold only: "@ + alias
    }

    /// Always "not found".
    fn resolve_alias(&self, alias: &str) -> (r: Result<SignedPaymentProfile, SatsPathError>)
        ensures
            r matches Err(SatsPathError::AliasNotFound(m)) && m@ == "Nostr resolver scaffold only: "@
                + alias@,
    {
        let mut msg: Vec<char> = Vec::new();
        push_str(&mut msg, "Nostr resolver scaffold only: ");
        push_str(&mut msg, alias);
        Err(SatsPathError::AliasNotFound(string_of(msg.as_slice())))
    }
}

#[verifier::external_type_specification]
#[verifier::external_body]
pub struct ExPathBuf(std::path::PathBuf);

/// Resolver that asks the Pear peer-to-peer bridge script.
pub struct PearResolver {
    pear_script_path: std::path::PathBuf,
}

impl PearResolver {
    pub closed spec fn script_path(&self) -> std::path::PathBuf {
        self.pear_script_path
    }

    /// A resolver that runs the script at `path`.
    pub fn with_path(path: std::path::PathBuf) -> (r: Self)
        ensures
            r.script_path() == path,
    {
        PearResolver { pear_script_path: path }
    }

    /// The script the resolver runs.
    pub fn pear_script_path(&self) -> (r: &std::path::PathBuf)
        ensures
            *r == self.script_path(),
    {
        &self.pear_script_path
    }

    /// The answer for `alias` once the script ran: the profile it printed, if
    /// it printed one that is not expired at `now`; otherwise "not found"
    /// (a missing script, a failed run or unparsable output give `None`).
    pub fn answer(alias: &str, printed: Option<SignedPaymentProfile>, now: i64) -> (r: Result<
        SignedPaymentProfile,
        SatsPathError,
    >)
        ensures
            match printed {
                Some(p) => if expired_at(p.profile, now) {
                    r matches Err(SatsPathError::AliasNotFound(a)) && a@ == alias@
                } else {
                    r matches Ok(q) && q == p
                },
                None => r matches Err(SatsPathError::AliasNotFound(a)) && a@ == alias@,
            },
    {
        match printed {
            Some(profile) => {
                match check_profile_expiry_at(&profile.profile, now) {
                    Ok(()) => Ok(profile),
                    Err(_) => Err(SatsPathError::AliasNotFound(alias.to_string())),
                }
            },
            None => Err(SatsPathError::AliasNotFound(alias.to_string())),
        }
    }
}

/// `user@domain` with exactly one `@`: the user and the domain.
pub open spec fn http_parts(alias: Seq<char>) -> Option<(Seq<char>, Seq<char>)> {
    match split_once(alias, '@') {
        Some((user, domain)) => if split_once(domain, '@') is None {
            Some((user, domain))
        } else {
            None
        },
        None => None,
    }
}

/// Where the HTTP resolver fetches a profile:
/// `https://<domain>/.well-known/satspath/<user>`.
pub open spec fn http_profile_url_spec(user: Seq<char>, domain: Seq<char>) -> Seq<char> {
    "https://"@ + domain + "/.well-known/satspath/"@ + user
}

/// The URL to fetch the profile of `alias` from, or "not found" when the
/// alias is not `user@domain` with a single `@`.
pub fn http_profile_url(alias: &str) -> (r: Result<String, SatsPathError>)
    ensures
        match http_parts(alias@) {
            Some((user, domain)) => r matches Ok(u) && u@ == http_profile_url_spec(user, domain),
            None => r matches Err(SatsPathError::AliasNotFound(a)) && a@ == alias@,
        },
{
    let v = chars_of(alias);
    let (user, domain) = match split_once_chars(&v, '@') {
        Some(p) => p,
        None => return Err(SatsPathError::AliasNotFound(alias.to_string())),
    };
    if split_once_chars(&domain, '@').is_some() {
        return Err(SatsPathError::AliasNotFound(alias.to_string()));
    }
    let mut out: Vec<char> = Vec::new();
    push_str(&mut out, "https://");
    push_chars(&mut out, &domain);
    push_str(&mut out, "/.well-known/satspath/");
    push_chars(&mut out, &user);
    Ok(string_of(out.as_slice()))
}

/// What an HTTP status means for a profile fetch of `alias`: 404 is "not
/// found", another status outside 200..=299 is a network error, and a success
/// lets the body be read.
pub fn http_status_check(alias: &str, status: u16) -> (r: Result<(), SatsPathError>)
    ensures
        status == 404 ==> (r matches Err(SatsPathError::AliasNotFound(a)) && a@ == alias@),
        status != 404 && !(200 <= status <= 299) ==> r matches Err(SatsPathError::NetworkError(_)),
        200 <= status <= 299 ==> r is Ok,
{
    if status == 404 {
        return Err(SatsPathError::AliasNotFound(alias.to_string()));
    }
    if !(200 <= status && status <= 299) {
        let mut msg: Vec<char> = Vec::new();
        push_str(&mut msg, "HTTP error ");
        let d = crate::encoding::u64_to_dec(status as u64);
        push_chars(&mut msg, &d);
        push_str(&mut msg, " fetching profile");
        return Err(SatsPathError::NetworkError(string_of(msg.as_slice())));
    }
    Ok(())
}

impl Registry {
    /// The registry's answer as a resolver at time `now`: the stored profile
    /// for `alias`, refused when it is expired.
    pub fn resolve_fresh(&self, alias: &str, now: i64) -> (r: Result<SignedPaymentProfile, SatsPathError>)
        ensures
            match resolve_spec(self.view(), alias@) {
                Some(p) => if expired_at(p.profile, now) {
                    r matches Err(SatsPathError::RegistryError(_))
                } else {
                    r matches Ok(q) && crate::profile::signed_eq(q, p)
                },
                None => r matches Err(SatsPathError::AliasNotFound(_)),
            },
    {
        let stored = match self.resolve_alias(alias) {
            Ok(p) => p,
            Err(e) => return Err(e),
        };
        match check_profile_expiry_at(&stored.profile, now) {
            Ok(()) => Ok(stored.copy()),
            Err(e) => Err(e),
        }
    }
}

} // verus!

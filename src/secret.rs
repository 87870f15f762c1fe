use vstd::prelude::*;
use vstd::string::*;

verus! {

/// Length of a freshly minted gateway token.
pub const TOKEN_LENGTH: usize = 32;

pub open spec fn is_alphanumeric(c: char) -> bool {
    ('A' <= c && c <= 'Z') || ('a' <= c && c <= 'z') || ('0' <= c && c <= '9')
}

/// A token that may be used as is: present and non-empty.
pub open spec fn usable(s: Option<Seq<char>>) -> bool {
    s is Some && s->0.len() > 0
}

pub open spec fn opt_view(s: Option<&str>) -> Option<Seq<char>> {
    match s {
        Some(t) => Some(t@),
        None => None,
    }
}

/// The token a reconciliation pass settles on: the override, else the persisted
/// token, else the freshly minted one.
pub open spec fn resolved_token(
    env_override: Option<Seq<char>>,
    persisted: Option<Seq<char>>,
    fresh: Seq<char>,
) -> Seq<char> {
    if usable(env_override) {
        env_override->0
    } else if usable(persisted) {
        persisted->0
    } else {
        fresh
    }
}

/// A string the way a fresh token is made: of the token length, letters and digits only.
pub open spec fn is_fresh_token(s: Seq<char>) -> bool {
    &&& s.len() == TOKEN_LENGTH
    &&& forall|i: int| 0 <= i < s.len() ==> is_alphanumeric(#[trigger] s[i])
}

/// Relies on rand's `Alphanumeric` distribution over `thread_rng`: every sampled
/// byte is one of `A-Z`, `a-z`, `0-9`, and exactly `len` of them are taken.
#[verifier::external_body]
fn random_alphanumeric(len: usize) -> (r: String)
    ensures
        r@.len() == len,
        forall|i: int| 0 <= i < r@.len() ==> is_alphanumeric(#[trigger] r@[i]),
{
    rand::Rng::sample_iter(rand::thread_rng(), &rand::distributions::Alphanumeric).take(len).map(
        char::from,
    ).collect()
}

fn is_usable(s: Option<&str>) -> (r: bool)
    ensures
        r == usable(opt_view(s)),
{
    match s {
        Some(t) => t.unicode_len() > 0,
        None => false,
    }
}

/// Picks the token from the override, the persisted value and a fresh candidate.
pub fn choose_token(env_override: Option<&str>, persisted: Option<&str>, fresh: String) -> (r:
    String)
    ensures
        r@ == resolved_token(opt_view(env_override), opt_view(persisted), fresh@),
{
    if is_usable(env_override) {
        String::from_str(env_override.unwrap())
    } else if is_usable(persisted) {
        String::from_str(persisted.unwrap())
    } else {
        fresh
    }
}

/// Resolves the gateway token, minting a fresh one only where neither the
/// override nor the persisted value can be used.
pub fn resolve_token(env_override: Option<&str>, persisted: Option<&str>) -> (r: String)
    ensures
        usable(opt_view(env_override)) ==> r@ == env_override.unwrap()@,
        !usable(opt_view(env_override)) && usable(opt_view(persisted)) ==> r@
            == persisted.unwrap()@,
        !usable(opt_view(env_override)) && !usable(opt_view(persisted)) ==> is_fresh_token(r@),
        exists|fresh: Seq<char>|
            is_fresh_token(fresh) && r@ == resolved_token(
                opt_view(env_override),
                opt_view(persisted),
                fresh,
            ),
{
    if is_usable(env_override) || is_usable(persisted) {
        let r = choose_token(env_override, persisted, String::new());
        proof {
            let f = Seq::new(TOKEN_LENGTH as nat, |i: int| 'a');
            assert(is_fresh_token(f));
            assert(r@ == resolved_token(opt_view(env_override), opt_view(persisted), f));
        }
        r
    } else {
        let fresh = random_alphanumeric(TOKEN_LENGTH);
        choose_token(env_override, persisted, fresh)
    }
}

} // verus!

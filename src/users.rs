use crate::error::RoboatError;
use vstd::prelude::*;

verus! {

/// The identity of the account that the credential belongs to.
#[derive(Clone, Debug, PartialEq, Eq, PartialOrd, Ord, Hash, Default)]
pub struct UserInformation {
    pub user_id: u64,
    pub username: String,
    pub display_name: String,
}

impl UserInformation {
    /// A copy of the identity, field for field.
    pub fn copy(&self) -> (r: UserInformation)
        ensures
            r == *self,
    {
        UserInformation {
            user_id: self.user_id,
            username: self.username.clone(),
            display_name: self.display_name.clone(),
        }
    }
}

/// What resolving the caller's own identity does next.
pub enum IdentityStep {
    /// The cache holds it: no request is made.
    Cached(UserInformation),
    /// It must be fetched with one read-only request.
    Fetch,
    /// It cannot be had; no request is made.
    Fail(RoboatError),
}

/// The first step of resolving the identity, from the credential and the cache.
pub open spec fn spec_resolve_start(
    credential: Option<String>,
    cache: Option<UserInformation>,
) -> IdentityStep {
    match cache {
        Some(u) => IdentityStep::Cached(u),
        None => match credential {
            Some(_) => IdentityStep::Fetch,
            None => IdentityStep::Fail(RoboatError::RoblosecurityNotSet),
        },
    }
}

/// The cache and the result once the classified outcome of the fetch is known.
pub open spec fn spec_resolve_finish(
    cache: Option<UserInformation>,
    fetched: Result<UserInformation, RoboatError>,
) -> (Option<UserInformation>, Result<UserInformation, RoboatError>) {
    match fetched {
        Ok(u) => (Some(u), Ok(u)),
        Err(e) => (cache, Err(e)),
    }
}

/// Decides how the identity is obtained: from the cache, by a fetch, or not at
/// all when no credential is set.
pub fn resolve_start(credential: &Option<String>, cache: &Option<UserInformation>) -> (r:
    IdentityStep)
    ensures
        r == spec_resolve_start(*credential, *cache),
{
    match cache {
        Some(u) => IdentityStep::Cached(u.copy()),
        None => match credential {
            Some(_) => IdentityStep::Fetch,
            None => IdentityStep::Fail(RoboatError::RoblosecurityNotSet),
        },
    }
}

/// Takes the classified outcome of the fetch: a fetched identity is stored in
/// the cache, overwriting what a concurrent fetch may have stored, and returned;
/// an error leaves the cache as it was.
pub fn resolve_finish(
    cache: &mut Option<UserInformation>,
    fetched: Result<UserInformation, RoboatError>,
) -> (r: Result<UserInformation, RoboatError>)
    ensures
        (*final(cache), r) == spec_resolve_finish(*old(cache), fetched),
{
    match fetched {
        Ok(u) => {
            *cache = Some(u.copy());
            Ok(u)
        },
        Err(e) => Err(e),
    }
}

/// With a credential and an empty cache the identity is fetched with one
/// request and then cached; a second resolution is served from the cache with
/// no request, and yields the same identity.
pub proof fn lemma_fetch_once_then_cached(credential: String, fetched: UserInformation)
    ensures
        spec_resolve_start(Some(credential), None) is Fetch,
        spec_resolve_finish(None, Ok(fetched)) == (
            Some(fetched),
            Ok::<UserInformation, RoboatError>(fetched),
        ),
        spec_resolve_start(Some(credential), spec_resolve_finish(None, Ok(fetched)).0)
            == IdentityStep::Cached(fetched),
{
}

/// The cache after the fetches in `fetched` store their results, in that order.
pub open spec fn store_all(cache: Option<UserInformation>, fetched: Seq<UserInformation>) -> Option<
    UserInformation,
>
    decreases fetched.len(),
{
    if fetched.len() == 0 {
        cache
    } else {
        store_all(spec_resolve_finish(cache, Ok(fetched[0])).0, fetched.drop_first())
    }
}

/// Callers that all found the cache empty and fetched, finishing in any order:
/// each gets its own fetched identity, and the cache ends holding the identity
/// of one of them, the last to finish.
pub proof fn lemma_concurrent_fetches_leave_one(
    credential: String,
    fetched: Seq<UserInformation>,
)
    requires
        fetched.len() > 0,
    ensures
        spec_resolve_start(Some(credential), None) is Fetch,
        store_all(None, fetched) == Some(fetched.last()),
        fetched.contains(fetched.last()),
        forall|c: Option<UserInformation>, i: int|
            0 <= i < fetched.len() ==> #[trigger] spec_resolve_finish(c, Ok(fetched[i])).1 == Ok::<
                UserInformation,
                RoboatError,
            >(fetched[i]),
{
    lemma_store_all_last(None, fetched);
    assert(fetched[fetched.len() - 1] == fetched.last());
}

/// Storing a nonempty run of fetches leaves the last one, whatever was cached.
proof fn lemma_store_all_last(cache: Option<UserInformation>, fetched: Seq<UserInformation>)
    requires
        fetched.len() > 0,
    ensures
        store_all(cache, fetched) == Some(fetched.last()),
    decreases fetched.len(),
{
    if fetched.len() > 1 {
        lemma_store_all_last(Some(fetched[0]), fetched.drop_first());
        assert(fetched.drop_first().last() == fetched.last());
    } else {
        assert(fetched.drop_first().len() == 0);
        assert(store_all(Some(fetched[0]), fetched.drop_first()) == Some(fetched[0]));
    }
}

} // verus!

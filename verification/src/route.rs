//! One HTTP route: the hook targets registered under a path, the matching
//! rule that picks a target for a push event, and the per-request decision
//! that authenticates and enqueues a job.

use vstd::prelude::*;
use vstd::string::*;

use crate::auth::{
    opt_str_view, opt_string_view, spec_validate, validate_signature, AuthError,
};
use crate::git::GitRepositoryError;
use crate::github::GithubPushEvent;
use crate::hook::HookConfig;
use crate::queue::{Event, EventQueue, PushEvent};

verus! {

/// Why a request was rejected before any job was queued, or why a queued
/// job's pipeline failed.
#[derive(Debug)]
pub enum RouteError {
    TransportError(String),
    GitRepositoryError(GitRepositoryError),
    DecodingError(String),
    AuthenticationError(AuthError),
    RoutingError,
    ChannelError,
}

impl From<GitRepositoryError> for RouteError {
    fn from(e: GitRepositoryError) -> (r: Self)
        ensures
            r == RouteError::GitRepositoryError(e),
    {
        RouteError::GitRepositoryError(e)
    }
}

impl vstd::std_specs::convert::FromSpecImpl<GitRepositoryError> for RouteError {
    open spec fn obeys_from_spec() -> bool {
        true
    }

    open spec fn from_spec(e: GitRepositoryError) -> RouteError {
        RouteError::GitRepositoryError(e)
    }
}

/// Whether a hook answers a push event: the repository's full name must
/// equal the hook's, and the pushed ref must be `refs/heads/` followed by
/// the hook's branch.
pub open spec fn hook_matches(hook: HookConfig, ev: GithubPushEvent) -> bool {
    ev.repository.full_name@ == hook.repo_name@ && ev.reference.0@ == "refs/heads/"@
        + hook.branch@
}

/// The first hook, in configuration order, that answers the event.
pub open spec fn spec_first_match(hooks: Seq<HookConfig>, ev: GithubPushEvent) -> Option<
    HookConfig,
>
    decreases hooks.len(),
{
    if hooks.len() == 0 {
        None
    } else if hook_matches(hooks[0], ev) {
        Some(hooks[0])
    } else {
        spec_first_match(hooks.drop_first(), ev)
    }
}

/// When no hook before index `i` answers the event, the first match over
/// the whole list is the first match from `i` on.
proof fn lemma_first_match_skip(hooks: Seq<HookConfig>, ev: GithubPushEvent, i: int)
    requires
        0 <= i <= hooks.len(),
        forall|j: int| 0 <= j < i ==> !hook_matches(#[trigger] hooks[j], ev),
    ensures
        spec_first_match(hooks, ev) == spec_first_match(hooks.skip(i), ev),
    decreases i,
{
    if i == 0 {
        assert(hooks.skip(0) =~= hooks);
    } else {
        assert(!hook_matches(hooks[0], ev));
        assert forall|j: int| 0 <= j < i - 1 implies !hook_matches(
            #[trigger] hooks.drop_first()[j],
            ev,
        ) by {
            assert(hooks.drop_first()[j] == hooks[j + 1]);
        }
        lemma_first_match_skip(hooks.drop_first(), ev, i - 1);
        assert(hooks.drop_first().skip(i - 1) =~= hooks.skip(i));
    }
}

/// The router selects a hook exactly when one matches: a `None` answer
/// means no registered hook's repository and branch both fit the event,
/// and a selected hook is a matching one that no earlier registered hook
/// precedes as a match — a shared route path alone never selects.
pub proof fn lemma_first_match_characterization(hooks: Seq<HookConfig>, ev: GithubPushEvent)
    ensures
        spec_first_match(hooks, ev) is None <==> (forall|i: int|
            0 <= i < hooks.len() ==> !hook_matches(#[trigger] hooks[i], ev)),
        spec_first_match(hooks, ev) matches Some(h) ==> exists|i: int|
            0 <= i < hooks.len() && #[trigger] hooks[i] == h && hook_matches(h, ev) && (forall|
                j: int,
            |
                0 <= j < i ==> !hook_matches(#[trigger] hooks[j], ev)),
    decreases hooks.len(),
{
    if hooks.len() == 0 {
    } else if hook_matches(hooks[0], ev) {
    } else {
        lemma_first_match_characterization(hooks.drop_first(), ev);
        assert forall|j: int| 0 <= j < hooks.drop_first().len() implies hooks.drop_first()[j]
            == hooks[j + 1] by {}
        if spec_first_match(hooks, ev) is None {
            assert forall|i: int| 0 <= i < hooks.len() implies !hook_matches(
                #[trigger] hooks[i],
                ev,
            ) by {
                if i > 0 {
                    assert(hooks.drop_first()[i - 1] == hooks[i]);
                }
            }
        } else {
            let h = spec_first_match(hooks.drop_first(), ev)->0;
            let i = choose|i: int|
                0 <= i < hooks.drop_first().len() && #[trigger] hooks.drop_first()[i] == h
                    && hook_matches(h, ev) && (forall|j: int|
                    0 <= j < i ==> !hook_matches(#[trigger] hooks.drop_first()[j], ev));
            assert(hooks[i + 1] == h);
            assert forall|j: int| 0 <= j < i + 1 implies !hook_matches(#[trigger] hooks[j], ev) by {
                if j > 0 {
                    assert(hooks.drop_first()[j - 1] == hooks[j]);
                }
            }
        }
    }
}

/// The hook targets registered under one route path. Multiple hooks may
/// share the path; a push event disambiguates them by repository and
/// branch.
pub struct Route {
    route: String,
    hooks: Vec<HookConfig>,
}

impl Route {
    /// The path this route answers under.
    pub closed spec fn spec_route(&self) -> Seq<char> {
        self.route@
    }

    /// The registered hooks, in configuration order.
    pub closed spec fn spec_hooks(&self) -> Seq<HookConfig> {
        self.hooks@
    }

    /// A route with no hooks registered yet.
    pub fn new(route: String) -> (r: Self)
        ensures
            r.spec_route() == route@,
            r.spec_hooks() == Seq::<HookConfig>::empty(),
    {
        Route { route, hooks: Vec::new() }
    }

    /// Registers one more hook under this route; the hook must name it.
    pub fn add_hook(&mut self, hook: HookConfig)
        requires
            hook.hook_route@ == old(self).spec_route(),
        ensures
            final(self).spec_route() == old(self).spec_route(),
            final(self).spec_hooks() == old(self).spec_hooks().push(hook),
    {
        self.hooks.push(hook);
    }

    /// The path this route answers under.
    pub fn route(&self) -> (r: String)
        ensures
            r@ == self.spec_route(),
    {
        self.route.clone()
    }

    /// Picks the first registered hook, in configuration order, whose
    /// repository equals the event's and whose branch the pushed ref names.
    pub fn hook_for_event(&self, v: &GithubPushEvent) -> (r: Option<&HookConfig>)
        ensures
            match r {
                Some(h) => spec_first_match(self.spec_hooks(), *v) == Some(*h),
                None => spec_first_match(self.spec_hooks(), *v) is None,
            },
    {
        let n = self.hooks.len();
        let mut i: usize = 0;
        while i < n
            invariant
                n == self.spec_hooks().len(),
                0 <= i <= n,
                forall|j: int| 0 <= j < i ==> !hook_matches(#[trigger] self.spec_hooks()[j], *v),
            decreases n - i,
        {
            let hook = &self.hooks[i];
            let expected = String::from_str("refs/heads/").concat(hook.branch.as_str());
            if v.repository.full_name.eq(&hook.repo_name) && v.reference.0.eq(&expected) {
                proof {
                    lemma_first_match_skip(self.spec_hooks(), *v, i as int);
                    assert(self.spec_hooks().skip(i as int)[0] == self.spec_hooks()[i as int]);
                }
                return Some(&self.hooks[i]);
            }
            i = i + 1;
        }
        proof {
            lemma_first_match_skip(self.spec_hooks(), *v, n as int);
            assert(self.spec_hooks().skip(n as int) =~= Seq::<HookConfig>::empty());
        }
        None
    }

    /// The decision for one decoded request on this route: pick the hook,
    /// validate the signature over the exact raw body, and enqueue the job.
    /// No match rejects with a routing error; a failed validation rejects
    /// with that authentication error; only a success enqueues, and then
    /// exactly one job, at the back.
    pub fn process_request(
        &self,
        event: GithubPushEvent,
        body: &Vec<u8>,
        signature_header: Option<&String>,
        queue: &mut EventQueue,
    ) -> (r: Result<(), RouteError>)
        requires
            body@.len() < 0x1000000000000000,
        ensures
            match spec_first_match(self.spec_hooks(), event) {
                None => r matches Err(e) && e == RouteError::RoutingError && final(queue)@ == old(
                    queue,
                )@,
                Some(h) => match spec_validate(
                    opt_string_view(h.secret),
                    body@,
                    opt_str_view(signature_header),
                ) {
                    Ok(_) => r is Ok && final(queue)@ == old(queue)@.push(
                        Event::PushEvent(PushEvent { hook: h, content: event }),
                    ),
                    Err(e) => r matches Err(err) && err == RouteError::AuthenticationError(e)
                        && final(queue)@ == old(queue)@,
                },
            },
    {
        let hook = match self.hook_for_event(&event) {
            Some(h) => h,
            None => {
                return Err(RouteError::RoutingError);
            },
        };
        match validate_signature(hook.secret.as_ref(), body, signature_header) {
            Ok(_) => {},
            Err(e) => {
                return Err(RouteError::AuthenticationError(e));
            },
        }
        let job = PushEvent { hook: hook.clone(), content: event };
        queue.send(Event::PushEvent(job));
        Ok(())
    }
}

} // verus!

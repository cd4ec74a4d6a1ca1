//! The ordered chain of callbacks that may override the decision on a
//! resource, and the rule by which their results are committed.

use crate::policy::PythonPackagingPolicy;
use crate::resource::{with_context, ContextView, Resource, ResourceView};
use crate::value::{ErrorView, PolicyError};
use vstd::prelude::*;

verus! {

/// The canonical resource after a callback has handed back its working
/// copy: only the decision that the copy carries is taken over, and a copy
/// without a decision leaves the canonical one as it was.
pub open spec fn commit(canonical: ResourceView, returned: ResourceView) -> ResourceView {
    match returned.context {
        Some(c) => with_context(canonical, Some(c)),
        None => canonical,
    }
}

/// Takes over the decision of a working copy that a callback handed back,
/// and nothing else of it.
pub fn commit_returned(resource: &mut Resource, returned: Resource)
    ensures
        final(resource)@ == commit(old(resource)@, returned@),
{
    match returned.context {
        Some(context) => {
            resource.context = Some(context);
        },
        None => {},
    }
}

/// Starting from `start`, the callbacks can have run in order, each on a
/// working copy of what the one before it left, each handing a copy back,
/// and `end` is what the last commit left.
pub open spec fn chain_reaches<F: Fn(&PythonPackagingPolicy, Resource) -> Result<Resource, String>>(
    callbacks: Seq<F>,
    policy: &PythonPackagingPolicy,
    start: ResourceView,
    end: ResourceView,
) -> bool
    decreases callbacks.len(),
{
    if callbacks.len() == 0 {
        end == start
    } else {
        exists|working: Resource, returned: Resource|
            {
                &&& chain_reaches(callbacks.drop_last(), policy, start, working@)
                &&& #[trigger] call_ensures(callbacks.last(), (policy, working), Ok(returned))
                &&& end == commit(working@, returned@)
            }
    }
}

/// Starting from `start`, the callbacks before the one at the index of
/// `error` can have run and left `end`, and that one can have failed on a
/// working copy of `end` with the message of `error`.
pub open spec fn chain_stops<F: Fn(&PythonPackagingPolicy, Resource) -> Result<Resource, String>>(
    callbacks: Seq<F>,
    policy: &PythonPackagingPolicy,
    start: ResourceView,
    end: ResourceView,
    error: ErrorView,
) -> bool {
    exists|k: int, working: Resource, message: String|
        {
            &&& 0 <= k < callbacks.len()
            &&& chain_reaches(callbacks.take(k), policy, start, end)
            &&& working@ == end
            &&& #[trigger] call_ensures(callbacks[k], (policy, working), Err(message))
            &&& error == (ErrorView::Callback { index: k as nat, message: message@ })
        }
}

/// A chain of no callbacks leaves the resource as it is.
pub proof fn lemma_chain_of_none<F: Fn(&PythonPackagingPolicy, Resource) -> Result<Resource, String>>(
    callbacks: Seq<F>,
    policy: &PythonPackagingPolicy,
    start: ResourceView,
    end: ResourceView,
)
    requires
        callbacks.len() == 0,
    ensures
        chain_reaches(callbacks, policy, start, end) <==> end == start,
{
}

/// The last callback of a chain ran on a working copy of what the callbacks
/// before it left, and what it handed back was committed.
pub proof fn lemma_chain_last<F: Fn(&PythonPackagingPolicy, Resource) -> Result<Resource, String>>(
    callbacks: Seq<F>,
    policy: &PythonPackagingPolicy,
    start: ResourceView,
    end: ResourceView,
) -> (step: (Resource, Resource))
    requires
        callbacks.len() > 0,
        chain_reaches(callbacks, policy, start, end),
    ensures
        chain_reaches(callbacks.drop_last(), policy, start, step.0@),
        call_ensures(callbacks.last(), (policy, step.0), Ok::<Resource, String>(step.1)),
        end == commit(step.0@, step.1@),
{
    choose|working: Resource, returned: Resource|
        {
            &&& chain_reaches(callbacks.drop_last(), policy, start, working@)
            &&& #[trigger] call_ensures(callbacks.last(), (policy, working), Ok(returned))
            &&& end == commit(working@, returned@)
        }
}

/// Whatever the callbacks do to their working copies, the canonical
/// resource differs from what it was in its decision at most.
pub proof fn lemma_chain_changes_context_only<
    F: Fn(&PythonPackagingPolicy, Resource) -> Result<Resource, String>,
>(callbacks: Seq<F>, policy: &PythonPackagingPolicy, start: ResourceView, end: ResourceView)
    requires
        chain_reaches(callbacks, policy, start, end),
    ensures
        end == with_context(start, end.context),
    decreases callbacks.len(),
{
    if callbacks.len() > 0 {
        let step = lemma_chain_last(callbacks, policy, start, end);
        lemma_chain_changes_context_only(callbacks.drop_last(), policy, start, step.0@);
    }
}

/// Callbacks run in the order of their registration, each on what the one
/// before it committed: where the last callback but one always hands back
/// the decision `x`, the last callback was handed a working copy that
/// carries `x`.
pub proof fn lemma_callback_observes_previous<
    F: Fn(&PythonPackagingPolicy, Resource) -> Result<Resource, String>,
>(
    callbacks: Seq<F>,
    policy: &PythonPackagingPolicy,
    start: ResourceView,
    end: ResourceView,
    x: ContextView,
)
    requires
        2 <= callbacks.len(),
        chain_reaches(callbacks, policy, start, end),
        forall|w: Resource, out: Resource| #[trigger]
            call_ensures(callbacks[callbacks.len() - 2], (policy, w), Ok(out)) ==> out@.context
                == Some(x),
    ensures
        exists|working: Resource, returned: Resource|
            {
                &&& working@.context == Some(x)
                &&& #[trigger] call_ensures(callbacks.last(), (policy, working), Ok(returned))
                &&& end == commit(working@, returned@)
            },
{
    let last = lemma_chain_last(callbacks, policy, start, end);
    let earlier = lemma_chain_last(callbacks.drop_last(), policy, start, last.0@);
    assert(callbacks.drop_last().last() == callbacks[callbacks.len() - 2]);
    assert(earlier.1@.context == Some(x));
    assert(last.0@.context == Some(x));
}

/// Runs the callbacks in order on `resource`, which already carries its
/// decision. Each callback gets a working copy of the resource as the one
/// before it left it; of what it hands back only the decision is committed.
/// The first callback that fails ends the run: the callbacks behind it are
/// skipped, and the resource keeps what was committed last.
pub fn run_callbacks<F: Fn(&PythonPackagingPolicy, Resource) -> Result<Resource, String>>(
    callbacks: &Vec<F>,
    policy: &PythonPackagingPolicy,
    resource: &mut Resource,
) -> (r: Result<(), PolicyError>)
    requires
        forall|i: int, w: Resource|
            0 <= i < callbacks@.len() ==> #[trigger] call_requires(callbacks@[i], (policy, w)),
    ensures
        final(resource)@ == with_context(old(resource)@, final(resource)@.context),
        match r {
            Ok(()) => chain_reaches(callbacks@, policy, old(resource)@, final(resource)@),
            Err(e) => chain_stops(callbacks@, policy, old(resource)@, final(resource)@, e@),
        },
{
    let mut i: usize = 0;
    assert(callbacks@.take(0) =~= Seq::<F>::empty());
    while i < callbacks.len()
        invariant
            i <= callbacks.len(),
            forall|i: int, w: Resource|
                0 <= i < callbacks@.len() ==> #[trigger] call_requires(callbacks@[i], (policy, w)),
            resource@ == with_context(old(resource)@, resource@.context),
            chain_reaches(callbacks@.take(i as int), policy, old(resource)@, resource@),
        decreases callbacks.len() - i,
    {
        let working = resource.clone();
        let ghost handed = working;
        match (callbacks[i])(policy, working) {
            Ok(returned) => {
                let ghost back = returned;
                commit_returned(resource, returned);
                proof {
                    let longer = callbacks@.take(i + 1);
                    assert(longer.drop_last() =~= callbacks@.take(i as int));
                    assert(longer.last() == callbacks@[i as int]);
                    assert(call_ensures(longer.last(), (policy, handed), Ok(back)));
                    assert(resource@ == commit(handed@, back@));
                    assert(chain_reaches(longer, policy, old(resource)@, resource@));
                }
            },
            Err(message) => {
                proof {
                    assert(call_ensures(callbacks@[i as int], (policy, handed), Err(message)));
                }
                return Err(PolicyError::Callback { index: i, message: message });
            },
        }
        i += 1;
    }
    assert(callbacks@.take(callbacks@.len() as int) =~= callbacks@);
    Ok(())
}

} // verus!

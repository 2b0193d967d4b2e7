//! Running the hooks that an event triggers, one after the other.
use crate::registry;
use crate::types::{Hook, HookResponse, HookResponseView, HookResult, HookResultView, HookView};
use vstd::prelude::*;

verus! {

/// A dispatch of an event to the hooks that it triggers. They run one after the other, in their
/// order, until one of them asks for the operation to be aborted.
#[derive(Debug)]
pub struct Dispatch<'a> {
    hooks: &'a [Hook],
    outcomes: Vec<HookResponse>,
}

/// A dispatch: the hooks, and the outcomes so far.
pub struct DispatchView {
    pub hooks: Seq<HookView>,
    pub outcomes: Seq<HookResponseView>,
}

/// The responses of `outcomes`.
pub open spec fn response_views(outcomes: Seq<HookResponse>) -> Seq<HookResponseView> {
    outcomes.map_values(|outcome: HookResponse| outcome@)
}

/// A dispatch to `hooks` of which none has run.
pub open spec fn begun(hooks: Seq<HookView>) -> DispatchView {
    DispatchView { hooks, outcomes: Seq::empty() }
}

impl DispatchView {
    /// Whether no further hook is to run: every one has run, or the last one that did asked for
    /// the operation to be aborted.
    pub open spec fn is_over(self) -> bool {
        ||| self.outcomes.len() >= self.hooks.len()
        ||| self.outcomes.len() > 0 && self.outcomes.last().result is FailedAbort
    }

    /// The dispatch after the next hook has run, with this result.
    pub open spec fn recorded(self, result: HookResultView) -> DispatchView {
        let hook_name = self.hooks[self.outcomes.len() as int].name;
        DispatchView {
            outcomes: self.outcomes.push(HookResponseView { hook_name, result }),
            ..self
        }
    }
}

impl<'a> View for Dispatch<'a> {
    type V = DispatchView;

    closed spec fn view(&self) -> DispatchView {
        DispatchView {
            hooks: registry::hook_views(self.hooks@),
            outcomes: response_views(self.outcomes@),
        }
    }
}

impl<'a> Dispatch<'a> {
    /// A dispatch to `hooks` of which none has run.
    pub fn new(hooks: &'a [Hook]) -> (dispatch: Dispatch<'a>)
        ensures
            dispatch@ == begun(registry::hook_views(hooks@)),
    {
        let dispatch = Dispatch { hooks, outcomes: Vec::new() };
        assert(dispatch@.outcomes =~= Seq::<HookResponseView>::empty());
        dispatch
    }

    /// The hook that is to run next, unless the dispatch is over.
    pub fn next_hook(&self) -> (hook: Option<&'a Hook>)
        ensures
            hook is None <==> self@.is_over(),
            hook matches Some(next) ==> next@ == self@.hooks[self@.outcomes.len() as int],
    {
        let ran: usize = self.outcomes.len();
        if ran >= self.hooks.len() {
            return None;
        }
        if ran > 0 && self.outcomes[ran - 1].result.should_abort_operation() {
            return None;
        }
        Some(&self.hooks[ran])
    }

    /// Takes down that the next hook has run, and with what result. Once the dispatch is over,
    /// nothing is taken down.
    pub fn record(&mut self, result: HookResult) -> (taken: bool)
        ensures
            taken == !old(self)@.is_over(),
            final(self)@ == if taken {
                old(self)@.recorded(result@)
            } else {
                old(self)@
            },
    {
        match self.next_hook() {
            Some(hook) => {
                let ghost before = self@;
                self.outcomes.push(hook.execute(result));
                assert(self@.outcomes =~= before.recorded(result@).outcomes);
                true
            },
            None => false,
        }
    }

    /// The outcomes of the hooks that have run, in the order in which they ran.
    pub fn into_outcomes(self) -> (outcomes: Vec<HookResponse>)
        ensures
            response_views(outcomes@) == self@.outcomes,
    {
        self.outcomes
    }
}

/// A dispatch to `hooks` that has gone as far as it goes with `results`: the first hook ends in
/// the first of them, the next in the next.
pub open spec fn dispatched(hooks: Seq<HookView>, results: Seq<HookResultView>) -> DispatchView
    decreases results.len(),
{
    if results.len() == 0 {
        begun(hooks)
    } else {
        let before = dispatched(hooks, results.drop_last());
        if before.is_over() {
            before
        } else {
            before.recorded(results.last())
        }
    }
}

/// The hooks run in their order, each reported under its name, and a result that asks for an
/// abort is the last. Nothing but such a result keeps a hook from running.
pub proof fn law_outcomes(hooks: Seq<HookView>, results: Seq<HookResultView>)
    ensures
        ({
            let ran = dispatched(hooks, results).outcomes;
            &&& dispatched(hooks, results).hooks == hooks
            &&& ran.len() <= hooks.len()
            &&& ran.len() <= results.len()
            &&& forall|i: int|
                0 <= i < ran.len() ==> (#[trigger] ran[i]) == (HookResponseView {
                    hook_name: hooks[i].name,
                    result: results[i],
                })
            &&& forall|i: int| 0 <= i < ran.len() - 1 ==> !((#[trigger] ran[i]).result is FailedAbort)
            &&& ran.len() < hooks.len() && ran.len() < results.len() ==> ran.len() > 0
                && ran.last().result is FailedAbort
        }),
    decreases results.len(),
{
    if results.len() > 0 {
        law_outcomes(hooks, results.drop_last());
    }
}

/// Where no hook asks for an abort, every hook runs: a failure that lets the operation continue
/// keeps none of them back.
pub proof fn law_all_hooks_run(hooks: Seq<HookView>, results: Seq<HookResultView>)
    requires
        results.len() == hooks.len(),
        forall|i: int| 0 <= i < results.len() ==> !((#[trigger] results[i]) is FailedAbort),
    ensures
        dispatched(hooks, results).outcomes.len() == hooks.len(),
        dispatched(hooks, results).is_over(),
{
    law_outcomes(hooks, results);
}

/// Where a hook asks for an abort, and none before it did, it is the last that runs.
pub proof fn law_abort_is_last(hooks: Seq<HookView>, results: Seq<HookResultView>, at: int)
    requires
        0 <= at < hooks.len(),
        at < results.len(),
        results[at] is FailedAbort,
        forall|i: int| 0 <= i < at ==> !((#[trigger] results[i]) is FailedAbort),
    ensures
        dispatched(hooks, results).outcomes.len() == at + 1,
        dispatched(hooks, results).outcomes.last().result == results[at],
        dispatched(hooks, results).is_over(),
{
    law_outcomes(hooks, results);
    let ran = dispatched(hooks, results).outcomes;
    if ran.len() <= at {
        assert(ran.last().result == results[ran.len() - 1]);
    } else {
        assert(ran[at].result is FailedAbort);
    }
}

/// With no hooks to run, a dispatch is over at once, and without outcomes.
pub proof fn law_nothing_to_run(results: Seq<HookResultView>)
    ensures
        begun(Seq::empty()).is_over(),
        dispatched(Seq::empty(), results) == begun(Seq::empty()),
    decreases results.len(),
{
    if results.len() > 0 {
        law_nothing_to_run(results.drop_last());
    }
}

/// A dispatch begins with all of its hooks and without outcomes.
pub proof fn law_dispatch_begins_blank(hooks: Seq<HookView>)
    ensures
        begun(hooks).hooks == hooks,
        begun(hooks).outcomes.len() == 0,
        begun(hooks).is_over() <==> hooks.len() == 0,
{
}

/// A dispatch goes on exactly while a hook is left and the last outcome, if there is one, does not
/// ask for an abort. Recording a result adds one outcome: that of the hook whose turn it was.
pub proof fn law_dispatch_goes_on(dispatch: DispatchView, result: HookResultView)
    ensures
        !dispatch.is_over() <==> {
            &&& dispatch.outcomes.len() < dispatch.hooks.len()
            &&& dispatch.outcomes.len() == 0 || !(dispatch.outcomes.last().result is FailedAbort)
        },
        dispatch.recorded(result).hooks == dispatch.hooks,
        dispatch.recorded(result).outcomes.len() == dispatch.outcomes.len() + 1,
        dispatch.recorded(result).outcomes.drop_last() == dispatch.outcomes,
        dispatch.recorded(result).outcomes.last().result == result,
        dispatch.recorded(result).outcomes.last().hook_name
            == dispatch.hooks[dispatch.outcomes.len() as int].name,
{
    assert(dispatch.recorded(result).outcomes.drop_last() =~= dispatch.outcomes);
}

/// No hook and no outcome is lost or moved when a list of them is seen.
pub proof fn law_lists_are_seen_whole(hooks: Seq<Hook>, outcomes: Seq<HookResponse>)
    ensures
        registry::hook_views(hooks).len() == hooks.len(),
        forall|i: int|
            0 <= i < hooks.len() ==> #[trigger] registry::hook_views(hooks)[i] == hooks[i]@,
        response_views(outcomes).len() == outcomes.len(),
        forall|i: int|
            0 <= i < outcomes.len() ==> #[trigger] response_views(outcomes)[i] == outcomes[i]@,
{
}

} // verus!

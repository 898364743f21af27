//! Reconciling a cluster's TLS secrets: the stored PKI is reused where it can be
//! loaded, and a new one is generated and applied where it cannot. It can be loaded
//! where each of its six keys reads as text and holds a PEM marker. When its
//! certificates expire is not looked at.

use vstd::prelude::*;
use vstd::string::*;
use crate::pki::PkiBundle;
use crate::text::views;

verus! {

/// What is done next.
#[derive(Debug, Clone, Copy, PartialEq, Eq, Structural)]
pub enum ReconcileStage {
    /// Load the PKI that the cluster stores.
    Load,
    /// Wait for the namespace that the secrets go to.
    AwaitNamespace,
    /// Generate a new PKI.
    Generate,
    /// Apply the generated PKI to the cluster.
    Apply,
    /// Nothing: the PKI of the cluster is known.
    Done,
}

/// How a stage ended.
#[derive(Debug)]
pub enum ReconcileEvent {
    /// The stored PKI was loaded, or why it was not.
    Loaded(Result<PkiBundle, String>),
    /// The namespace exists.
    NamespaceReady,
    /// A new PKI was generated.
    Generated(PkiBundle),
    /// The new PKI was applied.
    Applied,
    /// The stage failed.
    Failed,
}

/// What follows from an event.
#[derive(Debug)]
pub enum ReconcileStep {
    /// Log the lines, then go on with the stage that the reconciliation is at.
    Continue(Vec<String>),
    /// Give up with the error of the failed stage, under the given heading.
    Abort(Option<&'static str>),
}

/// Where a reconciliation stands.
pub struct ReconcileView {
    pub stage: ReconcileStage,
    /// The PKI of the cluster, as far as it is known.
    pub bundle: Option<PkiBundle>,
    /// Whether the PKI is a new one.
    pub rotated: bool,
}

/// `event` is a way in which `stage` can end.
pub open spec fn reconcile_fits(stage: ReconcileStage, event: ReconcileEvent) -> bool {
    match stage {
        ReconcileStage::Load => event is Loaded,
        ReconcileStage::AwaitNamespace => event is NamespaceReady || event is Failed,
        ReconcileStage::Generate => event is Generated || event is Failed,
        ReconcileStage::Apply => event is Applied || event is Failed,
        ReconcileStage::Done => false,
    }
}

/// Where a reconciliation stands after `event`; None where it is given up.
pub open spec fn reconciled(state: ReconcileView, event: ReconcileEvent) -> Option<ReconcileView> {
    match (state.stage, event) {
        (ReconcileStage::Load, ReconcileEvent::Loaded(Ok(bundle))) => Some(
            ReconcileView { stage: ReconcileStage::Done, bundle: Some(bundle), rotated: false },
        ),
        (ReconcileStage::Load, ReconcileEvent::Loaded(Err(_))) => Some(
            ReconcileView { stage: ReconcileStage::AwaitNamespace, ..state },
        ),
        (ReconcileStage::AwaitNamespace, ReconcileEvent::NamespaceReady) => Some(
            ReconcileView { stage: ReconcileStage::Generate, ..state },
        ),
        (ReconcileStage::Generate, ReconcileEvent::Generated(bundle)) => Some(
            ReconcileView { stage: ReconcileStage::Apply, bundle: Some(bundle), ..state },
        ),
        (ReconcileStage::Apply, ReconcileEvent::Applied) => Some(
            ReconcileView { stage: ReconcileStage::Done, rotated: true, ..state },
        ),
        _ => None,
    }
}

/// The lines that are logged after `event`.
pub open spec fn reconcile_lines(event: ReconcileEvent) -> Seq<Seq<char>> {
    match event {
        ReconcileEvent::Loaded(Ok(_)) => seq!["[progress] Reusing existing TLS certificates"@],
        ReconcileEvent::Loaded(Err(reason)) => seq![
            "[progress] Cannot reuse existing TLS secrets ("@ + reason@
                + ") — generating new PKI"@,
            "[progress] Waiting for navigator namespace"@,
        ],
        ReconcileEvent::NamespaceReady => seq!["[progress] Generating TLS certificates"@],
        ReconcileEvent::Generated(_) => seq!["[progress] Applying TLS secrets to gateway"@],
        _ => seq![],
    }
}

/// A reconciliation of a cluster's TLS secrets.
#[derive(Debug)]
pub struct Reconciliation {
    stage: ReconcileStage,
    bundle: Option<PkiBundle>,
    rotated: bool,
}

impl View for Reconciliation {
    type V = ReconcileView;

    closed spec fn view(&self) -> ReconcileView {
        ReconcileView { stage: self.stage, bundle: self.bundle, rotated: self.rotated }
    }
}

/// Where a reconciliation begins.
pub open spec fn reconcile_start() -> ReconcileView {
    ReconcileView { stage: ReconcileStage::Load, bundle: None, rotated: false }
}

/// One line.
fn line(text: &str) -> (lines: Vec<String>)
    ensures
        views(lines@) == seq![text@],
{
    let lines: Vec<String> = vec![text.to_owned()];
    assert(views(lines@) =~= seq![text@]);
    lines
}

impl Reconciliation {
    #[verifier::type_invariant]
    closed spec fn wf(&self) -> bool {
        &&& self.bundle is Some <==> self.stage is Apply || self.stage is Done
        &&& self.rotated ==> self.stage is Done
    }

    /// A reconciliation before its first stage.
    pub fn new() -> (reconciliation: Self)
        ensures
            reconciliation@ == reconcile_start(),
    {
        Reconciliation { stage: ReconcileStage::Load, bundle: None, rotated: false }
    }

    /// The stage that the reconciliation is at.
    pub fn stage(&self) -> (stage: ReconcileStage)
        ensures
            stage == self@.stage,
    {
        self.stage
    }

    /// The PKI that was generated or loaded, where there is one.
    pub fn bundle(&self) -> (bundle: &Option<PkiBundle>)
        ensures
            *bundle == self@.bundle,
    {
        &self.bundle
    }

    /// Take the end of the current stage into account.
    pub fn advance(&mut self, event: ReconcileEvent) -> (step: ReconcileStep)
        requires
            reconcile_fits(old(self)@.stage, event),
        ensures
            match reconciled(old(self)@, event) {
                Some(next) => {
                    &&& final(self)@ == next
                    &&& step matches ReconcileStep::Continue(lines)
                    &&& views(lines@) == reconcile_lines(event)
                },
                None => {
                    &&& final(self)@ == old(self)@
                    &&& step matches ReconcileStep::Abort(heading)
                    &&& heading is Some <==> old(self)@.stage is Apply
                    &&& heading is Some ==> heading->Some_0@ == "failed to apply new TLS secrets"@
                },
            },
    {
        match event {
            ReconcileEvent::Loaded(Ok(bundle)) => {
                *self = Reconciliation {
                    stage: ReconcileStage::Done,
                    bundle: Some(bundle),
                    rotated: false,
                };
                ReconcileStep::Continue(line("[progress] Reusing existing TLS certificates"))
            },
            ReconcileEvent::Loaded(Err(reason)) => {
                proof {
                    use_type_invariant(&*self);
                }
                let mut first = "[progress] Cannot reuse existing TLS secrets (".to_owned();
                first.append(reason.as_str());
                first.append(") — generating new PKI");
                let second = "[progress] Waiting for navigator namespace".to_owned();
                let lines: Vec<String> = vec![first, second];
                assert(views(lines@) =~= reconcile_lines(event));
                *self = Reconciliation {
                    stage: ReconcileStage::AwaitNamespace,
                    bundle: None,
                    rotated: false,
                };
                ReconcileStep::Continue(lines)
            },
            ReconcileEvent::NamespaceReady => {
                proof {
                    use_type_invariant(&*self);
                }
                *self = Reconciliation {
                    stage: ReconcileStage::Generate,
                    bundle: None,
                    rotated: false,
                };
                ReconcileStep::Continue(line("[progress] Generating TLS certificates"))
            },
            ReconcileEvent::Generated(bundle) => {
                proof {
                    use_type_invariant(&*self);
                }
                *self = Reconciliation {
                    stage: ReconcileStage::Apply,
                    bundle: Some(bundle),
                    rotated: false,
                };
                ReconcileStep::Continue(line("[progress] Applying TLS secrets to gateway"))
            },
            ReconcileEvent::Applied => {
                proof {
                    use_type_invariant(&*self);
                }
                let mut applied = Reconciliation::new();
                std::mem::swap(&mut applied, self);
                *self = Reconciliation {
                    stage: ReconcileStage::Done,
                    bundle: applied.bundle,
                    rotated: true,
                };
                let lines: Vec<String> = Vec::new();
                assert(views(lines@) =~= reconcile_lines(event));
                ReconcileStep::Continue(lines)
            },
            ReconcileEvent::Failed => {
                if self.stage == ReconcileStage::Apply {
                    ReconcileStep::Abort(Some("failed to apply new TLS secrets"))
                } else {
                    ReconcileStep::Abort(None)
                }
            },
        }
    }

    /// The PKI of the cluster and whether it is a new one, which a running
    /// workload has yet to pick up.
    pub fn finish(self) -> (result: (PkiBundle, bool))
        requires
            self@.stage is Done,
        ensures
            is_result_of(result, self@),
    {
        proof {
            use_type_invariant(&self);
        }
        (self.bundle.unwrap(), self.rotated)
    }
}

/// `result` is what a reconciliation that is at `state` ends with.
pub open spec fn is_result_of(result: (PkiBundle, bool), state: ReconcileView) -> bool {
    &&& state.bundle == Some(result.0)
    &&& result.1 == state.rotated
}

/// Where a reconciliation stands after `events`; None where one of them gave it up.
pub open spec fn reconciled_after(events: Seq<ReconcileEvent>) -> Option<ReconcileView>
    decreases events.len(),
{
    if events.len() == 0 {
        Some(reconcile_start())
    } else {
        match reconciled_after(events.drop_last()) {
            Some(state) => reconciled(state, events.last()),
            None => None,
        }
    }
}

/// What every state of a reconciliation owes to the events before it.
pub open spec fn reconcile_history(events: Seq<ReconcileEvent>, state: ReconcileView) -> bool {
    let reusable = events.len() > 0 && (events[0] matches ReconcileEvent::Loaded(Ok(_)));
    match state.stage {
        ReconcileStage::Load => events.len() == 0,
        ReconcileStage::AwaitNamespace => {
            &&& events.len() == 1
            &&& !reusable
            &&& !state.rotated
        },
        ReconcileStage::Generate => {
            &&& events.len() == 2
            &&& !reusable
            &&& !state.rotated
        },
        ReconcileStage::Apply => {
            &&& events.len() == 3
            &&& !reusable
            &&& !state.rotated
            &&& state.bundle is Some
            &&& events[2] == ReconcileEvent::Generated(state.bundle->Some_0)
        },
        ReconcileStage::Done => {
            &&& state.bundle is Some
            &&& state.rotated == !reusable
            &&& reusable ==> events.len() == 1 && events[0] == ReconcileEvent::Loaded(
                Ok(state.bundle->Some_0),
            )
            &&& !reusable ==> {
                &&& events.len() == 4
                &&& events[1] is NamespaceReady
                &&& events[2] == ReconcileEvent::Generated(state.bundle->Some_0)
                &&& events[3] is Applied
            }
        },
    }
}

/// A reconciliation that ends without an error ends with the stored PKI, unrotated,
/// where that could be loaded. Otherwise it ends rotated, with a PKI that was
/// generated after the namespace existed and was applied to the cluster.
pub proof fn law_rotated_iff_not_reusable(events: Seq<ReconcileEvent>)
    ensures
        reconciled_after(events) matches Some(state) ==> reconcile_history(events, state),
    decreases events.len(),
{
    if events.len() > 0 {
        let before = events.drop_last();
        law_rotated_iff_not_reusable(before);
        if before.len() > 0 {
            assert(before[0] == events[0]);
        }
        if let Some(state) = reconciled_after(before) {
            if before.len() == 3 {
                assert(before[1] == events[1]);
                assert(before[2] == events[2]);
                law_rotated_iff_not_reusable(before.drop_last());
                assert(before.drop_last()[0] == events[0]);
            }
        }
    }
}

/// A reconciliation that is done either loaded the stored PKI, and did nothing else,
/// or could not load it, found the namespace, generated a PKI and applied it, in this
/// order. It ends with the PKI that was loaded, or that was generated, and calls it
/// rotated exactly where it was generated.
pub proof fn law_done_by_loading_or_by_applying(events: Seq<ReconcileEvent>)
    ensures
        reconciled_after(events) matches Some(state) ==> (state.stage is Done ==> {
            &&& state.bundle is Some
            &&& {
                ||| {
                    &&& !state.rotated
                    &&& events.len() == 1
                    &&& events[0] == ReconcileEvent::Loaded(Ok(state.bundle->Some_0))
                }
                ||| {
                    &&& state.rotated
                    &&& events.len() == 4
                    &&& events[0] matches ReconcileEvent::Loaded(Err(_))
                    &&& events[1] is NamespaceReady
                    &&& events[2] == ReconcileEvent::Generated(state.bundle->Some_0)
                    &&& events[3] is Applied
                }
            }
        }),
{
    law_rotated_iff_not_reusable(events);
    if events.len() > 0 && reconciled_after(events) is Some {
        lemma_first_is_a_load(events);
    }
}

/// The first thing that a reconciliation learns is whether the stored PKI loads.
proof fn lemma_first_is_a_load(events: Seq<ReconcileEvent>)
    requires
        events.len() > 0,
        reconciled_after(events) is Some,
    ensures
        events[0] is Loaded,
    decreases events.len(),
{
    if events.len() > 1 {
        lemma_first_is_a_load(events.drop_last());
        assert(events.drop_last()[0] == events[0]);
    } else {
        assert(reconciled_after(events.drop_last()) == Some(reconcile_start()));
    }
}

/// A failed stage gives a reconciliation up, and nothing else that can end a stage
/// does: a PKI that cannot be loaded leads on to a new one.
pub proof fn law_only_failures_end_reconciliation(state: ReconcileView, event: ReconcileEvent)
    requires
        reconcile_fits(state.stage, event),
    ensures
        reconciled(state, event) is None <==> event is Failed,
        event is Loaded ==> reconciled(state, event) is Some,
{
}

/// A reconciliation ends with the PKI that was loaded, which is not new, or with the
/// one that was generated and applied, which is.
pub proof fn law_result_is_loaded_or_new(
    events: Seq<ReconcileEvent>,
    result: (PkiBundle, bool),
)
    requires
        reconciled_after(events) is Some,
        reconciled_after(events)->Some_0.stage is Done,
        is_result_of(result, reconciled_after(events)->Some_0),
    ensures
        events.len() > 0,
        !result.1 <==> events[0] == ReconcileEvent::Loaded(Ok(result.0)),
        result.1 ==> events.len() == 4 && events[2] == ReconcileEvent::Generated(result.0)
            && events[3] is Applied,
{
    law_done_by_loading_or_by_applying(events);
}

/// Every stage can end well, and every stage but the first can fail: that nothing can
/// be loaded is no failure.
pub proof fn law_every_reconcile_stage_can_end(stage: ReconcileStage, event: ReconcileEvent)
    ensures
        event is Loaded ==> (reconcile_fits(stage, event) <==> stage is Load),
        event is NamespaceReady ==> (reconcile_fits(stage, event) <==> stage is AwaitNamespace),
        event is Generated ==> (reconcile_fits(stage, event) <==> stage is Generate),
        event is Applied ==> (reconcile_fits(stage, event) <==> stage is Apply),
        event is Failed ==> (reconcile_fits(stage, event) <==> stage is AwaitNamespace
            || stage is Generate || stage is Apply),
{
}

} // verus!

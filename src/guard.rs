use vstd::prelude::*;
use crate::cache::{saturating_inc, RegistryCache};
use crate::snapshot::RegistrySnapshot;

verus! {

/// Whether requests may carry their own document text.
#[derive(Clone, Copy, Debug, PartialEq, Eq, Structural)]
pub enum EnforcementMode {
    PersistedOnly,
    AllowInline,
}

/// What to do while the registry has never delivered data.
#[derive(Clone, Copy, Debug, PartialEq, Eq, Structural)]
pub enum UnavailablePolicy {
    FailClosed,
    FailOpen,
}

#[derive(Clone, Copy, Debug, PartialEq, Eq, Structural)]
pub struct GuardConfig {
    pub mode: EnforcementMode,
    pub on_unavailable: UnavailablePolicy,
}

impl Default for GuardConfig {
    /// Persisted documents only, failing closed.
    fn default() -> (r: GuardConfig)
        ensures
            r == (GuardConfig { mode: EnforcementMode::PersistedOnly, on_unavailable: UnavailablePolicy::FailClosed }),
    {
        GuardConfig { mode: EnforcementMode::PersistedOnly, on_unavailable: UnavailablePolicy::FailClosed }
    }
}

#[derive(Clone, Copy, Debug, PartialEq, Eq, Structural)]
pub enum RejectReason {
    InlineNotAllowed,
    UnknownOperation,
    RegistryUnavailable,
}

/// The decision on one request.
#[derive(Debug)]
pub enum Admission {
    /// Run the stored document with this text.
    Admit(String),
    /// Let the request through with the document it brought.
    Passthrough,
    Reject(RejectReason),
}

pub enum AdmissionView {
    Admit(Seq<char>),
    Passthrough,
    Reject(RejectReason),
}

impl View for Admission {
    type V = AdmissionView;

    open spec fn view(&self) -> AdmissionView {
        match self {
            Admission::Admit(t) => AdmissionView::Admit(t@),
            Admission::Passthrough => AdmissionView::Passthrough,
            Admission::Reject(r) => AdmissionView::Reject(*r),
        }
    }
}

/// The decision against a snapshot known to be there.
pub open spec fn admission_in(snapshot: RegistrySnapshot, id: Seq<char>) -> AdmissionView {
    match snapshot.document_of(id) {
        Some(t) => AdmissionView::Admit(t),
        None => AdmissionView::Reject(RejectReason::UnknownOperation),
    }
}

/// The admission policy: inline text first, then availability of registry
/// data, then the lookup of the identifier.
pub open spec fn admission(
    config: GuardConfig,
    snapshot: Option<RegistrySnapshot>,
    has_inline: bool,
    id: Seq<char>,
) -> AdmissionView {
    if has_inline {
        match config.mode {
            EnforcementMode::PersistedOnly => AdmissionView::Reject(RejectReason::InlineNotAllowed),
            EnforcementMode::AllowInline => AdmissionView::Passthrough,
        }
    } else {
        match snapshot {
            None => match config.on_unavailable {
                UnavailablePolicy::FailClosed => AdmissionView::Reject(RejectReason::RegistryUnavailable),
                UnavailablePolicy::FailOpen => AdmissionView::Passthrough,
            },
            Some(s) => admission_in(s, id),
        }
    }
}

/// Resolves `id` in a snapshot: the stored text, or `UnknownOperation`.
pub fn resolve_in(snapshot: &RegistrySnapshot, id: &String) -> (r: Admission)
    requires
        snapshot.wf(),
    ensures
        r@ == admission_in(*snapshot, id@),
{
    match snapshot.find(id) {
        Some(e) => Admission::Admit(e.document.clone()),
        None => Admission::Reject(RejectReason::UnknownOperation),
    }
}

/// How many decisions of each kind were taken.
#[derive(Clone, Copy, Debug, PartialEq, Eq, Structural)]
pub struct AdmissionCounts {
    pub admitted: u64,
    pub passed_through: u64,
    pub rejected_inline: u64,
    pub rejected_unknown: u64,
    pub rejected_unavailable: u64,
}

/// Decides on each request before it runs, from the cached snapshot alone.
pub struct PersistedDocumentGuard {
    pub config: GuardConfig,
    pub counts: AdmissionCounts,
}

impl PersistedDocumentGuard {
    pub fn new(config: GuardConfig) -> (r: PersistedDocumentGuard)
        ensures
            r.config == config,
            r.counts == (AdmissionCounts {
                admitted: 0,
                passed_through: 0,
                rejected_inline: 0,
                rejected_unknown: 0,
                rejected_unavailable: 0,
            }),
    {
        PersistedDocumentGuard {
            config,
            counts: AdmissionCounts {
                admitted: 0,
                passed_through: 0,
                rejected_inline: 0,
                rejected_unknown: 0,
                rejected_unavailable: 0,
            },
        }
    }

    /// Admits or rejects one request. Performs no I/O.
    pub fn resolve(&self, cache: &RegistryCache, has_inline: bool, id: &String) -> (r: Admission)
        requires
            cache.wf(),
        ensures
            r@ == admission(self.config, cache.snapshot, has_inline, id@),
    {
        if has_inline {
            return match self.config.mode {
                EnforcementMode::PersistedOnly => Admission::Reject(RejectReason::InlineNotAllowed),
                EnforcementMode::AllowInline => Admission::Passthrough,
            };
        }
        match cache.current_snapshot() {
            None => match self.config.on_unavailable {
                UnavailablePolicy::FailClosed => Admission::Reject(RejectReason::RegistryUnavailable),
                UnavailablePolicy::FailOpen => Admission::Passthrough,
            },
            Some(s) => resolve_in(s, id),
        }
    }

    /// Counts a decision for the observability counters (saturating).
    pub fn count(&mut self, decision: &Admission)
        ensures
            final(self).config == old(self).config,
            final(self).counts == (match decision@ {
                AdmissionView::Admit(_) => AdmissionCounts {
                    admitted: saturating_inc(old(self).counts.admitted), ..old(self).counts },
                AdmissionView::Passthrough => AdmissionCounts {
                    passed_through: saturating_inc(old(self).counts.passed_through), ..old(self).counts },
                AdmissionView::Reject(RejectReason::InlineNotAllowed) => AdmissionCounts {
                    rejected_inline: saturating_inc(old(self).counts.rejected_inline), ..old(self).counts },
                AdmissionView::Reject(RejectReason::UnknownOperation) => AdmissionCounts {
                    rejected_unknown: saturating_inc(old(self).counts.rejected_unknown), ..old(self).counts },
                AdmissionView::Reject(RejectReason::RegistryUnavailable) => AdmissionCounts {
                    rejected_unavailable: saturating_inc(old(self).counts.rejected_unavailable), ..old(self).counts },
            }),
    {
        match decision {
            Admission::Admit(_) => self.counts.admitted = self.counts.admitted.saturating_add(1),
            Admission::Passthrough => self.counts.passed_through = self.counts.passed_through.saturating_add(1),
            Admission::Reject(RejectReason::InlineNotAllowed) =>
                self.counts.rejected_inline = self.counts.rejected_inline.saturating_add(1),
            Admission::Reject(RejectReason::UnknownOperation) =>
                self.counts.rejected_unknown = self.counts.rejected_unknown.saturating_add(1),
            Admission::Reject(RejectReason::RegistryUnavailable) =>
                self.counts.rejected_unavailable = self.counts.rejected_unavailable.saturating_add(1),
        }
    }
}

/// For a request without inline text, served from a snapshot: an
/// identifier stored in the table is admitted with exactly its stored text,
/// and any other identifier is rejected as unknown.
pub proof fn lemma_resolution_exact(config: GuardConfig, s: RegistrySnapshot, id: Seq<char>)
    requires
        s.wf(),
    ensures
        s.document_of(id) matches Some(t) ==> admission(config, Some(s), false, id) == AdmissionView::Admit(t),
        s.document_of(id) is None ==> admission(config, Some(s), false, id)
            == AdmissionView::Reject(RejectReason::UnknownOperation),
        forall|i: int| 0 <= i < s.documents@.len() && s.documents@[i].id@ == id
            ==> admission(config, Some(s), false, id) == AdmissionView::Admit(s.documents@[i].document@),
{
    assert forall|i: int| 0 <= i < s.documents@.len() && s.documents@[i].id@ == id
        implies admission(config, Some(s), false, id) == AdmissionView::Admit(s.documents@[i].document@) by {
        let k = choose|k: int| 0 <= k < s.documents@.len() && s.documents@[k].id@ == id;
        if k != i {
            assert(s.documents@[k].id@ != s.documents@[i].id@);
        }
    }
}

} // verus!

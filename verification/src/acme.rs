use vstd::prelude::*;
use vstd::string::StringExecFns;

use crate::dns::{subdomain_label, subdomain_spec};

verus! {

// ---------------------------------------------------------------------------
// Account bootstrap.
// ---------------------------------------------------------------------------

/// How a run obtains its ACME account.
pub enum AccountPlan {
    /// Load and reconstitute the account from the persisted credentials.
    LoadExisting,
    /// Create a new account against the selected directory; persist the new
    /// credentials when a path is configured.
    CreateNew { persist: bool },
}

/// Decides how the run obtains its account. An existing credentials file is
/// always reused — a fresh account is created, and the file written, only
/// when no credentials file exists, so a persisted account is never silently
/// overwritten on a later run.
pub fn plan_account(path_configured: bool, credentials_file_exists: bool) -> (r: AccountPlan)
    ensures
        (r == AccountPlan::LoadExisting) <==> (path_configured && credentials_file_exists),
        !(path_configured && credentials_file_exists) ==> r == (AccountPlan::CreateNew {
            persist: path_configured,
        }),
{
    if path_configured && credentials_file_exists {
        AccountPlan::LoadExisting
    } else {
        AccountPlan::CreateNew { persist: path_configured }
    }
}

/// The ACME directory a run orders against.
pub enum AcmeDirectory {
    Staging,
    Production,
}

/// Staging unless the production flag is set.
pub fn select_directory(production: bool) -> (r: AcmeDirectory)
    ensures
        r == if production {
            AcmeDirectory::Production
        } else {
            AcmeDirectory::Staging
        },
{
    if production {
        AcmeDirectory::Production
    } else {
        AcmeDirectory::Staging
    }
}

/// Whether a provisioning run is needed at startup: auto-provisioning must
/// be configured and the on-disk certificate must not already cover the
/// required domains. When it covers them, no ACME operation is performed.
pub fn needs_provisioning(auto_provision_configured: bool, certificate_covers: bool) -> (r: bool)
    ensures
        r == (auto_provision_configured && !certificate_covers),
{
    auto_provision_configured && !certificate_covers
}

// ---------------------------------------------------------------------------
// Polling policy.
// ---------------------------------------------------------------------------

/// Bounded exponential backoff: an initial delay, a multiplicative factor
/// (in tenths), and an absolute wall-clock ceiling — not a retry count.
#[derive(Clone, Copy)]
pub struct PollPolicy {
    pub initial_delay_secs: u64,
    pub backoff_tenths: u64,
    pub timeout_secs: u64,
}

/// The policy both order polls use: start at 3 s, back off by 1.5x, give
/// up 120 s after the poll started.
pub fn order_poll_policy() -> (r: PollPolicy)
    ensures
        r.initial_delay_secs == 3,
        r.backoff_tenths == 15,
        r.timeout_secs == 120,
{
    PollPolicy { initial_delay_secs: 3, backoff_tenths: 15, timeout_secs: 120 }
}

// ---------------------------------------------------------------------------
// Artifact file names.
// ---------------------------------------------------------------------------

/// The file name a domain's certificate chain is saved under.
pub open spec fn cert_file_name_spec(domain: Seq<char>) -> Seq<char> {
    subdomain_spec(domain) + "_cert.pem"@
}

/// The file name a domain's private key is saved under.
pub open spec fn key_file_name_spec(domain: Seq<char>) -> Seq<char> {
    subdomain_spec(domain) + "_key.pem"@
}

pub fn cert_file_name(domain: &str) -> (r: String)
    ensures
        r@ == cert_file_name_spec(domain@),
{
    let mut s = subdomain_label(domain);
    s.append("_cert.pem");
    s
}

pub fn key_file_name(domain: &str) -> (r: String)
    ensures
        r@ == key_file_name_spec(domain@),
{
    let mut s = subdomain_label(domain);
    s.append("_key.pem");
    s
}

// ---------------------------------------------------------------------------
// The per-domain provisioning state machine.
// ---------------------------------------------------------------------------

/// Where one domain's provisioning attempt stands. The happy path runs
/// top to bottom; any failure turns into `Cleanup` — the TXT record is
/// cleared unconditionally before the attempt finishes, whether it
/// succeeded or not.
pub enum DomainState {
    /// A new order holding exactly this one DNS identifier must be created.
    CreateOrder,
    /// The order's authorization must be fetched.
    FetchAuthz,
    /// The authorization is pending: its DNS challenge and TXT value are needed.
    FindChallenge,
    /// The TXT value must be published at the DNS provider.
    PublishTxt { txt: String },
    /// Published; propagation must be waited for.
    WaitPropagation,
    /// The challenge must be marked ready at the ACME server.
    MarkReady,
    /// The order must be polled until it is ready.
    PollReady,
    /// The order must be finalized, producing the private key.
    Finalize,
    /// The certificate chain must be polled for.
    PollCert { key_pem: Vec<u8> },
    /// Both artifacts are in hand and must be written to disk.
    Save { key_pem: Vec<u8>, cert_pem: Vec<u8> },
    /// The TXT record must be cleared; `saved` records the attempt's outcome.
    Cleanup { saved: bool },
    /// The attempt is over; `saved` tells whether artifacts were written.
    Finished { saved: bool },
    /// Writing artifacts failed: local state is treated as corrupt and the
    /// whole run stops.
    Aborted,
}

/// What the runner reports back after performing the current step.
pub enum AcmeEvent {
    OrderCreated,
    OrderFailed,
    /// The authorization is pending: the challenge must be published.
    AuthzIsPending,
    /// The authorization needs no publication (already valid, or absent).
    AuthzNotPending,
    AuthzFailed,
    ChallengeFound { txt: String },
    ChallengeMissing,
    TxtSet,
    TxtSetFailed,
    Waited,
    ReadySet,
    ReadySetFailed,
    OrderReady,
    OrderNotReady,
    Finalized { key_pem: Vec<u8> },
    FinalizeFailed,
    CertIssued { cert_pem: Vec<u8> },
    CertPollFailed,
    ArtifactsSaved,
    SaveFailed,
    TxtCleared,
}

/// The transition table of one domain's attempt. An event that does not
/// answer the current step leaves the state unchanged.
pub open spec fn step_spec(s: DomainState, e: AcmeEvent) -> DomainState {
    match (s, e) {
        (DomainState::CreateOrder, AcmeEvent::OrderCreated) => DomainState::FetchAuthz,
        (DomainState::CreateOrder, AcmeEvent::OrderFailed) => DomainState::Cleanup { saved: false },
        (DomainState::FetchAuthz, AcmeEvent::AuthzIsPending) => DomainState::FindChallenge,
        (DomainState::FetchAuthz, AcmeEvent::AuthzNotPending) => DomainState::PollReady,
        (DomainState::FetchAuthz, AcmeEvent::AuthzFailed) => DomainState::Cleanup { saved: false },
        (DomainState::FindChallenge, AcmeEvent::ChallengeFound { txt }) => DomainState::PublishTxt {
            txt,
        },
        (DomainState::FindChallenge, AcmeEvent::ChallengeMissing) => DomainState::Cleanup {
            saved: false,
        },
        (DomainState::PublishTxt { .. }, AcmeEvent::TxtSet) => DomainState::WaitPropagation,
        (DomainState::PublishTxt { .. }, AcmeEvent::TxtSetFailed) => DomainState::Cleanup {
            saved: false,
        },
        (DomainState::WaitPropagation, AcmeEvent::Waited) => DomainState::MarkReady,
        (DomainState::MarkReady, AcmeEvent::ReadySet) => DomainState::PollReady,
        (DomainState::MarkReady, AcmeEvent::ReadySetFailed) => DomainState::Cleanup {
            saved: false,
        },
        (DomainState::PollReady, AcmeEvent::OrderReady) => DomainState::Finalize,
        (DomainState::PollReady, AcmeEvent::OrderNotReady) => DomainState::Cleanup { saved: false },
        (DomainState::Finalize, AcmeEvent::Finalized { key_pem }) => DomainState::PollCert {
            key_pem,
        },
        (DomainState::Finalize, AcmeEvent::FinalizeFailed) => DomainState::Cleanup { saved: false },
        (DomainState::PollCert { key_pem }, AcmeEvent::CertIssued { cert_pem }) => DomainState::Save {
            key_pem,
            cert_pem,
        },
        (DomainState::PollCert { .. }, AcmeEvent::CertPollFailed) => DomainState::Cleanup {
            saved: false,
        },
        (DomainState::Save { .. }, AcmeEvent::ArtifactsSaved) => DomainState::Cleanup {
            saved: true,
        },
        (DomainState::Save { .. }, AcmeEvent::SaveFailed) => DomainState::Aborted,
        (DomainState::Cleanup { saved }, AcmeEvent::TxtCleared) => DomainState::Finished { saved },
        (s2, _) => s2,
    }
}

/// One domain's provisioning attempt.
pub struct DomainMachine {
    /// The domain this attempt provisions.
    pub domain: String,
    /// Seconds to wait for DNS propagation after publishing.
    pub wait_secs: u64,
    /// Where the attempt stands.
    pub state: DomainState,
}

/// What the runner must do next for one domain; the runner performs it and
/// reports the outcome as an `AcmeEvent`.
pub enum AcmeAction {
    /// Create a new order holding exactly one DNS identifier, this domain.
    CreateOrder { domain: String },
    /// Fetch the order's (single) authorization.
    FetchAuthorization,
    /// Select the DNS challenge and compute its TXT value.
    ComputeChallenge,
    /// Publish the TXT value at the DNS provider.
    SetTxtRecord { domain: String, txt: String },
    /// Wait for DNS propagation.
    WaitPropagation { seconds: u64 },
    /// Tell the ACME server the challenge is ready.
    MarkChallengeReady,
    /// Poll the order until ready, under the backoff policy.
    PollOrderReady { policy: PollPolicy },
    /// Finalize the order; this produces the private key.
    FinalizeOrder,
    /// Poll for the issued certificate chain, under the backoff policy.
    PollCertificate { policy: PollPolicy },
    /// Write the domain's artifacts under their domain-derived names; when
    /// `write_default` is set, also write them as the default pair the TLS
    /// listener loads.
    SaveArtifacts {
        cert_name: String,
        key_name: String,
        write_default: bool,
        cert_pem: Vec<u8>,
        key_pem: Vec<u8>,
    },
    /// Clear the domain's TXT record; best-effort, the result is ignored.
    ClearTxtRecord { domain: String },
    /// The attempt is over; record whether it saved artifacts.
    Report { saved: bool },
    /// Writing artifacts failed; stop the whole run.
    AbortRun,
}

/// What `current_action` owes for each state. `write_default` is the batch's
/// word on whether this domain would be the first to succeed.
pub open spec fn action_matches(m: DomainMachine, a: AcmeAction, write_default: bool) -> bool {
    match m.state {
        DomainState::CreateOrder => a matches AcmeAction::CreateOrder { domain } && domain@
            == m.domain@,
        DomainState::FetchAuthz => a == AcmeAction::FetchAuthorization,
        DomainState::FindChallenge => a == AcmeAction::ComputeChallenge,
        DomainState::PublishTxt { txt } => a matches AcmeAction::SetTxtRecord {
            domain,
            txt: txt2,
        } && domain@ == m.domain@ && txt2@ == txt@,
        DomainState::WaitPropagation => a == (AcmeAction::WaitPropagation {
            seconds: m.wait_secs,
        }),
        DomainState::MarkReady => a == AcmeAction::MarkChallengeReady,
        DomainState::PollReady => a matches AcmeAction::PollOrderReady { policy }
            && policy.initial_delay_secs == 3 && policy.backoff_tenths == 15
            && policy.timeout_secs == 120,
        DomainState::Finalize => a == AcmeAction::FinalizeOrder,
        DomainState::PollCert { .. } => a matches AcmeAction::PollCertificate { policy }
            && policy.initial_delay_secs == 3 && policy.backoff_tenths == 15
            && policy.timeout_secs == 120,
        DomainState::Save { key_pem, cert_pem } => a matches AcmeAction::SaveArtifacts {
            cert_name,
            key_name,
            write_default: wd,
            cert_pem: c,
            key_pem: k,
        } && cert_name@ == cert_file_name_spec(m.domain@) && key_name@ == key_file_name_spec(
            m.domain@,
        ) && wd == write_default && c@ == cert_pem@ && k@ == key_pem@,
        DomainState::Cleanup { .. } => a matches AcmeAction::ClearTxtRecord { domain } && domain@
            == m.domain@,
        DomainState::Finished { saved } => a == (AcmeAction::Report { saved }),
        DomainState::Aborted => a == AcmeAction::AbortRun,
    }
}

fn copy_bytes(v: &Vec<u8>) -> (r: Vec<u8>)
    ensures
        r@ == v@,
{
    let mut r: Vec<u8> = Vec::new();
    let n = v.len();
    let mut i: usize = 0;
    while i < n
        invariant
            n == v@.len(),
            0 <= i <= n,
            r@ == v@.take(i as int),
        decreases n - i,
    {
        r.push(v[i]);
        proof {
            assert(r@ =~= v@.take(i + 1));
        }
        i += 1;
    }
    proof {
        assert(v@.take(n as int) =~= v@);
    }
    r
}

impl DomainMachine {
    /// Starts one domain's attempt at its first step.
    pub fn start(domain: String, wait_secs: u64) -> (r: DomainMachine)
        ensures
            r.domain == domain,
            r.wait_secs == wait_secs,
            r.state == DomainState::CreateOrder,
    {
        DomainMachine { domain, wait_secs, state: DomainState::CreateOrder }
    }

    /// Whether the attempt is over.
    pub fn is_finished(&self) -> (r: bool)
        ensures
            r == (self.state matches DomainState::Finished { .. } || self.state
                == DomainState::Aborted),
    {
        match &self.state {
            DomainState::Finished { .. } => true,
            DomainState::Aborted => true,
            _ => false,
        }
    }

    /// The step the runner must perform next. `write_default` is whether a
    /// successful save would be the batch's first, and so must also write
    /// the default certificate pair.
    pub fn current_action(&self, write_default: bool) -> (r: AcmeAction)
        ensures
            action_matches(*self, r, write_default),
    {
        match &self.state {
            DomainState::CreateOrder => AcmeAction::CreateOrder { domain: self.domain.clone() },
            DomainState::FetchAuthz => AcmeAction::FetchAuthorization,
            DomainState::FindChallenge => AcmeAction::ComputeChallenge,
            DomainState::PublishTxt { txt } => AcmeAction::SetTxtRecord {
                domain: self.domain.clone(),
                txt: txt.clone(),
            },
            DomainState::WaitPropagation => AcmeAction::WaitPropagation {
                seconds: self.wait_secs,
            },
            DomainState::MarkReady => AcmeAction::MarkChallengeReady,
            DomainState::PollReady => AcmeAction::PollOrderReady { policy: order_poll_policy() },
            DomainState::Finalize => AcmeAction::FinalizeOrder,
            DomainState::PollCert { .. } => AcmeAction::PollCertificate {
                policy: order_poll_policy(),
            },
            DomainState::Save { key_pem, cert_pem } => AcmeAction::SaveArtifacts {
                cert_name: cert_file_name(self.domain.as_str()),
                key_name: key_file_name(self.domain.as_str()),
                write_default,
                cert_pem: copy_bytes(cert_pem),
                key_pem: copy_bytes(key_pem),
            },
            DomainState::Cleanup { .. } => AcmeAction::ClearTxtRecord {
                domain: self.domain.clone(),
            },
            DomainState::Finished { saved } => AcmeAction::Report { saved: *saved },
            DomainState::Aborted => AcmeAction::AbortRun,
        }
    }

    /// Advances the attempt by one reported outcome, per the transition
    /// table.
    pub fn step(self, event: AcmeEvent) -> (r: DomainMachine)
        ensures
            r.domain == self.domain,
            r.wait_secs == self.wait_secs,
            r.state == step_spec(self.state, event),
    {
        let DomainMachine { domain, wait_secs, state } = self;
        let next = match (state, event) {
            (DomainState::CreateOrder, AcmeEvent::OrderCreated) => DomainState::FetchAuthz,
            (DomainState::CreateOrder, AcmeEvent::OrderFailed) => DomainState::Cleanup {
                saved: false,
            },
            (DomainState::FetchAuthz, AcmeEvent::AuthzIsPending) => DomainState::FindChallenge,
            (DomainState::FetchAuthz, AcmeEvent::AuthzNotPending) => DomainState::PollReady,
            (DomainState::FetchAuthz, AcmeEvent::AuthzFailed) => DomainState::Cleanup {
                saved: false,
            },
            (DomainState::FindChallenge, AcmeEvent::ChallengeFound { txt }) => DomainState::PublishTxt {
                txt,
            },
            (DomainState::FindChallenge, AcmeEvent::ChallengeMissing) => DomainState::Cleanup {
                saved: false,
            },
            (DomainState::PublishTxt { .. }, AcmeEvent::TxtSet) => DomainState::WaitPropagation,
            (DomainState::PublishTxt { .. }, AcmeEvent::TxtSetFailed) => DomainState::Cleanup {
                saved: false,
            },
            (DomainState::WaitPropagation, AcmeEvent::Waited) => DomainState::MarkReady,
            (DomainState::MarkReady, AcmeEvent::ReadySet) => DomainState::PollReady,
            (DomainState::MarkReady, AcmeEvent::ReadySetFailed) => DomainState::Cleanup {
                saved: false,
            },
            (DomainState::PollReady, AcmeEvent::OrderReady) => DomainState::Finalize,
            (DomainState::PollReady, AcmeEvent::OrderNotReady) => DomainState::Cleanup {
                saved: false,
            },
            (DomainState::Finalize, AcmeEvent::Finalized { key_pem }) => DomainState::PollCert {
                key_pem,
            },
            (DomainState::Finalize, AcmeEvent::FinalizeFailed) => DomainState::Cleanup {
                saved: false,
            },
            (DomainState::PollCert { key_pem }, AcmeEvent::CertIssued { cert_pem }) => DomainState::Save {
                key_pem,
                cert_pem,
            },
            (DomainState::PollCert { key_pem }, AcmeEvent::CertPollFailed) => DomainState::Cleanup {
                saved: false,
            },
            (DomainState::Save { .. }, AcmeEvent::ArtifactsSaved) => DomainState::Cleanup {
                saved: true,
            },
            (DomainState::Save { .. }, AcmeEvent::SaveFailed) => DomainState::Aborted,
            (DomainState::Cleanup { saved }, AcmeEvent::TxtCleared) => DomainState::Finished {
                saved,
            },
            (s2, _) => s2,
        };
        DomainMachine { domain, wait_secs, state: next }
    }
}

// ---------------------------------------------------------------------------
// The batch: one run over all configured domains.
// ---------------------------------------------------------------------------

/// No domain in the run produced a saved certificate.
pub struct ProvisionError {}

/// One provisioning run: the domains are attempted strictly one at a time,
/// in input order, each with its own single-identifier order — the DNS
/// provider holds only one TXT slot per label, so attempts never overlap.
pub struct ProvisionBatch {
    /// The domains to provision, in order.
    pub domains: Vec<String>,
    /// Seconds to wait for DNS propagation, handed to each attempt.
    pub wait_secs: u64,
    /// The next domain to attempt.
    pub next_index: usize,
    /// Whether any attempt has saved artifacts yet.
    pub any_saved: bool,
}

impl ProvisionBatch {
    pub fn new(domains: Vec<String>, wait_secs: u64) -> (r: ProvisionBatch)
        ensures
            r.domains == domains,
            r.wait_secs == wait_secs,
            r.next_index == 0,
            !r.any_saved,
    {
        ProvisionBatch { domains, wait_secs, next_index: 0, any_saved: false }
    }

    /// Hands out the next domain's fresh state machine, in input order, or
    /// `None` when the batch is exhausted.
    pub fn next_domain(&mut self) -> (r: Option<DomainMachine>)
        ensures
            final(self).domains == old(self).domains,
            final(self).wait_secs == old(self).wait_secs,
            final(self).any_saved == old(self).any_saved,
            match r {
                Some(m) => {
                    &&& old(self).next_index < old(self).domains@.len()
                    &&& final(self).next_index == old(self).next_index + 1
                    &&& m.domain@ == old(self).domains@[old(self).next_index as int]@
                    &&& m.wait_secs == old(self).wait_secs
                    &&& m.state == DomainState::CreateOrder
                },
                None => {
                    &&& old(self).next_index >= old(self).domains@.len()
                    &&& final(self).next_index == old(self).next_index
                },
            },
    {
        if self.next_index < self.domains.len() {
            let domain = self.domains[self.next_index].clone();
            self.next_index += 1;
            Some(DomainMachine::start(domain, self.wait_secs))
        } else {
            None
        }
    }

    /// Whether a success now would be the batch's first — and so must also
    /// write the default certificate pair.
    pub fn should_write_default(&self) -> (r: bool)
        ensures
            r == !self.any_saved,
    {
        !self.any_saved
    }

    /// Records one finished attempt's outcome. A failure never blocks the
    /// remaining domains; a success is remembered for the batch result.
    pub fn record(&mut self, saved: bool)
        ensures
            final(self).domains == old(self).domains,
            final(self).wait_secs == old(self).wait_secs,
            final(self).next_index == old(self).next_index,
            final(self).any_saved == (old(self).any_saved || saved),
    {
        self.any_saved = self.any_saved || saved;
    }

    /// The batch result: success exactly when at least one domain saved a
    /// certificate; otherwise the run as a whole failed.
    pub fn result(&self) -> (r: Result<(), ProvisionError>)
        ensures
            r is Ok <==> self.any_saved,
    {
        if self.any_saved {
            Ok(())
        } else {
            Err(ProvisionError {})
        }
    }
}

// ---------------------------------------------------------------------------
// Laws of the transition table.
// ---------------------------------------------------------------------------

/// Cleanup is unconditional: an attempt reaches its finished state only out
/// of the TXT-clearing step (or was already finished), whether it saved
/// artifacts or failed.
pub proof fn lemma_finished_only_after_cleanup(s: DomainState, e: AcmeEvent)
    ensures
        step_spec(s, e) matches DomainState::Finished { saved } ==> (s == (DomainState::Cleanup {
            saved,
        }) || s == (DomainState::Finished { saved })),
{
}

/// Success is earned: an attempt heads into cleanup as saved only when the
/// save step actually reported written artifacts.
pub proof fn lemma_saved_only_after_save(s: DomainState, e: AcmeEvent)
    ensures
        step_spec(s, e) == (DomainState::Cleanup { saved: true }) ==> ((s matches DomainState::Save {
            ..
        } && e == AcmeEvent::ArtifactsSaved) || s == (DomainState::Cleanup { saved: true })),
{
}

/// A failed TXT publication only skips the domain: the machine goes to
/// cleanup, never on toward finalization or saving.
pub proof fn lemma_txt_failure_cleans_up(s: DomainState)
    ensures
        step_spec(s, AcmeEvent::TxtSetFailed) == s || step_spec(s, AcmeEvent::TxtSetFailed)
            == (DomainState::Cleanup { saved: false }),
{
}

} // verus!

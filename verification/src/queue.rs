//! The computation queue and callback protocol of the asynchronous model.
//!
//! A caller queues a confidential computation under a job id of its choosing,
//! together with the ordered argument list for the target circuit and a
//! callback descriptor naming exactly which records the eventual result may
//! mutate. The external cluster later executes the job and delivers a signed
//! payload; verification and commit form one atomic unit:
//!
//! 1. the payload's signature must validate against the cluster's
//!    verification key;
//! 2. the signed job id must name a still-`Queued` job of the right circuit,
//!    so an already resolved job — replayed payloads included — is rejected;
//! 3. the records being written must be exactly the registered callback
//!    targets, each writable.
//!
//! Any failure rejects the payload with `AbortedComputation` and mutates no
//! record field. A well-attributed abort signal resolves the job `Aborted`; a
//! well-attributed payload of the wrong shape resolves it `Rejected`; only a
//! fully accepted payload resolves it `Verified`, and its outputs are then
//! committed by a blind overwrite of the target fields.

use vstd::prelude::*;
use crate::encrypted::EncScalar;
use crate::errors::ErrorCode;

verus! {

/// The confidential circuits the cluster can execute.
#[derive(Clone, Copy, Debug, PartialEq, Eq, Structural)]
pub enum CircuitKind {
    /// Initialize a mint's encrypted totals.
    InitMintState,
    /// Initialize an account's encrypted balance.
    InitAccountState,
    /// Add a deposit to balance, supply and locked total.
    DepositAndMint,
    /// Obliviously burn from balance, supply and locked total.
    BurnAndWithdraw,
}

/// One argument of a queued computation. Ciphertexts already resident in
/// ledger records are passed by reference — record address plus byte range —
/// so the cluster reads current state directly and the request stays small.
#[derive(Clone, Copy, Debug, PartialEq, Eq, Structural)]
pub enum Argument {
    /// A public encryption key for an output context.
    X25519Pubkey(u64),
    /// A plaintext scalar, nonces included.
    PlaintextU128(u128),
    /// A ciphertext read from a ledger record at a fixed byte range.
    AccountRef { addr: u64, offset: u32, len: u32 },
}

/// Builds the ordered argument list of a computation. Order must exactly
/// match the target circuit's fixed positional signature; a mismatch causes
/// deterministic job failure.
#[derive(Clone, Debug)]
pub struct ArgBuilder {
    /// The arguments collected so far, in order.
    pub args: Vec<Argument>,
}

impl ArgBuilder {
    /// An empty argument list.
    pub fn new() -> (b: ArgBuilder)
        ensures
            b.args@ == Seq::<Argument>::empty(),
    {
        ArgBuilder { args: Vec::new() }
    }

    /// Append a public encryption key.
    pub fn x25519_pubkey(self, key: u64) -> (b: ArgBuilder)
        ensures
            b.args@ == self.args@.push(Argument::X25519Pubkey(key)),
    {
        let mut args = self.args;
        args.push(Argument::X25519Pubkey(key));
        ArgBuilder { args }
    }

    /// Append a plaintext scalar.
    pub fn plaintext_u128(self, v: u128) -> (b: ArgBuilder)
        ensures
            b.args@ == self.args@.push(Argument::PlaintextU128(v)),
    {
        let mut args = self.args;
        args.push(Argument::PlaintextU128(v));
        ArgBuilder { args }
    }

    /// Append a by-reference ciphertext resident in a ledger record.
    pub fn account(self, addr: u64, offset: u32, len: u32) -> (b: ArgBuilder)
        ensures
            b.args@ == self.args@.push(Argument::AccountRef { addr, offset, len }),
    {
        let mut args = self.args;
        args.push(Argument::AccountRef { addr, offset, len });
        ArgBuilder { args }
    }

    /// Finish and hand back the ordered list.
    pub fn build(self) -> (args: Vec<Argument>)
        ensures
            args@ == self.args@,
    {
        self.args
    }
}

/// One record a job's callback may touch, with its writability.
#[derive(Clone, Copy, Debug, PartialEq, Eq, Structural)]
pub struct CallbackAccount {
    /// Address of the record.
    pub pubkey: u64,
    /// Whether the callback may overwrite it.
    pub is_writable: bool,
}

/// Where a job stands. `Verified`, `Rejected` and `Aborted` are terminal.
#[derive(Clone, Copy, Debug, PartialEq, Eq, Structural)]
pub enum JobStatus {
    /// Persisted and awaiting the cluster's callback.
    Queued,
    /// The callback payload was accepted and committed.
    Verified,
    /// The callback payload was well-attributed but malformed.
    Rejected,
    /// The cluster signalled that the computation was aborted.
    Aborted,
}

/// One queued confidential computation.
#[derive(Clone, Debug)]
pub struct ComputationJob {
    /// Caller-chosen id, unique within the cluster's scope.
    pub id: u64,
    /// The circuit to execute.
    pub kind: CircuitKind,
    /// Ordered arguments, matching the circuit's positional signature.
    pub args: Vec<Argument>,
    /// The records the callback may mutate, in output order.
    pub callbacks: Vec<CallbackAccount>,
    /// Where the job stands.
    pub status: JobStatus,
}

/// A callback payload: the outputs of one job together with the signature
/// binding them to its id, or an abort signal in their place.
#[derive(Clone, Debug)]
pub struct SignedComputationOutputs {
    /// The job this payload resolves.
    pub job_id: u64,
    /// Key the payload's aggregate signature verifies under.
    pub signer: u64,
    /// True when the cluster signals an aborted computation.
    pub aborted: bool,
    /// The returned ciphertexts, one per circuit output.
    pub outputs: Vec<EncScalar>,
}

/// The ledger-side state of the computation protocol: the cluster's
/// verification key, the registered circuit definitions and every job ever
/// queued.
#[derive(Clone, Debug)]
pub struct Cluster {
    /// Key the cluster's output signatures verify under.
    pub verification_key: u64,
    /// Circuits registered for execution.
    pub comp_defs: Vec<CircuitKind>,
    /// All jobs, in queueing order.
    pub jobs: Vec<ComputationJob>,
}

/// The given job with its status replaced.
pub open spec fn with_status(job: ComputationJob, status: JobStatus) -> ComputationJob {
    ComputationJob { status, ..job }
}

/// Pointwise match between a job's callback descriptor and the records a
/// commit wants to write: same addresses in order, each writable.
pub open spec fn targets_match(job: ComputationJob, targets: Seq<u64>) -> bool {
    job.callbacks@.len() == targets.len() && (forall|k: int|
        0 <= k < targets.len() ==> (#[trigger] job.callbacks@[k]).pubkey == targets[k]
            && job.callbacks@[k].is_writable)
}

impl Cluster {
    /// Job ids are unique within the cluster's scope.
    pub open spec fn wf(self) -> bool {
        forall|i: int, j: int|
            0 <= i < j < self.jobs@.len() ==> (#[trigger] self.jobs@[i]).id != (
            #[trigger] self.jobs@[j]).id
    }

    /// Whether any job, in any state, carries this id.
    pub open spec fn has_job(self, id: u64) -> bool {
        exists|i: int| 0 <= i < self.jobs@.len() && (#[trigger] self.jobs@[i]).id == id
    }

    /// Whether a still-pending job of this circuit carries this id.
    pub open spec fn has_queued_job(self, id: u64, kind: CircuitKind) -> bool {
        exists|i: int|
            0 <= i < self.jobs@.len() && (#[trigger] self.jobs@[i]).id == id && self.jobs@[i].kind
                == kind && self.jobs@[i].status == JobStatus::Queued
    }

    /// Index of the job carrying this id; meaningful when `has_job` holds on
    /// a well-formed cluster.
    pub open spec fn job_index(self, id: u64) -> int {
        choose|i: int| 0 <= i < self.jobs@.len() && (#[trigger] self.jobs@[i]).id == id
    }

    /// Whether this circuit is registered.
    pub open spec fn comp_def_registered(self, kind: CircuitKind) -> bool {
        self.comp_defs@.contains(kind)
    }

    /// A payload is attributed when its signature verifies under the
    /// cluster's key, it names a still-queued job of the expected circuit,
    /// and the records being written are exactly the registered callback
    /// targets.
    pub open spec fn attributed(
        self,
        payload: SignedComputationOutputs,
        kind: CircuitKind,
        targets: Seq<u64>,
    ) -> bool {
        payload.signer == self.verification_key && self.has_queued_job(payload.job_id, kind)
            && targets_match(self.jobs@[self.job_index(payload.job_id)], targets)
    }

    /// A payload is accepted — and its outputs committed — when it is
    /// attributed, carries no abort signal, and has exactly the circuit's
    /// output shape.
    pub open spec fn callback_accepted(
        self,
        payload: SignedComputationOutputs,
        kind: CircuitKind,
        expected_outputs: int,
        targets: Seq<u64>,
    ) -> bool {
        self.attributed(payload, kind, targets) && !payload.aborted && payload.outputs@.len()
            == expected_outputs
    }

    /// How one callback delivery moves the cluster state: an accepted payload
    /// resolves its job `Verified`; an attributed abort signal resolves it
    /// `Aborted`; an attributed payload of the wrong shape resolves it
    /// `Rejected`; anything unattributed leaves the cluster untouched.
    pub open spec fn resolution(
        self,
        post: Cluster,
        payload: SignedComputationOutputs,
        kind: CircuitKind,
        expected_outputs: int,
        targets: Seq<u64>,
    ) -> bool {
        post.verification_key == self.verification_key && post.comp_defs@ == self.comp_defs@ && if self.attributed(
            payload,
            kind,
            targets,
        ) {
            post.jobs@ == self.jobs@.update(
                self.job_index(payload.job_id),
                with_status(
                    self.jobs@[self.job_index(payload.job_id)],
                    if payload.aborted {
                        JobStatus::Aborted
                    } else if payload.outputs@.len() != expected_outputs {
                        JobStatus::Rejected
                    } else {
                        JobStatus::Verified
                    },
                ),
            )
        } else {
            post == self
        }
    }

    /// A cluster with no registered circuits and no jobs.
    pub fn new(verification_key: u64) -> (c: Cluster)
        ensures
            c.verification_key == verification_key,
            c.comp_defs@ == Seq::<CircuitKind>::empty(),
            c.jobs@ == Seq::<ComputationJob>::empty(),
            c.wf(),
    {
        Cluster { verification_key, comp_defs: Vec::new(), jobs: Vec::new() }
    }

    /// Whether this circuit is registered.
    pub fn is_comp_def_registered(&self, kind: CircuitKind) -> (b: bool)
        ensures
            b == self.comp_def_registered(kind),
    {
        let mut i: usize = 0;
        while i < self.comp_defs.len()
            invariant
                0 <= i <= self.comp_defs@.len(),
                forall|k: int| 0 <= k < i ==> self.comp_defs@[k] != kind,
            decreases self.comp_defs@.len() - i,
        {
            if self.comp_defs[i] == kind {
                return true;
            }
            i = i + 1;
        }
        false
    }

    /// Whether any job, in any state, carries this id.
    pub fn contains_job(&self, id: u64) -> (b: bool)
        ensures
            b == self.has_job(id),
    {
        let mut i: usize = 0;
        while i < self.jobs.len()
            invariant
                0 <= i <= self.jobs@.len(),
                forall|k: int| 0 <= k < i ==> (#[trigger] self.jobs@[k]).id != id,
            decreases self.jobs@.len() - i,
        {
            if self.jobs[i].id == id {
                return true;
            }
            i = i + 1;
        }
        false
    }

    /// Index of the job carrying this id, if any.
    fn find_job(&self, id: u64) -> (o: Option<usize>)
        ensures
            o matches Some(i) ==> i < self.jobs@.len() && self.jobs@[i as int].id == id,
            o is None ==> !self.has_job(id),
    {
        let mut i: usize = 0;
        while i < self.jobs.len()
            invariant
                0 <= i <= self.jobs@.len(),
                forall|k: int| 0 <= k < i ==> (#[trigger] self.jobs@[k]).id != id,
            decreases self.jobs@.len() - i,
        {
            if self.jobs[i].id == id {
                return Some(i);
            }
            i = i + 1;
        }
        None
    }

    /// Register a circuit definition so the cluster can verify queued jobs of
    /// it. Registering a circuit twice fails as re-initialising its on-ledger
    /// definition does.
    pub fn register_comp_def(&mut self, kind: CircuitKind) -> (r: Result<(), ErrorCode>)
        ensures
            old(self).comp_def_registered(kind) ==> r == Err::<(), ErrorCode>(
                ErrorCode::ClusterNotSet,
            ) && *final(self) == *old(self),
            !old(self).comp_def_registered(kind) ==> r is Ok && final(self).comp_defs@ == old(
                self,
            ).comp_defs@.push(kind),
            final(self).verification_key == old(self).verification_key,
            final(self).jobs@ == old(self).jobs@,
            old(self).wf() ==> final(self).wf(),
    {
        if self.is_comp_def_registered(kind) {
            return Err(ErrorCode::ClusterNotSet);
        }
        self.comp_defs.push(kind);
        Ok(())
    }

    /// Persist a new job under a caller-chosen id that must be unique within
    /// this cluster's scope. The job starts `Queued`; its circuit must be
    /// registered.
    pub fn queue_computation(
        &mut self,
        id: u64,
        kind: CircuitKind,
        args: Vec<Argument>,
        callbacks: Vec<CallbackAccount>,
    ) -> (r: Result<(), ErrorCode>)
        requires
            old(self).wf(),
            !old(self).has_job(id),
        ensures
            final(self).wf(),
            final(self).verification_key == old(self).verification_key,
            final(self).comp_defs@ == old(self).comp_defs@,
            !old(self).comp_def_registered(kind) ==> r == Err::<(), ErrorCode>(
                ErrorCode::ClusterNotSet,
            ) && *final(self) == *old(self),
            old(self).comp_def_registered(kind) ==> r is Ok && final(self).jobs@.len() == old(
                self,
            ).jobs@.len() + 1 && (forall|i: int|
                0 <= i < old(self).jobs@.len() ==> final(self).jobs@[i] == old(self).jobs@[i])
                && final(self).jobs@.last().id == id && final(self).jobs@.last().kind == kind
                && final(self).jobs@.last().args@ == args@ && final(self).jobs@.last().callbacks@
                == callbacks@ && final(self).jobs@.last().status == JobStatus::Queued,
    {
        if !self.is_comp_def_registered(kind) {
            return Err(ErrorCode::ClusterNotSet);
        }
        let job = ComputationJob { id, kind, args, callbacks, status: JobStatus::Queued };
        self.jobs.push(job);
        proof {
            assert forall|i: int, j: int| 0 <= i < j < self.jobs@.len() implies (
            #[trigger] self.jobs@[i]).id != (#[trigger] self.jobs@[j]).id by {
                if j == self.jobs@.len() - 1 {
                    assert(self.jobs@[i] == old(self).jobs@[i]);
                }
            }
        }
        Ok(())
    }

    /// Verify a callback payload and resolve its job: the atomic
    /// verify-signature / check-replay / mark unit of the commit path. The
    /// typed callback handlers overwrite record fields only after this
    /// returns `Ok`.
    pub fn resolve_callback(
        &mut self,
        payload: &SignedComputationOutputs,
        kind: CircuitKind,
        expected_outputs: usize,
        targets: &Vec<u64>,
    ) -> (r: Result<(), ErrorCode>)
        requires
            old(self).wf(),
        ensures
            final(self).wf(),
            old(self).resolution(*final(self), *payload, kind, expected_outputs as int, targets@),
            r is Ok <==> old(self).callback_accepted(
                *payload,
                kind,
                expected_outputs as int,
                targets@,
            ),
            r is Err ==> r == Err::<(), ErrorCode>(ErrorCode::AbortedComputation),
    {
        if payload.signer != self.verification_key {
            return Err(ErrorCode::AbortedComputation);
        }
        let idx = match self.find_job(payload.job_id) {
            Some(i) => i,
            None => {
                return Err(ErrorCode::AbortedComputation);
            },
        };
        proof {
            let chosen = old(self).job_index(payload.job_id);
            assert(old(self).jobs@[idx as int].id == payload.job_id);
            assert(0 <= chosen < old(self).jobs@.len() && old(self).jobs@[chosen].id
                == payload.job_id);
            assert(chosen == idx as int);
        }
        let queued_now = matches!(self.jobs[idx].status, JobStatus::Queued);
        if !queued_now {
            return Err(ErrorCode::AbortedComputation);
        }
        if self.jobs[idx].kind != kind {
            return Err(ErrorCode::AbortedComputation);
        }
        if self.jobs[idx].callbacks.len() != targets.len() {
            return Err(ErrorCode::AbortedComputation);
        }
        proof {
            assert(old(self).has_queued_job(payload.job_id, kind));
        }
        let mut k: usize = 0;
        while k < targets.len()
            invariant
                0 <= k <= targets@.len(),
                self == old(self),
                old(self).wf(),
                idx < self.jobs@.len(),
                payload.signer == old(self).verification_key,
                old(self).jobs@[idx as int].status == JobStatus::Queued,
                old(self).jobs@[idx as int].kind == kind,
                old(self).jobs@[idx as int].id == payload.job_id,
                old(self).job_index(payload.job_id) == idx as int,
                old(self).has_queued_job(payload.job_id, kind),
                self.jobs@[idx as int].callbacks@.len() == targets@.len(),
                forall|m: int|
                    0 <= m < k ==> (#[trigger] self.jobs@[idx as int].callbacks@[m]).pubkey
                        == targets@[m] && self.jobs@[idx as int].callbacks@[m].is_writable,
            decreases targets@.len() - k,
        {
            if self.jobs[idx].callbacks[k].pubkey != targets[k]
                || !self.jobs[idx].callbacks[k].is_writable {
                return Err(ErrorCode::AbortedComputation);
            }
            k = k + 1;
        }

        if payload.aborted {
            self.jobs[idx].status = JobStatus::Aborted;
            proof {
                assert(self.jobs@ =~= old(self).jobs@.update(
                    idx as int,
                    with_status(old(self).jobs@[idx as int], JobStatus::Aborted),
                ));
            }
            return Err(ErrorCode::AbortedComputation);
        }
        if payload.outputs.len() != expected_outputs {
            self.jobs[idx].status = JobStatus::Rejected;
            proof {
                assert(self.jobs@ =~= old(self).jobs@.update(
                    idx as int,
                    with_status(old(self).jobs@[idx as int], JobStatus::Rejected),
                ));
            }
            return Err(ErrorCode::AbortedComputation);
        }
        self.jobs[idx].status = JobStatus::Verified;
        proof {
            assert(self.jobs@ =~= old(self).jobs@.update(
                idx as int,
                with_status(old(self).jobs@[idx as int], JobStatus::Verified),
            ));
        }
        Ok(())
    }
}

/// One-shot consumption of a job id: once every job under an id has been
/// resolved — Verified, Rejected or Aborted — no payload naming that id is
/// accepted again, so a replayed callback payload is rejected and commits
/// nothing.
pub proof fn replay_is_rejected(
    cluster: Cluster,
    payload: SignedComputationOutputs,
    kind: CircuitKind,
    expected_outputs: int,
    targets: Seq<u64>,
)
    requires
        forall|i: int|
            0 <= i < cluster.jobs@.len() && (#[trigger] cluster.jobs@[i]).id == payload.job_id
                ==> cluster.jobs@[i].status != JobStatus::Queued,
    ensures
        !cluster.callback_accepted(payload, kind, expected_outputs, targets),
{
}

} // verus!

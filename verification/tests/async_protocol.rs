use cvct::circuits;
use cvct::custody::TokenAccount;
use cvct::encrypted::Shared;
use cvct::errors::{ErrorCode, TokenError, TxError};
use cvct::queue::{Cluster, JobStatus, SignedComputationOutputs};
use cvct::queued::{
    deposit_and_mint, deposit_and_mint_callback, init_account_state_callback,
    init_account_state_comp_def, init_deposit_and_mint_comp_def, init_mint_state_callback,
    init_mint_state_comp_def, initialize_cvct_account, initialize_cvct_mint,
};

const VKEY: u64 = 31;
const AUTHORITY: u64 = 32;
const AUTHORITY_PK: u64 = 33;
const MINT_ADDR: u64 = 300;
const VAULT_ADDR: u64 = 301;
const VAULT_TOKEN: u64 = 302;
const BACKING_MINT: u64 = 303;
const ACCOUNT_ADDR: u64 = 304;
const USER_TOKEN: u64 = 305;


/// The status of the job with the given id.
fn status_of(cluster: &Cluster, job_id: u64) -> JobStatus {
    cluster.jobs.iter().find(|j| j.id == job_id).map(|j| j.status).unwrap()
}

/// A cluster with all three circuit definitions registered.
fn ready_cluster() -> Cluster {
    let mut cluster = Cluster::new(VKEY);
    init_mint_state_comp_def(&mut cluster).unwrap();
    init_account_state_comp_def(&mut cluster).unwrap();
    init_deposit_and_mint_comp_def(&mut cluster).unwrap();
    cluster
}

struct World {
    cluster: Cluster,
    mint: cvct::queued::CvctMint,
    vault: cvct::queued::Vault,
    account: cvct::queued::CvctAccount,
    user_token: TokenAccount,
    vault_token: TokenAccount,
    next_job: u64,
}

/// Initialize mint, vault and account, playing the cluster worker for the
/// two initialization jobs: execute the circuit on the queued contexts and
/// deliver the signed payloads.
fn setup(user_funds: u64) -> World {
    let mut cluster = ready_cluster();

    let (mut mint, mut vault) = initialize_cvct_mint(
        &mut cluster,
        1,
        AUTHORITY_PK,
        1_001,
        1_002,
        AUTHORITY,
        MINT_ADDR,
        VAULT_ADDR,
        BACKING_MINT,
        VAULT_TOKEN,
        6,
    )
    .unwrap();
    let (supply0, locked0) = circuits::init_mint_state(
        Shared { enc_pubkey: AUTHORITY_PK, nonce: 1_001 },
        Shared { enc_pubkey: AUTHORITY_PK, nonce: 1_002 },
    );
    let payload = SignedComputationOutputs {
        job_id: 1,
        signer: VKEY,
        aborted: false,
        outputs: vec![supply0, locked0],
    };
    init_mint_state_callback(&mut cluster, &mut mint, &mut vault, &payload).unwrap();

    let mut account = initialize_cvct_account(
        &mut cluster,
        2,
        AUTHORITY_PK,
        1_003,
        AUTHORITY,
        ACCOUNT_ADDR,
        &mint,
    )
    .unwrap();
    let balance0 = circuits::init_account_state(Shared { enc_pubkey: AUTHORITY_PK, nonce: 1_003 });
    let payload = SignedComputationOutputs {
        job_id: 2,
        signer: VKEY,
        aborted: false,
        outputs: vec![balance0],
    };
    init_account_state_callback(&mut cluster, &mut account, &payload).unwrap();

    let user_token = TokenAccount {
        addr: USER_TOKEN,
        mint: BACKING_MINT,
        owner: AUTHORITY,
        amount: user_funds,
    };
    let vault_token =
        TokenAccount { addr: VAULT_TOKEN, mint: BACKING_MINT, owner: VAULT_ADDR, amount: 0 };
    World { cluster, mint, vault, account, user_token, vault_token, next_job: 3 }
}

/// Queue a deposit job and return its id.
fn queue_deposit(w: &mut World, amount: u64) -> u64 {
    let job = w.next_job;
    w.next_job += 1;
    deposit_and_mint(
        &mut w.cluster,
        job,
        amount,
        AUTHORITY_PK,
        2_000 + job as u128,
        3_000 + job as u128,
        AUTHORITY_PK,
        4_000 + job as u128,
        5_000 + job as u128,
        AUTHORITY_PK,
        6_000 + job as u128,
        7_000 + job as u128,
        &w.mint,
        &w.vault,
        &w.account,
        AUTHORITY,
        &mut w.user_token,
        &mut w.vault_token,
    )
    .unwrap();
    job
}

/// Play the cluster worker for a deposit job: run the circuit against the
/// given pre-state and wrap the outputs in a signed payload.
fn deposit_payload(
    job: u64,
    amount: u64,
    account: &cvct::queued::CvctAccount,
    mint: &cvct::queued::CvctMint,
    vault: &cvct::queued::Vault,
) -> SignedComputationOutputs {
    let (b, s, l) = circuits::deposit_and_mint(
        &account.balance,
        amount as u128,
        Shared { enc_pubkey: AUTHORITY_PK, nonce: 3_000 + job as u128 },
        &mint.total_supply,
        Shared { enc_pubkey: AUTHORITY_PK, nonce: 5_000 + job as u128 },
        &vault.total_locked,
        Shared { enc_pubkey: AUTHORITY_PK, nonce: 7_000 + job as u128 },
    );
    SignedComputationOutputs { job_id: job, signer: VKEY, aborted: false, outputs: vec![b, s, l] }
}

#[test]
fn initialization_commits_encrypted_zeros() {
    let w = setup(1_000);
    assert_eq!(w.mint.total_supply.decrypt(), 0);
    assert_eq!(w.vault.total_locked.decrypt(), 0);
    assert_eq!(w.account.balance.decrypt(), 0);
    // The committed ciphertexts carry the caller-chosen output contexts.
    assert_eq!(w.mint.total_supply.key_value(), AUTHORITY_PK);
    assert_eq!(w.mint.total_supply.nonce_value(), 1_001);
    assert_eq!(w.vault.total_locked.nonce_value(), 1_002);
}

#[test]
fn registering_a_circuit_twice_fails() {
    let mut cluster = ready_cluster();
    let r = init_mint_state_comp_def(&mut cluster);
    assert_eq!(r, Err(ErrorCode::ClusterNotSet));
}

#[test]
fn queueing_without_a_registered_circuit_fails() {
    let mut cluster = Cluster::new(VKEY);
    let r = initialize_cvct_mint(
        &mut cluster,
        1,
        AUTHORITY_PK,
        1,
        2,
        AUTHORITY,
        MINT_ADDR,
        VAULT_ADDR,
        BACKING_MINT,
        VAULT_TOKEN,
        6,
    );
    assert_eq!(r.unwrap_err(), ErrorCode::ClusterNotSet);
}

#[test]
fn deposit_commit_keeps_supply_equal_to_locked() {
    let mut w = setup(1_000);
    let job = queue_deposit(&mut w, 500);
    // The custody leg moved when the job was queued.
    assert_eq!(w.user_token.amount, 500);
    assert_eq!(w.vault_token.amount, 500);
    // The encrypted fields change only at the commit.
    assert_eq!(w.account.balance.decrypt(), 0);

    let payload = deposit_payload(job, 500, &w.account, &w.mint, &w.vault);
    let r =
        deposit_and_mint_callback(&mut w.cluster, &mut w.account, &mut w.mint, &mut w.vault, &payload);
    assert_eq!(r, Ok(()));
    assert_eq!(w.account.balance.decrypt(), 500);
    assert_eq!(w.mint.total_supply.decrypt(), 500);
    assert_eq!(w.vault.total_locked.decrypt(), 500);
    assert_eq!(w.mint.total_supply.decrypt(), w.vault.total_locked.decrypt());
    assert_eq!(status_of(&w.cluster, job), JobStatus::Verified);
}

#[test]
fn replayed_callback_payload_is_rejected() {
    let mut w = setup(1_000);
    let job = queue_deposit(&mut w, 500);
    let payload = deposit_payload(job, 500, &w.account, &w.mint, &w.vault);
    deposit_and_mint_callback(&mut w.cluster, &mut w.account, &mut w.mint, &mut w.vault, &payload)
        .unwrap();
    assert_eq!(w.account.balance.decrypt(), 500);

    // Submitting the already-verified job's payload a second time is
    // rejected and changes nothing.
    let r =
        deposit_and_mint_callback(&mut w.cluster, &mut w.account, &mut w.mint, &mut w.vault, &payload);
    assert_eq!(r, Err(ErrorCode::AbortedComputation));
    assert_eq!(w.account.balance.decrypt(), 500);
    assert_eq!(w.mint.total_supply.decrypt(), 500);
    assert_eq!(w.vault.total_locked.decrypt(), 500);
}

#[test]
fn badly_signed_payload_is_rejected() {
    let mut w = setup(1_000);
    let job = queue_deposit(&mut w, 500);
    let mut payload = deposit_payload(job, 500, &w.account, &w.mint, &w.vault);
    payload.signer = VKEY + 1;
    let r =
        deposit_and_mint_callback(&mut w.cluster, &mut w.account, &mut w.mint, &mut w.vault, &payload);
    assert_eq!(r, Err(ErrorCode::AbortedComputation));
    assert_eq!(w.account.balance.decrypt(), 0);
    assert_eq!(status_of(&w.cluster, job), JobStatus::Queued);

    // The job is still pending, so the genuine payload still commits.
    let payload = deposit_payload(job, 500, &w.account, &w.mint, &w.vault);
    let r =
        deposit_and_mint_callback(&mut w.cluster, &mut w.account, &mut w.mint, &mut w.vault, &payload);
    assert_eq!(r, Ok(()));
    assert_eq!(w.account.balance.decrypt(), 500);
}

#[test]
fn abort_signal_resolves_the_job_without_mutation() {
    let mut w = setup(1_000);
    let job = queue_deposit(&mut w, 500);
    let abort = SignedComputationOutputs {
        job_id: job,
        signer: VKEY,
        aborted: true,
        outputs: Vec::new(),
    };
    let r =
        deposit_and_mint_callback(&mut w.cluster, &mut w.account, &mut w.mint, &mut w.vault, &abort);
    assert_eq!(r, Err(ErrorCode::AbortedComputation));
    assert_eq!(w.account.balance.decrypt(), 0);
    assert_eq!(status_of(&w.cluster, job), JobStatus::Aborted);

    // The job is resolved: even a well-formed payload is now rejected.
    let payload = deposit_payload(job, 500, &w.account, &w.mint, &w.vault);
    let r =
        deposit_and_mint_callback(&mut w.cluster, &mut w.account, &mut w.mint, &mut w.vault, &payload);
    assert_eq!(r, Err(ErrorCode::AbortedComputation));
    assert_eq!(w.account.balance.decrypt(), 0);
}

#[test]
fn malformed_output_shape_rejects_the_job() {
    let mut w = setup(1_000);
    let job = queue_deposit(&mut w, 500);
    let mut payload = deposit_payload(job, 500, &w.account, &w.mint, &w.vault);
    payload.outputs.pop();
    let r =
        deposit_and_mint_callback(&mut w.cluster, &mut w.account, &mut w.mint, &mut w.vault, &payload);
    assert_eq!(r, Err(ErrorCode::AbortedComputation));
    assert_eq!(w.account.balance.decrypt(), 0);
    assert_eq!(status_of(&w.cluster, job), JobStatus::Rejected);

    // The malformed delivery consumed the job.
    let payload = deposit_payload(job, 500, &w.account, &w.mint, &w.vault);
    let r =
        deposit_and_mint_callback(&mut w.cluster, &mut w.account, &mut w.mint, &mut w.vault, &payload);
    assert_eq!(r, Err(ErrorCode::AbortedComputation));
}

#[test]
fn later_commit_wins_when_two_jobs_race_on_one_account() {
    let mut w = setup(1_000);
    // Two deposit jobs queued against the same account before either
    // resolves; both circuits run against the same pre-state.
    let job_a = queue_deposit(&mut w, 100);
    let job_b = queue_deposit(&mut w, 50);
    let payload_a = deposit_payload(job_a, 100, &w.account, &w.mint, &w.vault);
    let payload_b = deposit_payload(job_b, 50, &w.account, &w.mint, &w.vault);

    deposit_and_mint_callback(&mut w.cluster, &mut w.account, &mut w.mint, &mut w.vault, &payload_a)
        .unwrap();
    assert_eq!(w.account.balance.decrypt(), 100);

    // The commit is a blind overwrite: the later callback's result is the
    // one observed, and the first deposit's effect on the encrypted state is
    // lost, even though both custody legs moved.
    deposit_and_mint_callback(&mut w.cluster, &mut w.account, &mut w.mint, &mut w.vault, &payload_b)
        .unwrap();
    assert_eq!(w.account.balance.decrypt(), 50);
    assert_eq!(w.mint.total_supply.decrypt(), 50);
    assert_eq!(w.vault.total_locked.decrypt(), 50);
    assert_eq!(w.user_token.amount, 850);
    assert_eq!(w.vault_token.amount, 150);
}

#[test]
fn queued_deposit_validates_amount_owner_and_custody() {
    let mut w = setup(10);
    let r = deposit_and_mint(
        &mut w.cluster,
        50,
        0,
        AUTHORITY_PK,
        1,
        2,
        AUTHORITY_PK,
        3,
        4,
        AUTHORITY_PK,
        5,
        6,
        &w.mint,
        &w.vault,
        &w.account,
        AUTHORITY,
        &mut w.user_token,
        &mut w.vault_token,
    );
    assert_eq!(r, Err(TxError::Program(ErrorCode::ZeroAmount)));

    let r = deposit_and_mint(
        &mut w.cluster,
        51,
        5,
        AUTHORITY_PK,
        1,
        2,
        AUTHORITY_PK,
        3,
        4,
        AUTHORITY_PK,
        5,
        6,
        &w.mint,
        &w.vault,
        &w.account,
        99,
        &mut w.user_token,
        &mut w.vault_token,
    );
    assert_eq!(r, Err(TxError::Program(ErrorCode::Unauthorized)));

    let r = deposit_and_mint(
        &mut w.cluster,
        52,
        500,
        AUTHORITY_PK,
        1,
        2,
        AUTHORITY_PK,
        3,
        4,
        AUTHORITY_PK,
        5,
        6,
        &w.mint,
        &w.vault,
        &w.account,
        AUTHORITY,
        &mut w.user_token,
        &mut w.vault_token,
    );
    assert_eq!(r, Err(TxError::Custody(TokenError::InsufficientBalance)));
    assert_eq!(w.user_token.amount, 10);

    let mut foreign_vault = w.vault;
    foreign_vault.cvct_mint = 999;
    let r = deposit_and_mint(
        &mut w.cluster,
        53,
        5,
        AUTHORITY_PK,
        1,
        2,
        AUTHORITY_PK,
        3,
        4,
        AUTHORITY_PK,
        5,
        6,
        &w.mint,
        &foreign_vault,
        &w.account,
        AUTHORITY,
        &mut w.user_token,
        &mut w.vault_token,
    );
    assert_eq!(r, Err(TxError::Program(ErrorCode::InvalidVault)));
}

#[test]
fn callback_against_the_wrong_records_commits_nothing() {
    let mut w = setup(1_000);
    let job = queue_deposit(&mut w, 500);
    let payload = deposit_payload(job, 500, &w.account, &w.mint, &w.vault);
    // Hand the callback a stray account record: it is not the registered
    // callback target, so verification fails and nothing is written.
    let mut stray = w.account;
    stray.addr = 999;
    let r =
        deposit_and_mint_callback(&mut w.cluster, &mut stray, &mut w.mint, &mut w.vault, &payload);
    assert_eq!(r, Err(ErrorCode::AbortedComputation));
    assert_eq!(stray.balance.decrypt(), 0);
    assert_eq!(w.mint.total_supply.decrypt(), 0);

    // Against the right records the same payload still commits.
    let r =
        deposit_and_mint_callback(&mut w.cluster, &mut w.account, &mut w.mint, &mut w.vault, &payload);
    assert_eq!(r, Ok(()));
    assert_eq!(w.account.balance.decrypt(), 500);
}

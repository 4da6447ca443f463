use propchain::crypto::{compute_commitment, finalize_randomness, verify_commitment, CryptoError};
use propchain::primitives::AccountId;
use propchain::randomness::{
    add_commit, add_reveal, create_round, finalize_round, start_reveal_phase, RandomnessStatus,
};

fn account(byte: u8) -> AccountId {
    AccountId::from([byte; 32])
}

#[test]
fn commit_reveal_round_produces_final_random() {
    let mut round = create_round(7, 100, 10, 10);
    assert_eq!(round.status, RandomnessStatus::Committing);
    assert_eq!(round.commit_deadline, 110);
    assert_eq!(round.reveal_deadline, 120);

    let secret_a = [1u8; 32];
    let secret_b = [2u8; 32];
    let commit_a = compute_commitment(&secret_a, &account(1));
    let commit_b = compute_commitment(&secret_b, &account(2));

    assert!(add_commit(&mut round, account(1), commit_a, 105).is_ok());
    // Duplicate commits from the same account are rejected.
    assert_eq!(
        add_commit(&mut round, account(1), commit_a, 105),
        Err(CryptoError::InvalidRandomnessPhase)
    );
    assert!(add_commit(&mut round, account(2), commit_b, 105).is_ok());

    // The reveal phase cannot start before the commit deadline.
    assert_eq!(
        start_reveal_phase(&mut round, 105),
        Err(CryptoError::InvalidRandomnessPhase)
    );
    assert!(start_reveal_phase(&mut round, 111).is_ok());

    // A wrong secret fails commitment verification.
    assert_eq!(
        add_reveal(&mut round, account(1), [9u8; 32], 112),
        Err(CryptoError::CommitMismatch)
    );
    // An account that never committed cannot reveal.
    assert_eq!(
        add_reveal(&mut round, account(3), [3u8; 32], 112),
        Err(CryptoError::InvalidRandomnessPhase)
    );
    assert!(add_reveal(&mut round, account(1), secret_a, 112).is_ok());
    assert!(add_reveal(&mut round, account(2), secret_b, 112).is_ok());

    // Early finalization is blocked to prevent last-revealer attacks.
    assert_eq!(
        finalize_round(&mut round, 115),
        Err(CryptoError::InvalidRandomnessPhase)
    );
    let random = finalize_round(&mut round, 121).expect("finalizes");
    assert_eq!(round.status, RandomnessStatus::Finalized);
    assert_eq!(round.final_random, Some(random));

    // The same revealed secrets always finalize to the same value.
    assert_eq!(finalize_randomness(&[secret_a, secret_b]), random);
}

#[test]
fn too_few_commits_fail_the_round_instead_of_revealing() {
    let mut round = create_round(1, 0, 5, 5);
    let commit = compute_commitment(&[3u8; 32], &account(1));
    assert!(add_commit(&mut round, account(1), commit, 3).is_ok());

    assert_eq!(
        start_reveal_phase(&mut round, 6),
        Err(CryptoError::InsufficientReveals)
    );
    assert_eq!(round.status, RandomnessStatus::Failed);
}

#[test]
fn commits_are_rejected_after_the_deadline() {
    let mut round = create_round(2, 0, 5, 5);
    let commit = compute_commitment(&[4u8; 32], &account(1));
    assert_eq!(
        add_commit(&mut round, account(1), commit, 6),
        Err(CryptoError::InvalidRandomnessPhase)
    );
    assert!(round.commits.is_empty());
}

#[test]
fn deadlines_saturate_at_the_largest_block() {
    let round = create_round(3, u32::MAX - 5, 10, 10);
    assert_eq!(round.commit_deadline, u32::MAX);
    assert_eq!(round.reveal_deadline, u32::MAX);
    let round = create_round(4, 100, 10, u32::MAX);
    assert_eq!(round.commit_deadline, 110);
    assert_eq!(round.reveal_deadline, u32::MAX);
}

#[test]
fn commitment_binds_secret_and_account() {
    let secret = [5u8; 32];
    let commit = compute_commitment(&secret, &account(1));
    assert!(verify_commitment(&secret, &account(1), &commit));
    assert!(!verify_commitment(&[6u8; 32], &account(1), &commit));
    assert!(!verify_commitment(&secret, &account(2), &commit));
    assert_ne!(commit, compute_commitment(&secret, &account(2)));
}

#[test]
fn randomness_depends_on_reveal_order() {
    let a = [1u8; 32];
    let b = [2u8; 32];
    assert_eq!(finalize_randomness(&[a, b]), finalize_randomness(&[a, b]));
    assert_ne!(finalize_randomness(&[a, b]), finalize_randomness(&[b, a]));
}

fn revealing_round(committers: &[(u8, [u8; 32])]) -> propchain::randomness::CommitRevealRound {
    let mut round = create_round(9, 0, 10, 10);
    for (who, secret) in committers {
        let c = compute_commitment(secret, &account(*who));
        assert!(add_commit(&mut round, account(*who), c, 5).is_ok());
    }
    assert!(start_reveal_phase(&mut round, 11).is_ok());
    round
}

#[test]
fn too_few_reveals_fail_the_round_at_finalization() {
    let mut round = revealing_round(&[(1, [1u8; 32]), (2, [2u8; 32])]);
    assert!(add_reveal(&mut round, account(1), [1u8; 32], 12).is_ok());
    assert_eq!(finalize_round(&mut round, 21), Err(CryptoError::InsufficientReveals));
    assert_eq!(round.status, RandomnessStatus::Failed);
    assert_eq!(round.final_random, None);
}

#[test]
fn duplicate_reveal_is_rejected() {
    let mut round = revealing_round(&[(1, [1u8; 32]), (2, [2u8; 32])]);
    assert!(add_reveal(&mut round, account(1), [1u8; 32], 12).is_ok());
    assert_eq!(
        add_reveal(&mut round, account(1), [1u8; 32], 13),
        Err(CryptoError::InvalidRandomnessPhase)
    );
    assert_eq!(round.reveals.len(), 1);
}

#[test]
fn reveal_after_deadline_is_rejected() {
    let mut round = revealing_round(&[(1, [1u8; 32]), (2, [2u8; 32])]);
    assert_eq!(
        add_reveal(&mut round, account(1), [1u8; 32], 21),
        Err(CryptoError::InvalidRandomnessPhase)
    );
}

#[test]
fn closed_round_refuses_everything() {
    let mut round = revealing_round(&[(1, [1u8; 32]), (2, [2u8; 32])]);
    assert!(add_reveal(&mut round, account(1), [1u8; 32], 12).is_ok());
    assert!(add_reveal(&mut round, account(2), [2u8; 32], 12).is_ok());
    let random = finalize_round(&mut round, 21).expect("finalizes");
    let snapshot = round.clone();
    assert_eq!(finalize_round(&mut round, 30), Err(CryptoError::InvalidRandomnessPhase));
    assert_eq!(start_reveal_phase(&mut round, 30), Err(CryptoError::InvalidRandomnessPhase));
    assert_eq!(
        add_commit(&mut round, account(3), random, 1),
        Err(CryptoError::InvalidRandomnessPhase)
    );
    assert_eq!(
        add_reveal(&mut round, account(1), [1u8; 32], 15),
        Err(CryptoError::InvalidRandomnessPhase)
    );
    assert_eq!(round, snapshot);
}

#[test]
fn reveal_phase_cannot_start_twice() {
    let mut round = revealing_round(&[(1, [1u8; 32]), (2, [2u8; 32])]);
    assert_eq!(start_reveal_phase(&mut round, 12), Err(CryptoError::InvalidRandomnessPhase));
    assert_eq!(round.status, RandomnessStatus::Revealing);
}

#[test]
fn commitment_is_blake2x256_of_secret_then_account() {
    let expected = propchain::primitives::Digest::from([
        48, 182, 0, 251, 31, 12, 192, 179, 240, 252, 40, 205, 203, 115, 137, 64, 90, 102, 89, 190,
        129, 199, 213, 197, 144, 87, 37, 170, 58, 81, 25, 206,
    ]);
    assert_eq!(compute_commitment(&[1u8; 32], &account(2)), expected);
}

#[test]
fn randomness_is_blake2x256_of_secrets_in_order() {
    let expected = propchain::primitives::Digest::from([
        13, 107, 139, 89, 80, 198, 102, 236, 0, 150, 85, 173, 189, 118, 150, 46, 8, 204, 124, 161,
        181, 43, 81, 199, 98, 220, 100, 236, 4, 246, 158, 65,
    ]);
    assert_eq!(finalize_randomness(&[[7u8; 32], [8u8; 32]]), expected);
}

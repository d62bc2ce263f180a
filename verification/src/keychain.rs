//! How an identity is kept in a store of secrets, in two accounts.

use vstd::prelude::*;
use crate::storage::StorageError;

verus! {

/// The accounts of the store.
#[derive(Clone, Copy, Debug, PartialEq, Eq, Structural)]
pub enum SecretAccount {
    SigningSeed,
    TlsPrivateKey,
    TrustDatabase,
}

/// Whether a secret was new when it was stored.
#[derive(Clone, Copy, Debug, PartialEq, Eq, Structural)]
pub enum SecretStoreDisposition {
    Created,
    Updated,
}

/// How an access to the system's keychain failed.
#[derive(Clone, Copy, Debug, PartialEq, Eq, Structural)]
pub enum KeychainError {
    NotFound,
    MissingEntitlement,
    Other,
}

/// A missing entitlement is told apart from every other failure.
#[verifier::allow_in_spec]
pub fn map_keychain_error(error: KeychainError) -> StorageError
    returns
        (match error {
            KeychainError::MissingEntitlement => StorageError::MissingEntitlement,
            _ => StorageError::Keychain,
        }),
{
    match error {
        KeychainError::MissingEntitlement => StorageError::MissingEntitlement,
        _ => StorageError::Keychain,
    }
}

/// Whether a secret was found. One that is not there is no failure.
pub fn keychain_loaded(outcome: Result<(), KeychainError>) -> (found: Result<bool, StorageError>)
    ensures
        found == match outcome {
            Ok(()) => Ok::<bool, StorageError>(true),
            Err(KeychainError::NotFound) => Ok(false),
            Err(error) => Err(map_keychain_error(error)),
        },
{
    match outcome {
        Ok(()) => Ok(true),
        Err(KeychainError::NotFound) => Ok(false),
        Err(error) => Err(map_keychain_error(error)),
    }
}

/// Whether a secret is gone. One that was not there is.
pub fn keychain_deleted(outcome: Result<(), KeychainError>) -> (gone: Result<(), StorageError>)
    ensures
        gone == match outcome {
            Ok(()) => Ok::<(), StorageError>(()),
            Err(KeychainError::NotFound) => Ok(()),
            Err(error) => Err(map_keychain_error(error)),
        },
{
    match outcome {
        Ok(()) => Ok(()),
        Err(KeychainError::NotFound) => Ok(()),
        Err(error) => Err(map_keychain_error(error)),
    }
}

/// The store is opened when it answers for the trust database, be there one or
/// not.
pub fn store_opened(answer: Result<bool, StorageError>) -> (opened: Result<(), StorageError>)
    ensures
        opened == match answer {
            Ok(_) => Ok::<(), StorageError>(()),
            Err(error) => Err(error),
        },
{
    match answer {
        Ok(_) => Ok(()),
        Err(error) => Err(error),
    }
}

/// What is done next to get the identity.
#[derive(Clone, Copy, Debug)]
pub enum IdentityStep {
    /// Look for a secret.
    Load(SecretAccount),
    /// Read the identity out of the two secrets; what comes out is the result.
    Decode,
    /// Make a new identity.
    Create,
    Store(SecretAccount),
    Delete(SecretAccount),
    /// The new identity is the result.
    UseCreated,
    Fail(StorageError),
}

/// What came of a step.
#[derive(Clone, Copy, Debug)]
pub enum IdentityOutcome {
    /// Whether the secret was found.
    Loaded(Result<bool, StorageError>),
    Created(Result<(), StorageError>),
    Stored(Result<SecretStoreDisposition, StorageError>),
    Deleted(Result<(), StorageError>),
}

#[derive(Clone, Copy, Debug, PartialEq, Eq, Structural)]
pub enum IdentityPhase {
    LoadingSigning,
    LoadingTls { signing: bool },
    Creating,
    StoringSigning,
    StoringTls { created: bool },
    RollingBack { error: StorageError },
    Done,
}

/// One search for the identity in the store, with the making of a new one when
/// there is none at all.
#[derive(Clone, Copy, Debug, PartialEq, Eq, Structural)]
pub struct IdentityRun {
    pub phase: IdentityPhase,
}

/// The outcome belongs to the step that the phase waits for.
pub open spec fn outcome_fits(phase: IdentityPhase, outcome: IdentityOutcome) -> bool {
    match phase {
        IdentityPhase::LoadingSigning => outcome is Loaded,
        IdentityPhase::LoadingTls { .. } => outcome is Loaded,
        IdentityPhase::Creating => outcome is Created,
        IdentityPhase::StoringSigning => outcome is Stored,
        IdentityPhase::StoringTls { .. } => outcome is Stored,
        IdentityPhase::RollingBack { .. } => outcome is Deleted,
        IdentityPhase::Done => false,
    }
}

/// The phase and the step that follow an outcome.
pub open spec fn identity_turn(phase: IdentityPhase, outcome: IdentityOutcome) -> (
    IdentityPhase,
    IdentityStep,
) {
    match (phase, outcome) {
        (IdentityPhase::LoadingSigning, IdentityOutcome::Loaded(Ok(found))) => (
            IdentityPhase::LoadingTls { signing: found },
            IdentityStep::Load(SecretAccount::TlsPrivateKey),
        ),
        (IdentityPhase::LoadingTls { signing }, IdentityOutcome::Loaded(Ok(found))) => if signing
            && found {
            (IdentityPhase::Done, IdentityStep::Decode)
        } else if signing || found {
            (IdentityPhase::Done, IdentityStep::Fail(StorageError::InvalidData))
        } else {
            (IdentityPhase::Creating, IdentityStep::Create)
        },
        (IdentityPhase::Creating, IdentityOutcome::Created(Ok(()))) => (
            IdentityPhase::StoringSigning,
            IdentityStep::Store(SecretAccount::SigningSeed),
        ),
        (IdentityPhase::StoringSigning, IdentityOutcome::Stored(Ok(disposition))) => (
            IdentityPhase::StoringTls { created: disposition == SecretStoreDisposition::Created },
            IdentityStep::Store(SecretAccount::TlsPrivateKey),
        ),
        (IdentityPhase::StoringTls { .. }, IdentityOutcome::Stored(Ok(_))) => (
            IdentityPhase::Done,
            IdentityStep::UseCreated,
        ),
        (IdentityPhase::StoringTls { created: true }, IdentityOutcome::Stored(Err(error))) => (
            IdentityPhase::RollingBack { error },
            IdentityStep::Delete(SecretAccount::SigningSeed),
        ),
        (IdentityPhase::RollingBack { error }, _) => (
            IdentityPhase::Done,
            IdentityStep::Fail(error),
        ),
        (_, IdentityOutcome::Loaded(Err(error))) => (
            IdentityPhase::Done,
            IdentityStep::Fail(error),
        ),
        (_, IdentityOutcome::Created(Err(error))) => (
            IdentityPhase::Done,
            IdentityStep::Fail(error),
        ),
        (_, IdentityOutcome::Stored(Err(error))) => (
            IdentityPhase::Done,
            IdentityStep::Fail(error),
        ),
        _ => (IdentityPhase::Done, IdentityStep::Fail(StorageError::InvalidData)),
    }
}

impl IdentityRun {
    /// The search begins with the signing seed.
    pub fn begin() -> (started: (IdentityRun, IdentityStep))
        ensures
            started.0.phase == IdentityPhase::LoadingSigning,
            started.1 == IdentityStep::Load(SecretAccount::SigningSeed),
    {
        (
            IdentityRun { phase: IdentityPhase::LoadingSigning },
            IdentityStep::Load(SecretAccount::SigningSeed),
        )
    }

    /// Goes on after a step was carried out.
    pub fn advance(&mut self, outcome: IdentityOutcome) -> (step: IdentityStep)
        requires
            outcome_fits(old(self).phase, outcome),
        ensures
            (final(self).phase, step) == identity_turn(old(self).phase, outcome),
    {
        let (phase, step) = match (self.phase, outcome) {
            (IdentityPhase::LoadingSigning, IdentityOutcome::Loaded(Ok(found))) => (
                IdentityPhase::LoadingTls { signing: found },
                IdentityStep::Load(SecretAccount::TlsPrivateKey),
            ),
            (IdentityPhase::LoadingTls { signing }, IdentityOutcome::Loaded(Ok(found))) => {
                if signing && found {
                    (IdentityPhase::Done, IdentityStep::Decode)
                } else if signing || found {
                    (IdentityPhase::Done, IdentityStep::Fail(StorageError::InvalidData))
                } else {
                    (IdentityPhase::Creating, IdentityStep::Create)
                }
            },
            (IdentityPhase::Creating, IdentityOutcome::Created(Ok(()))) => (
                IdentityPhase::StoringSigning,
                IdentityStep::Store(SecretAccount::SigningSeed),
            ),
            (IdentityPhase::StoringSigning, IdentityOutcome::Stored(Ok(disposition))) => (
                IdentityPhase::StoringTls {
                    created: disposition == SecretStoreDisposition::Created,
                },
                IdentityStep::Store(SecretAccount::TlsPrivateKey),
            ),
            (IdentityPhase::StoringTls { .. }, IdentityOutcome::Stored(Ok(_))) => (
                IdentityPhase::Done,
                IdentityStep::UseCreated,
            ),
            (IdentityPhase::StoringTls { created: true }, IdentityOutcome::Stored(Err(error))) => (
                IdentityPhase::RollingBack { error },
                IdentityStep::Delete(SecretAccount::SigningSeed),
            ),
            (IdentityPhase::RollingBack { error }, _) => (
                IdentityPhase::Done,
                IdentityStep::Fail(error),
            ),
            (_, IdentityOutcome::Loaded(Err(error))) => (
                IdentityPhase::Done,
                IdentityStep::Fail(error),
            ),
            (_, IdentityOutcome::Created(Err(error))) => (
                IdentityPhase::Done,
                IdentityStep::Fail(error),
            ),
            (_, IdentityOutcome::Stored(Err(error))) => (
                IdentityPhase::Done,
                IdentityStep::Fail(error),
            ),
            _ => (IdentityPhase::Done, IdentityStep::Fail(StorageError::InvalidData)),
        };
        self.phase = phase;
        step
    }
}

/// The phase and the last step of a search after all these outcomes.
pub open spec fn identity_after(outcomes: Seq<IdentityOutcome>) -> (IdentityPhase, IdentityStep)
    decreases outcomes.len(),
{
    if outcomes.len() == 0 {
        (IdentityPhase::LoadingSigning, IdentityStep::Load(SecretAccount::SigningSeed))
    } else {
        identity_turn(identity_after(outcomes.drop_last()).0, outcomes.last())
    }
}

/// What was found decides: both secrets are used, half an identity is neither
/// used nor replaced, and only without either of them a new one is made.
pub proof fn law_half_an_identity_fails(signing: bool, tls: bool)
    ensures
        identity_after(
            seq![IdentityOutcome::Loaded(Ok(signing)), IdentityOutcome::Loaded(Ok(tls))],
        ).1 == if signing && tls {
            IdentityStep::Decode
        } else if signing || tls {
            IdentityStep::Fail(StorageError::InvalidData)
        } else {
            IdentityStep::Create
        },
{
    let first = seq![IdentityOutcome::Loaded(Ok(signing))];
    let both = first.push(IdentityOutcome::Loaded(Ok(tls)));
    assert(both =~= seq![IdentityOutcome::Loaded(Ok(signing)), IdentityOutcome::Loaded(Ok(tls))]);
    assert(both.drop_last() =~= first);
    assert(first.drop_last() =~= seq![]);
    assert(identity_after(first.drop_last()).0 == IdentityPhase::LoadingSigning);
    assert(identity_after(first) == identity_turn(
        IdentityPhase::LoadingSigning,
        IdentityOutcome::Loaded(Ok(signing)),
    ));
}

/// The search found neither secret.
pub open spec fn found_nothing(outcomes: Seq<IdentityOutcome>) -> bool {
    &&& outcomes.len() >= 2
    &&& outcomes[0] == IdentityOutcome::Loaded(Ok(false))
    &&& outcomes[1] == IdentityOutcome::Loaded(Ok(false))
}

proof fn lemma_found(outcomes: Seq<IdentityOutcome>)
    ensures
        match identity_after(outcomes).0 {
            IdentityPhase::LoadingSigning => outcomes.len() == 0,
            IdentityPhase::LoadingTls { signing } => outcomes.len() == 1 && outcomes[0]
                == IdentityOutcome::Loaded(Ok(signing)),
            IdentityPhase::Done => true,
            _ => found_nothing(outcomes),
        },
        identity_after(outcomes).1 is Create || identity_after(outcomes).1 is Store
            || identity_after(outcomes).1 is Delete || identity_after(outcomes).1 is UseCreated
            ==> found_nothing(outcomes),
    decreases outcomes.len(),
{
    if outcomes.len() > 0 {
        let before = outcomes.drop_last();
        lemma_found(before);
        assert(forall|i: int| 0 <= i < before.len() ==> before[i] == outcomes[i]);
    }
}

/// A secret is made, stored or deleted only after a search that found neither
/// secret, whatever came of the steps in between.
pub proof fn law_found_secrets_are_not_overwritten(outcomes: Seq<IdentityOutcome>)
    requires
        identity_after(outcomes).1 is Create || identity_after(outcomes).1 is Store
            || identity_after(outcomes).1 is Delete,
    ensures
        found_nothing(outcomes),
{
    lemma_found(outcomes);
}

/// A signing seed that was new is taken back when the private key cannot be
/// stored, and the failure that is told is that of the private key, whatever
/// comes of taking it back.
pub proof fn law_new_seeds_are_taken_back(
    outcomes: Seq<IdentityOutcome>,
    error: StorageError,
    deleted: Result<(), StorageError>,
)
    requires
        identity_after(outcomes).0 is StoringSigning,
    ensures
        ({
            let refused = outcomes.push(
                IdentityOutcome::Stored(Ok(SecretStoreDisposition::Created)),
            ).push(IdentityOutcome::Stored(Err(error)));
            &&& identity_after(refused).1 == IdentityStep::Delete(SecretAccount::SigningSeed)
            &&& identity_after(refused.push(IdentityOutcome::Deleted(deleted))).1
                == IdentityStep::Fail(error)
        }),
{
    let stored = outcomes.push(IdentityOutcome::Stored(Ok(SecretStoreDisposition::Created)));
    let refused = stored.push(IdentityOutcome::Stored(Err(error)));
    let over = refused.push(IdentityOutcome::Deleted(deleted));
    assert(stored.drop_last() =~= outcomes);
    assert(refused.drop_last() =~= stored);
    assert(over.drop_last() =~= refused);
    assert(identity_after(stored).0 == (IdentityPhase::StoringTls { created: true }));
    assert(identity_after(refused).0 == (IdentityPhase::RollingBack { error }));
}

/// The search goes in order: the signing seed, the private key; and where neither
/// is there, a new identity whose seed is stored first and whose key second, which
/// is then the result.
pub proof fn law_identity_searches_go_in_order(
    found: bool,
    signing: bool,
    created: bool,
    disposition: SecretStoreDisposition,
)
    ensures
        identity_turn(IdentityPhase::LoadingSigning, IdentityOutcome::Loaded(Ok(found))) == (
            IdentityPhase::LoadingTls { signing: found },
            IdentityStep::Load(SecretAccount::TlsPrivateKey),
        ),
        signing && found ==> identity_turn(
            IdentityPhase::LoadingTls { signing },
            IdentityOutcome::Loaded(Ok(found)),
        ) == (IdentityPhase::Done, IdentityStep::Decode),
        signing != found ==> identity_turn(
            IdentityPhase::LoadingTls { signing },
            IdentityOutcome::Loaded(Ok(found)),
        ) == (IdentityPhase::Done, IdentityStep::Fail(StorageError::InvalidData)),
        !signing && !found ==> identity_turn(
            IdentityPhase::LoadingTls { signing },
            IdentityOutcome::Loaded(Ok(found)),
        ) == (IdentityPhase::Creating, IdentityStep::Create),
        identity_turn(IdentityPhase::Creating, IdentityOutcome::Created(Ok(()))) == (
            IdentityPhase::StoringSigning,
            IdentityStep::Store(SecretAccount::SigningSeed),
        ),
        identity_turn(IdentityPhase::StoringSigning, IdentityOutcome::Stored(Ok(disposition))) == (
            IdentityPhase::StoringTls { created: disposition is Created },
            IdentityStep::Store(SecretAccount::TlsPrivateKey),
        ),
        identity_turn(
            IdentityPhase::StoringTls { created },
            IdentityOutcome::Stored(Ok(disposition)),
        ) == (IdentityPhase::Done, IdentityStep::UseCreated),
{
}

/// A step that fails ends the search with its failure; only a seed that was new is
/// taken back before.
pub proof fn law_failed_searches_tell_the_failure(
    phase: IdentityPhase,
    outcome: IdentityOutcome,
    error: StorageError,
)
    requires
        outcome_fits(phase, outcome),
    ensures
        outcome == IdentityOutcome::Loaded(Err(error)) ==> identity_turn(phase, outcome) == (
            IdentityPhase::Done,
            IdentityStep::Fail(error),
        ),
        outcome == IdentityOutcome::Created(Err(error)) ==> identity_turn(phase, outcome) == (
            IdentityPhase::Done,
            IdentityStep::Fail(error),
        ),
        outcome == IdentityOutcome::Stored(Err(error)) && phase != (IdentityPhase::StoringTls {
            created: true,
        }) ==> identity_turn(phase, outcome) == (IdentityPhase::Done, IdentityStep::Fail(error)),
        outcome == IdentityOutcome::Stored(Err(error)) && phase == (IdentityPhase::StoringTls {
            created: true,
        }) ==> identity_turn(phase, outcome) == (
            IdentityPhase::RollingBack { error },
            IdentityStep::Delete(SecretAccount::SigningSeed),
        ),
        phase == (IdentityPhase::RollingBack { error }) ==> identity_turn(phase, outcome) == (
            IdentityPhase::Done,
            IdentityStep::Fail(error),
        ),
{
}

/// Each phase waits for the outcome of its own step.
pub proof fn law_each_search_waits_for_its_outcome(phase: IdentityPhase, outcome: IdentityOutcome)
    ensures
        outcome is Loaded ==> (outcome_fits(phase, outcome) <==> phase is LoadingSigning || phase
            is LoadingTls),
        outcome is Created ==> (outcome_fits(phase, outcome) <==> phase is Creating),
        outcome is Stored ==> (outcome_fits(phase, outcome) <==> phase is StoringSigning || phase
            is StoringTls),
        outcome is Deleted ==> (outcome_fits(phase, outcome) <==> phase is RollingBack),
{
}

/// A secret that is not there is no failure, neither when it is read nor when
/// it is deleted; a missing entitlement keeps its name.
pub proof fn law_absent_secrets_are_no_failure(
    outcome: Result<(), KeychainError>,
    found: Result<bool, StorageError>,
    gone: Result<(), StorageError>,
)
    requires
        call_ensures(keychain_loaded, (outcome,), found),
        call_ensures(keychain_deleted, (outcome,), gone),
    ensures
        found == Ok::<bool, StorageError>(true) <==> outcome is Ok,
        found == Ok::<bool, StorageError>(false) <==> (outcome matches Err(KeychainError::NotFound)),
        gone is Ok <==> found is Ok,
        found matches Err(error) ==> gone == Err::<(), StorageError>(error),
        found matches Err(error) ==> (error is MissingEntitlement <==> (outcome matches Err(
            KeychainError::MissingEntitlement,
        ))),
        found matches Err(error) ==> error is MissingEntitlement || error is Keychain,
{
}

} // verus!

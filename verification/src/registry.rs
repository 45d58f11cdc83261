//! Assumption registry: the per-test execution context owning the single
//! pending assume-no-revert directive, and the registration cheatcodes that
//! build it.

use vstd::prelude::*;

use crate::types::{AcceptableRevertParameters, Address, AssumeNoRevert, ParamsV};

verus! {

/// Why a registration call was rejected.
#[derive(Clone, Copy, Debug, PartialEq, Eq, Structural)]
pub enum RegistrationError {
    /// An incompatible expect-exact-revert directive is already pending.
    ConflictingDirective,
    /// Accept-any and specific-reason registrations were mixed on the same
    /// directive.
    ModeConflict,
}

/// The mutable state of one test-execution context that this engine reads and
/// writes. It is owned by the context and passed in explicitly; there is no
/// ambient global.
#[derive(Clone, Debug)]
pub struct TestContext {
    /// Whether the sibling expect-exact-revert directive is currently active.
    /// That feature is an external collaborator, consumed here only as a
    /// mutual-exclusion constraint on registration.
    pub expected_revert_active: bool,
    /// The single pending assume-no-revert directive, if any.
    pub assume_no_revert: Option<AssumeNoRevert>,
}

impl TestContext {
    /// `None` while no directive is pending; otherwise `Some(true)` in
    /// specific-reasons mode and `Some(false)` in accept-any mode.
    pub open spec fn mode(self) -> Option<bool> {
        match self.assume_no_revert {
            Some(d) => Some(d.reasons is Some),
            None => None,
        }
    }

    pub open spec fn wf(self) -> bool {
        self.assume_no_revert matches Some(d) ==> d.wf()
    }

    pub fn new() -> (r: TestContext)
        ensures
            !r.expected_revert_active,
            r.assume_no_revert is None,
    {
        TestContext { expected_revert_active: false, assume_no_revert: None }
    }
}

/// Which error, if any, a registration call receives, given the
/// mutual-exclusion flag, the current directive mode (see
/// [`TestContext::mode`]) and whether the new call supplies expected data.
pub open spec fn registration_error(
    expected_revert_active: bool,
    mode: Option<bool>,
    reason_present: bool,
) -> Option<RegistrationError> {
    if expected_revert_active {
        Some(RegistrationError::ConflictingDirective)
    } else {
        match mode {
            None => None,
            Some(specific) => if specific && reason_present {
                None
            } else {
                Some(RegistrationError::ModeConflict)
            },
        }
    }
}

/// The descriptor that a successful registration with data `reason` appends.
pub open spec fn new_descriptor_view(
    reason: Seq<u8>,
    partial_match: bool,
    reverter: Option<Address>,
) -> ParamsV {
    ParamsV { reason: Some(reason), partial_match, reverter, reverted_by: None }
}

/// Registers one acceptable revert shape (or, with `reason` absent, the
/// accept-any directive) at the given call depth, creating the context's
/// directive on first use and appending to it afterwards. A directive never
/// changes mode: combining a generic registration with specific reasons, in
/// either order, is rejected.
pub fn assume_no_revert(
    state: &mut TestContext,
    depth: u64,
    reason: Option<Vec<u8>>,
    partial_match: bool,
    reverter: Option<Address>,
) -> (r: Result<(), RegistrationError>)
    ensures
        r is Err <==> registration_error(
            old(state).expected_revert_active,
            old(state).mode(),
            reason is Some,
        ) is Some,
        r matches Err(e) ==> Some(e) == registration_error(
            old(state).expected_revert_active,
            old(state).mode(),
            reason is Some,
        ) && *final(state) == *old(state),
        final(state).expected_revert_active == old(state).expected_revert_active,
        r is Ok ==> (match (old(state).assume_no_revert, final(state).assume_no_revert) {
            (None, Some(d)) => d.depth == depth && (match reason {
                None => d.reasons_view() is None,
                Some(rv) => d.reasons_view() == Some(
                    seq![new_descriptor_view(rv@, partial_match, reverter)],
                ),
            }),
            (Some(prev), Some(d)) => d.depth == prev.depth && (match reason {
                None => false,
                Some(rv) => d.reasons_view() == Some(
                    prev.reasons_view()->0.push(
                        new_descriptor_view(rv@, partial_match, reverter),
                    ),
                ),
            }),
            _ => false,
        }),
        old(state).wf() ==> final(state).wf(),
{
    if state.expected_revert_active {
        return Err(RegistrationError::ConflictingDirective);
    }
    match &mut state.assume_no_revert {
        None => {
            let reasons = match reason {
                None => None,
                Some(rv) => Some(
                    vec![
                        AcceptableRevertParameters {
                            reason: Some(rv),
                            partial_match,
                            reverter,
                            reverted_by: None,
                        },
                    ],
                ),
            };
            state.assume_no_revert = Some(AssumeNoRevert { depth, reasons });
            proof {
                let d = final(state).assume_no_revert->0;
                if reason is Some {
                    assert(d.reasons_view()->0 =~= seq![
                        new_descriptor_view(reason->0@, partial_match, reverter),
                    ]);
                }
            }
            Ok(())
        },
        Some(directive) => {
            match (&mut directive.reasons, reason) {
                (Some(rs), Some(rv)) => {
                    rs.push(
                        AcceptableRevertParameters {
                            reason: Some(rv),
                            partial_match,
                            reverter,
                            reverted_by: None,
                        },
                    );
                    proof {
                        let d = final(state).assume_no_revert->0;
                        let prev = old(state).assume_no_revert->0;
                        assert(d.reasons_view()->0 =~= prev.reasons_view()->0.push(
                            new_descriptor_view(rv@, partial_match, reverter),
                        ));
                    }
                    Ok(())
                },
                _ => Err(RegistrationError::ModeConflict),
            }
        },
    }
}

/// Removes the pending directive unconditionally. The call-depth-unwind
/// mechanism must invoke this whenever execution depth drops at or below the
/// directive's registration depth, whether or not matching ever occurred.
pub fn clear_assume_no_revert(state: &mut TestContext)
    ensures
        final(state).assume_no_revert is None,
        final(state).expected_revert_active == old(state).expected_revert_active,
{
    state.assume_no_revert = None;
}

/// Whether the depth-unwind mechanism owes a [`clear_assume_no_revert`] call:
/// execution depth has dropped at or below the directive's registration
/// depth.
pub fn directive_expired(directive: &AssumeNoRevert, current_depth: u64) -> (r: bool)
    ensures
        r == (current_depth <= directive.depth),
{
    current_depth <= directive.depth
}

/// The marker payload carried by the error that the plain `assume` cheatcode
/// raises on a false condition, telling the harness to discard the fuzz case
/// rather than fail it.
pub open spec fn magic_assume_bytes() -> Seq<u8> {
    seq![
        0x46u8, 0x4fu8, 0x55u8, 0x4eu8, 0x44u8, 0x52u8, 0x59u8, 0x3au8, 0x3au8, 0x41u8, 0x53u8,
        0x53u8, 0x55u8, 0x4du8, 0x45u8,
    ]
}

/// The plain `assume` cheatcode: succeeds on a true condition and otherwise
/// raises the magic discard marker (the ASCII bytes `FOUNDRY::ASSUME`).
pub fn apply_assume(condition: bool) -> (r: Result<(), Vec<u8>>)
    ensures
        r is Ok <==> condition,
        r matches Err(m) ==> m@ == magic_assume_bytes(),
{
    if condition {
        Ok(())
    } else {
        let m: Vec<u8> = vec![
            0x46u8, 0x4fu8, 0x55u8, 0x4eu8, 0x44u8, 0x52u8, 0x59u8, 0x3au8, 0x3au8, 0x41u8, 0x53u8,
            0x53u8, 0x55u8, 0x4du8, 0x45u8,
        ];
        proof {
            assert(m@ =~= magic_assume_bytes());
        }
        Err(m)
    }
}

/// Mixing registration modes on one directive is rejected, in both orders:
/// a specific-reason registration on an accept-any directive, and a generic
/// registration on a specific-reasons directive, each receive `ModeConflict`.
pub proof fn lemma_registration_mode_conflict(specific_mode: bool, reason_present: bool)
    requires
        specific_mode != reason_present,
    ensures
        registration_error(false, Some(specific_mode), reason_present) == Some(
            RegistrationError::ModeConflict,
        ),
{
}

} // verus!

// Scenario tests for the registration and matching engine.

use revert_match::matcher::{handle_assume_no_revert, handle_revert, unwrap_error_payload, RevertMatchError};
use revert_match::registry::{
    apply_assume, assume_no_revert, clear_assume_no_revert, directive_expired, RegistrationError,
    TestContext,
};
use revert_match::types::{AcceptableRevertParameters, Address, ExecutionStatus};

fn addr(n: u8) -> Address {
    Address { hi: n as u32, lo: n as u128 }
}

fn params(
    reason: Option<Vec<u8>>,
    partial_match: bool,
    reverter: Option<Address>,
) -> AcceptableRevertParameters {
    AcceptableRevertParameters { reason, partial_match, reverter, reverted_by: None }
}

#[test]
fn accept_any_accepts_arbitrary_bytes() {
    let mut ctx = TestContext::new();
    assert!(assume_no_revert(&mut ctx, 1, None, false, None).is_ok());
    let directive = ctx.assume_no_revert.as_ref().unwrap();
    assert_eq!(directive.depth, 1);
    assert!(directive.reasons.is_none());
    let r = handle_assume_no_revert(directive, ExecutionStatus::Revert, &vec![0xab, 0xcd], None);
    assert!(r.is_ok());
}

#[test]
fn exact_data_accepts_equal_bytes() {
    let mut ctx = TestContext::new();
    let data = vec![0xde, 0xad, 0xbe, 0xef];
    assert!(assume_no_revert(&mut ctx, 1, Some(data.clone()), false, None).is_ok());
    let directive = ctx.assume_no_revert.as_ref().unwrap();
    let r = handle_assume_no_revert(directive, ExecutionStatus::Revert, &data, None);
    assert!(r.is_ok());
}

#[test]
fn exact_data_rejects_near_miss_with_both_sides_rendered() {
    let p = params(Some(vec![0xde, 0xad, 0xbe, 0xef]), false, None);
    let r = handle_revert(false, &p, &vec![0xde, 0xad, 0xbe, 0xee], None);
    match r {
        Err(RevertMatchError::Mismatch { actual, expected }) => {
            assert_eq!(actual, "0xdeadbeee");
            assert_eq!(expected, "0xdeadbeef");
        }
        other => panic!("expected a data mismatch, got {:?}", other),
    }
}

#[test]
fn near_miss_rejects_through_the_directive_with_raw_bytes() {
    let mut ctx = TestContext::new();
    assert!(assume_no_revert(&mut ctx, 1, Some(vec![0xde, 0xad, 0xbe, 0xef]), false, None).is_ok());
    let directive = ctx.assume_no_revert.as_ref().unwrap();
    let actual = vec![0xde, 0xad, 0xbe, 0xee];
    let r = handle_assume_no_revert(directive, ExecutionStatus::Revert, &actual, None);
    assert_eq!(r.unwrap_err(), actual);
}

#[test]
fn partial_match_accepts_longer_data_with_same_selector() {
    let p = params(Some(vec![0x12, 0x34, 0x56, 0x78]), true, None);
    let r = handle_revert(false, &p, &vec![0x12, 0x34, 0x56, 0x78, 0xaa, 0xbb, 0xcc], None);
    assert!(r.is_ok());
}

#[test]
fn partial_match_rejects_different_selector() {
    let p = params(Some(vec![0x12, 0x34, 0x56, 0x78]), true, None);
    let r = handle_revert(false, &p, &vec![0x12, 0x34, 0x56, 0x79, 0xaa], None);
    assert!(r.is_err());
}

#[test]
fn partial_match_with_two_undersized_sides_accepts() {
    // Fewer than 4 bytes on both sides means no selector on either: the
    // partial comparison degrades to acceptance rather than an error.
    let p = params(Some(vec![0x01]), true, None);
    let r = handle_revert(false, &p, &vec![0x02], None);
    assert!(r.is_ok());
}

#[test]
fn reverter_mismatch_rejects_even_with_equal_data() {
    let x = vec![0x01, 0x02, 0x03, 0x04];
    let p = params(Some(x.clone()), false, Some(addr(0xaa)));
    let r = handle_revert(false, &p, &x, Some(addr(0xbb)));
    match r {
        Err(RevertMatchError::ReverterMismatch { expected_reverter, actual_reverter }) => {
            assert_eq!(expected_reverter, addr(0xaa));
            assert_eq!(actual_reverter, addr(0xbb));
        }
        other => panic!("expected a reverter mismatch, got {:?}", other),
    }
}

#[test]
fn matching_reverter_and_data_accepts() {
    let x = vec![0x01, 0x02, 0x03, 0x04];
    let p = params(Some(x.clone()), false, Some(addr(0xaa)));
    assert!(handle_revert(false, &p, &x, Some(addr(0xaa))).is_ok());
}

#[test]
fn unknown_reverter_is_not_a_mismatch() {
    let x = vec![0x01, 0x02, 0x03, 0x04];
    let p = params(Some(x.clone()), false, Some(addr(0xaa)));
    assert!(handle_revert(false, &p, &x, None).is_ok());
}

#[test]
fn second_descriptor_at_same_depth_matches() {
    let mut ctx = TestContext::new();
    let x = vec![0x11, 0x11, 0x11, 0x11];
    let y = vec![0x22, 0x22, 0x22, 0x22];
    assert!(assume_no_revert(&mut ctx, 2, Some(x.clone()), false, None).is_ok());
    assert!(assume_no_revert(&mut ctx, 2, Some(y.clone()), false, None).is_ok());
    let directive = ctx.assume_no_revert.as_ref().unwrap();
    let reasons = directive.reasons.as_ref().unwrap();
    assert_eq!(reasons.len(), 2);
    assert_eq!(reasons[0].reason.as_ref().unwrap(), &x);
    assert_eq!(reasons[1].reason.as_ref().unwrap(), &y);
    let r = handle_assume_no_revert(directive, ExecutionStatus::Revert, &y, None);
    assert!(r.is_ok());
}

#[test]
fn no_descriptor_matching_rejects_with_raw_bytes() {
    let mut ctx = TestContext::new();
    assert!(assume_no_revert(&mut ctx, 2, Some(vec![0x11]), false, None).is_ok());
    assert!(assume_no_revert(&mut ctx, 2, Some(vec![0x22]), false, None).is_ok());
    let directive = ctx.assume_no_revert.as_ref().unwrap();
    let actual = vec![0x33, 0x44, 0x55, 0x66, 0x77];
    let r = handle_assume_no_revert(directive, ExecutionStatus::Revert, &actual, None);
    assert_eq!(r.unwrap_err(), actual);
}

#[test]
fn generic_then_specific_is_a_mode_conflict() {
    let mut ctx = TestContext::new();
    assert!(assume_no_revert(&mut ctx, 1, None, false, None).is_ok());
    let r = assume_no_revert(&mut ctx, 1, Some(vec![0x01]), false, None);
    assert_eq!(r.unwrap_err(), RegistrationError::ModeConflict);
    // The directive is left as it was.
    assert!(ctx.assume_no_revert.as_ref().unwrap().reasons.is_none());
}

#[test]
fn specific_then_generic_is_a_mode_conflict() {
    let mut ctx = TestContext::new();
    assert!(assume_no_revert(&mut ctx, 1, Some(vec![0x01]), false, None).is_ok());
    let r = assume_no_revert(&mut ctx, 1, None, false, None);
    assert_eq!(r.unwrap_err(), RegistrationError::ModeConflict);
    assert_eq!(ctx.assume_no_revert.as_ref().unwrap().reasons.as_ref().unwrap().len(), 1);
}

#[test]
fn active_expect_exact_revert_conflicts_with_registration() {
    let mut ctx = TestContext { expected_revert_active: true, assume_no_revert: None };
    let r = assume_no_revert(&mut ctx, 1, Some(vec![0x01]), false, None);
    assert_eq!(r.unwrap_err(), RegistrationError::ConflictingDirective);
    assert!(ctx.assume_no_revert.is_none());
}

#[test]
fn empty_revert_data_is_its_own_rejection() {
    let p = params(Some(vec![0x01, 0x02]), false, None);
    let r = handle_revert(false, &p, &Vec::new(), None);
    assert!(matches!(r, Err(RevertMatchError::EmptyRevertData)));
}

#[test]
fn absent_expected_data_accepts_empty_and_nonempty_data() {
    let p = params(None, false, None);
    assert!(handle_revert(false, &p, &Vec::new(), None).is_ok());
    assert!(handle_revert(false, &p, &vec![0xff, 0x00, 0x13], None).is_ok());
}

#[test]
fn wrapped_error_payload_is_unwrapped_before_comparison() {
    // Error(string) selector, then the ABI encoding of the payload bytes.
    let payload: Vec<u8> = b"boom".to_vec();
    let encoded = alloy_sol_types::SolValue::abi_encode(&payload);
    let mut data = vec![0x08, 0xc3, 0x79, 0xa0];
    data.extend_from_slice(&encoded);
    assert_eq!(unwrap_error_payload(&data), payload);
    let p = params(Some(payload), false, None);
    assert!(handle_revert(false, &p, &data, None).is_ok());
}

#[test]
fn cheatcode_error_selector_matches_its_signature_hash() {
    let digest = alloy_primitives::keccak256(b"CheatcodeError(string)");
    let payload: Vec<u8> = b"oops".to_vec();
    let encoded = alloy_sol_types::SolValue::abi_encode(&payload);
    let mut data = digest[..4].to_vec();
    assert_eq!(data, vec![0xee, 0xaa, 0x9e, 0x6f]);
    data.extend_from_slice(&encoded);
    assert_eq!(unwrap_error_payload(&data), payload);
}

#[test]
fn revert_selector_matches_the_error_string_signature_hash() {
    let digest = alloy_primitives::keccak256(b"Error(string)");
    assert_eq!(digest[..4].to_vec(), vec![0x08, 0xc3, 0x79, 0xa0]);
}

#[test]
fn unknown_selector_is_not_unwrapped() {
    let payload: Vec<u8> = b"boom".to_vec();
    let encoded = alloy_sol_types::SolValue::abi_encode(&payload);
    let mut data = vec![0x01, 0x02, 0x03, 0x04];
    data.extend_from_slice(&encoded);
    assert_eq!(unwrap_error_payload(&data), data);
}

#[test]
fn undersized_data_is_left_unchanged_by_unwrapping() {
    let data = vec![0x08, 0xc3];
    assert_eq!(unwrap_error_payload(&data), data);
}

#[test]
fn cheatcode_mode_accepts_contained_expected_bytes() {
    let p = params(Some(b"bcd".to_vec()), false, None);
    let actual = b"abcdef".to_vec();
    assert!(handle_revert(true, &p, &actual, None).is_ok());
    // Containment is only honoured for cheatcode-raised reverts.
    assert!(handle_revert(false, &p, &actual, None).is_err());
}

#[test]
fn clearing_removes_the_directive() {
    let mut ctx = TestContext::new();
    assert!(assume_no_revert(&mut ctx, 3, None, false, None).is_ok());
    clear_assume_no_revert(&mut ctx);
    assert!(ctx.assume_no_revert.is_none());
}

#[test]
fn directive_expiry_follows_depth() {
    let mut ctx = TestContext::new();
    assert!(assume_no_revert(&mut ctx, 3, None, false, None).is_ok());
    let directive = ctx.assume_no_revert.as_ref().unwrap();
    assert!(directive_expired(directive, 2));
    assert!(directive_expired(directive, 3));
    assert!(!directive_expired(directive, 4));
}

#[test]
fn assume_raises_the_magic_discard_marker() {
    assert!(apply_assume(true).is_ok());
    assert_eq!(apply_assume(false).unwrap_err(), b"FOUNDRY::ASSUME".to_vec());
}

#[test]
fn reverter_is_checked_before_expected_data_is_consulted() {
    // Even a descriptor that accepts any data rejects when it names a
    // different reverter.
    let p = params(None, false, Some(addr(0x01)));
    let r = handle_revert(false, &p, &vec![0xaa], Some(addr(0x02)));
    assert!(matches!(r, Err(RevertMatchError::ReverterMismatch { .. })));
}

#[test]
fn wrapped_selector_with_undecodable_remainder_is_left_unchanged() {
    // A known selector whose remainder is not a length-prefixed payload:
    // comparison degrades to the raw bytes rather than raising an error.
    let data = vec![0x08, 0xc3, 0x79, 0xa0, 0xff];
    assert_eq!(unwrap_error_payload(&data), data);
}

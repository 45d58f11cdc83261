//! Revert matcher: pure comparison of an actual revert against one or many
//! acceptable-revert descriptors.

use vstd::prelude::*;

use crate::decoder::{decode_revert_reason, decoded_reason};
use crate::types::{
    AcceptableRevertParameters, Address, AssumeNoRevert, DirectiveV, ExecutionStatus, ParamsV,
    RevertParameters,
};

verus! {

/// The selector of the standard revert-with-reason error, `Error(string)`.
pub open spec fn revert_selector() -> Seq<u8> {
    seq![0x08u8, 0xc3u8, 0x79u8, 0xa0u8]
}

/// The selector of the cheatcode layer's own wrapped error,
/// `CheatcodeError(string)`.
pub open spec fn cheatcode_error_selector() -> Seq<u8> {
    seq![0xeeu8, 0xaau8, 0x9eu8, 0x6fu8]
}

/// Why a single descriptor failed to match an actual revert.
#[derive(Clone, Debug)]
pub enum RevertMatchError {
    /// The actual reverting contract differs from the expected one.
    ReverterMismatch { expected_reverter: Address, actual_reverter: Address },
    /// The descriptor expects non-empty data but the call reverted without
    /// data.
    EmptyRevertData,
    /// Data comparison failed after normalization; both sides are rendered
    /// for display by the reason decoder.
    Mismatch { actual: String, expected: String },
}

/// Step (a): an expected reverter is set, the actual reverter is known, and
/// the two differ.
pub open spec fn reverter_mismatch(expected: Option<Address>, actual: Option<Address>) -> bool {
    expected is Some && actual is Some && expected->0 != actual->0
}

/// Whether the leading 4 bytes of the two sequences are equal, as a partial
/// match reads them: sequences shorter than 4 bytes have no selector, and two
/// missing selectors count as equal.
pub open spec fn selector_matches(actual: Seq<u8>, expected: Seq<u8>) -> bool {
    if actual.len() >= 4 && expected.len() >= 4 {
        actual.take(4) == expected.take(4)
    } else {
        actual.len() < 4 && expected.len() < 4
    }
}

/// What alloy's ABI decode of a Solidity `bytes` value returns on the given
/// bytes, if it succeeds.
pub uninterp spec fn abi_decoded_bytes(data: Seq<u8>) -> Option<Seq<u8>>;

/// One level of standard error unwrapping: when the data carries a known
/// wrapped-error selector and its remainder ABI-decodes as a length-prefixed
/// byte payload, comparisons operate on that payload; otherwise on the data
/// unchanged.
pub open spec fn unwrap_wrapped_error(data: Seq<u8>) -> Seq<u8> {
    if data.len() >= 4 && (data.take(4) == revert_selector() || data.take(4)
        == cheatcode_error_selector()) && abi_decoded_bytes(data.skip(4)) is Some {
        abi_decoded_bytes(data.skip(4))->0
    } else {
        data
    }
}

/// Whether `needle` occurs as a contiguous subsequence of `haystack`.
pub open spec fn contains_subseq(haystack: Seq<u8>, needle: Seq<u8>) -> bool {
    exists|i: int|
        #![trigger haystack.subrange(i, i + needle.len())]
        0 <= i && i + needle.len() <= haystack.len() && haystack.subrange(i, i + needle.len())
            == needle
}

/// Whether one descriptor — given as its reverter, expected data and
/// partial-match flag — accepts an actual revert with data `retdata` thrown
/// by `actual_reverter`. `is_cheatcode` is the looser containment mode used
/// only for reverts synthesized by the cheatcode layer itself.
pub open spec fn match_accepts(
    expected_reverter: Option<Address>,
    reason: Option<Seq<u8>>,
    partial_match: bool,
    retdata: Seq<u8>,
    actual_reverter: Option<Address>,
    is_cheatcode: bool,
) -> bool {
    if reverter_mismatch(expected_reverter, actual_reverter) {
        false
    } else {
        match reason {
            None => true,
            Some(expected) => if expected.len() > 0 && retdata.len() == 0 {
                false
            } else if partial_match && selector_matches(retdata, expected) {
                true
            } else {
                let normalized = unwrap_wrapped_error(retdata);
                normalized == expected || (is_cheatcode && contains_subseq(normalized, expected))
            },
        }
    }
}

/// [`match_accepts`] applied to a descriptor value.
pub open spec fn descriptor_accepts(
    p: ParamsV,
    retdata: Seq<u8>,
    actual_reverter: Option<Address>,
    is_cheatcode: bool,
) -> bool {
    match_accepts(p.reverter, p.reason, p.partial_match, retdata, actual_reverter, is_cheatcode)
}

/// Whether a directive accepts an actual revert: unconditionally when it is
/// in accept-any mode, else iff some listed descriptor matches.
pub open spec fn evaluate_accepts(
    d: DirectiveV,
    retdata: Seq<u8>,
    actual_reverter: Option<Address>,
) -> bool {
    match d.reasons {
        None => true,
        Some(rs) => exists|i: int|
            0 <= i < rs.len() && #[trigger] descriptor_accepts(rs[i], retdata, actual_reverter, false),
    }
}

/// Relies on memchr's `memmem::find`: the index of the first occurrence of
/// `needle` within `haystack`, if there is one.
#[verifier::external_body]
fn find_subslice(haystack: &Vec<u8>, needle: &Vec<u8>) -> (r: Option<usize>)
    ensures
        r matches Some(i) ==> i + needle@.len() <= haystack@.len() && haystack@.subrange(
            i as int,
            i + needle@.len(),
        ) == needle@ && (forall|j: int|
            0 <= j < i ==> #[trigger] haystack@.subrange(j, j + needle@.len()) != needle@),
        r is None ==> !contains_subseq(haystack@, needle@),
{
    memchr::memmem::find(haystack, needle)
}

/// Relies on alloy_sol_types' `SolValue::abi_decode` for `Vec<u8>`: the
/// result is a function of the input bytes alone.
#[verifier::external_body]
fn abi_decode_bytes(data: &Vec<u8>) -> (r: Option<Vec<u8>>)
    ensures
        r is Some <==> abi_decoded_bytes(data@) is Some,
        r matches Some(v) ==> v@ == abi_decoded_bytes(data@)->0,
{
    <Vec<u8> as alloy_sol_types::SolValue>::abi_decode(data).ok()
}

/// The bytes of `data` from `start` on, as a fresh vector.
fn suffix_from(data: &Vec<u8>, start: usize) -> (r: Vec<u8>)
    requires
        start <= data@.len(),
    ensures
        r@ == data@.skip(start as int),
{
    let mut r: Vec<u8> = Vec::new();
    let mut i: usize = start;
    while i < data.len()
        invariant
            start <= i <= data@.len(),
            r@ =~= data@.subrange(start as int, i as int),
        decreases data@.len() - i,
    {
        r.push(data[i]);
        i += 1;
    }
    proof {
        assert(r@ =~= data@.skip(start as int));
    }
    r
}

/// Whether the two byte vectors hold the same bytes.
fn bytes_eq(a: &Vec<u8>, b: &Vec<u8>) -> (r: bool)
    ensures
        r == (a@ == b@),
{
    if a.len() != b.len() {
        return false;
    }
    let mut i: usize = 0;
    while i < a.len()
        invariant
            a@.len() == b@.len(),
            0 <= i <= a@.len(),
            forall|j: int| 0 <= j < i ==> a@[j] == b@[j],
        decreases a@.len() - i,
    {
        if a[i] != b[i] {
            return false;
        }
        i += 1;
    }
    proof {
        assert(a@ =~= b@);
    }
    true
}

/// Whether the leading 4 bytes of both vectors agree, as
/// [`selector_matches`] reads them.
fn partial_selector_eq(actual: &Vec<u8>, expected: &Vec<u8>) -> (r: bool)
    ensures
        r == selector_matches(actual@, expected@),
{
    if actual.len() >= 4 && expected.len() >= 4 {
        let r = actual[0] == expected[0] && actual[1] == expected[1] && actual[2] == expected[2]
            && actual[3] == expected[3];
        proof {
            if r {
                assert(actual@.take(4) =~= expected@.take(4));
            } else {
                assert(actual@.take(4)[0] == actual@[0] && actual@.take(4)[1] == actual@[1]
                    && actual@.take(4)[2] == actual@[2] && actual@.take(4)[3] == actual@[3]);
                assert(expected@.take(4)[0] == expected@[0] && expected@.take(4)[1] == expected@[1]
                    && expected@.take(4)[2] == expected@[2] && expected@.take(4)[3]
                    == expected@[3]);
            }
        }
        r
    } else {
        actual.len() < 4 && expected.len() < 4
    }
}

/// Whether `data` opens with one of the two known wrapped-error selectors.
fn starts_with_wrapped_selector(data: &Vec<u8>) -> (r: bool)
    ensures
        r == (data@.len() >= 4 && (data@.take(4) == revert_selector() || data@.take(4)
            == cheatcode_error_selector())),
{
    if data.len() < 4 {
        return false;
    }
    let is_revert = data[0] == 0x08 && data[1] == 0xc3 && data[2] == 0x79 && data[3] == 0xa0;
    let is_cheatcode = data[0] == 0xee && data[1] == 0xaa && data[2] == 0x9e && data[3] == 0x6f;
    proof {
        assert(data@.take(4)[0] == data@[0] && data@.take(4)[1] == data@[1] && data@.take(4)[2]
            == data@[2] && data@.take(4)[3] == data@[3]);
        if is_revert {
            assert(data@.take(4) =~= revert_selector());
        }
        if is_cheatcode {
            assert(data@.take(4) =~= cheatcode_error_selector());
        }
    }
    is_revert || is_cheatcode
}

/// Normalizes actual revert data before comparison; see
/// [`unwrap_wrapped_error`].
pub fn unwrap_error_payload(data: &Vec<u8>) -> (r: Vec<u8>)
    ensures
        r@ == unwrap_wrapped_error(data@),
{
    if starts_with_wrapped_selector(data) {
        let tail = suffix_from(data, 4);
        match abi_decode_bytes(&tail) {
            Some(v) => v,
            None => {
                let r = suffix_from(data, 0);
                proof {
                    assert(r@ =~= data@);
                }
                r
            },
        }
    } else {
        let r = suffix_from(data, 0);
        proof {
            assert(r@ =~= data@);
        }
        r
    }
}

/// Core logic for handling a revert that may be expected or assumed: matches
/// one descriptor against the actual revert data and reverting address,
/// accepting or rejecting with a structured reason. Never fails on malformed
/// or undersized input; comparison simply proceeds without unwrapping.
pub fn handle_revert<P: RevertParameters>(
    is_cheatcode: bool,
    revert_params: &P,
    retdata: &Vec<u8>,
    actual_reverter: Option<Address>,
) -> (r: Result<(), RevertMatchError>)
    ensures
        r is Ok <==> match_accepts(
            revert_params.spec_reverter(),
            revert_params.spec_reason(),
            revert_params.spec_partial_match(),
            retdata@,
            actual_reverter,
            is_cheatcode,
        ),
        r matches Err(e) ==> (match e {
            RevertMatchError::ReverterMismatch { expected_reverter: e, actual_reverter: a } =>
                reverter_mismatch(revert_params.spec_reverter(), actual_reverter) && Some(e)
                == revert_params.spec_reverter() && Some(a) == actual_reverter,
            RevertMatchError::EmptyRevertData => !reverter_mismatch(
                revert_params.spec_reverter(),
                actual_reverter,
            ) && (match revert_params.spec_reason() {
                Some(expected) => expected.len() > 0 && retdata@.len() == 0,
                None => false,
            }),
            RevertMatchError::Mismatch { actual, expected } => !reverter_mismatch(
                revert_params.spec_reverter(),
                actual_reverter,
            ) && (match revert_params.spec_reason() {
                Some(er) => !(er.len() > 0 && retdata@.len() == 0) && actual@ == decoded_reason(
                    unwrap_wrapped_error(retdata@),
                ) && expected@ == decoded_reason(er),
                None => false,
            }),
        }),
{
    if let (Some(expected), Some(actual)) = (revert_params.reverter(), actual_reverter) {
        if expected != actual {
            return Err(
                RevertMatchError::ReverterMismatch {
                    expected_reverter: expected,
                    actual_reverter: actual,
                },
            );
        }
    }
    let expected_reason = match revert_params.reason() {
        Some(v) => v,
        None => {
            return Ok(());
        },
    };
    if expected_reason.len() > 0 && retdata.len() == 0 {
        return Err(RevertMatchError::EmptyRevertData);
    }
    if revert_params.partial_match() && partial_selector_eq(retdata, expected_reason) {
        return Ok(());
    }
    let normalized = unwrap_error_payload(retdata);
    if bytes_eq(&normalized, expected_reason) {
        return Ok(());
    }
    if is_cheatcode {
        if find_subslice(&normalized, expected_reason).is_some() {
            return Ok(());
        }
    }
    Err(
        RevertMatchError::Mismatch {
            actual: decode_revert_reason(&normalized),
            expected: decode_revert_reason(expected_reason),
        },
    )
}

/// Evaluates the pending assume-no-revert directive against an actual
/// revert: accepts unconditionally in accept-any mode, else accepts on the
/// first matching descriptor; when all fail, rejects with the raw actual
/// bytes for the harness to render.
pub fn handle_assume_no_revert(
    assume_no_revert: &AssumeNoRevert,
    status: ExecutionStatus,
    retdata: &Vec<u8>,
    actual_reverter: Option<Address>,
) -> (r: Result<(), Vec<u8>>)
    requires
        status.is_revert_class(),
    ensures
        r is Ok <==> evaluate_accepts(assume_no_revert@, retdata@, actual_reverter),
        r matches Err(d) ==> d@ == retdata@,
{
    match &assume_no_revert.reasons {
        None => Ok(()),
        Some(reasons) => {
            let ghost rs = assume_no_revert@.reasons->0;
            let mut i: usize = 0;
            while i < reasons.len()
                invariant
                    0 <= i <= reasons@.len(),
                    rs == reasons@.map_values(|p: AcceptableRevertParameters| p@),
                    rs.len() == reasons@.len(),
                    assume_no_revert@.reasons == Some(rs),
                    forall|j: int|
                        0 <= j < i ==> !#[trigger] descriptor_accepts(
                            rs[j],
                            retdata@,
                            actual_reverter,
                            false,
                        ),
                decreases reasons@.len() - i,
            {
                let accepted = handle_revert(false, &reasons[i], retdata, actual_reverter);
                proof {
                    assert(rs[i as int] == reasons@[i as int]@);
                }
                if accepted.is_ok() {
                    proof {
                        assert(assume_no_revert@.reasons->0 == rs);
                        assert(descriptor_accepts(
                            assume_no_revert@.reasons->0[i as int],
                            retdata@,
                            actual_reverter,
                            false,
                        ));
                    }
                    return Ok(());
                }
                i += 1;
            }
            let d = suffix_from(retdata, 0);
            proof {
                assert(d@ =~= retdata@);
            }
            Err(d)
        },
    }
}

/// A descriptor whose expected data is absent accepts regardless of the
/// actual revert data, empty or not, in either matching mode, so long as it
/// does not name a different reverter.
pub proof fn lemma_absent_reason_accepts(
    expected_reverter: Option<Address>,
    partial_match: bool,
    retdata: Seq<u8>,
    actual_reverter: Option<Address>,
    is_cheatcode: bool,
)
    requires
        !reverter_mismatch(expected_reverter, actual_reverter),
    ensures
        match_accepts(
            expected_reverter,
            Option::<Seq<u8>>::None,
            partial_match,
            retdata,
            actual_reverter,
            is_cheatcode,
        ),
{
}

/// A partial-match descriptor accepts any actual data that shares its
/// leading 4 bytes, regardless of the remaining bytes.
pub proof fn lemma_partial_match_selector(
    expected_reverter: Option<Address>,
    expected: Seq<u8>,
    retdata: Seq<u8>,
    actual_reverter: Option<Address>,
    is_cheatcode: bool,
)
    requires
        !reverter_mismatch(expected_reverter, actual_reverter),
        expected.len() >= 4,
        retdata.len() >= 4,
        retdata.take(4) == expected.take(4),
    ensures
        match_accepts(
            expected_reverter,
            Some(expected),
            true,
            retdata,
            actual_reverter,
            is_cheatcode,
        ),
{
}

/// A descriptor naming an expected reverter rejects a revert thrown by a
/// different contract, whatever the data — even when it matches exactly.
pub proof fn lemma_reverter_mismatch_rejects(
    expected_reverter: Address,
    actual_reverter: Address,
    reason: Option<Seq<u8>>,
    partial_match: bool,
    retdata: Seq<u8>,
    is_cheatcode: bool,
)
    requires
        expected_reverter != actual_reverter,
    ensures
        !match_accepts(
            Some(expected_reverter),
            reason,
            partial_match,
            retdata,
            Some(actual_reverter),
            is_cheatcode,
        ),
{
}

/// A directive in specific-reasons mode accepts as soon as any one of its
/// accumulated descriptors matches, wherever it stands in the sequence.
pub proof fn lemma_any_descriptor_suffices(
    d: DirectiveV,
    i: int,
    retdata: Seq<u8>,
    actual_reverter: Option<Address>,
)
    requires
        d.reasons is Some,
        0 <= i < d.reasons->0.len(),
        descriptor_accepts(d.reasons->0[i], retdata, actual_reverter, false),
    ensures
        evaluate_accepts(d, retdata, actual_reverter),
{
}

} // verus!

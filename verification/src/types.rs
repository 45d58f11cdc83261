//! Data model: addresses, execution status, revert descriptors and the
//! assume-no-revert directive.

use vstd::prelude::*;

verus! {

/// A 20-byte contract address, split big-endian into its leading 4 bytes
/// (`hi`) and trailing 16 bytes (`lo`) so that equality is plain structural
/// equality on integers.
#[derive(Clone, Copy, Debug, PartialEq, Eq, Structural)]
pub struct Address {
    pub hi: u32,
    pub lo: u128,
}

/// The outcome class of an interpreted contract call. Only `Revert` triggers
/// matching; successful returns and out-of-resources halts are handled
/// elsewhere by the interpreter.
#[derive(Clone, Copy, Debug, PartialEq, Eq, Structural)]
pub enum ExecutionStatus {
    Success,
    Revert,
    Halt,
}

impl ExecutionStatus {
    pub open spec fn is_revert_class(self) -> bool {
        self is Revert
    }
}

/// Mathematical value of one revert descriptor.
#[verifier::ext_equal]
pub ghost struct ParamsV {
    pub reason: Option<Seq<u8>>,
    pub partial_match: bool,
    pub reverter: Option<Address>,
    pub reverted_by: Option<Address>,
}

/// Mathematical value of an assume-no-revert directive.
#[verifier::ext_equal]
pub ghost struct DirectiveV {
    pub depth: u64,
    pub reasons: Option<Seq<ParamsV>>,
}

/// Parameters for a single anticipated revert, to be thrown out if
/// encountered.
#[derive(Clone, Debug)]
pub struct AcceptableRevertParameters {
    /// The expected revert data returned by the revert; absent means any
    /// revert data is acceptable.
    pub reason: Option<Vec<u8>>,
    /// If true then only the first 4 bytes of expected data returned by the
    /// revert are checked.
    pub partial_match: bool,
    /// Contract expected to revert next call.
    pub reverter: Option<Address>,
    /// Actual reverter of the call, recorded by the surrounding interpreter
    /// glue at match time rather than at creation.
    pub reverted_by: Option<Address>,
}

impl View for AcceptableRevertParameters {
    type V = ParamsV;

    open spec fn view(&self) -> ParamsV {
        ParamsV {
            reason: match self.reason {
                Some(v) => Some(v@),
                None => None,
            },
            partial_match: self.partial_match,
            reverter: self.reverter,
            reverted_by: self.reverted_by,
        }
    }
}

impl AcceptableRevertParameters {
    /// A partial (selector-only) match is only meaningful when expected data
    /// is present.
    pub open spec fn wf(self) -> bool {
        self.reason is None ==> !self.partial_match
    }
}

/// The single pending assume-no-revert directive of a test-execution context.
#[derive(Clone, Debug)]
pub struct AssumeNoRevert {
    /// The call depth at which the cheatcode was added.
    pub depth: u64,
    /// Acceptable revert parameters for the next call, to be thrown out if
    /// they are encountered; `None` means literally any revert is acceptable
    /// at this depth.
    pub reasons: Option<Vec<AcceptableRevertParameters>>,
}

impl View for AssumeNoRevert {
    type V = DirectiveV;

    open spec fn view(&self) -> DirectiveV {
        DirectiveV { depth: self.depth, reasons: self.reasons_view() }
    }
}

impl AssumeNoRevert {
    pub open spec fn reasons_view(self) -> Option<Seq<ParamsV>> {
        match self.reasons {
            Some(rs) => Some(rs@.map_values(|p: AcceptableRevertParameters| p@)),
            None => None,
        }
    }

    /// Every accumulated descriptor carries expected data: a directive is
    /// either wholly in accept-any mode (`reasons` absent) or wholly in
    /// specific-reasons mode, and specific descriptors are only ever created
    /// from present data.
    pub open spec fn wf(self) -> bool {
        self.reasons matches Some(rs) ==> forall|i: int|
            0 <= i < rs@.len() ==> (#[trigger] rs@[i]).reason is Some && rs@[i].wf()
    }
}

/// Common capability surface of a revert descriptor, shared by expected and
/// assumed reverts.
pub trait RevertParameters: Sized {
    spec fn spec_reverter(&self) -> Option<Address>;

    spec fn spec_reason(&self) -> Option<Seq<u8>>;

    spec fn spec_partial_match(&self) -> bool;

    fn reverter(&self) -> (r: Option<Address>)
        ensures
            r == self.spec_reverter(),
    ;

    fn reason(&self) -> (r: Option<&Vec<u8>>)
        ensures
            r is Some <==> self.spec_reason() is Some,
            r matches Some(v) ==> v@ == self.spec_reason()->0,
    ;

    fn partial_match(&self) -> (r: bool)
        ensures
            r == self.spec_partial_match(),
    ;
}

impl RevertParameters for AcceptableRevertParameters {
    open spec fn spec_reverter(&self) -> Option<Address> {
        self.reverter
    }

    open spec fn spec_reason(&self) -> Option<Seq<u8>> {
        self@.reason
    }

    open spec fn spec_partial_match(&self) -> bool {
        self.partial_match
    }

    fn reverter(&self) -> Option<Address> {
        self.reverter
    }

    fn reason(&self) -> Option<&Vec<u8>> {
        self.reason.as_ref()
    }

    fn partial_match(&self) -> bool {
        self.partial_match
    }
}

} // verus!

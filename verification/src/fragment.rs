//! Fragments: signed, submittable units of ledger change, and the status a
//! node reports for one after submission.

use vstd::prelude::*;

verus! {

/// A content identifier (block hash, fragment id, genesis hash), modelled
/// by its raw words.  The harness only ever compares identifiers for
/// equality; it never inspects their structure.
#[derive(Debug, Clone, Copy, PartialEq, Eq, Structural)]
pub struct Digest {
    pub lo: u64,
    pub hi: u64,
}

impl Digest {
    pub fn new(lo: u64, hi: u64) -> (r: Digest)
        ensures
            r.lo == lo && r.hi == hi,
    {
        Digest { lo, hi }
    }
}

/// The slot a block was produced in.
#[derive(Debug, Clone, Copy, PartialEq, Eq, Structural)]
pub struct BlockDate {
    pub epoch: u32,
    pub slot_id: u32,
}

/// What a node reports about a submitted fragment.  Submission is
/// asynchronous relative to block inclusion, so a fragment stays
/// `Pending` until it is either rejected or placed in a block;
/// `InABlock` is the terminal state success assertions wait for.
#[derive(Debug, Clone, PartialEq, Eq)]
pub enum FragmentStatus {
    Pending,
    Rejected { reason: String },
    InABlock { date: BlockDate, block: Digest },
}

impl FragmentStatus {
    /// Whether this status is the terminal "in a block" state.
    pub open spec fn spec_is_in_a_block(&self) -> bool {
        self is InABlock
    }

    /// The rendering of this status in diagnostic messages: the variant's
    /// name, with the node's reason for a rejection.
    pub open spec fn describe_view(&self) -> Seq<char> {
        match self {
            FragmentStatus::Pending => "Pending"@,
            FragmentStatus::Rejected { reason } => "Rejected: "@ + reason@,
            FragmentStatus::InABlock { .. } => "InABlock"@,
        }
    }

    /// Renders this status for diagnostic messages.
    pub fn describe(&self) -> (r: String)
        ensures
            r@ == self.describe_view(),
    {
        match self {
            FragmentStatus::Pending => "Pending".to_owned(),
            FragmentStatus::Rejected { reason } => {
                let mut out: String = "Rejected: ".to_owned();
                out.append(reason.as_str());
                out
            },
            FragmentStatus::InABlock { .. } => "InABlock".to_owned(),
        }
    }

    #[verifier::when_used_as_spec(spec_is_in_a_block)]
    pub fn is_in_a_block(&self) -> (r: bool)
        ensures
            r == self.spec_is_in_a_block(),
    {
        match self {
            FragmentStatus::InABlock { .. } => true,
            _ => false,
        }
    }
}

} // verus!

//! The uniform view over heterogeneous node handles.
//!
//! A current-version node reports a structured status document; a legacy
//! node reports a loosely-typed key/value map.  Both are normalised behind
//! one capability, `SyncNode`, so that measurement code never has to care
//! which version of the node binary it is polling.

use vstd::prelude::*;

use crate::errors::ScenarioError;
use crate::fragment::Digest;

verus! {

// ---------------------------------------------------------------------
// Decimal parsing of the height field
// ---------------------------------------------------------------------

/// A decimal digit.
pub open spec fn is_digit(c: char) -> bool {
    48 <= c as u32 <= 57
}

/// The numeric value of one digit.
pub open spec fn digit_value(c: char) -> nat {
    (c as u32 - 48) as nat
}

/// Every character of the sequence is a decimal digit.
pub open spec fn all_digits(s: Seq<char>) -> bool {
    forall|i: int| 0 <= i < s.len() ==> is_digit(#[trigger] s[i])
}

/// The value of a digit sequence read as a base-10 numeral.
pub open spec fn decimal_value(s: Seq<char>) -> nat
    decreases s.len(),
{
    if s.len() == 0 {
        0
    } else {
        decimal_value(s.drop_last()) * 10 + digit_value(s.last())
    }
}

/// A numeral's value never shrinks when more digits are appended.
proof fn lemma_decimal_prefix_le(s: Seq<char>, i: int, j: int)
    requires
        0 <= i <= j <= s.len(),
    ensures
        decimal_value(s.subrange(0, i)) <= decimal_value(s.subrange(0, j)),
    decreases j - i,
{
    if i < j {
        lemma_decimal_prefix_le(s, i, j - 1);
        assert(s.subrange(0, j).drop_last() =~= s.subrange(0, j - 1));
    }
}

/// Whether a character sequence is a numeral whose value fits in a `u32`.
pub open spec fn is_u32_numeral(s: Seq<char>) -> bool {
    s.len() > 0 && all_digits(s) && decimal_value(s) <= u32::MAX
}

/// Parses a decimal numeral, exactly when the whole string is one and its
/// value fits in a `u32`.
pub fn parse_u32(s: &str) -> (r: Option<u32>)
    ensures
        match r {
            Some(v) => is_u32_numeral(s@) && v as nat == decimal_value(s@),
            None => !is_u32_numeral(s@),
        },
{
    let n = s.unicode_len();
    if n == 0 {
        return None;
    }
    let mut acc: u64 = 0;
    let mut i: usize = 0;
    while i < n
        invariant
            0 <= i <= n,
            n == s@.len(),
            all_digits(s@.subrange(0, i as int)),
            acc as nat == decimal_value(s@.subrange(0, i as int)),
            acc <= u32::MAX,
        decreases n - i,
    {
        let c = s.get_char(i);
        let v = c as u32;
        if v < 48 || v > 57 {
            assert(!is_digit(s@[i as int]));
            return None;
        }
        acc = acc * 10 + (v - 48) as u64;
        proof {
            assert(s@.subrange(0, i + 1).drop_last() =~= s@.subrange(0, i as int));
            assert(s@.subrange(0, i + 1).last() == s@[i as int]);
        }
        if acc > u32::MAX as u64 {
            proof {
                lemma_decimal_prefix_le(s@, i + 1, s@.len() as int);
                assert(s@.subrange(0, s@.len() as int) =~= s@);
            }
            return None;
        }
        i = i + 1;
    }
    proof {
        assert(s@.subrange(0, n as int) =~= s@);
    }
    Some(acc as u32)
}

// ---------------------------------------------------------------------
// Status snapshots
// ---------------------------------------------------------------------

/// The lifecycle state a node reports for itself.
#[derive(Debug, Clone, Copy, PartialEq, Eq, Structural)]
pub enum NodeState {
    StartingRestServer,
    PreparingStorage,
    PreparingBlock0,
    Bootstrapping,
    Running,
    ShuttingDown,
}

/// The canonical textual name of a state, as both node versions spell it.
pub open spec fn state_name(state: NodeState) -> Seq<char> {
    match state {
        NodeState::StartingRestServer => "StartingRestServer"@,
        NodeState::PreparingStorage => "PreparingStorage"@,
        NodeState::PreparingBlock0 => "PreparingBlock0"@,
        NodeState::Bootstrapping => "Bootstrapping"@,
        NodeState::Running => "Running"@,
        NodeState::ShuttingDown => "ShuttingDown"@,
    }
}

/// Only the `Running` state spells itself `"Running"`.
pub proof fn lemma_state_name_running(state: NodeState)
    ensures
        (state_name(state) == "Running"@) <==> (state is Running),
{
    reveal_strlit("StartingRestServer");
    reveal_strlit("PreparingStorage");
    reveal_strlit("PreparingBlock0");
    reveal_strlit("Bootstrapping");
    reveal_strlit("Running");
    reveal_strlit("ShuttingDown");
    match state {
        NodeState::Running => {
            assert(state_name(state) == "Running"@);
        },
        _ => {
            assert(state_name(state).len() != "Running"@.len());
        },
    }
}

/// The counters block of a current-version status document; absent while
/// the node is still preparing.
#[derive(Debug, Clone, PartialEq, Eq)]
pub struct NodeStatsData {
    /// The height of the last block, as the decimal numeral the node sent.
    pub last_block_height: Option<String>,
    /// The hash of the last block, when the node reported one.
    pub last_block_hash: Option<Digest>,
}

/// One polled status document of a current-version node.
#[derive(Debug, Clone, PartialEq, Eq)]
pub struct StatusSnapshot {
    pub state: NodeState,
    pub stats: Option<NodeStatsData>,
}

// ---------------------------------------------------------------------
// The loosely-typed legacy map
// ---------------------------------------------------------------------

/// The value bound to the first entry carrying the key, if any: the lookup
/// discipline of the legacy status map.
pub open spec fn lookup_spec(entries: Seq<(String, String)>, key: Seq<char>) -> Option<Seq<char>>
    decreases entries.len(),
{
    if entries.len() == 0 {
        None
    } else if entries[0].0@ == key {
        Some(entries[0].1@)
    } else {
        lookup_spec(entries.drop_first(), key)
    }
}

/// Finds a key in a legacy key/value map.
pub fn lookup<'a>(entries: &'a Vec<(String, String)>, key: &String) -> (r: Option<&'a String>)
    ensures
        match r {
            Some(v) => lookup_spec(entries@, key@) == Some(v@),
            None => lookup_spec(entries@, key@) is None,
        },
{
    let n = entries.len();
    let mut i: usize = 0;
    proof {
        assert(entries@.skip(0) =~= entries@);
    }
    while i < n
        invariant
            0 <= i <= n,
            n == entries@.len(),
            lookup_spec(entries@, key@) == lookup_spec(entries@.skip(i as int), key@),
        decreases n - i,
    {
        let pair: &(String, String) = &entries[i];
        proof {
            assert(entries@.skip(i as int)[0] == entries@[i as int]);
            assert(entries@.skip(i as int).drop_first() =~= entries@.skip(i + 1));
        }
        if pair.0 == *key {
            return Some(&pair.1);
        }
        i = i + 1;
    }
    proof {
        assert(entries@.skip(n as int) =~= Seq::<(String, String)>::empty());
    }
    None
}

// ---------------------------------------------------------------------
// The capability
// ---------------------------------------------------------------------

/// A version-agnostic window onto one running node.
///
/// Measurement code polls nodes only through this capability, so the same
/// loop drives current-version and legacy handles alike.  A method that
/// reads the polled snapshot demands that one was polled: a missing or
/// malformed snapshot is a protocol mismatch that polling cannot fix, so
/// the caller must test for it first rather than retry.
pub trait SyncNode {
    /// The alias the node was registered under.
    spec fn alias_view(&self) -> Seq<char>;

    /// A status snapshot has been polled.
    spec fn has_status(&self) -> bool;

    /// The polled snapshot says the node is in the `Running` state.
    spec fn running_view(&self) -> bool;

    /// The polled snapshot carries a block height that reads as a `u32`.
    spec fn has_height(&self) -> bool;

    /// The block height the polled snapshot carries.
    spec fn height_view(&self) -> u32;

    /// A tip hash has been polled.
    spec fn has_tip(&self) -> bool;

    /// The polled tip hash.
    spec fn tip_view(&self) -> Digest;

    /// Everything the node has logged so far.
    spec fn log_view(&self) -> Seq<char>;

    /// The log lines flagged as errors or invalid input.
    spec fn error_lines_view(&self) -> Seq<Seq<char>>;

    fn alias(&self) -> (r: String)
        ensures
            r@ == self.alias_view(),
    ;

    /// Probes whether a status snapshot was polled, so a caller can test
    /// before asking questions of it.
    fn has_status_polled(&self) -> (r: bool)
        ensures
            r == self.has_status(),
    ;

    /// Probes whether the polled snapshot carries a usable block height.
    fn has_height_polled(&self) -> (r: bool)
        ensures
            r == self.has_height(),
    ;

    /// Probes whether a tip hash was polled.
    fn has_tip_polled(&self) -> (r: bool)
        ensures
            r == self.has_tip(),
    ;

    fn last_block_height(&self) -> (r: u32)
        requires
            self.has_height(),
        ensures
            r == self.height_view(),
    ;

    fn tip(&self) -> (r: Digest)
        requires
            self.has_tip(),
        ensures
            r == self.tip_view(),
    ;

    fn is_running(&self) -> (r: bool)
        requires
            self.has_status(),
        ensures
            r == self.running_view(),
    ;

    fn log_content(&self) -> (r: String)
        ensures
            r@ == self.log_view(),
    ;

    fn get_lines_with_error_and_invalid(&self) -> (r: &Vec<String>)
        ensures
            r.deep_view() == self.error_lines_view(),
    ;
}

} // verus!

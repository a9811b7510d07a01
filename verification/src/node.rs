//! Handles to spawned node processes.
//!
//! A handle is the library's image of one node: its alias and the latest
//! snapshots the unverified driver polled from the node's REST surface
//! (status document, tip, visible stake pools) together with its log.
//! The driver refreshes these fields between polls; everything the
//! library decides, it decides from them.

use vstd::prelude::*;

use crate::errors::ScenarioError;
use crate::fragment::Digest;
use crate::sync::{
    decimal_value, is_u32_numeral, lemma_state_name_running, lookup, lookup_spec, parse_u32,
    state_name, NodeState, StatusSnapshot, SyncNode,
};

verus! {

/// A current-version node: its status arrives as a structured document.
#[derive(Debug, Clone, PartialEq, Eq)]
pub struct NodeController {
    pub alias: String,
    /// The latest polled status document, if any poll succeeded.
    pub status: Option<StatusSnapshot>,
    /// The latest polled tip, if any poll succeeded.
    pub tip: Option<Digest>,
    /// Everything the node has logged so far.
    pub log: String,
    /// The log lines flagged as errors or invalid input.
    pub error_lines: Vec<String>,
    /// The pool ids the node currently lists.
    pub stake_pools: Vec<Digest>,
}

/// A legacy node: its status arrives as a loosely-typed key/value map
/// with string keys `"state"` and `"lastBlockHeight"`.
#[derive(Debug, Clone, PartialEq, Eq)]
pub struct LegacyNodeController {
    pub alias: String,
    /// The latest polled status map, if any poll succeeded.
    pub entries: Vec<(String, String)>,
    /// The latest polled tip, if any poll succeeded.
    pub tip: Option<Digest>,
    /// Everything the node has logged so far.
    pub log: String,
    /// The log lines flagged as errors or invalid input.
    pub error_lines: Vec<String>,
    /// The pool ids the node currently lists.
    pub stake_pools: Vec<Digest>,
}

impl NodeController {
    /// A fresh handle for a node nothing has been polled from yet.
    pub fn new(alias: String) -> (r: NodeController)
        ensures
            r.alias == alias,
            r.status is None,
            r.tip is None,
            r.log@.len() == 0,
            r.error_lines@.len() == 0,
            r.stake_pools@.len() == 0,
    {
        NodeController {
            alias,
            status: None,
            tip: None,
            log: String::new(),
            error_lines: Vec::new(),
            stake_pools: Vec::new(),
        }
    }

    /// The latest status document, or the REST failure when none was
    /// ever polled successfully.
    pub fn stats(&self) -> (r: Result<&StatusSnapshot, ScenarioError>)
        ensures
            match r {
                Ok(s) => self.status == Some(*s),
                Err(e) => self.status is None && e matches ScenarioError::RestError(_),
            },
    {
        match &self.status {
            Some(s) => Ok(s),
            None => Err(ScenarioError::RestError("no status snapshot was polled".to_owned())),
        }
    }

    /// The latest polled tip, or the REST failure when none was ever
    /// polled successfully.
    pub fn query_tip(&self) -> (r: Result<Digest, ScenarioError>)
        ensures
            match r {
                Ok(t) => self.tip == Some(t),
                Err(e) => self.tip is None && e matches ScenarioError::RestError(_),
            },
    {
        match self.tip {
            Some(t) => Ok(t),
            None => Err(ScenarioError::RestError("no tip was polled".to_owned())),
        }
    }

    /// The pool ids the node currently lists.
    pub fn visible_stake_pools(&self) -> (r: &Vec<Digest>)
        ensures
            r == &self.stake_pools,
    {
        &self.stake_pools
    }
}

impl SyncNode for NodeController {
    open spec fn alias_view(&self) -> Seq<char> {
        self.alias@
    }

    open spec fn has_status(&self) -> bool {
        self.status is Some
    }

    open spec fn running_view(&self) -> bool {
        self.status matches Some(st) && st.state is Running
    }

    open spec fn has_height(&self) -> bool {
        &&& self.status matches Some(st)
        &&& st.stats matches Some(d)
        &&& d.last_block_height matches Some(h)
        &&& is_u32_numeral(h@)
    }

    open spec fn height_view(&self) -> u32 {
        decimal_value(self.status->0.stats->0.last_block_height->0@) as u32
    }

    open spec fn has_tip(&self) -> bool {
        self.tip is Some
    }

    open spec fn tip_view(&self) -> Digest {
        self.tip->0
    }

    open spec fn log_view(&self) -> Seq<char> {
        self.log@
    }

    open spec fn error_lines_view(&self) -> Seq<Seq<char>> {
        self.error_lines.deep_view()
    }

    fn alias(&self) -> (r: String) {
        self.alias.clone()
    }

    fn has_status_polled(&self) -> (r: bool) {
        self.status.is_some()
    }

    fn has_height_polled(&self) -> (r: bool) {
        match &self.status {
            Some(st) => match &st.stats {
                Some(data) => match &data.last_block_height {
                    Some(height) => parse_u32(height.as_str()).is_some(),
                    None => false,
                },
                None => false,
            },
            None => false,
        }
    }

    fn has_tip_polled(&self) -> (r: bool) {
        self.tip.is_some()
    }

    fn last_block_height(&self) -> (r: u32) {
        let st = self.status.as_ref().unwrap();
        let data = st.stats.as_ref().unwrap();
        let height = data.last_block_height.as_ref().unwrap();
        parse_u32(height.as_str()).unwrap()
    }

    fn tip(&self) -> (r: Digest) {
        self.tip.unwrap()
    }

    fn is_running(&self) -> (r: bool) {
        let st = self.status.as_ref().unwrap();
        match st.state {
            NodeState::Running => true,
            _ => false,
        }
    }

    fn log_content(&self) -> (r: String) {
        self.log.clone()
    }

    fn get_lines_with_error_and_invalid(&self) -> (r: &Vec<String>) {
        &self.error_lines
    }
}

impl LegacyNodeController {
    /// A fresh handle for a legacy node nothing has been polled from yet.
    pub fn new(alias: String) -> (r: LegacyNodeController)
        ensures
            r.alias == alias,
            r.entries@.len() == 0,
            r.tip is None,
            r.log@.len() == 0,
            r.error_lines@.len() == 0,
            r.stake_pools@.len() == 0,
    {
        LegacyNodeController {
            alias,
            entries: Vec::new(),
            tip: None,
            log: String::new(),
            error_lines: Vec::new(),
            stake_pools: Vec::new(),
        }
    }

    /// The latest polled tip, or the REST failure when none was ever
    /// polled successfully.
    pub fn query_tip(&self) -> (r: Result<Digest, ScenarioError>)
        ensures
            match r {
                Ok(t) => self.tip == Some(t),
                Err(e) => self.tip is None && e matches ScenarioError::RestError(_),
            },
    {
        match self.tip {
            Some(t) => Ok(t),
            None => Err(ScenarioError::RestError("no tip was polled".to_owned())),
        }
    }

    /// The pool ids the node currently lists.
    pub fn visible_stake_pools(&self) -> (r: &Vec<Digest>)
        ensures
            r == &self.stake_pools,
    {
        &self.stake_pools
    }
}

impl SyncNode for LegacyNodeController {
    open spec fn alias_view(&self) -> Seq<char> {
        self.alias@
    }

    open spec fn has_status(&self) -> bool {
        lookup_spec(self.entries@, "state"@) is Some
    }

    open spec fn running_view(&self) -> bool {
        lookup_spec(self.entries@, "state"@) == Some("Running"@)
    }

    open spec fn has_height(&self) -> bool {
        lookup_spec(self.entries@, "lastBlockHeight"@) matches Some(h) && is_u32_numeral(h)
    }

    open spec fn height_view(&self) -> u32 {
        decimal_value(lookup_spec(self.entries@, "lastBlockHeight"@)->0) as u32
    }

    open spec fn has_tip(&self) -> bool {
        self.tip is Some
    }

    open spec fn tip_view(&self) -> Digest {
        self.tip->0
    }

    open spec fn log_view(&self) -> Seq<char> {
        self.log@
    }

    open spec fn error_lines_view(&self) -> Seq<Seq<char>> {
        self.error_lines.deep_view()
    }

    fn alias(&self) -> (r: String) {
        self.alias.clone()
    }

    fn has_status_polled(&self) -> (r: bool) {
        let key = "state".to_owned();
        lookup(&self.entries, &key).is_some()
    }

    fn has_height_polled(&self) -> (r: bool) {
        let key = "lastBlockHeight".to_owned();
        match lookup(&self.entries, &key) {
            Some(height) => parse_u32(height.as_str()).is_some(),
            None => false,
        }
    }

    fn has_tip_polled(&self) -> (r: bool) {
        self.tip.is_some()
    }

    fn last_block_height(&self) -> (r: u32) {
        let key = "lastBlockHeight".to_owned();
        let height = lookup(&self.entries, &key).unwrap();
        parse_u32(height.as_str()).unwrap()
    }

    fn tip(&self) -> (r: Digest) {
        self.tip.unwrap()
    }

    fn is_running(&self) -> (r: bool) {
        let key = "state".to_owned();
        let state = lookup(&self.entries, &key).unwrap();
        let running = "Running".to_owned();
        *state == running
    }

    fn log_content(&self) -> (r: String) {
        self.log.clone()
    }

    fn get_lines_with_error_and_invalid(&self) -> (r: &Vec<String>) {
        &self.error_lines
    }
}

/// Both node-handle flavours give `is_running` one meaning.
///
/// Whenever a current-version handle polled a snapshot in some state and a
/// legacy handle polled a map whose `"state"` entry spells that same
/// state's name, the two report the same boolean: the state is `Running`.
pub proof fn lemma_is_running_uniform(
    node: &NodeController,
    legacy: &LegacyNodeController,
    state: NodeState,
)
    requires
        node.status matches Some(st) && st.state == state,
        lookup_spec(legacy.entries@, "state"@) == Some(state_name(state)),
    ensures
        node.running_view() == (state is Running),
        legacy.running_view() == (state is Running),
        node.running_view() == legacy.running_view(),
{
    lemma_state_name_running(state);
}

} // verus!

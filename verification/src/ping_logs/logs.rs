//! Log entries and the query that fetches them.

use vstd::prelude::*;
use vstd::string::StringExecFns;
use crate::select::select;
use crate::select::selected;
use crate::text::pairs_view;
use crate::text::same_text;

verus! {

/// How grave a log entry is.
#[derive(Clone, Copy, PartialEq, Eq, Structural, Debug)]
pub enum Level {
    Debug,
    Warning,
    Warn,
    Info,
    Error,
}

/// The name of a level as the platform spells it.
pub open spec fn level_name(level: Level) -> Seq<char> {
    match level {
        Level::Debug => "DEBUG"@,
        Level::Warning => "WARNING"@,
        Level::Warn => "WARN"@,
        Level::Info => "INFO"@,
        Level::Error => "ERROR"@,
    }
}

impl Level {
    /// The name of this level as the platform spells it.
    pub fn wire_name(&self) -> (name: &'static str)
        ensures
            name@ == level_name(*self),
    {
        match self {
            Level::Debug => "DEBUG",
            Level::Warning => "WARNING",
            Level::Warn => "WARN",
            Level::Info => "INFO",
            Level::Error => "ERROR",
        }
    }

    /// The level that the platform spells `name`, if there is one.
    pub fn parse(name: &str) -> (level: Option<Level>)
        ensures
            level matches Some(l) ==> level_name(l) == name@,
            level is None ==> forall|l: Level| level_name(l) != name@,
    {
        if same_text(name, "DEBUG") {
            Some(Level::Debug)
        } else if same_text(name, "WARNING") {
            Some(Level::Warning)
        } else if same_text(name, "WARN") {
            Some(Level::Warn)
        } else if same_text(name, "INFO") {
            Some(Level::Info)
        } else if same_text(name, "ERROR") {
            Some(Level::Error)
        } else {
            None
        }
    }
}

/// A point in time: the seconds since the Unix epoch and the nanoseconds
/// into that second.
#[derive(Clone, Copy, PartialEq, Eq, Structural, Debug)]
pub struct Timestamp {
    pub seconds: i64,
    pub nanos: u32,
}

/// What a node of a journey reported when it was left. `node_extra_logging`
/// is the JSON text of what the node logged on top.
#[derive(Debug, PartialEq, Eq)]
pub struct NodeOutcomeInfo {
    pub node_extra_logging: Option<String>,
    pub node_id: String,
    pub node_outcome: String,
    pub display_name: String,
}

#[derive(Debug, PartialEq, Eq)]
pub struct NodeOutcome {
    pub info: NodeOutcomeInfo,
}

#[derive(Debug, PartialEq, Eq)]
pub struct PingPayload {
    pub context: Option<String>,
    pub level: Level,
    pub entries: Option<Vec<NodeOutcome>>,
    pub logger: Option<String>,
    pub message: Option<String>,
    pub transaction_id: String,
    pub tracking_ids: Vec<String>,
}

/// One log entry.
#[derive(Debug, PartialEq, Eq)]
pub struct ResultingLog {
    pub payload: PingPayload,
    pub timestamp: Timestamp,
    pub data_type: String,
    pub source: String,
}

/// One page of log entries.
#[derive(Debug, PartialEq, Eq)]
pub struct Logs {
    pub result: Vec<ResultingLog>,
    pub paged_result_cooke: Option<String>,
    pub total_paged_results_policy: String,
    pub total_paged_results: i16,
    pub remaining_paged_results: i16,
}

impl Default for Logs {
    /// A page without entries.
    fn default() -> (logs: Logs)
        ensures
            logs.result@.len() == 0,
            logs.paged_result_cooke is None,
            logs.total_paged_results_policy@.len() == 0,
            logs.total_paged_results == 0,
            logs.remaining_paged_results == 0,
    {
        Logs {
            result: Vec::new(),
            paged_result_cooke: None,
            total_paged_results_policy: String::new(),
            total_paged_results: 0,
            remaining_paged_results: 0,
        }
    }
}

/// For each entry, whether it is of the level `level`.
pub open spec fn level_marks(logs: Seq<ResultingLog>, level: Level) -> Seq<bool> {
    Seq::new(logs.len(), |i: int| logs[i].payload.level == level)
}

/// The entries of the level `level`, in the order they stood in.
pub open spec fn with_level(logs: Seq<ResultingLog>, level: Level) -> Seq<ResultingLog> {
    selected(logs, level_marks(logs, level))
}

impl Logs {
    /// The page with only its entries of the level `level`, in the order
    /// they stood in; everything else stays.
    pub fn filter_logs(self, level: Level) -> (filtered: Logs)
        ensures
            filtered.result@ == with_level(self.result@, level),
            filtered.paged_result_cooke == self.paged_result_cooke,
            filtered.total_paged_results_policy == self.total_paged_results_policy,
            filtered.total_paged_results == self.total_paged_results,
            filtered.remaining_paged_results == self.remaining_paged_results,
    {
        let mut marks: Vec<bool> = Vec::new();
        let mut i: usize = 0;
        while i < self.result.len()
            invariant
                i <= self.result.len(),
                marks@ == level_marks(self.result@, level).take(i as int),
            decreases self.result.len() - i,
        {
            marks.push(self.result[i].payload.level == level);
            i += 1;
        }
        assert(marks@ =~= level_marks(self.result@, level));
        let Logs {
            result,
            paged_result_cooke,
            total_paged_results_policy,
            total_paged_results,
            remaining_paged_results,
        } = self;
        Logs {
            result: select(result, &marks),
            paged_result_cooke,
            total_paged_results_policy,
            total_paged_results,
            remaining_paged_results,
        }
    }
}

/// The query parameters that ask for the logs of a transaction, narrowed by
/// `query_filter` where one is given.
pub open spec fn query_params(transaction_id: Seq<char>, query_filter: Option<Seq<char>>) -> Seq<
    (Seq<char>, Seq<char>),
> {
    seq![
        ("source"@, "am-everything,idm-everything"@),
        ("transactionId"@, transaction_id),
        (
            "_queryFilter"@,
            match query_filter {
                Some(filter) => filter,
                None => Seq::<char>::empty(),
            },
        ),
    ]
}

/// The query parameters that ask for the logs of the transaction
/// `transaction_id`, narrowed by `query_filter` where one is given. An empty
/// id asks for the logs of every transaction.
pub fn log_query_params(transaction_id: &str, query_filter: Option<&str>) -> (params: Vec<
    (String, String),
>)
    ensures
        pairs_view(params@) == query_params(
            transaction_id@,
            match query_filter {
                Some(filter) => Some(filter@),
                None => None,
            },
        ),
{
    let filter = match query_filter {
        Some(filter) => String::from_str(filter),
        None => String::new(),
    };
    let mut params: Vec<(String, String)> = Vec::new();
    params.push((String::from_str("source"), String::from_str("am-everything,idm-everything")));
    params.push((String::from_str("transactionId"), String::from_str(transaction_id)));
    params.push((String::from_str("_queryFilter"), filter));
    assert(pairs_view(params@) =~= query_params(
        transaction_id@,
        match query_filter {
            Some(filter) => Some(filter@),
            None => None,
        },
    ));
    params
}

} // verus!

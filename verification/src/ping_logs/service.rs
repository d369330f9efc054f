//! What the log endpoints decide: which entries are asked for and which of
//! them are shown.

use vstd::prelude::*;
use vstd::string::StringExecFns;
use crate::errors::ShowMeErrors;
use crate::ping_logs::logs::with_level;
use crate::ping_logs::logs::Level;
use crate::ping_logs::logs::Logs;
use crate::text::join3;
use crate::text::same_text;

verus! {

/// The levels a caller can ask to see.
#[derive(Clone, Copy, PartialEq, Eq, Structural, Debug)]
pub enum Filters {
    All,
    Warn,
    Error,
    Debug,
    Default,
}

/// The name of a filter as callers write it.
pub open spec fn filter_name(filter: Filters) -> Seq<char> {
    match filter {
        Filters::All => "All"@,
        Filters::Warn => "Warn"@,
        Filters::Error => "Error"@,
        Filters::Debug => "Debug"@,
        Filters::Default => "Default"@,
    }
}

impl Filters {
    /// The filter that callers write as `name`, if there is one.
    pub fn parse(name: &str) -> (filter: Option<Filters>)
        ensures
            filter matches Some(f) ==> filter_name(f) == name@,
            filter is None ==> forall|f: Filters| filter_name(f) != name@,
    {
        if same_text(name, "All") {
            Some(Filters::All)
        } else if same_text(name, "Warn") {
            Some(Filters::Warn)
        } else if same_text(name, "Error") {
            Some(Filters::Error)
        } else if same_text(name, "Debug") {
            Some(Filters::Debug)
        } else if same_text(name, "Default") {
            Some(Filters::Default)
        } else {
            None
        }
    }
}

/// The level that a filter narrows the logs to, if it narrows them.
pub open spec fn level_of(filter: Option<Filters>) -> Option<Level> {
    match filter {
        Some(Filters::Warn) => Some(Level::Warning),
        Some(Filters::Error) => Some(Level::Error),
        Some(Filters::Debug) => Some(Level::Debug),
        _ => None,
    }
}

/// The query filter for the log entries of the script `script_id`.
pub open spec fn script_filter_text(script_id: Seq<char>) -> Seq<char> {
    "/payload/logger sw \"scripts.AUTHENTICATION_TREE_DECISION_NODE."@ + script_id + "\""@
}

/// The query filter for the log entries of the node shown as `script_name`.
pub open spec fn name_filter_text(script_name: Seq<char>) -> Seq<char> {
    "/payload/entries/info/displayName eq \""@ + script_name + "\""@
}

/// The query filter for a node name, a script id, both or neither.
pub open spec fn combined_filter_text(
    script_name: Option<Seq<char>>,
    script_id: Option<Seq<char>>,
) -> Seq<char> {
    match (script_name, script_id) {
        (Some(name), Some(id)) => name_filter_text(name) + " or "@ + script_filter_text(id),
        (Some(name), None) => name_filter_text(name),
        (None, Some(id)) => script_filter_text(id),
        (None, None) => Seq::<char>::empty(),
    }
}

/// The query filter for the log entries of the script `script_id`.
pub fn script_logger_filter(script_id: &str) -> (filter: String)
    ensures
        filter@ == script_filter_text(script_id@),
{
    join3("/payload/logger sw \"scripts.AUTHENTICATION_TREE_DECISION_NODE.", script_id, "\"")
}

/// The query filter for the log entries of the node shown as `script_name`.
pub fn display_name_filter(script_name: &str) -> (filter: String)
    ensures
        filter@ == name_filter_text(script_name@),
{
    join3("/payload/entries/info/displayName eq \"", script_name, "\"")
}

/// The query filter for a node name, a script id, both (either may match) or
/// neither (everything matches).
pub fn combined_filter(script_name: Option<&str>, script_id: Option<&str>) -> (filter: String)
    ensures
        filter@ == combined_filter_text(
            match script_name {
                Some(name) => Some(name@),
                None => None,
            },
            match script_id {
                Some(id) => Some(id@),
                None => None,
            },
        ),
{
    match (script_name, script_id) {
        (Some(name), Some(id)) => {
            let mut filter = display_name_filter(name);
            filter.append(" or ");
            let second = script_logger_filter(id);
            filter.append(second.as_str());
            filter
        },
        (Some(name), None) => display_name_filter(name),
        (None, Some(id)) => script_logger_filter(id),
        (None, None) => String::new(),
    }
}

/// Whether `shown` is the page `logs` as a caller with the filter `filter`
/// asked to see it: with the entries of the filter's level only, where it
/// has one, and with everything else as it was.
pub open spec fn shows(shown: Logs, logs: Logs, filter: Option<Filters>) -> bool {
    &&& level_of(filter) matches Some(level) ==> shown.result@ == with_level(logs.result@, level)
    &&& level_of(filter) is None ==> shown.result == logs.result
    &&& shown.paged_result_cooke == logs.paged_result_cooke
    &&& shown.total_paged_results_policy == logs.total_paged_results_policy
    &&& shown.total_paged_results == logs.total_paged_results
    &&& shown.remaining_paged_results == logs.remaining_paged_results
}

/// The page as the caller asked to see it: narrowed to warnings, errors or
/// debug entries, or whole.
pub fn apply_filter(logs: Logs, filter: Option<Filters>) -> (shown: Logs)
    ensures
        shows(shown, logs, filter),
{
    match filter {
        Some(Filters::Warn) => logs.filter_logs(Level::Warning),
        Some(Filters::Error) => logs.filter_logs(Level::Error),
        Some(Filters::Debug) => logs.filter_logs(Level::Debug),
        _ => logs,
    }
}

/// What a log endpoint answers: the page as the caller asked to see it, or,
/// where the logs could not be fetched, that none were found for `id`.
pub fn logs_or_not_found(
    fetched: Result<Logs, ShowMeErrors>,
    id: &str,
    filter: Option<Filters>,
) -> (answer: Result<Logs, ShowMeErrors>)
    ensures
        fetched is Ok <==> answer is Ok,
        fetched matches Ok(logs) ==> shows(answer->Ok_0, logs, filter),
        fetched is Err ==> (answer matches Err(ShowMeErrors::NoLogsFound(what)) && what@ == id@),
{
    match fetched {
        Ok(logs) => Ok(apply_filter(logs, filter)),
        Err(_) => Err(ShowMeErrors::NoLogsFound(String::from_str(id))),
    }
}

/// What the watch endpoint answers: the page as the caller asked to see it,
/// or, where the logs could not be fetched, an empty page.
pub fn watched_logs(fetched: Result<Logs, ShowMeErrors>, filter: Option<Filters>) -> (shown: Logs)
    ensures
        fetched matches Ok(logs) ==> shows(shown, logs, filter),
        fetched is Err ==> {
            &&& shown.result@.len() == 0
            &&& shown.paged_result_cooke is None
            &&& shown.total_paged_results_policy@.len() == 0
            &&& shown.total_paged_results == 0
            &&& shown.remaining_paged_results == 0
        },
{
    match fetched {
        Ok(logs) => apply_filter(logs, filter),
        Err(_) => Logs::default(),
    }
}

} // verus!

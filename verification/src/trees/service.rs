//! What the journey endpoints decide.

use vstd::prelude::*;
use vstd::string::StringExecFns;
use crate::errors::ShowMeErrors;
use crate::ping_logs::logs::Logs;
use crate::ping_logs::logs::ResultingLog;
use crate::ping_logs::logs::Timestamp;
use crate::select::select;
use crate::select::selected;
use crate::text::contains;
use crate::text::ends_with;
use crate::text::is_prefix;
use crate::text::is_suffix;
use crate::text::join3;
use crate::text::occurs_in;
use crate::text::sorted_distinct;
use crate::text::starts_with;
use crate::text::strictly_ascending;
use crate::text::texts;
use crate::trees::journeys::edges_view;
use crate::trees::journeys::flow_nodes_view;
use crate::trees::journeys::nodes_edges;
use crate::trees::journeys::start_edge;
use crate::trees::journeys::tree_flow_nodes;
use crate::trees::journeys::AuthenticationTreeList;
use crate::trees::journeys::ReactFlowEdge;
use crate::trees::journeys::ReactFlowNode;

verus! {

/// The query filter for every log entry that reports a node's outcome.
pub const NODE_OUTCOME_FILTER: &'static str = "/payload/entries/info/nodeOutcome pr";

/// The diagram of a journey.
#[derive(Debug, PartialEq, Eq)]
pub struct FlowPayload {
    pub nodes: Vec<ReactFlowNode>,
    pub edges: Vec<ReactFlowEdge>,
}

/// A transaction that ran through a journey, and when.
#[derive(Debug, PartialEq, Eq)]
pub struct JourneyTransaction {
    pub transaction_id: String,
    pub timestamp: Timestamp,
}

/// The outcome with which a node was left.
#[derive(Debug, PartialEq, Eq)]
pub struct NodeOutcomeEdge {
    pub name: String,
    pub outcome: String,
}

/// What narrows the list of journeys: how a name must begin, how it must end
/// and what it must hold, each where given.
#[derive(Debug, PartialEq, Eq)]
pub struct JourneyFilter {
    pub starts_with: Option<String>,
    pub ends_with: Option<String>,
    pub contains: Option<String>,
}

/// Whether a journey's name passes the filter.
pub open spec fn passes(name: Seq<char>, filter: JourneyFilter) -> bool {
    &&& filter.contains matches Some(part) ==> occurs_in(part@, name)
    &&& filter.ends_with matches Some(suffix) ==> is_suffix(suffix@, name)
    &&& filter.starts_with matches Some(prefix) ==> is_prefix(prefix@, name)
}

/// For each name, whether it passes the filter.
pub open spec fn filter_marks(names: Seq<String>, filter: JourneyFilter) -> Seq<bool> {
    Seq::new(names.len(), |i: int| passes(names[i]@, filter))
}

/// Whether a journey's name passes the filter.
pub fn name_passes(name: &str, filter: &JourneyFilter) -> (pass: bool)
    ensures
        pass == passes(name@, *filter),
{
    let holds = match &filter.contains {
        Some(part) => contains(name, part.as_str()),
        None => true,
    };
    let ends = match &filter.ends_with {
        Some(suffix) => ends_with(name, suffix.as_str()),
        None => true,
    };
    let begins = match &filter.starts_with {
        Some(prefix) => starts_with(name, prefix.as_str()),
        None => true,
    };
    holds && ends && begins
}

/// The names that pass the filter, in the order they stood in.
pub fn filter_journeys(names: Vec<String>, filter: &JourneyFilter) -> (shown: Vec<String>)
    ensures
        shown@ == selected(names@, filter_marks(names@, *filter)),
{
    let mut marks: Vec<bool> = Vec::new();
    let mut i: usize = 0;
    while i < names.len()
        invariant
            i <= names.len(),
            marks@ == filter_marks(names@, *filter).take(i as int),
        decreases names.len() - i,
    {
        marks.push(name_passes(names[i].as_str(), filter));
        i += 1;
    }
    assert(marks@ =~= filter_marks(names@, *filter));
    select(names, &marks)
}

/// The journeys of `list` whose names pass the filter, in their order.
pub fn get_journey(list: &AuthenticationTreeList, filter: &JourneyFilter) -> (shown: Vec<String>)
    ensures
        exists|names: Seq<String>|
            {
                &&& names.len() == list.result@.len()
                &&& forall|i: int| 0 <= i < names.len() ==> names[i] == list.result@[i].id
                &&& shown@ == #[trigger] selected(names, filter_marks(names, *filter))
            },
{
    let names = list.get_tree_list();
    let ghost all = names@;
    let shown = filter_journeys(names, filter);
    assert(shown@ == selected(all, filter_marks(all, *filter)));
    shown
}

/// The diagram of the journey `name`, or, where `list` holds no such
/// journey, that nothing was found under that name.
pub fn journey_flow(list: &AuthenticationTreeList, name: &str) -> (flow: Result<
    FlowPayload,
    ShowMeErrors,
>)
    ensures
        flow is Ok <==> exists|i: int|
            0 <= i < list.result@.len() && (#[trigger] list.result@[i]).id@ == name@,
        flow matches Ok(payload) ==> exists|i: int|
            {
                &&& 0 <= i < list.result@.len()
                &&& (#[trigger] list.result@[i]).id@ == name@
                &&& forall|j: int| 0 <= j < i ==> (#[trigger] list.result@[j]).id@ != name@
                &&& flow_nodes_view(payload.nodes@) == tree_flow_nodes(
                    list.result@[i].static_nodes.entries(),
                    list.result@[i].nodes.entries(),
                )
                &&& edges_view(payload.edges@) == nodes_edges(list.result@[i].nodes.entries()).push(
                    start_edge(list.result@[i].entry_node_id@),
                )
            },
        flow matches Err(e) ==> (e matches ShowMeErrors::NoLogsFound(what) && what@ == name@),
{
    match list.get_tree(name) {
        None => Err(ShowMeErrors::NoLogsFound(String::from_str(name))),
        Some(tree) => Ok(
            FlowPayload { nodes: tree.generate_nodes(), edges: tree.generate_edges() },
        ),
    }
}

/// The query filter for the transactions that completed the journey
/// `journey_name`.
pub open spec fn transactions_filter_text(journey_name: Seq<char>) -> Seq<char> {
    "/payload/entries/info/treeName eq \""@ + journey_name
        + "\" and /payload/entries/info/nodeOutcome pr and /payload/eventName eq \"AM-NODE-LOGIN-COMPLETED\""@
}

/// The query filter for the transactions that completed the journey
/// `journey_name`.
pub fn journey_transactions_filter(journey_name: &str) -> (filter: String)
    ensures
        filter@ == transactions_filter_text(journey_name@),
{
    join3(
        "/payload/entries/info/treeName eq \"",
        journey_name,
        "\" and /payload/entries/info/nodeOutcome pr and /payload/eventName eq \"AM-NODE-LOGIN-COMPLETED\"",
    )
}

/// The transactions that a page of logs reports, entry by entry.
pub fn journey_transactions(logs: &Logs) -> (transactions: Vec<JourneyTransaction>)
    ensures
        transactions@.len() == logs.result@.len(),
        forall|i: int|
            0 <= i < transactions@.len() ==> (#[trigger] transactions@[i]).transaction_id
                == logs.result@[i].payload.transaction_id && transactions@[i].timestamp
                == logs.result@[i].timestamp,
{
    let mut transactions: Vec<JourneyTransaction> = Vec::new();
    let mut i: usize = 0;
    while i < logs.result.len()
        invariant
            i <= logs.result.len(),
            transactions@.len() == i,
            forall|j: int|
                0 <= j < i ==> (#[trigger] transactions@[j]).transaction_id
                    == logs.result@[j].payload.transaction_id && transactions@[j].timestamp
                    == logs.result@[j].timestamp,
        decreases logs.result.len() - i,
    {
        transactions.push(
            JourneyTransaction {
                transaction_id: logs.result[i].payload.transaction_id.clone(),
                timestamp: logs.result[i].timestamp,
            },
        );
        i += 1;
    }
    transactions
}

/// The query filter for the node outcomes logged under the tracking id
/// `tracking_id`.
pub open spec fn tracking_filter_text(tracking_id: Seq<char>) -> Seq<char> {
    "/payload/trackingIds eq \""@ + tracking_id
        + "\" and /payload/entries/info/nodeOutcome pr"@
}

/// The query filter for the node outcomes logged under the tracking id
/// `tracking_id`.
pub fn tracking_filter(tracking_id: &str) -> (filter: String)
    ensures
        filter@ == tracking_filter_text(tracking_id@),
{
    join3("/payload/trackingIds eq \"", tracking_id, "\" and /payload/entries/info/nodeOutcome pr")
}

/// The tracking ids that a sequence of log entries names, entry by entry,
/// with repetitions.
pub open spec fn all_tracking_ids(logs: Seq<ResultingLog>) -> Seq<Seq<char>>
    decreases logs.len(),
{
    if logs.len() == 0 {
        Seq::<Seq<char>>::empty()
    } else {
        all_tracking_ids(logs.drop_last()) + texts(logs.last().payload.tracking_ids@)
    }
}

/// The tracking ids that the log entries name, each once, in the order of
/// strings.
pub fn tracking_ids(logs: &Vec<ResultingLog>) -> (ids: Vec<String>)
    ensures
        strictly_ascending(texts(ids@)),
        texts(ids@).to_set() == all_tracking_ids(logs@).to_set(),
{
    let mut all: Vec<String> = Vec::new();
    let mut i: usize = 0;
    assert(texts(all@) =~= all_tracking_ids(logs@.take(0)));
    while i < logs.len()
        invariant
            i <= logs.len(),
            texts(all@) == all_tracking_ids(logs@.take(i as int)),
        decreases logs.len() - i,
    {
        let ids = &logs[i].payload.tracking_ids;
        let ghost before = texts(all@);
        let mut j: usize = 0;
        while j < ids.len()
            invariant
                j <= ids.len(),
                texts(all@) == before + texts(ids@).take(j as int),
            decreases ids.len() - j,
        {
            let ghost earlier = texts(all@);
            all.push(ids[j].clone());
            proof {
                assert(texts(all@) =~= earlier.push(ids@[j as int]@));
                assert(texts(ids@).take(j + 1) =~= texts(ids@).take(j as int).push(ids@[j as int]@));
            }
            j += 1;
        }
        proof {
            assert(texts(ids@).take(ids@.len() as int) =~= texts(ids@));
            assert(logs@.take(i + 1).drop_last() =~= logs@.take(i as int));
            assert(logs@.take(i + 1).last() == logs@[i as int]);
        }
        i += 1;
    }
    assert(logs@.take(logs@.len() as int) =~= logs@);
    sorted_distinct(all)
}

/// Whether a log entry reports the outcome of a node.
pub open spec fn reports_outcome(log: ResultingLog) -> bool {
    log.payload.entries matches Some(entries) && entries@.len() > 0
}

/// The name of the node whose outcome a log entry reports first, and that
/// outcome.
pub open spec fn outcome_of(log: ResultingLog) -> (Seq<char>, Seq<char>) {
    (
        log.payload.entries->0@[0].info.display_name@,
        log.payload.entries->0@[0].info.node_outcome@,
    )
}

/// The log entries of all groups, group after group.
pub open spec fn flattened(groups: Seq<Vec<ResultingLog>>) -> Seq<ResultingLog>
    decreases groups.len(),
{
    if groups.len() == 0 {
        Seq::<ResultingLog>::empty()
    } else {
        flattened(groups.drop_last()) + groups.last()@
    }
}

/// The outcomes as values: the node's name and the outcome.
pub open spec fn outcomes_view(edges: Seq<NodeOutcomeEdge>) -> Seq<(Seq<char>, Seq<char>)> {
    Seq::new(edges.len(), |i: int| (edges[i].name@, edges[i].outcome@))
}

/// What each of a sequence of log entries reports.
pub open spec fn outcomes_of(logs: Seq<ResultingLog>) -> Seq<(Seq<char>, Seq<char>)> {
    Seq::new(logs.len(), |i: int| outcome_of(logs[i]))
}

/// The node outcomes that the log entries report, group after group and
/// entry after entry: of each entry the first outcome it holds. `None` if one
/// of the entries holds no outcome.
pub fn get_node_outcomes(groups: &Vec<Vec<ResultingLog>>) -> (outcomes: Option<Vec<NodeOutcomeEdge>>)
    ensures
        outcomes is Some <==> forall|k: int|
            0 <= k < flattened(groups@).len() ==> reports_outcome(#[trigger] flattened(groups@)[k]),
        outcomes matches Some(edges) ==> outcomes_view(edges@) == outcomes_of(flattened(groups@)),
{
    let mut edges: Vec<NodeOutcomeEdge> = Vec::new();
    let mut g: usize = 0;
    assert(groups@.take(0) =~= Seq::<Vec<ResultingLog>>::empty());
    assert(outcomes_view(edges@) =~= outcomes_of(flattened(groups@.take(0))));
    while g < groups.len()
        invariant
            g <= groups.len(),
            outcomes_view(edges@) == outcomes_of(flattened(groups@.take(g as int))),
            forall|k: int|
                0 <= k < flattened(groups@.take(g as int)).len() ==> reports_outcome(
                    #[trigger] flattened(groups@.take(g as int))[k],
                ),
        decreases groups.len() - g,
    {
        let group = &groups[g];
        let ghost done = flattened(groups@.take(g as int));
        let ghost upto = flattened(groups@.take(g + 1));
        proof {
            assert(groups@.take(g + 1).drop_last() =~= groups@.take(g as int));
            assert(groups@.take(g + 1).last() == groups@[g as int]);
            assert(upto == done + group@);
            lemma_flattened_prefix(groups@, g + 1);
        }
        let mut k: usize = 0;
        while k < group.len()
            invariant
                k <= group.len(),
                g < groups.len(),
                upto == done + group@,
                forall|q: int| 0 <= q < upto.len() ==> upto[q] == #[trigger] flattened(groups@)[q],
                upto.len() <= flattened(groups@).len(),
                outcomes_view(edges@) == outcomes_of(upto.take(done.len() + k)),
                forall|q: int|
                    0 <= q < done.len() + k ==> reports_outcome(#[trigger] upto[q]),
            decreases group.len() - k,
        {
            let log = &group[k];
            assert(*log == upto[done.len() + k]);
            let first = match &log.payload.entries {
                Some(entries) => {
                    if entries.len() > 0 {
                        Some(&entries[0])
                    } else {
                        None
                    }
                },
                None => None,
            };
            match first {
                Some(entry) => {
                    let ghost earlier = outcomes_view(edges@);
                    edges.push(
                        NodeOutcomeEdge {
                            name: entry.info.display_name.clone(),
                            outcome: entry.info.node_outcome.clone(),
                        },
                    );
                    proof {
                        assert(outcomes_view(edges@) =~= earlier.push(outcome_of(*log)));
                        assert(outcomes_of(upto.take(done.len() + k + 1)) =~= outcomes_of(
                            upto.take(done.len() + k),
                        ).push(outcome_of(*log)));
                    }
                },
                None => {
                    assert(!reports_outcome(flattened(groups@)[done.len() + k]));
                    return None;
                },
            }
            k += 1;
        }
        proof {
            assert(upto.take(upto.len() as int) =~= upto);
        }
        g += 1;
    }
    assert(groups@.take(groups@.len() as int) =~= groups@);
    Some(edges)
}

/// The entries of the first `n` groups are the first entries of all groups.
proof fn lemma_flattened_prefix(groups: Seq<Vec<ResultingLog>>, n: int)
    requires
        0 <= n <= groups.len(),
    ensures
        flattened(groups.take(n)).len() <= flattened(groups).len(),
        forall|q: int|
            0 <= q < flattened(groups.take(n)).len() ==> flattened(groups.take(n))[q]
                == #[trigger] flattened(groups)[q],
    decreases groups.len() - n,
{
    if n == groups.len() {
        assert(groups.take(n) =~= groups);
    } else {
        lemma_flattened_prefix(groups, n + 1);
        assert(groups.take(n + 1).drop_last() =~= groups.take(n));
    }
}

} // verus!

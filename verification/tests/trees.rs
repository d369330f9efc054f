use show_me::errors::ShowMeErrors;
use show_me::ping_logs::logs::Level;
use show_me::ping_logs::logs::Logs;
use show_me::ping_logs::logs::NodeOutcome;
use show_me::ping_logs::logs::NodeOutcomeInfo;
use show_me::ping_logs::logs::PingPayload;
use show_me::ping_logs::logs::ResultingLog;
use show_me::ping_logs::logs::Timestamp;
use show_me::string_map::StringMap;
use show_me::trees::journeys::AuthenticationTreeList;
use show_me::trees::journeys::Coordinate;
use show_me::trees::journeys::EdgeType;
use show_me::trees::journeys::HandlePosition;
use show_me::trees::journeys::HandleType;
use show_me::trees::journeys::Node;
use show_me::trees::journeys::NodeType;
use show_me::trees::journeys::Position;
use show_me::trees::journeys::ReactFlowEdge;
use show_me::trees::journeys::ReactFlowNodeHandle;
use show_me::trees::journeys::StaticNode;
use show_me::trees::journeys::Tree;
use show_me::trees::nodes::node_config_url;
use show_me::trees::nodes::node_info;
use show_me::trees::nodes::node_info_or_none;
use show_me::trees::nodes::NodeConfig;
use show_me::trees::nodes::NodeConfigType;
use show_me::trees::nodes::NodeData;
use show_me::trees::nodes::Script;
use show_me::trees::nodes::ScriptConfig;
use show_me::trees::service::filter_journeys;
use show_me::trees::service::get_journey;
use show_me::trees::service::get_node_outcomes;
use show_me::trees::service::journey_flow;
use show_me::trees::service::journey_transactions;
use show_me::trees::service::journey_transactions_filter;
use show_me::trees::service::name_passes;
use show_me::trees::service::tracking_filter;
use show_me::trees::service::tracking_ids;
use show_me::trees::service::JourneyFilter;
use show_me::trees::service::JourneyTransaction;
use show_me::trees::service::NodeOutcomeEdge;
use show_me::trees::service::NODE_OUTCOME_FILTER;

fn map_of<V>(entries: Vec<(&str, V)>) -> StringMap<V> {
    let mut map = StringMap::new();
    for (key, value) in entries {
        map.insert(key.to_string(), value);
    }
    map
}

fn node(name: &str, kind: NodeType, connections: Vec<(&str, &str)>) -> Node {
    Node {
        connections: map_of(connections.into_iter().map(|(k, v)| (k, v.to_string())).collect()),
        display_name: name.to_string(),
        node_type: kind,
        x: None,
        y: None,
    }
}

fn tree(id: &str) -> Tree {
    let mut login = node(
        "Login",
        NodeType::ScriptedDecisionNode,
        vec![("true", "n2"), ("error-x", "fail"), ("errors", "fail")],
    );
    login.x = Some(Coordinate { bits: 0x42f7_0000 });
    login.y = Some(Coordinate { bits: 0x41a0_0000 });
    let protect =
        node("Protect", NodeType::ProductPingOneProtectEvaluationNode, vec![("Error", "n1")]);
    Tree {
        id: id.to_string(),
        rev: "1".to_string(),
        identity_resource: None,
        entry_node_id: "n1".to_string(),
        inner_tree_only: false,
        no_session: false,
        must_run: false,
        enabled: true,
        transaction_only: None,
        ui_config: StringMap::new(),
        nodes: map_of(vec![("n1", login), ("n2", protect)]),
        static_nodes: map_of(vec![
            ("startNode", StaticNode { x: Coordinate { bits: 1 }, y: Coordinate { bits: 2 } }),
            ("fail", StaticNode { x: Coordinate { bits: 3 }, y: Coordinate { bits: 4 } }),
        ]),
    }
}

fn list(ids: &[&str]) -> AuthenticationTreeList {
    AuthenticationTreeList {
        result: ids.iter().map(|id| tree(id)).collect(),
        result_count: ids.len() as i32,
        paged_results_cookie: None,
        total_paged_results_policy: "NONE".to_string(),
        total_paged_results: -1,
        remaining_paged_results: -1,
    }
}

fn edge(id: &str, kind: EdgeType, source: &str, target: &str, handle: &str) -> ReactFlowEdge {
    ReactFlowEdge {
        id: id.to_string(),
        edge_type: kind,
        source: source.to_string(),
        target: target.to_string(),
        source_handle: handle.to_string(),
    }
}

fn handle(id: &str, y: u64) -> ReactFlowNodeHandle {
    ReactFlowNodeHandle {
        width: None,
        height: None,
        id: Some(id.to_string()),
        x: 0,
        y,
        position: HandlePosition::Right,
        handle_type: HandleType::Source,
    }
}

fn names(items: &[&str]) -> Vec<String> {
    items.iter().map(|s| s.to_string()).collect()
}

fn log(tracking: &[&str], entries: Option<Vec<(&str, &str)>>) -> ResultingLog {
    ResultingLog {
        payload: PingPayload {
            context: None,
            level: Level::Info,
            entries: entries.map(|all| {
                all.into_iter()
                    .map(|(name, outcome)| NodeOutcome {
                        info: NodeOutcomeInfo {
                            node_extra_logging: None,
                            node_id: "id".to_string(),
                            node_outcome: outcome.to_string(),
                            display_name: name.to_string(),
                        },
                    })
                    .collect()
            }),
            logger: None,
            message: None,
            transaction_id: "tx".to_string(),
            tracking_ids: names(tracking),
        },
        timestamp: Timestamp { seconds: 10, nanos: 20 },
        data_type: "t".to_string(),
        source: "s".to_string(),
    }
}

#[test]
fn node_types_are_written_by_their_names() {
    assert_eq!(NodeType::AccountLockoutNode.name(), "AccountLockoutNode");
    assert_eq!(NodeType::SocialProviderHandlerNodeV2.as_str(), "SocialProviderHandlerNodeV2");
    assert_eq!(
        NodeType::ProductPingOneProtectResultNode.name(),
        "ProductPingOneProtectResultNode"
    );
    assert_eq!(NodeType::ZeroPageLoginNode.wire_name(), "ZeroPageLoginNode");
    assert_eq!(
        NodeType::ProductPingOneProtectEvaluationNode.wire_name(),
        "product-PingOneProtectEvaluationNode"
    );
    assert_eq!(
        NodeType::ProductPingOneProtectInitializeNode.wire_name(),
        "product-PingOneProtectInitializeNode"
    );
    assert_eq!(
        NodeType::ProductPingOneProtectResultNode.json(),
        "\"product-PingOneProtectResultNode\""
    );
    assert_eq!(NodeType::PageNode.json(), "\"PageNode\"");
}

#[test]
fn the_platform_spelling_is_what_serde_json_writes() {
    for kind in [NodeType::DebugNode, NodeType::ProductPingOneProtectInitializeNode] {
        let text = serde_json::to_string(&serde_json::Value::String(kind.wire_name().to_string()))
            .unwrap();
        assert_eq!(kind.json(), text);
    }
}

#[test]
fn trees_are_listed_and_found_by_id() {
    let all = list(&["Login", "Registration", "Login"]);
    assert_eq!(all.get_tree_list(), names(&["Login", "Registration", "Login"]));
    assert_eq!(all.get_tree("Registration"), Some(&tree("Registration")));
    assert!(std::ptr::eq(all.get_tree("Login").unwrap(), &all.result[0]));
    assert_eq!(all.get_tree("login"), None);
    assert_eq!(list(&[]).get_tree_list(), Vec::<String>::new());
    assert_eq!(list(&[]).get_tree(""), None);
}

#[test]
fn edges_follow_the_nodes_and_end_with_the_start_edge() {
    let edges = tree("Login").generate_edges();
    assert_eq!(
        edges,
        vec![
            edge("n1/true", EdgeType::Normal, "n1", "n2", "true"),
            edge("n1/error-x", EdgeType::Error, "n1", "fail", "error-x"),
            edge("n1/errors", EdgeType::Error, "n1", "fail", "errors"),
            edge("n2/Error", EdgeType::Normal, "n2", "n1", "Error"),
            edge("startNode", EdgeType::Normal, "startNode", "n1", "ok"),
        ]
    );
}

#[test]
fn a_tree_without_nodes_has_only_the_start_edge() {
    let mut empty = tree("Empty");
    empty.nodes = StringMap::new();
    empty.static_nodes = StringMap::new();
    assert_eq!(
        empty.generate_edges(),
        vec![edge("startNode", EdgeType::Normal, "startNode", "n1", "ok")]
    );
    assert!(empty.generate_nodes().is_empty());
    assert!(empty.get_id_vec().is_empty());
}

#[test]
fn diagram_nodes_are_the_static_nodes_and_then_the_trees_own() {
    let journey = tree("Login");
    assert_eq!(journey.get_id_vec(), names(&["n1", "n2"]));
    let nodes = journey.generate_nodes();
    assert_eq!(nodes.len(), 4);

    assert_eq!(nodes[0].id, "startNode");
    assert_eq!(
        nodes[0].position,
        Position { x: Coordinate { bits: 1 }, y: Coordinate { bits: 2 } }
    );
    assert_eq!(nodes[0].data, map_of(vec![("name", "startNode".to_string())]));
    assert_eq!(nodes[0].handles, Some(vec![handle("ok", 0)]));
    assert_eq!(nodes[0].source_position, HandlePosition::Right);
    assert_eq!(nodes[0].target_position, HandlePosition::Left);
    assert_eq!(nodes[1].id, "fail");
    assert_eq!(
        nodes[1].position,
        Position { x: Coordinate { bits: 3 }, y: Coordinate { bits: 4 } }
    );

    assert_eq!(nodes[2].id, "n1");
    assert_eq!(
        nodes[2].position,
        Position { x: Coordinate { bits: 0x42f7_0000 }, y: Coordinate { bits: 0x41a0_0000 } }
    );
    assert_eq!(
        nodes[2].data,
        map_of(vec![
            ("name", "Login".to_string()),
            ("type", "\"ScriptedDecisionNode\"".to_string()),
        ])
    );
    assert_eq!(
        nodes[2].handles,
        Some(vec![handle("true", 10), handle("error-x", 20), handle("errors", 30)])
    );
    assert_eq!(nodes[2].source_position, HandlePosition::Right);
    assert_eq!(nodes[2].target_position, HandlePosition::Left);

    assert_eq!(nodes[3].id, "n2");
    // A node without a place stands at the origin.
    assert_eq!(
        nodes[3].position,
        Position { x: Coordinate { bits: 0 }, y: Coordinate { bits: 0 } }
    );
    assert_eq!(0.0f32.to_bits(), 0);
    assert_eq!(
        nodes[3].data,
        map_of(vec![
            ("name", "Protect".to_string()),
            ("type", "\"product-PingOneProtectEvaluationNode\"".to_string()),
        ])
    );
    assert_eq!(nodes[3].handles, Some(vec![handle("Error", 10)]));
}

#[test]
fn handle_defaults_are_right_and_source() {
    assert_eq!(HandlePosition::default(), HandlePosition::Right);
    assert_eq!(HandleType::default(), HandleType::Source);
}

#[test]
fn a_flow_is_the_diagram_of_the_first_tree_with_the_name() {
    let all = list(&["Login", "Registration"]);
    let flow = journey_flow(&all, "Registration").unwrap();
    assert_eq!(flow.nodes, tree("Registration").generate_nodes());
    assert_eq!(flow.edges, tree("Registration").generate_edges());
    match journey_flow(&all, "Missing") {
        Err(ShowMeErrors::NoLogsFound(what)) => assert_eq!(what, "Missing"),
        other => panic!("unexpected flow {:?}", other),
    }
}

#[test]
fn journeys_are_filtered_by_beginning_ending_and_content() {
    let all = names(&["Login", "LoginMfa", "Registration", "ResetLogin", ""]);
    let none = JourneyFilter { starts_with: None, ends_with: None, contains: None };
    assert_eq!(filter_journeys(names(&["a", "b"]), &none), names(&["a", "b"]));

    let starts = JourneyFilter { starts_with: Some("Login".to_string()), ..clone(&none) };
    assert_eq!(filter_journeys(clone_all(&all), &starts), names(&["Login", "LoginMfa"]));
    let ends = JourneyFilter { ends_with: Some("Login".to_string()), ..clone(&none) };
    assert_eq!(filter_journeys(clone_all(&all), &ends), names(&["Login", "ResetLogin"]));
    let holds = JourneyFilter { contains: Some("gi".to_string()), ..clone(&none) };
    assert_eq!(
        filter_journeys(clone_all(&all), &holds),
        names(&["Login", "LoginMfa", "Registration", "ResetLogin"])
    );
    let both = JourneyFilter {
        starts_with: Some("Re".to_string()),
        ends_with: Some("n".to_string()),
        contains: Some("set".to_string()),
    };
    assert_eq!(filter_journeys(clone_all(&all), &both), names(&["ResetLogin"]));
    let empty = JourneyFilter {
        starts_with: Some("".to_string()),
        ends_with: Some("".to_string()),
        contains: Some("".to_string()),
    };
    assert_eq!(filter_journeys(clone_all(&all), &empty), all);
    assert!(name_passes("Login", &starts));
    assert!(!name_passes("Log", &starts));
}

fn clone(filter: &JourneyFilter) -> JourneyFilter {
    JourneyFilter {
        starts_with: filter.starts_with.clone(),
        ends_with: filter.ends_with.clone(),
        contains: filter.contains.clone(),
    }
}

fn clone_all(items: &Vec<String>) -> Vec<String> {
    items.clone()
}

#[test]
fn get_journey_filters_the_ids_of_the_list() {
    let all = list(&["Login", "Registration", "ResetLogin"]);
    let filter =
        JourneyFilter { starts_with: Some("Re".to_string()), ends_with: None, contains: None };
    assert_eq!(get_journey(&all, &filter), names(&["Registration", "ResetLogin"]));
}

#[test]
fn transactions_are_read_off_the_log_entries() {
    assert_eq!(
        journey_transactions_filter("Login"),
        "/payload/entries/info/treeName eq \"Login\" and /payload/entries/info/nodeOutcome pr and /payload/eventName eq \"AM-NODE-LOGIN-COMPLETED\""
    );
    let mut second = log(&[], None);
    second.payload.transaction_id = "other".to_string();
    second.timestamp = Timestamp { seconds: -5, nanos: 999_999_999 };
    let page = Logs { result: vec![log(&[], None), second], ..Logs::default() };
    assert_eq!(
        journey_transactions(&page),
        vec![
            JourneyTransaction {
                transaction_id: "tx".to_string(),
                timestamp: Timestamp { seconds: 10, nanos: 20 }
            },
            JourneyTransaction {
                transaction_id: "other".to_string(),
                timestamp: Timestamp { seconds: -5, nanos: 999_999_999 }
            },
        ]
    );
    assert!(journey_transactions(&Logs::default()).is_empty());
}

#[test]
fn tracking_ids_are_collected_once_each_and_sorted() {
    assert_eq!(NODE_OUTCOME_FILTER, "/payload/entries/info/nodeOutcome pr");
    assert_eq!(
        tracking_filter("t-1"),
        "/payload/trackingIds eq \"t-1\" and /payload/entries/info/nodeOutcome pr"
    );
    let logs = vec![log(&["b", "a"], None), log(&[], None), log(&["c", "b", "a", "b"], None)];
    assert_eq!(tracking_ids(&logs), names(&["a", "b", "c"]));
    assert_eq!(tracking_ids(&vec![]), Vec::<String>::new());
    assert_eq!(tracking_ids(&vec![log(&[], None)]), Vec::<String>::new());
}

#[test]
fn node_outcomes_are_the_first_outcome_of_each_entry() {
    let groups = vec![
        vec![log(&[], Some(vec![("Login", "true"), ("Ignored", "x")]))],
        vec![],
        vec![log(&[], Some(vec![("Mfa", "false")])), log(&[], Some(vec![("Done", "ok")]))],
    ];
    assert_eq!(
        get_node_outcomes(&groups),
        Some(vec![
            NodeOutcomeEdge { name: "Login".to_string(), outcome: "true".to_string() },
            NodeOutcomeEdge { name: "Mfa".to_string(), outcome: "false".to_string() },
            NodeOutcomeEdge { name: "Done".to_string(), outcome: "ok".to_string() },
        ])
    );
    assert_eq!(get_node_outcomes(&vec![]), Some(vec![]));
    let missing = vec![vec![log(&[], Some(vec![("Login", "true")])), log(&[], None)]];
    assert_eq!(get_node_outcomes(&missing), None);
    let empty = vec![vec![log(&[], Some(vec![]))]];
    assert_eq!(get_node_outcomes(&empty), None);
}

#[test]
fn node_configurations_are_found_by_kind_and_id() {
    assert_eq!(
        node_config_url("https://idp.example", &NodeType::ScriptedDecisionNode, "abc"),
        "https://idp.example/am/json/realms/root/realms/alpha/realm-config/authentication/authenticationtrees/nodes/ScriptedDecisionNode/abc"
    );
    assert_eq!(
        node_config_url("d", &NodeType::ProductPingOneProtectResultNode, ""),
        "d/am/json/realms/root/realms/alpha/realm-config/authentication/authenticationtrees/nodes/ProductPingOneProtectResultNode/"
    );
}

fn script_config() -> ScriptConfig {
    ScriptConfig {
        id: "n1".to_string(),
        rev: "1".to_string(),
        script: "s1".to_string(),
        outcomes: names(&["true"]),
        outputs: vec![],
        inputs: vec![],
        node_type: NodeConfigType {
            id: "ScriptedDecisionNode".to_string(),
            name: "Scripted Decision".to_string(),
            collection: true,
            version: "1.0".to_string(),
        },
        outcome_map: vec![map_of(vec![("id", "true".to_string())])],
    }
}

fn script() -> Script {
    Script {
        id: "s1".to_string(),
        name: "check".to_string(),
        description: "d".to_string(),
        script: "b64".to_string(),
    }
}

#[test]
fn node_info_is_what_was_fetched_or_nothing() {
    let info = node_info(script_config(), script());
    assert_eq!(info, (NodeConfig::ScriptConfig(script_config()), NodeData::Scirpt(script())));
    assert_eq!(
        node_info_or_none(Ok(node_info(script_config(), script()))),
        (NodeConfig::ScriptConfig(script_config()), NodeData::Scirpt(script()))
    );
    assert_eq!(
        node_info_or_none(Err(ShowMeErrors::NoLogsFound("".to_string()))),
        (NodeConfig::Absent, NodeData::Absent)
    );
}

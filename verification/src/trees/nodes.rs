//! What the platform holds of a single node of a journey.

use vstd::prelude::*;
use vstd::string::StringExecFns;
use crate::errors::ShowMeErrors;
use crate::string_map::StringMap;
use crate::text::join3;
use crate::trees::journeys::name_of;
use crate::trees::journeys::NodeType;

verus! {

/// The kind of a node as its configuration names it.
#[derive(Debug, PartialEq, Eq)]
pub struct NodeConfigType {
    pub id: String,
    pub name: String,
    pub collection: bool,
    pub version: String,
}

/// The configuration of a scripted decision node. `script` is the id of the
/// script it runs.
#[derive(Debug, PartialEq, Eq)]
pub struct ScriptConfig {
    pub id: String,
    pub rev: String,
    pub script: String,
    pub outcomes: Vec<String>,
    pub outputs: Vec<String>,
    pub inputs: Vec<String>,
    pub node_type: NodeConfigType,
    pub outcome_map: Vec<StringMap<String>>,
}

/// The configuration of a node, where it has one that is known.
#[derive(Debug, PartialEq, Eq)]
pub enum NodeConfig {
    ScriptConfig(ScriptConfig),
    /// Nothing is known of the node's configuration.
    Absent,
}

/// A script as the platform holds it.
#[derive(Debug, PartialEq, Eq)]
pub struct Script {
    pub id: String,
    pub name: String,
    pub description: String,
    pub script: String,
}

/// What a node runs, where that is known.
#[derive(Debug, PartialEq, Eq)]
pub enum NodeData {
    Scirpt(Script),
    /// Nothing is known of what the node runs.
    Absent,
}

/// The path below which the platform holds the nodes of its journeys.
pub const NODES_PATH: &'static str =
    "/am/json/realms/root/realms/alpha/realm-config/authentication/authenticationtrees/nodes/";

/// Where the platform at `dom` holds the configuration of the node `node_id`
/// of the kind `node_type`.
pub open spec fn node_config_location(dom: Seq<char>, node_type: NodeType, node_id: Seq<char>) -> Seq<
    char,
> {
    dom + NODES_PATH@ + name_of(node_type) + "/"@ + node_id
}

/// Where the platform at `dom` holds the configuration of the node `node_id`
/// of the kind `node_type`.
pub fn node_config_url(dom: &str, node_type: &NodeType, node_id: &str) -> (url: String)
    ensures
        url@ == node_config_location(dom@, *node_type, node_id@),
{
    let mut url = join3(dom, NODES_PATH, node_type.as_str());
    url.append("/");
    url.append(node_id);
    url
}

/// What is shown of a scripted decision node: its configuration and the
/// script it runs.
pub fn node_info(config: ScriptConfig, script: Script) -> (info: (NodeConfig, NodeData))
    ensures
        info.0 == NodeConfig::ScriptConfig(config),
        info.1 == NodeData::Scirpt(script),
{
    (NodeConfig::ScriptConfig(config), NodeData::Scirpt(script))
}

/// What is shown of a node: what was fetched of it, or, where nothing could
/// be fetched, that nothing is known.
pub fn node_info_or_none(fetched: Result<(NodeConfig, NodeData), ShowMeErrors>) -> (info: (
    NodeConfig,
    NodeData,
))
    ensures
        fetched matches Ok(found) ==> info == found,
        fetched is Err ==> info.0 is Absent && info.1 is Absent,
{
    match fetched {
        Ok(found) => found,
        Err(_) => (NodeConfig::Absent, NodeData::Absent),
    }
}

} // verus!

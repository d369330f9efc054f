//! Journeys: the authentication trees of the platform and the flow diagram
//! that shows one.

use vstd::prelude::*;
use vstd::string::StringExecFns;
use crate::string_map::StringMap;
use crate::text::is_prefix;
use crate::text::join3;
use crate::text::starts_with;
use crate::text::same_text;

verus! {

/// The kinds of node a journey can hold.
#[derive(Clone, Copy, PartialEq, Eq, Structural, Debug)]
pub enum NodeType {
    AccountLockoutNode,
    AgentDataStoreDecisionNode,
    AttributeCollectorNode,
    AttributePresentDecisionNode,
    ConfigProviderNode,
    CookiePresenceDecisionNode,
    CreateObjectNode,
    DataStoreDecisionNode,
    DebugNode,
    DeviceMatchNode,
    DeviceProfileCollectorNode,
    DeviceSaveNode,
    DisplayUserNameNode,
    EmailSuspendNode,
    IdentifyExistingUserNode,
    IdentityStoreDecisionNode,
    IncrementLoginCountNode,
    InnerTreeEvaluatorNode,
    LoginCountDecisionNode,
    MessageNode,
    OneTimePasswordGeneratorNode,
    PageNode,
    PatchObjectNode,
    PollingWaitNode,
    QueryFilterDecisionNode,
    RetryLimitDecisionNode,
    ScriptedDecisionNode,
    SelectIdPNode,
    SessionDataNode,
    SetCustomCookieNode,
    SetFailureUrlNode,
    SetStateNode,
    SetSuccessDetailsNode,
    SetSuccessUrlNode,
    SocialProviderHandlerNodeV2,
    UsernameCollectorNode,
    ZeroPageLoginNode,
    ProductPingOneProtectEvaluationNode,
    ProductPingOneProtectInitializeNode,
    ProductPingOneProtectResultNode,
}

/// The name of a kind of node as it is written out.
pub open spec fn name_of(t: NodeType) -> Seq<char> {
    match t {
        NodeType::AccountLockoutNode => "AccountLockoutNode"@,
        NodeType::AgentDataStoreDecisionNode => "AgentDataStoreDecisionNode"@,
        NodeType::AttributeCollectorNode => "AttributeCollectorNode"@,
        NodeType::AttributePresentDecisionNode => "AttributePresentDecisionNode"@,
        NodeType::ConfigProviderNode => "ConfigProviderNode"@,
        NodeType::CookiePresenceDecisionNode => "CookiePresenceDecisionNode"@,
        NodeType::CreateObjectNode => "CreateObjectNode"@,
        NodeType::DataStoreDecisionNode => "DataStoreDecisionNode"@,
        NodeType::DebugNode => "DebugNode"@,
        NodeType::DeviceMatchNode => "DeviceMatchNode"@,
        NodeType::DeviceProfileCollectorNode => "DeviceProfileCollectorNode"@,
        NodeType::DeviceSaveNode => "DeviceSaveNode"@,
        NodeType::DisplayUserNameNode => "DisplayUserNameNode"@,
        NodeType::EmailSuspendNode => "EmailSuspendNode"@,
        NodeType::IdentifyExistingUserNode => "IdentifyExistingUserNode"@,
        NodeType::IdentityStoreDecisionNode => "IdentityStoreDecisionNode"@,
        NodeType::IncrementLoginCountNode => "IncrementLoginCountNode"@,
        NodeType::InnerTreeEvaluatorNode => "InnerTreeEvaluatorNode"@,
        NodeType::LoginCountDecisionNode => "LoginCountDecisionNode"@,
        NodeType::MessageNode => "MessageNode"@,
        NodeType::OneTimePasswordGeneratorNode => "OneTimePasswordGeneratorNode"@,
        NodeType::PageNode => "PageNode"@,
        NodeType::PatchObjectNode => "PatchObjectNode"@,
        NodeType::PollingWaitNode => "PollingWaitNode"@,
        NodeType::QueryFilterDecisionNode => "QueryFilterDecisionNode"@,
        NodeType::RetryLimitDecisionNode => "RetryLimitDecisionNode"@,
        NodeType::ScriptedDecisionNode => "ScriptedDecisionNode"@,
        NodeType::SelectIdPNode => "SelectIdPNode"@,
        NodeType::SessionDataNode => "SessionDataNode"@,
        NodeType::SetCustomCookieNode => "SetCustomCookieNode"@,
        NodeType::SetFailureUrlNode => "SetFailureUrlNode"@,
        NodeType::SetStateNode => "SetStateNode"@,
        NodeType::SetSuccessDetailsNode => "SetSuccessDetailsNode"@,
        NodeType::SetSuccessUrlNode => "SetSuccessUrlNode"@,
        NodeType::SocialProviderHandlerNodeV2 => "SocialProviderHandlerNodeV2"@,
        NodeType::UsernameCollectorNode => "UsernameCollectorNode"@,
        NodeType::ZeroPageLoginNode => "ZeroPageLoginNode"@,
        NodeType::ProductPingOneProtectEvaluationNode => "ProductPingOneProtectEvaluationNode"@,
        NodeType::ProductPingOneProtectInitializeNode => "ProductPingOneProtectInitializeNode"@,
        NodeType::ProductPingOneProtectResultNode => "ProductPingOneProtectResultNode"@,
    }
}

/// The name of a kind of node as the platform spells it.
pub open spec fn wire_name_of(t: NodeType) -> Seq<char> {
    match t {
        NodeType::AccountLockoutNode => "AccountLockoutNode"@,
        NodeType::AgentDataStoreDecisionNode => "AgentDataStoreDecisionNode"@,
        NodeType::AttributeCollectorNode => "AttributeCollectorNode"@,
        NodeType::AttributePresentDecisionNode => "AttributePresentDecisionNode"@,
        NodeType::ConfigProviderNode => "ConfigProviderNode"@,
        NodeType::CookiePresenceDecisionNode => "CookiePresenceDecisionNode"@,
        NodeType::CreateObjectNode => "CreateObjectNode"@,
        NodeType::DataStoreDecisionNode => "DataStoreDecisionNode"@,
        NodeType::DebugNode => "DebugNode"@,
        NodeType::DeviceMatchNode => "DeviceMatchNode"@,
        NodeType::DeviceProfileCollectorNode => "DeviceProfileCollectorNode"@,
        NodeType::DeviceSaveNode => "DeviceSaveNode"@,
        NodeType::DisplayUserNameNode => "DisplayUserNameNode"@,
        NodeType::EmailSuspendNode => "EmailSuspendNode"@,
        NodeType::IdentifyExistingUserNode => "IdentifyExistingUserNode"@,
        NodeType::IdentityStoreDecisionNode => "IdentityStoreDecisionNode"@,
        NodeType::IncrementLoginCountNode => "IncrementLoginCountNode"@,
        NodeType::InnerTreeEvaluatorNode => "InnerTreeEvaluatorNode"@,
        NodeType::LoginCountDecisionNode => "LoginCountDecisionNode"@,
        NodeType::MessageNode => "MessageNode"@,
        NodeType::OneTimePasswordGeneratorNode => "OneTimePasswordGeneratorNode"@,
        NodeType::PageNode => "PageNode"@,
        NodeType::PatchObjectNode => "PatchObjectNode"@,
        NodeType::PollingWaitNode => "PollingWaitNode"@,
        NodeType::QueryFilterDecisionNode => "QueryFilterDecisionNode"@,
        NodeType::RetryLimitDecisionNode => "RetryLimitDecisionNode"@,
        NodeType::ScriptedDecisionNode => "ScriptedDecisionNode"@,
        NodeType::SelectIdPNode => "SelectIdPNode"@,
        NodeType::SessionDataNode => "SessionDataNode"@,
        NodeType::SetCustomCookieNode => "SetCustomCookieNode"@,
        NodeType::SetFailureUrlNode => "SetFailureUrlNode"@,
        NodeType::SetStateNode => "SetStateNode"@,
        NodeType::SetSuccessDetailsNode => "SetSuccessDetailsNode"@,
        NodeType::SetSuccessUrlNode => "SetSuccessUrlNode"@,
        NodeType::SocialProviderHandlerNodeV2 => "SocialProviderHandlerNodeV2"@,
        NodeType::UsernameCollectorNode => "UsernameCollectorNode"@,
        NodeType::ZeroPageLoginNode => "ZeroPageLoginNode"@,
        NodeType::ProductPingOneProtectEvaluationNode => "product-PingOneProtectEvaluationNode"@,
        NodeType::ProductPingOneProtectInitializeNode => "product-PingOneProtectInitializeNode"@,
        NodeType::ProductPingOneProtectResultNode => "product-PingOneProtectResultNode"@,
    }
}

impl NodeType {
    /// The name of this kind as a constant.
    pub fn as_str(&self) -> (name: &'static str)
        ensures
            name@ == name_of(*self),
    {
        match self {
            NodeType::AccountLockoutNode => "AccountLockoutNode",
            NodeType::AgentDataStoreDecisionNode => "AgentDataStoreDecisionNode",
            NodeType::AttributeCollectorNode => "AttributeCollectorNode",
            NodeType::AttributePresentDecisionNode => "AttributePresentDecisionNode",
            NodeType::ConfigProviderNode => "ConfigProviderNode",
            NodeType::CookiePresenceDecisionNode => "CookiePresenceDecisionNode",
            NodeType::CreateObjectNode => "CreateObjectNode",
            NodeType::DataStoreDecisionNode => "DataStoreDecisionNode",
            NodeType::DebugNode => "DebugNode",
            NodeType::DeviceMatchNode => "DeviceMatchNode",
            NodeType::DeviceProfileCollectorNode => "DeviceProfileCollectorNode",
            NodeType::DeviceSaveNode => "DeviceSaveNode",
            NodeType::DisplayUserNameNode => "DisplayUserNameNode",
            NodeType::EmailSuspendNode => "EmailSuspendNode",
            NodeType::IdentifyExistingUserNode => "IdentifyExistingUserNode",
            NodeType::IdentityStoreDecisionNode => "IdentityStoreDecisionNode",
            NodeType::IncrementLoginCountNode => "IncrementLoginCountNode",
            NodeType::InnerTreeEvaluatorNode => "InnerTreeEvaluatorNode",
            NodeType::LoginCountDecisionNode => "LoginCountDecisionNode",
            NodeType::MessageNode => "MessageNode",
            NodeType::OneTimePasswordGeneratorNode => "OneTimePasswordGeneratorNode",
            NodeType::PageNode => "PageNode",
            NodeType::PatchObjectNode => "PatchObjectNode",
            NodeType::PollingWaitNode => "PollingWaitNode",
            NodeType::QueryFilterDecisionNode => "QueryFilterDecisionNode",
            NodeType::RetryLimitDecisionNode => "RetryLimitDecisionNode",
            NodeType::ScriptedDecisionNode => "ScriptedDecisionNode",
            NodeType::SelectIdPNode => "SelectIdPNode",
            NodeType::SessionDataNode => "SessionDataNode",
            NodeType::SetCustomCookieNode => "SetCustomCookieNode",
            NodeType::SetFailureUrlNode => "SetFailureUrlNode",
            NodeType::SetStateNode => "SetStateNode",
            NodeType::SetSuccessDetailsNode => "SetSuccessDetailsNode",
            NodeType::SetSuccessUrlNode => "SetSuccessUrlNode",
            NodeType::SocialProviderHandlerNodeV2 => "SocialProviderHandlerNodeV2",
            NodeType::UsernameCollectorNode => "UsernameCollectorNode",
            NodeType::ZeroPageLoginNode => "ZeroPageLoginNode",
            NodeType::ProductPingOneProtectEvaluationNode => "ProductPingOneProtectEvaluationNode",
            NodeType::ProductPingOneProtectInitializeNode => "ProductPingOneProtectInitializeNode",
            NodeType::ProductPingOneProtectResultNode => "ProductPingOneProtectResultNode",
        }
    }

    /// The name of this kind as it is written out.
    pub fn name(&self) -> (name: String)
        ensures
            name@ == name_of(*self),
    {
        String::from_str(self.as_str())
    }

    /// The name of this kind as the platform spells it.
    pub fn wire_name(&self) -> (name: &'static str)
        ensures
            name@ == wire_name_of(*self),
    {
        match self {
            NodeType::AccountLockoutNode => "AccountLockoutNode",
            NodeType::AgentDataStoreDecisionNode => "AgentDataStoreDecisionNode",
            NodeType::AttributeCollectorNode => "AttributeCollectorNode",
            NodeType::AttributePresentDecisionNode => "AttributePresentDecisionNode",
            NodeType::ConfigProviderNode => "ConfigProviderNode",
            NodeType::CookiePresenceDecisionNode => "CookiePresenceDecisionNode",
            NodeType::CreateObjectNode => "CreateObjectNode",
            NodeType::DataStoreDecisionNode => "DataStoreDecisionNode",
            NodeType::DebugNode => "DebugNode",
            NodeType::DeviceMatchNode => "DeviceMatchNode",
            NodeType::DeviceProfileCollectorNode => "DeviceProfileCollectorNode",
            NodeType::DeviceSaveNode => "DeviceSaveNode",
            NodeType::DisplayUserNameNode => "DisplayUserNameNode",
            NodeType::EmailSuspendNode => "EmailSuspendNode",
            NodeType::IdentifyExistingUserNode => "IdentifyExistingUserNode",
            NodeType::IdentityStoreDecisionNode => "IdentityStoreDecisionNode",
            NodeType::IncrementLoginCountNode => "IncrementLoginCountNode",
            NodeType::InnerTreeEvaluatorNode => "InnerTreeEvaluatorNode",
            NodeType::LoginCountDecisionNode => "LoginCountDecisionNode",
            NodeType::MessageNode => "MessageNode",
            NodeType::OneTimePasswordGeneratorNode => "OneTimePasswordGeneratorNode",
            NodeType::PageNode => "PageNode",
            NodeType::PatchObjectNode => "PatchObjectNode",
            NodeType::PollingWaitNode => "PollingWaitNode",
            NodeType::QueryFilterDecisionNode => "QueryFilterDecisionNode",
            NodeType::RetryLimitDecisionNode => "RetryLimitDecisionNode",
            NodeType::ScriptedDecisionNode => "ScriptedDecisionNode",
            NodeType::SelectIdPNode => "SelectIdPNode",
            NodeType::SessionDataNode => "SessionDataNode",
            NodeType::SetCustomCookieNode => "SetCustomCookieNode",
            NodeType::SetFailureUrlNode => "SetFailureUrlNode",
            NodeType::SetStateNode => "SetStateNode",
            NodeType::SetSuccessDetailsNode => "SetSuccessDetailsNode",
            NodeType::SetSuccessUrlNode => "SetSuccessUrlNode",
            NodeType::SocialProviderHandlerNodeV2 => "SocialProviderHandlerNodeV2",
            NodeType::UsernameCollectorNode => "UsernameCollectorNode",
            NodeType::ZeroPageLoginNode => "ZeroPageLoginNode",
            NodeType::ProductPingOneProtectEvaluationNode => "product-PingOneProtectEvaluationNode",
            NodeType::ProductPingOneProtectInitializeNode => "product-PingOneProtectInitializeNode",
            NodeType::ProductPingOneProtectResultNode => "product-PingOneProtectResultNode",
        }
    }

    /// The JSON text of this kind: its name as the platform spells it, in
    /// double quotes.
    pub fn json(&self) -> (text: String)
        ensures
            text@ == "\""@ + wire_name_of(*self) + "\""@,
    {
        join3("\"", self.wire_name(), "\"")
    }

    /// The kind that the platform spells `name`, if there is one.
    pub fn parse(name: &str) -> (kind: Option<NodeType>)
        ensures
            kind matches Some(t) ==> wire_name_of(t) == name@,
            kind is None ==> forall|t: NodeType| wire_name_of(t) != name@,
    {
        if same_text(name, "AccountLockoutNode") {
            Some(NodeType::AccountLockoutNode)
        } else if same_text(name, "AgentDataStoreDecisionNode") {
            Some(NodeType::AgentDataStoreDecisionNode)
        } else if same_text(name, "AttributeCollectorNode") {
            Some(NodeType::AttributeCollectorNode)
        } else if same_text(name, "AttributePresentDecisionNode") {
            Some(NodeType::AttributePresentDecisionNode)
        } else if same_text(name, "ConfigProviderNode") {
            Some(NodeType::ConfigProviderNode)
        } else if same_text(name, "CookiePresenceDecisionNode") {
            Some(NodeType::CookiePresenceDecisionNode)
        } else if same_text(name, "CreateObjectNode") {
            Some(NodeType::CreateObjectNode)
        } else if same_text(name, "DataStoreDecisionNode") {
            Some(NodeType::DataStoreDecisionNode)
        } else if same_text(name, "DebugNode") {
            Some(NodeType::DebugNode)
        } else if same_text(name, "DeviceMatchNode") {
            Some(NodeType::DeviceMatchNode)
        } else if same_text(name, "DeviceProfileCollectorNode") {
            Some(NodeType::DeviceProfileCollectorNode)
        } else if same_text(name, "DeviceSaveNode") {
            Some(NodeType::DeviceSaveNode)
        } else if same_text(name, "DisplayUserNameNode") {
            Some(NodeType::DisplayUserNameNode)
        } else if same_text(name, "EmailSuspendNode") {
            Some(NodeType::EmailSuspendNode)
        } else if same_text(name, "IdentifyExistingUserNode") {
            Some(NodeType::IdentifyExistingUserNode)
        } else if same_text(name, "IdentityStoreDecisionNode") {
            Some(NodeType::IdentityStoreDecisionNode)
        } else if same_text(name, "IncrementLoginCountNode") {
            Some(NodeType::IncrementLoginCountNode)
        } else if same_text(name, "InnerTreeEvaluatorNode") {
            Some(NodeType::InnerTreeEvaluatorNode)
        } else if same_text(name, "LoginCountDecisionNode") {
            Some(NodeType::LoginCountDecisionNode)
        } else if same_text(name, "MessageNode") {
            Some(NodeType::MessageNode)
        } else if same_text(name, "OneTimePasswordGeneratorNode") {
            Some(NodeType::OneTimePasswordGeneratorNode)
        } else if same_text(name, "PageNode") {
            Some(NodeType::PageNode)
        } else if same_text(name, "PatchObjectNode") {
            Some(NodeType::PatchObjectNode)
        } else if same_text(name, "PollingWaitNode") {
            Some(NodeType::PollingWaitNode)
        } else if same_text(name, "QueryFilterDecisionNode") {
            Some(NodeType::QueryFilterDecisionNode)
        } else if same_text(name, "RetryLimitDecisionNode") {
            Some(NodeType::RetryLimitDecisionNode)
        } else if same_text(name, "ScriptedDecisionNode") {
            Some(NodeType::ScriptedDecisionNode)
        } else if same_text(name, "SelectIdPNode") {
            Some(NodeType::SelectIdPNode)
        } else if same_text(name, "SessionDataNode") {
            Some(NodeType::SessionDataNode)
        } else if same_text(name, "SetCustomCookieNode") {
            Some(NodeType::SetCustomCookieNode)
        } else if same_text(name, "SetFailureUrlNode") {
            Some(NodeType::SetFailureUrlNode)
        } else if same_text(name, "SetStateNode") {
            Some(NodeType::SetStateNode)
        } else if same_text(name, "SetSuccessDetailsNode") {
            Some(NodeType::SetSuccessDetailsNode)
        } else if same_text(name, "SetSuccessUrlNode") {
            Some(NodeType::SetSuccessUrlNode)
        } else if same_text(name, "SocialProviderHandlerNodeV2") {
            Some(NodeType::SocialProviderHandlerNodeV2)
        } else if same_text(name, "UsernameCollectorNode") {
            Some(NodeType::UsernameCollectorNode)
        } else if same_text(name, "ZeroPageLoginNode") {
            Some(NodeType::ZeroPageLoginNode)
        } else if same_text(name, "product-PingOneProtectEvaluationNode") {
            Some(NodeType::ProductPingOneProtectEvaluationNode)
        } else if same_text(name, "product-PingOneProtectInitializeNode") {
            Some(NodeType::ProductPingOneProtectInitializeNode)
        } else if same_text(name, "product-PingOneProtectResultNode") {
            Some(NodeType::ProductPingOneProtectResultNode)
        } else {
            None
        }
    }
}

// ---------------------------------------------------------------------------
// Trees
// ---------------------------------------------------------------------------

/// A coordinate of the diagram, as the bits of a single-precision number.
#[derive(Clone, Copy, PartialEq, Eq, Structural, Debug)]
pub struct Coordinate {
    pub bits: u32,
}

/// A node of a journey: where each of its outcomes leads, under the
/// outcome's name, and where the node stands in the diagram.
#[derive(Debug, PartialEq, Eq)]
pub struct Node {
    pub connections: StringMap<String>,
    pub display_name: String,
    pub node_type: NodeType,
    pub x: Option<Coordinate>,
    pub y: Option<Coordinate>,
}

/// A node that every journey has, such as its start.
#[derive(Debug, PartialEq, Eq)]
pub struct StaticNode {
    pub x: Coordinate,
    pub y: Coordinate,
}

/// A journey.
#[derive(Debug, PartialEq, Eq)]
pub struct Tree {
    pub id: String,
    pub rev: String,
    pub identity_resource: Option<String>,
    pub entry_node_id: String,
    pub inner_tree_only: bool,
    pub no_session: bool,
    pub must_run: bool,
    pub enabled: bool,
    pub transaction_only: Option<bool>,
    pub ui_config: StringMap<String>,
    pub nodes: StringMap<Node>,
    pub static_nodes: StringMap<StaticNode>,
}

/// The journeys of a realm.
#[derive(Debug, PartialEq, Eq)]
pub struct AuthenticationTreeList {
    pub result: Vec<Tree>,
    pub result_count: i32,
    pub paged_results_cookie: Option<String>,
    pub total_paged_results_policy: String,
    pub total_paged_results: i16,
    pub remaining_paged_results: i16,
}

impl AuthenticationTreeList {
    /// The ids of the journeys, in their order.
    pub fn get_tree_list(&self) -> (ids: Vec<String>)
        ensures
            ids@.len() == self.result@.len(),
            forall|i: int| 0 <= i < ids@.len() ==> ids@[i] == self.result@[i].id,
    {
        let mut ids: Vec<String> = Vec::new();
        let mut i: usize = 0;
        while i < self.result.len()
            invariant
                i <= self.result.len(),
                ids@.len() == i,
                forall|j: int| 0 <= j < i ==> ids@[j] == self.result@[j].id,
            decreases self.result.len() - i,
        {
            ids.push(self.result[i].id.clone());
            i += 1;
        }
        ids
    }

    /// The first journey with the id `name`.
    pub fn get_tree(&self, name: &str) -> (tree: Option<&Tree>)
        ensures
            match tree {
                Some(t) => exists|i: int|
                    0 <= i < self.result@.len() && *t == #[trigger] self.result@[i] && t.id@
                        == name@ && forall|j: int|
                        0 <= j < i ==> (#[trigger] self.result@[j]).id@ != name@,
                None => forall|j: int|
                    0 <= j < self.result@.len() ==> (#[trigger] self.result@[j]).id@ != name@,
            },
    {
        let wanted = name.to_owned();
        let mut i: usize = 0;
        while i < self.result.len()
            invariant
                i <= self.result.len(),
                wanted@ == name@,
                forall|j: int| 0 <= j < i ==> (#[trigger] self.result@[j]).id@ != name@,
            decreases self.result.len() - i,
        {
            if self.result[i].id == wanted {
                return Some(&self.result[i]);
            }
            i += 1;
        }
        None
    }
}

// ---------------------------------------------------------------------------
// The diagram
// ---------------------------------------------------------------------------

/// How an edge is drawn.
#[derive(Clone, Copy, PartialEq, Eq, Structural, Debug)]
pub enum EdgeType {
    Normal,
    Error,
}

impl EdgeType {
    /// How the diagram names this kind of edge: both kinds are drawn with
    /// the default edge.
    pub fn wire_name(&self) -> (name: &'static str)
        ensures
            name@ == "default"@,
    {
        "default"
    }
}

/// An edge of the diagram: from the handle `source_handle` of the node
/// `source` to the node `target`.
#[derive(Debug, PartialEq, Eq)]
pub struct ReactFlowEdge {
    pub id: String,
    pub edge_type: EdgeType,
    pub source: String,
    pub target: String,
    pub source_handle: String,
}

/// An edge as a value.
pub struct EdgeView {
    pub id: Seq<char>,
    pub edge_type: EdgeType,
    pub source: Seq<char>,
    pub target: Seq<char>,
    pub source_handle: Seq<char>,
}

impl View for ReactFlowEdge {
    type V = EdgeView;

    open spec fn view(&self) -> EdgeView {
        EdgeView {
            id: self.id@,
            edge_type: self.edge_type,
            source: self.source@,
            target: self.target@,
            source_handle: self.source_handle@,
        }
    }
}

/// A place in the diagram.
#[derive(Clone, Copy, PartialEq, Eq, Structural, Debug)]
pub struct Position {
    pub x: Coordinate,
    pub y: Coordinate,
}

/// The side of a node on which a handle sits.
#[derive(Clone, Copy, PartialEq, Eq, Structural, Debug)]
pub enum HandlePosition {
    Left,
    Right,
    Top,
    Bottom,
}

/// Whether edges leave from a handle or arrive at it.
#[derive(Clone, Copy, PartialEq, Eq, Structural, Debug)]
pub enum HandleType {
    Source,
    Target,
}

/// The name of a side as the diagram spells it.
pub open spec fn side_name(side: HandlePosition) -> Seq<char> {
    match side {
        HandlePosition::Left => "left"@,
        HandlePosition::Right => "right"@,
        HandlePosition::Top => "top"@,
        HandlePosition::Bottom => "bottom"@,
    }
}

/// The name of a kind of handle as the diagram spells it.
pub open spec fn handle_kind_name(kind: HandleType) -> Seq<char> {
    match kind {
        HandleType::Source => "source"@,
        HandleType::Target => "target"@,
    }
}

impl HandlePosition {
    /// The name of this side as the diagram spells it.
    pub fn wire_name(&self) -> (name: &'static str)
        ensures
            name@ == side_name(*self),
    {
        match self {
            HandlePosition::Left => "left",
            HandlePosition::Right => "right",
            HandlePosition::Top => "top",
            HandlePosition::Bottom => "bottom",
        }
    }
}

impl HandleType {
    /// The name of this kind of handle as the diagram spells it.
    pub fn wire_name(&self) -> (name: &'static str)
        ensures
            name@ == handle_kind_name(*self),
    {
        match self {
            HandleType::Source => "source",
            HandleType::Target => "target",
        }
    }
}

impl Default for HandlePosition {
    fn default() -> (side: HandlePosition)
        ensures
            side == HandlePosition::Right,
    {
        HandlePosition::Right
    }
}

impl Default for HandleType {
    fn default() -> (kind: HandleType)
        ensures
            kind == HandleType::Source,
    {
        HandleType::Source
    }
}

/// A handle of a node. Its offsets within the node are whole numbers.
#[derive(Debug, PartialEq, Eq)]
pub struct ReactFlowNodeHandle {
    pub width: Option<Coordinate>,
    pub height: Option<Coordinate>,
    pub id: Option<String>,
    pub x: u64,
    pub y: u64,
    pub position: HandlePosition,
    pub handle_type: HandleType,
}

/// A handle as a value.
pub struct HandleView {
    pub width: Option<Coordinate>,
    pub height: Option<Coordinate>,
    pub id: Option<Seq<char>>,
    pub x: int,
    pub y: int,
    pub position: HandlePosition,
    pub handle_type: HandleType,
}

impl View for ReactFlowNodeHandle {
    type V = HandleView;

    open spec fn view(&self) -> HandleView {
        HandleView {
            width: self.width,
            height: self.height,
            id: match self.id {
                Some(id) => Some(id@),
                None => None,
            },
            x: self.x as int,
            y: self.y as int,
            position: self.position,
            handle_type: self.handle_type,
        }
    }
}

/// A node of the diagram.
#[derive(Debug, PartialEq, Eq)]
pub struct ReactFlowNode {
    pub id: String,
    pub position: Position,
    pub data: StringMap<String>,
    pub handles: Option<Vec<ReactFlowNodeHandle>>,
    pub source_position: HandlePosition,
    pub target_position: HandlePosition,
}

/// A node of the diagram as a value. `data` holds the entries of the node's
/// data in their order.
pub struct FlowNodeView {
    pub id: Seq<char>,
    pub position: Position,
    pub data: Seq<(Seq<char>, Seq<char>)>,
    pub handles: Option<Seq<HandleView>>,
    pub source_position: HandlePosition,
    pub target_position: HandlePosition,
}

/// The views of a sequence of handles.
pub open spec fn handles_view(handles: Seq<ReactFlowNodeHandle>) -> Seq<HandleView> {
    Seq::new(handles.len(), |i: int| handles[i]@)
}

impl View for ReactFlowNode {
    type V = FlowNodeView;

    open spec fn view(&self) -> FlowNodeView {
        FlowNodeView {
            id: self.id@,
            position: self.position,
            data: crate::text::pairs_view(self.data.entries()),
            handles: match self.handles {
                Some(handles) => Some(handles_view(handles@)),
                None => None,
            },
            source_position: self.source_position,
            target_position: self.target_position,
        }
    }
}

/// The views of a sequence of edges.
pub open spec fn edges_view(edges: Seq<ReactFlowEdge>) -> Seq<EdgeView> {
    Seq::new(edges.len(), |i: int| edges[i]@)
}

/// The views of a sequence of diagram nodes.
pub open spec fn flow_nodes_view(nodes: Seq<ReactFlowNode>) -> Seq<FlowNodeView> {
    Seq::new(nodes.len(), |i: int| nodes[i]@)
}

/// The edge that leaves the node `source` by the outcome `outcome` for the
/// node `target`. Outcomes whose name begins with `error` are drawn as
/// errors.
pub open spec fn connection_edge(source: Seq<char>, outcome: Seq<char>, target: Seq<char>) -> EdgeView {
    EdgeView {
        id: source + "/"@ + outcome,
        edge_type: if is_prefix("error"@, outcome) {
            EdgeType::Error
        } else {
            EdgeType::Normal
        },
        source: source,
        target: target,
        source_handle: outcome,
    }
}

/// The edges that leave one node, in the order of its outcomes.
pub open spec fn node_edges(source: Seq<char>, connections: Seq<(String, String)>) -> Seq<EdgeView> {
    Seq::new(
        connections.len(),
        |j: int| connection_edge(source, connections[j].0@, connections[j].1@),
    )
}

/// The edges that leave the given nodes, node after node.
pub open spec fn nodes_edges(nodes: Seq<(String, Node)>) -> Seq<EdgeView>
    decreases nodes.len(),
{
    if nodes.len() == 0 {
        Seq::<EdgeView>::empty()
    } else {
        nodes_edges(nodes.drop_last()) + node_edges(
            nodes.last().0@,
            nodes.last().1.connections.entries(),
        )
    }
}

/// The edge from the start of the diagram to the node a journey begins with.
pub open spec fn start_edge(entry_node_id: Seq<char>) -> EdgeView {
    EdgeView {
        id: "startNode"@,
        edge_type: EdgeType::Normal,
        source: "startNode"@,
        target: entry_node_id,
        source_handle: "ok"@,
    }
}

/// The offset of the handle at position `idx` of a node: ten for each handle
/// above it and ten more, as far as 64 bits can say.
pub open spec fn handle_offset(idx: int) -> int {
    if idx * 10 + 10 <= u64::MAX {
        idx * 10 + 10
    } else {
        u64::MAX as int
    }
}

/// The handle of the outcome `outcome`, at position `idx` of its node.
pub open spec fn outcome_handle(outcome: Seq<char>, idx: int) -> HandleView {
    HandleView {
        width: None,
        height: None,
        id: Some(outcome),
        x: 0,
        y: handle_offset(idx),
        position: HandlePosition::Right,
        handle_type: HandleType::Source,
    }
}

/// The one handle of a static node.
pub open spec fn static_handle() -> HandleView {
    HandleView {
        width: None,
        height: None,
        id: Some("ok"@),
        x: 0,
        y: 0,
        position: HandlePosition::Right,
        handle_type: HandleType::Source,
    }
}

/// The coordinate a node without one is drawn at: zero.
pub open spec fn origin() -> Coordinate {
    Coordinate { bits: 0 }
}

/// The diagram node of a static node.
pub open spec fn static_flow_node(id: Seq<char>, node: StaticNode) -> FlowNodeView {
    FlowNodeView {
        id: id,
        position: Position { x: node.x, y: node.y },
        data: seq![("name"@, id)],
        handles: Some(seq![static_handle()]),
        source_position: HandlePosition::Right,
        target_position: HandlePosition::Left,
    }
}

/// The diagram node of a node of the journey: one handle for each outcome,
/// in their order.
pub open spec fn journey_flow_node(id: Seq<char>, node: Node) -> FlowNodeView {
    FlowNodeView {
        id: id,
        position: Position {
            x: match node.x {
                Some(x) => x,
                None => origin(),
            },
            y: match node.y {
                Some(y) => y,
                None => origin(),
            },
        },
        data: seq![
            ("name"@, node.display_name@),
            ("type"@, "\""@ + wire_name_of(node.node_type) + "\""@),
        ],
        handles: Some(
            Seq::new(
                node.connections.entries().len(),
                |j: int| outcome_handle(node.connections.entries()[j].0@, j),
            ),
        ),
        source_position: HandlePosition::Right,
        target_position: HandlePosition::Left,
    }
}

/// The diagram nodes of a journey: its static nodes, then its own.
pub open spec fn tree_flow_nodes(
    static_nodes: Seq<(String, StaticNode)>,
    nodes: Seq<(String, Node)>,
) -> Seq<FlowNodeView> {
    Seq::new(static_nodes.len(), |i: int| static_flow_node(static_nodes[i].0@, static_nodes[i].1))
        + Seq::new(nodes.len(), |i: int| journey_flow_node(nodes[i].0@, nodes[i].1))
}

fn offset_of(idx: usize) -> (y: u64)
    ensures
        y == handle_offset(idx as int),
{
    let wide: u128 = idx as u128 * 10 + 10;
    if wide <= u64::MAX as u128 {
        wide as u64
    } else {
        u64::MAX
    }
}

fn edges_of(source: &String, connections: &StringMap<String>, edges: &mut Vec<ReactFlowEdge>)
    ensures
        edges_view(final(edges)@) == edges_view(old(edges)@) + node_edges(
            source@,
            connections.entries(),
        ),
{
    let ghost before = edges_view(edges@);
    let mut j: usize = 0;
    while j < connections.len()
        invariant
            j <= connections.entries().len(),
            edges_view(edges@) == before + node_edges(source@, connections.entries()).take(
                j as int,
            ),
        decreases connections.entries().len() - j,
    {
        let outcome = connections.key_at(j);
        let target = connections.value_at(j);
        let edge_type = if starts_with(outcome.as_str(), "error") {
            EdgeType::Error
        } else {
            EdgeType::Normal
        };
        let edge = ReactFlowEdge {
            id: join3(source.as_str(), "/", outcome.as_str()),
            edge_type,
            source: source.clone(),
            target: target.clone(),
            source_handle: outcome.clone(),
        };
        let ghost earlier = edges_view(edges@);
        edges.push(edge);
        proof {
            let all = node_edges(source@, connections.entries());
            assert(edge@ == all[j as int]);
            assert(edges_view(edges@) =~= earlier.push(edge@));
            assert(all.take(j + 1) =~= all.take(j as int).push(all[j as int]));
            assert(before + all.take(j + 1) =~= (before + all.take(j as int)).push(all[j as int]));
        }
        j += 1;
    }
    proof {
        let all = node_edges(source@, connections.entries());
        assert(all.take(all.len() as int) =~= all);
    }
}

fn handles_of(connections: &StringMap<String>) -> (handles: Vec<ReactFlowNodeHandle>)
    ensures
        handles_view(handles@) == Seq::new(
            connections.entries().len(),
            |j: int| outcome_handle(connections.entries()[j].0@, j),
        ),
{
    let mut handles: Vec<ReactFlowNodeHandle> = Vec::new();
    let mut j: usize = 0;
    while j < connections.len()
        invariant
            j <= connections.entries().len(),
            handles@.len() == j,
            forall|k: int|
                0 <= k < j ==> (#[trigger] handles@[k])@ == outcome_handle(
                    connections.entries()[k].0@,
                    k,
                ),
        decreases connections.entries().len() - j,
    {
        handles.push(
            ReactFlowNodeHandle {
                width: None,
                height: None,
                id: Some(connections.key_at(j).clone()),
                x: 0,
                y: offset_of(j),
                position: HandlePosition::default(),
                handle_type: HandleType::Source,
            },
        );
        j += 1;
    }
    assert(handles_view(handles@) =~= Seq::new(
        connections.entries().len(),
        |j: int| outcome_handle(connections.entries()[j].0@, j),
    ));
    handles
}

fn static_node_of(id: &String, node: &StaticNode) -> (flow: ReactFlowNode)
    ensures
        flow@ == static_flow_node(id@, *node),
{
    let mut data: StringMap<String> = StringMap::new();
    data.insert(String::from_str("name"), id.clone());
    let mut handles: Vec<ReactFlowNodeHandle> = Vec::new();
    handles.push(
        ReactFlowNodeHandle {
            width: None,
            height: None,
            id: Some(String::from_str("ok")),
            x: 0,
            y: 0,
            position: HandlePosition::default(),
            handle_type: HandleType::default(),
        },
    );
    let flow = ReactFlowNode {
        id: id.clone(),
        position: Position { x: node.x, y: node.y },
        data,
        handles: Some(handles),
        source_position: HandlePosition::Right,
        target_position: HandlePosition::Left,
    };
    proof {
        assert(crate::text::pairs_view(flow.data.entries()) =~= seq![("name"@, id@)]);
        assert(handles_view(flow.handles->0@) =~= seq![static_handle()]);
    }
    flow
}

fn journey_node_of(id: &String, node: &Node) -> (flow: ReactFlowNode)
    ensures
        flow@ == journey_flow_node(id@, *node),
{
    let mut data: StringMap<String> = StringMap::new();
    data.insert(String::from_str("name"), node.display_name.clone());
    data.insert(String::from_str("type"), node.node_type.json());
    proof {
        reveal_strlit("name");
        reveal_strlit("type");
        assert("name"@ != "type"@) by {
            assert("name"@[0] == 'n');
            assert("type"@[0] == 't');
        }
    }
    let x = match node.x {
        Some(x) => x,
        None => Coordinate { bits: 0 },
    };
    let y = match node.y {
        Some(y) => y,
        None => Coordinate { bits: 0 },
    };
    let flow = ReactFlowNode {
        id: id.clone(),
        position: Position { x, y },
        data,
        handles: Some(handles_of(&node.connections)),
        source_position: HandlePosition::Right,
        target_position: HandlePosition::Left,
    };
    proof {
        assert(crate::text::pairs_view(flow.data.entries()) =~= seq![
            ("name"@, node.display_name@),
            ("type"@, "\""@ + wire_name_of(node.node_type) + "\""@),
        ]);
    }
    flow
}

impl Tree {
    /// The ids of the journey's nodes, in their order.
    pub fn get_id_vec(&self) -> (ids: Vec<String>)
        ensures
            ids@.len() == self.nodes.entries().len(),
            forall|i: int| 0 <= i < ids@.len() ==> ids@[i] == self.nodes.entries()[i].0,
    {
        let mut ids: Vec<String> = Vec::new();
        let mut i: usize = 0;
        while i < self.nodes.len()
            invariant
                i <= self.nodes.entries().len(),
                ids@.len() == i,
                forall|j: int| 0 <= j < i ==> ids@[j] == self.nodes.entries()[j].0,
            decreases self.nodes.entries().len() - i,
        {
            ids.push(self.nodes.key_at(i).clone());
            i += 1;
        }
        ids
    }

    /// The edges of the diagram: for each node, in order, one edge for each
    /// of its outcomes, in order; last, the edge from the start to the node
    /// the journey begins with.
    pub fn generate_edges(&self) -> (edges: Vec<ReactFlowEdge>)
        ensures
            edges_view(edges@) == nodes_edges(self.nodes.entries()).push(
                start_edge(self.entry_node_id@),
            ),
    {
        let start = ReactFlowEdge {
            id: String::from_str("startNode"),
            edge_type: EdgeType::Normal,
            source: String::from_str("startNode"),
            target: self.entry_node_id.clone(),
            source_handle: String::from_str("ok"),
        };
        let mut rest: Vec<ReactFlowEdge> = Vec::new();
        let mut i: usize = 0;
        assert(edges_view(rest@) =~= nodes_edges(self.nodes.entries().take(0)));
        while i < self.nodes.len()
            invariant
                i <= self.nodes.entries().len(),
                edges_view(rest@) == nodes_edges(self.nodes.entries().take(i as int)),
            decreases self.nodes.entries().len() - i,
        {
            edges_of(self.nodes.key_at(i), &self.nodes.value_at(i).connections, &mut rest);
            proof {
                let all = self.nodes.entries();
                assert(all.take(i + 1).drop_last() =~= all.take(i as int));
                assert(all.take(i + 1).last() == all[i as int]);
            }
            i += 1;
        }
        proof {
            let all = self.nodes.entries();
            assert(all.take(all.len() as int) =~= all);
        }
        let ghost earlier = edges_view(rest@);
        rest.push(start);
        assert(edges_view(rest@) =~= earlier.push(start@));
        rest
    }

    /// The nodes of the diagram: the static nodes, then the journey's own,
    /// each group in its order. A static node has its place, its id as its
    /// name and one handle; a node of the journey has its place, or the
    /// origin where it has none, its name and kind, and one handle for each
    /// outcome.
    pub fn generate_nodes(&self) -> (flow: Vec<ReactFlowNode>)
        ensures
            flow_nodes_view(flow@) == tree_flow_nodes(
                self.static_nodes.entries(),
                self.nodes.entries(),
            ),
    {
        let mut flow: Vec<ReactFlowNode> = Vec::new();
        let ghost statics = Seq::new(
            self.static_nodes.entries().len(),
            |i: int|
                static_flow_node(self.static_nodes.entries()[i].0@, self.static_nodes.entries()[i].1),
        );
        let ghost own = Seq::new(
            self.nodes.entries().len(),
            |i: int| journey_flow_node(self.nodes.entries()[i].0@, self.nodes.entries()[i].1),
        );
        let mut i: usize = 0;
        while i < self.static_nodes.len()
            invariant
                i <= self.static_nodes.entries().len(),
                flow@.len() == i,
                forall|k: int|
                    0 <= k < i ==> (#[trigger] flow@[k])@ == static_flow_node(
                        self.static_nodes.entries()[k].0@,
                        self.static_nodes.entries()[k].1,
                    ),
            decreases self.static_nodes.entries().len() - i,
        {
            flow.push(static_node_of(self.static_nodes.key_at(i), self.static_nodes.value_at(i)));
            i += 1;
        }
        let n = i;
        let mut j: usize = 0;
        while j < self.nodes.len()
            invariant
                j <= self.nodes.entries().len(),
                n == self.static_nodes.entries().len(),
                flow@.len() == n + j,
                forall|k: int|
                    0 <= k < n ==> (#[trigger] flow@[k])@ == static_flow_node(
                        self.static_nodes.entries()[k].0@,
                        self.static_nodes.entries()[k].1,
                    ),
                forall|k: int|
                    0 <= k < j ==> (#[trigger] flow@[n + k])@ == journey_flow_node(
                        self.nodes.entries()[k].0@,
                        self.nodes.entries()[k].1,
                    ),
            decreases self.nodes.entries().len() - j,
        {
            flow.push(journey_node_of(self.nodes.key_at(j), self.nodes.value_at(j)));
            assert forall|k: int| 0 <= k < j + 1 implies (#[trigger] flow@[n + k])@
                == journey_flow_node(self.nodes.entries()[k].0@, self.nodes.entries()[k].1) by {
            }
            j += 1;
        }
        proof {
            let got = flow_nodes_view(flow@);
            let want = statics + own;
            assert(got.len() == want.len());
            assert forall|k: int| 0 <= k < got.len() implies got[k] == want[k] by {
                if k < n {
                    assert(got[k] == flow@[k]@);
                } else {
                    assert(got[k] == flow@[n + (k - n)]@);
                }
            }
            assert(got =~= want);
        }
        flow
    }
}

} // verus!

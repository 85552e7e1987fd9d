//! IVR topology: node types, the node/edge graph with its lookups, the
//! per-call execution context and the result of executing one node.
use vstd::prelude::*;
use crate::ivr::json::{json_clone, json_to_string, jview, jview_members, lemma_jview_members, members_get, value_text, JsonValue, JsonView};
use crate::text::{
    chars_of, contains_seq, find_seq, lemma_find_seq_range, occurs_at, push_str, replace_all,
    replace_chars, str_eq,
};

verus! {

/// Node kinds of the topology canvas.
#[derive(Debug)]
pub enum IvrNodeType {
    Start,
    Prompt,
    Tts,
    CollectDtmf,
    Menu,
    Condition,
    Route,
    TransferQueue,
    TransferExt,
    TransferPstn,
    Voicemail,
    Record,
    HttpWebhook,
    SetVar,
    Asr,
    AiAgent,
    Loop,
    Hangup,
}

/// The node kind named by a snake_case type string.
pub open spec fn node_type_of(s: Seq<char>) -> Option<IvrNodeType> {
    if s == "start"@ {
        Some(IvrNodeType::Start)
    } else if s == "prompt"@ {
        Some(IvrNodeType::Prompt)
    } else if s == "tts"@ {
        Some(IvrNodeType::Tts)
    } else if s == "collect_dtmf"@ {
        Some(IvrNodeType::CollectDtmf)
    } else if s == "menu"@ {
        Some(IvrNodeType::Menu)
    } else if s == "condition"@ {
        Some(IvrNodeType::Condition)
    } else if s == "route"@ {
        Some(IvrNodeType::Route)
    } else if s == "transfer_queue"@ {
        Some(IvrNodeType::TransferQueue)
    } else if s == "transfer_ext"@ {
        Some(IvrNodeType::TransferExt)
    } else if s == "transfer_pstn"@ {
        Some(IvrNodeType::TransferPstn)
    } else if s == "voicemail"@ {
        Some(IvrNodeType::Voicemail)
    } else if s == "record"@ {
        Some(IvrNodeType::Record)
    } else if s == "http_webhook"@ {
        Some(IvrNodeType::HttpWebhook)
    } else if s == "set_var"@ {
        Some(IvrNodeType::SetVar)
    } else if s == "asr"@ {
        Some(IvrNodeType::Asr)
    } else if s == "ai_agent"@ {
        Some(IvrNodeType::AiAgent)
    } else if s == "loop"@ {
        Some(IvrNodeType::Loop)
    } else if s == "hangup"@ {
        Some(IvrNodeType::Hangup)
    } else {
        None
    }
}

/// The snake_case name of a node kind, as the topology's JSON writes it.
pub open spec fn node_type_name(t: IvrNodeType) -> Seq<char> {
    match t {
        IvrNodeType::Start => "start"@,
        IvrNodeType::Prompt => "prompt"@,
        IvrNodeType::Tts => "tts"@,
        IvrNodeType::CollectDtmf => "collect_dtmf"@,
        IvrNodeType::Menu => "menu"@,
        IvrNodeType::Condition => "condition"@,
        IvrNodeType::Route => "route"@,
        IvrNodeType::TransferQueue => "transfer_queue"@,
        IvrNodeType::TransferExt => "transfer_ext"@,
        IvrNodeType::TransferPstn => "transfer_pstn"@,
        IvrNodeType::Voicemail => "voicemail"@,
        IvrNodeType::Record => "record"@,
        IvrNodeType::HttpWebhook => "http_webhook"@,
        IvrNodeType::SetVar => "set_var"@,
        IvrNodeType::Asr => "asr"@,
        IvrNodeType::AiAgent => "ai_agent"@,
        IvrNodeType::Loop => "loop"@,
        IvrNodeType::Hangup => "hangup"@,
    }
}

/// The type names round-trip: each node kind is parsed back from its
/// name, and a string parses to a kind only if it is that kind's name.
pub proof fn lemma_node_type_names_round_trip(t: IvrNodeType, s: Seq<char>)
    ensures
        node_type_of(node_type_name(t)) == Some(t),
        node_type_of(s) == Some(t) ==> s == node_type_name(t),
{
    reveal_strlit("start");
    reveal_strlit("prompt");
    reveal_strlit("tts");
    reveal_strlit("collect_dtmf");
    reveal_strlit("menu");
    reveal_strlit("condition");
    reveal_strlit("route");
    reveal_strlit("transfer_queue");
    reveal_strlit("transfer_ext");
    reveal_strlit("transfer_pstn");
    reveal_strlit("voicemail");
    reveal_strlit("record");
    reveal_strlit("http_webhook");
    reveal_strlit("set_var");
    reveal_strlit("asr");
    reveal_strlit("ai_agent");
    reveal_strlit("loop");
    reveal_strlit("hangup");
    match t {
        IvrNodeType::Start => {
        },
        IvrNodeType::Prompt => {
            assert("prompt"@.len() != "start"@.len());
        },
        IvrNodeType::Tts => {
            assert("tts"@.len() != "start"@.len());
            assert("tts"@.len() != "prompt"@.len());
        },
        IvrNodeType::CollectDtmf => {
            assert("collect_dtmf"@.len() != "start"@.len());
            assert("collect_dtmf"@.len() != "prompt"@.len());
            assert("collect_dtmf"@.len() != "tts"@.len());
        },
        IvrNodeType::Menu => {
            assert("menu"@.len() != "start"@.len());
            assert("menu"@.len() != "prompt"@.len());
            assert("menu"@.len() != "tts"@.len());
            assert("menu"@.len() != "collect_dtmf"@.len());
        },
        IvrNodeType::Condition => {
            assert("condition"@.len() != "start"@.len());
            assert("condition"@.len() != "prompt"@.len());
            assert("condition"@.len() != "tts"@.len());
            assert("condition"@.len() != "collect_dtmf"@.len());
            assert("condition"@.len() != "menu"@.len());
        },
        IvrNodeType::Route => {
            assert("route"@[0] != "start"@[0]);
            assert("route"@.len() != "prompt"@.len());
            assert("route"@.len() != "tts"@.len());
            assert("route"@.len() != "collect_dtmf"@.len());
            assert("route"@.len() != "menu"@.len());
            assert("route"@.len() != "condition"@.len());
        },
        IvrNodeType::TransferQueue => {
            assert("transfer_queue"@.len() != "start"@.len());
            assert("transfer_queue"@.len() != "prompt"@.len());
            assert("transfer_queue"@.len() != "tts"@.len());
            assert("transfer_queue"@.len() != "collect_dtmf"@.len());
            assert("transfer_queue"@.len() != "menu"@.len());
            assert("transfer_queue"@.len() != "condition"@.len());
            assert("transfer_queue"@.len() != "route"@.len());
        },
        IvrNodeType::TransferExt => {
            assert("transfer_ext"@.len() != "start"@.len());
            assert("transfer_ext"@.len() != "prompt"@.len());
            assert("transfer_ext"@.len() != "tts"@.len());
            assert("transfer_ext"@[0] != "collect_dtmf"@[0]);
            assert("transfer_ext"@.len() != "menu"@.len());
            assert("transfer_ext"@.len() != "condition"@.len());
            assert("transfer_ext"@.len() != "route"@.len());
            assert("transfer_ext"@.len() != "transfer_queue"@.len());
        },
        IvrNodeType::TransferPstn => {
            assert("transfer_pstn"@.len() != "start"@.len());
            assert("transfer_pstn"@.len() != "prompt"@.len());
            assert("transfer_pstn"@.len() != "tts"@.len());
            assert("transfer_pstn"@.len() != "collect_dtmf"@.len());
            assert("transfer_pstn"@.len() != "menu"@.len());
            assert("transfer_pstn"@.len() != "condition"@.len());
            assert("transfer_pstn"@.len() != "route"@.len());
            assert("transfer_pstn"@.len() != "transfer_queue"@.len());
            assert("transfer_pstn"@.len() != "transfer_ext"@.len());
        },
        IvrNodeType::Voicemail => {
            assert("voicemail"@.len() != "start"@.len());
            assert("voicemail"@.len() != "prompt"@.len());
            assert("voicemail"@.len() != "tts"@.len());
            assert("voicemail"@.len() != "collect_dtmf"@.len());
            assert("voicemail"@.len() != "menu"@.len());
            assert("voicemail"@[0] != "condition"@[0]);
            assert("voicemail"@.len() != "route"@.len());
            assert("voicemail"@.len() != "transfer_queue"@.len());
            assert("voicemail"@.len() != "transfer_ext"@.len());
            assert("voicemail"@.len() != "transfer_pstn"@.len());
        },
        IvrNodeType::Record => {
            assert("record"@.len() != "start"@.len());
            assert("record"@[0] != "prompt"@[0]);
            assert("record"@.len() != "tts"@.len());
            assert("record"@.len() != "collect_dtmf"@.len());
            assert("record"@.len() != "menu"@.len());
            assert("record"@.len() != "condition"@.len());
            assert("record"@.len() != "route"@.len());
            assert("record"@.len() != "transfer_queue"@.len());
            assert("record"@.len() != "transfer_ext"@.len());
            assert("record"@.len() != "transfer_pstn"@.len());
            assert("record"@.len() != "voicemail"@.len());
        },
        IvrNodeType::HttpWebhook => {
            assert("http_webhook"@.len() != "start"@.len());
            assert("http_webhook"@.len() != "prompt"@.len());
            assert("http_webhook"@.len() != "tts"@.len());
            assert("http_webhook"@[0] != "collect_dtmf"@[0]);
            assert("http_webhook"@.len() != "menu"@.len());
            assert("http_webhook"@.len() != "condition"@.len());
            assert("http_webhook"@.len() != "route"@.len());
            assert("http_webhook"@.len() != "transfer_queue"@.len());
            assert("http_webhook"@[0] != "transfer_ext"@[0]);
            assert("http_webhook"@.len() != "transfer_pstn"@.len());
            assert("http_webhook"@.len() != "voicemail"@.len());
            assert("http_webhook"@.len() != "record"@.len());
        },
        IvrNodeType::SetVar => {
            assert("set_var"@.len() != "start"@.len());
            assert("set_var"@.len() != "prompt"@.len());
            assert("set_var"@.len() != "tts"@.len());
            assert("set_var"@.len() != "collect_dtmf"@.len());
            assert("set_var"@.len() != "menu"@.len());
            assert("set_var"@.len() != "condition"@.len());
            assert("set_var"@.len() != "route"@.len());
            assert("set_var"@.len() != "transfer_queue"@.len());
            assert("set_var"@.len() != "transfer_ext"@.len());
            assert("set_var"@.len() != "transfer_pstn"@.len());
            assert("set_var"@.len() != "voicemail"@.len());
            assert("set_var"@.len() != "record"@.len());
            assert("set_var"@.len() != "http_webhook"@.len());
        },
        IvrNodeType::Asr => {
            assert("asr"@.len() != "start"@.len());
            assert("asr"@.len() != "prompt"@.len());
            assert("asr"@[0] != "tts"@[0]);
            assert("asr"@.len() != "collect_dtmf"@.len());
            assert("asr"@.len() != "menu"@.len());
            assert("asr"@.len() != "condition"@.len());
            assert("asr"@.len() != "route"@.len());
            assert("asr"@.len() != "transfer_queue"@.len());
            assert("asr"@.len() != "transfer_ext"@.len());
            assert("asr"@.len() != "transfer_pstn"@.len());
            assert("asr"@.len() != "voicemail"@.len());
            assert("asr"@.len() != "record"@.len());
            assert("asr"@.len() != "http_webhook"@.len());
            assert("asr"@.len() != "set_var"@.len());
        },
        IvrNodeType::AiAgent => {
            assert("ai_agent"@.len() != "start"@.len());
            assert("ai_agent"@.len() != "prompt"@.len());
            assert("ai_agent"@.len() != "tts"@.len());
            assert("ai_agent"@.len() != "collect_dtmf"@.len());
            assert("ai_agent"@.len() != "menu"@.len());
            assert("ai_agent"@.len() != "condition"@.len());
            assert("ai_agent"@.len() != "route"@.len());
            assert("ai_agent"@.len() != "transfer_queue"@.len());
            assert("ai_agent"@.len() != "transfer_ext"@.len());
            assert("ai_agent"@.len() != "transfer_pstn"@.len());
            assert("ai_agent"@.len() != "voicemail"@.len());
            assert("ai_agent"@.len() != "record"@.len());
            assert("ai_agent"@.len() != "http_webhook"@.len());
            assert("ai_agent"@.len() != "set_var"@.len());
            assert("ai_agent"@.len() != "asr"@.len());
        },
        IvrNodeType::Loop => {
            assert("loop"@.len() != "start"@.len());
            assert("loop"@.len() != "prompt"@.len());
            assert("loop"@.len() != "tts"@.len());
            assert("loop"@.len() != "collect_dtmf"@.len());
            assert("loop"@[0] != "menu"@[0]);
            assert("loop"@.len() != "condition"@.len());
            assert("loop"@.len() != "route"@.len());
            assert("loop"@.len() != "transfer_queue"@.len());
            assert("loop"@.len() != "transfer_ext"@.len());
            assert("loop"@.len() != "transfer_pstn"@.len());
            assert("loop"@.len() != "voicemail"@.len());
            assert("loop"@.len() != "record"@.len());
            assert("loop"@.len() != "http_webhook"@.len());
            assert("loop"@.len() != "set_var"@.len());
            assert("loop"@.len() != "asr"@.len());
            assert("loop"@.len() != "ai_agent"@.len());
        },
        IvrNodeType::Hangup => {
            assert("hangup"@.len() != "start"@.len());
            assert("hangup"@[0] != "prompt"@[0]);
            assert("hangup"@.len() != "tts"@.len());
            assert("hangup"@.len() != "collect_dtmf"@.len());
            assert("hangup"@.len() != "menu"@.len());
            assert("hangup"@.len() != "condition"@.len());
            assert("hangup"@.len() != "route"@.len());
            assert("hangup"@.len() != "transfer_queue"@.len());
            assert("hangup"@.len() != "transfer_ext"@.len());
            assert("hangup"@.len() != "transfer_pstn"@.len());
            assert("hangup"@.len() != "voicemail"@.len());
            assert("hangup"@[0] != "record"@[0]);
            assert("hangup"@.len() != "http_webhook"@.len());
            assert("hangup"@.len() != "set_var"@.len());
            assert("hangup"@.len() != "asr"@.len());
            assert("hangup"@.len() != "ai_agent"@.len());
            assert("hangup"@.len() != "loop"@.len());
        },
    }
}

impl IvrNodeType {
    /// The snake_case name of the kind.
    pub fn name(&self) -> (r: &'static str)
        ensures
            r@ == node_type_name(*self),
    {
        match self {
            IvrNodeType::Start => "start",
            IvrNodeType::Prompt => "prompt",
            IvrNodeType::Tts => "tts",
            IvrNodeType::CollectDtmf => "collect_dtmf",
            IvrNodeType::Menu => "menu",
            IvrNodeType::Condition => "condition",
            IvrNodeType::Route => "route",
            IvrNodeType::TransferQueue => "transfer_queue",
            IvrNodeType::TransferExt => "transfer_ext",
            IvrNodeType::TransferPstn => "transfer_pstn",
            IvrNodeType::Voicemail => "voicemail",
            IvrNodeType::Record => "record",
            IvrNodeType::HttpWebhook => "http_webhook",
            IvrNodeType::SetVar => "set_var",
            IvrNodeType::Asr => "asr",
            IvrNodeType::AiAgent => "ai_agent",
            IvrNodeType::Loop => "loop",
            IvrNodeType::Hangup => "hangup",
        }
    }

    /// Parses a snake_case node type string.
    pub fn from_str(s: &str) -> (r: Option<IvrNodeType>)
        ensures
            r == node_type_of(s@),
    {
        if str_eq(s, "start") {
            Some(IvrNodeType::Start)
        } else if str_eq(s, "prompt") {
            Some(IvrNodeType::Prompt)
        } else if str_eq(s, "tts") {
            Some(IvrNodeType::Tts)
        } else if str_eq(s, "collect_dtmf") {
            Some(IvrNodeType::CollectDtmf)
        } else if str_eq(s, "menu") {
            Some(IvrNodeType::Menu)
        } else if str_eq(s, "condition") {
            Some(IvrNodeType::Condition)
        } else if str_eq(s, "route") {
            Some(IvrNodeType::Route)
        } else if str_eq(s, "transfer_queue") {
            Some(IvrNodeType::TransferQueue)
        } else if str_eq(s, "transfer_ext") {
            Some(IvrNodeType::TransferExt)
        } else if str_eq(s, "transfer_pstn") {
            Some(IvrNodeType::TransferPstn)
        } else if str_eq(s, "voicemail") {
            Some(IvrNodeType::Voicemail)
        } else if str_eq(s, "record") {
            Some(IvrNodeType::Record)
        } else if str_eq(s, "http_webhook") {
            Some(IvrNodeType::HttpWebhook)
        } else if str_eq(s, "set_var") {
            Some(IvrNodeType::SetVar)
        } else if str_eq(s, "asr") {
            Some(IvrNodeType::Asr)
        } else if str_eq(s, "ai_agent") {
            Some(IvrNodeType::AiAgent)
        } else if str_eq(s, "loop") {
            Some(IvrNodeType::Loop)
        } else if str_eq(s, "hangup") {
            Some(IvrNodeType::Hangup)
        } else {
            None
        }
    }
}

/// A node of the canvas with its JSON configuration.
pub struct TopologyNode {
    pub id: String,
    pub node_type: String,
    pub title: String,
    pub description: Option<String>,
    pub config: JsonValue,
}

pub struct NodeView {
    pub id: Seq<char>,
    pub node_type: Seq<char>,
    pub title: Seq<char>,
    pub description: Option<Seq<char>>,
    pub config: JsonView,
}

pub open spec fn opt_str_view(o: Option<String>) -> Option<Seq<char>> {
    match o {
        Some(s) => Some(s@),
        None => None,
    }
}

impl View for TopologyNode {
    type V = NodeView;

    open spec fn view(&self) -> NodeView {
        NodeView {
            id: self.id@,
            node_type: self.node_type@,
            title: self.title@,
            description: opt_str_view(self.description),
            config: self.config@,
        }
    }
}

fn opt_string_clone(o: &Option<String>) -> (r: Option<String>)
    ensures
        opt_str_view(r) == opt_str_view(*o),
{
    match o {
        Some(s) => Some(s.clone()),
        None => None,
    }
}

impl TopologyNode {
    pub fn clone_node(&self) -> (r: TopologyNode)
        ensures
            r@ == self@,
    {
        TopologyNode {
            id: self.id.clone(),
            node_type: self.node_type.clone(),
            title: self.title.clone(),
            description: opt_string_clone(&self.description),
            config: json_clone(&self.config),
        }
    }
}

/// A directed edge leaving `source` through `source_port` (`default` when absent).
pub struct TopologyEdge {
    pub id: String,
    pub source: String,
    pub target: String,
    pub source_port: Option<String>,
    pub label: Option<String>,
}

/// Port of an edge: its source port, `default` when it has none.
pub open spec fn edge_port(e: TopologyEdge) -> Seq<char> {
    match e.source_port {
        Some(p) => p@,
        None => "default"@,
    }
}

/// A whole topology as drawn.
pub struct IvrTopology {
    pub nodes: Vec<TopologyNode>,
    pub edges: Vec<TopologyEdge>,
}

// ---------------------------------------------------------------------------
// Topology-level lookups (what the graph index must answer)
// ---------------------------------------------------------------------------

/// The last node with id `id` among the first `n` nodes (a later node replaces an earlier one).
pub open spec fn node_lookup(ns: Seq<TopologyNode>, id: Seq<char>, n: int) -> Option<NodeView>
    decreases n,
{
    if n <= 0 || n > ns.len() {
        None
    } else if ns[n - 1].id@ == id {
        Some(ns[n - 1]@)
    } else {
        node_lookup(ns, id, n - 1)
    }
}

/// Id of the first `start` node among the first `n` nodes.
pub open spec fn first_start(ns: Seq<TopologyNode>, n: int) -> Option<Seq<char>>
    decreases n,
{
    if n <= 0 || n > ns.len() {
        None
    } else {
        match first_start(ns, n - 1) {
            Some(s) => Some(s),
            None => if ns[n - 1].node_type@ == "start"@ {
                Some(ns[n - 1].id@)
            } else {
                None
            },
        }
    }
}

/// Target of the last edge from `src` through `port` among the first `n` edges.
pub open spec fn edge_lookup(es: Seq<TopologyEdge>, src: Seq<char>, port: Seq<char>, n: int) -> Option<Seq<char>>
    decreases n,
{
    if n <= 0 || n > es.len() {
        None
    } else if es[n - 1].source@ == src && edge_port(es[n - 1]) == port {
        Some(es[n - 1].target@)
    } else {
        edge_lookup(es, src, port, n - 1)
    }
}

/// `(port, target)` of every edge from `src` among the first `n` edges, in order.
pub open spec fn outgoing_of(es: Seq<TopologyEdge>, src: Seq<char>, n: int) -> Seq<(Seq<char>, Seq<char>)>
    decreases n,
{
    if n <= 0 || n > es.len() {
        Seq::empty()
    } else if es[n - 1].source@ == src {
        outgoing_of(es, src, n - 1).push((edge_port(es[n - 1]), es[n - 1].target@))
    } else {
        outgoing_of(es, src, n - 1)
    }
}

// ---------------------------------------------------------------------------
// Graph index
// ---------------------------------------------------------------------------

/// Index over a topology: nodes by id, targets by `(source, port)`, the
/// outgoing edges of each source, and the start node.
pub struct TopologyGraph {
    pub nodes: Vec<TopologyNode>,
    pub edges_by_source: Vec<(String, String, String)>,
    pub outgoing: Vec<(String, Vec<(String, String)>)>,
    pub start_node_id: Option<String>,
}

/// Index of the node with id `id` in the graph's node list, or -1.
pub open spec fn node_index(ns: Seq<TopologyNode>, id: Seq<char>, n: int) -> int
    decreases n,
{
    if n <= 0 || n > ns.len() {
        -1
    } else if ns[n - 1].id@ == id {
        n - 1
    } else {
        node_index(ns, id, n - 1)
    }
}

pub open spec fn edge_index(es: Seq<(String, String, String)>, src: Seq<char>, port: Seq<char>, n: int) -> int
    decreases n,
{
    if n <= 0 || n > es.len() {
        -1
    } else if es[n - 1].0@ == src && es[n - 1].1@ == port {
        n - 1
    } else {
        edge_index(es, src, port, n - 1)
    }
}

pub open spec fn out_index(os: Seq<(String, Vec<(String, String)>)>, src: Seq<char>, n: int) -> int
    decreases n,
{
    if n <= 0 || n > os.len() {
        -1
    } else if os[n - 1].0@ == src {
        n - 1
    } else {
        out_index(os, src, n - 1)
    }
}

pub open spec fn pair_view(p: (String, String)) -> (Seq<char>, Seq<char>) {
    (p.0@, p.1@)
}

impl TopologyGraph {
    /// Node with the given id.
    pub open spec fn node_of(&self, id: Seq<char>) -> Option<NodeView> {
        let i = node_index(self.nodes@, id, self.nodes@.len() as int);
        if 0 <= i < self.nodes@.len() {
            Some(self.nodes@[i]@)
        } else {
            None
        }
    }

    /// Target id of the edge from `src` through `port`.
    pub open spec fn target_of(&self, src: Seq<char>, port: Seq<char>) -> Option<Seq<char>> {
        let i = edge_index(self.edges_by_source@, src, port, self.edges_by_source@.len() as int);
        if 0 <= i < self.edges_by_source@.len() {
            Some(self.edges_by_source@[i].2@)
        } else {
            None
        }
    }

    /// Outgoing `(port, target)` list of `src`, none when it has no edge.
    pub open spec fn outgoing_list(&self, src: Seq<char>) -> Option<Seq<(Seq<char>, Seq<char>)>> {
        let i = out_index(self.outgoing@, src, self.outgoing@.len() as int);
        if 0 <= i < self.outgoing@.len() {
            Some(self.outgoing@[i].1@.map_values(|p: (String, String)| pair_view(p)))
        } else {
            None
        }
    }

    /// The index answers every lookup as the topology it was built from.
    pub open spec fn indexes(&self, t: IvrTopology) -> bool {
        &&& forall|id: Seq<char>| #[trigger] self.node_of(id) == node_lookup(t.nodes@, id, t.nodes@.len() as int)
        &&& forall|src: Seq<char>, port: Seq<char>|
            #[trigger] self.target_of(src, port) == edge_lookup(t.edges@, src, port, t.edges@.len() as int)
        &&& forall|src: Seq<char>| #[trigger] self.outgoing_list(src) == (if outgoing_of(t.edges@, src, t.edges@.len() as int).len() == 0 {
            None
        } else {
            Some(outgoing_of(t.edges@, src, t.edges@.len() as int))
        })
        &&& opt_str_view(self.start_node_id) == first_start(t.nodes@, t.nodes@.len() as int)
    }
}

} // verus!

verus! {

pub proof fn lemma_out_index_keys(
    os1: Seq<(String, Vec<(String, String)>)>,
    os2: Seq<(String, Vec<(String, String)>)>,
    src: Seq<char>,
    n: int,
)
    requires
        n <= os1.len(),
        n <= os2.len(),
        forall|j: int| 0 <= j < n ==> #[trigger] os1[j].0@ == os2[j].0@,
    ensures
        out_index(os1, src, n) == out_index(os2, src, n),
    decreases n,
{
    if 0 < n {
        lemma_out_index_keys(os1, os2, src, n - 1);
    }
}

fn find_out(outgoing: &Vec<(String, Vec<(String, String)>)>, src: &String) -> (r: Option<usize>)
    ensures
        match r {
            Some(i) => i as int == out_index(outgoing@, src@, outgoing@.len() as int) && i < outgoing@.len(),
            None => out_index(outgoing@, src@, outgoing@.len() as int) == -1,
        },
{
    let mut q: usize = outgoing.len();
    while q > 0
        invariant
            0 <= q <= outgoing@.len(),
            out_index(outgoing@, src@, outgoing@.len() as int) == out_index(outgoing@, src@, q as int),
        decreases q,
    {
        if str_eq(outgoing[q - 1].0.as_str(), src.as_str()) {
            return Some(q - 1);
        }
        q = q - 1;
    }
    None
}

pub proof fn lemma_out_index_range(os: Seq<(String, Vec<(String, String)>)>, src: Seq<char>, n: int)
    ensures
        out_index(os, src, n) == -1 || (0 <= out_index(os, src, n) < n && out_index(os, src, n) < os.len()
            && os[out_index(os, src, n)].0@ == src),
    decreases n,
{
    if 0 < n <= os.len() && os[n - 1].0@ != src {
        lemma_out_index_range(os, src, n - 1);
    }
}

pub proof fn lemma_node_index_range(ns: Seq<TopologyNode>, id: Seq<char>, n: int)
    ensures
        node_index(ns, id, n) == -1 || (0 <= node_index(ns, id, n) < n && node_index(ns, id, n)
            < ns.len() && ns[node_index(ns, id, n)].id@ == id),
    decreases n,
{
    if 0 < n <= ns.len() && ns[n - 1].id@ != id {
        lemma_node_index_range(ns, id, n - 1);
    }
}

pub proof fn lemma_node_index_lookup(ns: Seq<TopologyNode>, id: Seq<char>, n: int)
    requires
        0 <= n <= ns.len(),
    ensures
        ({
            let i = node_index(ns, id, n);
            node_lookup(ns, id, n) == if 0 <= i < ns.len() {
                Some(ns[i]@)
            } else {
                None
            }
        }),
    decreases n,
{
    if n > 0 && ns[n - 1].id@ != id {
        lemma_node_index_lookup(ns, id, n - 1);
    }
}

pub proof fn lemma_edge_index_range(es: Seq<(String, String, String)>, src: Seq<char>, port: Seq<char>, n: int)
    ensures
        edge_index(es, src, port, n) == -1 || (0 <= edge_index(es, src, port, n) < n
            && edge_index(es, src, port, n) < es.len()),
    decreases n,
{
    if 0 < n <= es.len() && !(es[n - 1].0@ == src && es[n - 1].1@ == port) {
        lemma_edge_index_range(es, src, port, n - 1);
    }
}

pub proof fn lemma_node_index_same_ids(ns1: Seq<TopologyNode>, ns2: Seq<TopologyNode>, id: Seq<char>, n: int)
    requires
        n <= ns1.len(),
        n <= ns2.len(),
        forall|j: int| 0 <= j < n ==> (#[trigger] ns1[j]).id@ == ns2[j].id@,
    ensures
        node_index(ns1, id, n) == node_index(ns2, id, n),
    decreases n,
{
    if 0 < n {
        lemma_node_index_same_ids(ns1, ns2, id, n - 1);
    }
}

pub proof fn lemma_edge_index_lookup(
    triples: Seq<(String, String, String)>,
    es: Seq<TopologyEdge>,
    src: Seq<char>,
    port: Seq<char>,
    n: int,
)
    requires
        0 <= n <= triples.len(),
        n <= es.len(),
        forall|j: int|
            0 <= j < n ==> (#[trigger] triples[j]).0@ == es[j].source@ && triples[j].1@ == edge_port(
                es[j],
            ) && triples[j].2@ == es[j].target@,
    ensures
        ({
            let i = edge_index(triples, src, port, n);
            edge_lookup(es, src, port, n) == if 0 <= i < triples.len() {
                Some(triples[i].2@)
            } else {
                None
            }
        }),
    decreases n,
{
    if n > 0 {
        lemma_edge_index_lookup(triples, es, src, port, n - 1);
        lemma_edge_index_range(triples, src, port, n - 1);
    }
}

fn clone_pairs(v: &Vec<(String, String)>) -> (r: Vec<(String, String)>)
    ensures
        r@.map_values(|p: (String, String)| pair_view(p)) == v@.map_values(|p: (String, String)| pair_view(p)),
{
    let mut out: Vec<(String, String)> = Vec::new();
    let mut i: usize = 0;
    while i < v.len()
        invariant
            0 <= i <= v@.len(),
            out@.len() == i,
            forall|j: int| 0 <= j < i ==> pair_view(#[trigger] out@[j]) == pair_view(v@[j]),
        decreases v@.len() - i,
    {
        out.push((v[i].0.clone(), v[i].1.clone()));
        i = i + 1;
    }
    assert(out@.map_values(|p: (String, String)| pair_view(p)) =~= v@.map_values(
        |p: (String, String)| pair_view(p),
    ));
    out
}

fn port_of(e: &TopologyEdge) -> (r: String)
    ensures
        r@ == edge_port(*e),
{
    match &e.source_port {
        Some(p) => p.clone(),
        None => crate::text::string_from("default"),
    }
}

impl TopologyGraph {
    /// Builds the index: later nodes replace earlier ones with the same id,
    /// later edges replace earlier ones with the same `(source, port)`, the
    /// first `start` node is the entry.
    pub fn build(topology: &IvrTopology) -> (g: TopologyGraph)
        ensures
            g.indexes(*topology),
    {
        let mut nodes: Vec<TopologyNode> = Vec::new();
        let mut start: Option<String> = None;
        let mut i: usize = 0;
        while i < topology.nodes.len()
            invariant
                0 <= i <= topology.nodes@.len(),
                nodes@.len() == i,
                forall|j: int| 0 <= j < i ==> (#[trigger] nodes@[j])@ == topology.nodes@[j]@,
                opt_str_view(start) == first_start(topology.nodes@, i as int),
            decreases topology.nodes@.len() - i,
        {
            let node = &topology.nodes[i];
            if start.is_none() && str_eq(node.node_type.as_str(), "start") {
                start = Some(node.id.clone());
            }
            nodes.push(node.clone_node());
            i = i + 1;
        }
        let mut edges: Vec<(String, String, String)> = Vec::new();
        let mut outgoing: Vec<(String, Vec<(String, String)>)> = Vec::new();
        let mut k: usize = 0;
        while k < topology.edges.len()
            invariant
                0 <= k <= topology.edges@.len(),
                edges@.len() == k,
                forall|j: int|
                    0 <= j < k ==> (#[trigger] edges@[j]).0@ == topology.edges@[j].source@
                        && edges@[j].1@ == edge_port(topology.edges@[j]) && edges@[j].2@
                        == topology.edges@[j].target@,
                forall|src: Seq<char>|
                    {
                        let oi = #[trigger] out_index(outgoing@, src, outgoing@.len() as int);
                        &&& (outgoing_of(topology.edges@, src, k as int).len() == 0 ==> oi == -1)
                        &&& (outgoing_of(topology.edges@, src, k as int).len() > 0 ==> 0 <= oi
                            < outgoing@.len() && outgoing@[oi].1@.map_values(
                            |p: (String, String)| pair_view(p),
                        ) == outgoing_of(topology.edges@, src, k as int))
                    },
            decreases topology.edges@.len() - k,
        {
            let e = &topology.edges[k];
            let port = port_of(e);
            edges.push((e.source.clone(), port.clone(), e.target.clone()));
            let ghost old_out = outgoing@;
            let ghost pair = (edge_port(*e), e.target@);
            let ghost kk = k as int;
            proof {
                lemma_out_index_range(old_out, e.source@, old_out.len() as int);
            }
            match find_out(&outgoing, &e.source) {
                Some(idx) => {
                    let mut list = clone_pairs(&outgoing[idx].1);
                    let ghost old_list = outgoing@[idx as int].1@;
                    list.push((port, e.target.clone()));
                    let key = outgoing[idx].0.clone();
                    outgoing.set(idx, (key, list));
                    proof {
                        lemma_out_index_keys(outgoing@, old_out, e.source@, old_out.len() as int);
                        assert forall|src: Seq<char>|
                            {
                                let oi = #[trigger] out_index(outgoing@, src, outgoing@.len() as int);
                                &&& (outgoing_of(topology.edges@, src, kk + 1).len() == 0 ==> oi == -1)
                                &&& (outgoing_of(topology.edges@, src, kk + 1).len() > 0 ==> 0 <= oi
                                    < outgoing@.len() && outgoing@[oi].1@.map_values(
                                    |p: (String, String)| pair_view(p),
                                ) == outgoing_of(topology.edges@, src, kk + 1))
                            } by {
                            lemma_out_index_keys(outgoing@, old_out, src, old_out.len() as int);
                            lemma_out_index_range(old_out, src, old_out.len() as int);
                            if src == e.source@ {
                                assert(outgoing@[idx as int].1@.map_values(|p: (String, String)| pair_view(p))
                                    =~= old_list.map_values(|p: (String, String)| pair_view(p)).push(pair)) by {
                                    assert(outgoing@[idx as int].1@.drop_last().map_values(|p: (String, String)| pair_view(p))
                                        =~= outgoing@[idx as int].1@.map_values(|p: (String, String)| pair_view(p)).drop_last());
                                }
                            }
                        }
                    }
                },
                None => {
                    let mut list: Vec<(String, String)> = Vec::new();
                    list.push((port, e.target.clone()));
                    outgoing.push((e.source.clone(), list));
                    proof {
                        assert forall|src: Seq<char>|
                            {
                                let oi = #[trigger] out_index(outgoing@, src, outgoing@.len() as int);
                                &&& (outgoing_of(topology.edges@, src, kk + 1).len() == 0 ==> oi == -1)
                                &&& (outgoing_of(topology.edges@, src, kk + 1).len() > 0 ==> 0 <= oi
                                    < outgoing@.len() && outgoing@[oi].1@.map_values(
                                    |p: (String, String)| pair_view(p),
                                ) == outgoing_of(topology.edges@, src, kk + 1))
                            } by {
                            lemma_out_index_keys(outgoing@, old_out, src, old_out.len() as int);
                            lemma_out_index_range(old_out, src, old_out.len() as int);
                            if src == e.source@ {
                                assert(outgoing_of(topology.edges@, src, kk).len() == 0);
                                assert(outgoing@[old_out.len() as int].1@.map_values(|p: (String, String)| pair_view(p))
                                    =~= outgoing_of(topology.edges@, src, kk + 1));
                            }
                        }
                    }
                },
            }
            k = k + 1;
        }
        let g = TopologyGraph { nodes, edges_by_source: edges, outgoing, start_node_id: start };
        assert forall|id: Seq<char>| #[trigger] g.node_of(id) == node_lookup(
            topology.nodes@,
            id,
            topology.nodes@.len() as int,
        ) by {
            lemma_node_index_same_ids(g.nodes@, topology.nodes@, id, topology.nodes@.len() as int);
            lemma_node_index_lookup(topology.nodes@, id, topology.nodes@.len() as int);
            lemma_node_index_range(topology.nodes@, id, topology.nodes@.len() as int);
        }
        assert forall|src: Seq<char>, port: Seq<char>| #[trigger] g.target_of(src, port) == edge_lookup(
            topology.edges@,
            src,
            port,
            topology.edges@.len() as int,
        ) by {
            lemma_edge_index_lookup(g.edges_by_source@, topology.edges@, src, port, topology.edges@.len() as int);
        }
        assert forall|src: Seq<char>| #[trigger] g.outgoing_list(src) == (if outgoing_of(
            topology.edges@,
            src,
            topology.edges@.len() as int,
        ).len() == 0 {
            None
        } else {
            Some(outgoing_of(topology.edges@, src, topology.edges@.len() as int))
        }) by {
            let oi = out_index(g.outgoing@, src, g.outgoing@.len() as int);
        }
        g
    }
}

} // verus!

verus! {

impl TopologyGraph {
    /// Node with id `id`.
    pub fn get_node(&self, id: &str) -> (r: Option<&TopologyNode>)
        ensures
            match r {
                Some(n) => self.node_of(id@) == Some(n@),
                None => self.node_of(id@) is None,
            },
    {
        let mut q: usize = self.nodes.len();
        while q > 0
            invariant
                0 <= q <= self.nodes@.len(),
                node_index(self.nodes@, id@, self.nodes@.len() as int) == node_index(
                    self.nodes@,
                    id@,
                    q as int,
                ),
            decreases q,
        {
            if str_eq(self.nodes[q - 1].id.as_str(), id) {
                return Some(&self.nodes[q - 1]);
            }
            q = q - 1;
        }
        None
    }

    /// Target id of the edge leaving `source_id` through `port`.
    pub fn target_id(&self, source_id: &str, port: &str) -> (r: Option<&String>)
        ensures
            match r {
                Some(t) => self.target_of(source_id@, port@) == Some(t@),
                None => self.target_of(source_id@, port@) is None,
            },
    {
        let mut q: usize = self.edges_by_source.len();
        while q > 0
            invariant
                0 <= q <= self.edges_by_source@.len(),
                edge_index(self.edges_by_source@, source_id@, port@, self.edges_by_source@.len() as int)
                    == edge_index(self.edges_by_source@, source_id@, port@, q as int),
            decreases q,
        {
            let e = &self.edges_by_source[q - 1];
            if str_eq(e.0.as_str(), source_id) && str_eq(e.1.as_str(), port) {
                return Some(&e.2);
            }
            q = q - 1;
        }
        None
    }

    /// The node reached from `source_id` through `port`, when both the edge and
    /// its target node exist.
    pub fn next_node(&self, source_id: &str, port: &str) -> (r: Option<&TopologyNode>)
        ensures
            match r {
                Some(n) => self.target_of(source_id@, port@) matches Some(t) && self.node_of(t) == Some(n@),
                None => match self.target_of(source_id@, port@) {
                    Some(t) => self.node_of(t) is None,
                    None => true,
                },
            },
    {
        match self.target_id(source_id, port) {
            Some(t) => self.get_node(t.as_str()),
            None => None,
        }
    }

    /// Outgoing `(port, target)` pairs of a node, none when it has no edge.
    pub fn outgoing_edges(&self, node_id: &str) -> (r: Option<&Vec<(String, String)>>)
        ensures
            match r {
                Some(l) => self.outgoing_list(node_id@) == Some(l@.map_values(|p: (String, String)| pair_view(p))),
                None => self.outgoing_list(node_id@) is None,
            },
    {
        let mut q: usize = self.outgoing.len();
        while q > 0
            invariant
                0 <= q <= self.outgoing@.len(),
                out_index(self.outgoing@, node_id@, self.outgoing@.len() as int) == out_index(
                    self.outgoing@,
                    node_id@,
                    q as int,
                ),
            decreases q,
        {
            if str_eq(self.outgoing[q - 1].0.as_str(), node_id) {
                return Some(&self.outgoing[q - 1].1);
            }
            q = q - 1;
        }
        None
    }
}

} // verus!

verus! {

// ---------------------------------------------------------------------------
// Per-call context
// ---------------------------------------------------------------------------

/// Variables and progress of one call's IVR run.
pub struct IvrExecutionContext {
    pub call_id: String,
    pub caller_id: String,
    pub did: String,
    /// Context variables, one entry per name, in the order first set.
    pub variables: Vec<(String, JsonValue)>,
    pub current_node_id: Option<String>,
    /// Iterations counted per loop id.
    pub loop_counters: Vec<(String, u32)>,
    pub collected_dtmf: String,
    pub last_webhook_response: Option<JsonValue>,
}

/// Index of the first entry named `k`, or -1.
pub open spec fn key_index(vs: Seq<(Seq<char>, JsonView)>, k: Seq<char>, i: int) -> int
    decreases vs.len() - i,
{
    if i < 0 || i >= vs.len() {
        -1
    } else if vs[i].0 == k {
        i
    } else {
        key_index(vs, k, i + 1)
    }
}

/// Variables after setting `k` to `v`: the entry is replaced in place, or
/// appended when `k` is new.
pub open spec fn vars_set(vs: Seq<(Seq<char>, JsonView)>, k: Seq<char>, v: JsonView) -> Seq<(Seq<char>, JsonView)> {
    let i = key_index(vs, k, 0);
    if i >= 0 {
        vs.update(i, (k, v))
    } else {
        vs.push((k, v))
    }
}

/// No two variables share a name.
pub open spec fn keys_unique(vs: Seq<(Seq<char>, JsonView)>) -> bool {
    forall|i: int, j: int| 0 <= i < j < vs.len() ==> #[trigger] vs[i].0 != #[trigger] vs[j].0
}

/// `{{name}}`.
pub open spec fn placeholder(k: Seq<char>) -> Seq<char> {
    "{{"@ + k + "}}"@
}

/// The template after substituting the first `n` variables in order.
pub open spec fn render_vars(t: Seq<char>, vs: Seq<(Seq<char>, JsonView)>, n: int) -> Seq<char>
    decreases n,
{
    if n <= 0 || n > vs.len() {
        t
    } else {
        replace_all(render_vars(t, vs, n - 1), placeholder(vs[n - 1].0), value_text(vs[n - 1].1))
    }
}

pub proof fn lemma_key_index_range(vs: Seq<(Seq<char>, JsonView)>, k: Seq<char>, i: int)
    ensures
        key_index(vs, k, i) == -1 || (i <= key_index(vs, k, i) < vs.len() && vs[key_index(vs, k, i)].0 == k),
    decreases vs.len() - i,
{
    if 0 <= i < vs.len() && vs[i].0 != k {
        lemma_key_index_range(vs, k, i + 1);
    }
}

/// `members_get` finds exactly the entry `key_index` names.
pub proof fn lemma_members_get_key_index(vs: Seq<(Seq<char>, JsonView)>, k: Seq<char>, i: int)
    requires
        0 <= i,
    ensures
        members_get(vs, k, i) == if key_index(vs, k, i) >= 0 {
            Some(vs[key_index(vs, k, i)].1)
        } else {
            None
        },
    decreases vs.len() - i,
{
    if i < vs.len() && vs[i].0 != k {
        lemma_members_get_key_index(vs, k, i + 1);
    }
}

/// Every entry before the first one named `k` (every entry, when there is
/// none) has another name.
proof fn lemma_key_index_prefix(vs: Seq<(Seq<char>, JsonView)>, k: Seq<char>, i: int)
    requires
        0 <= i,
    ensures
        forall|j: int|
            i <= j < vs.len() && (key_index(vs, k, i) < 0 || j < key_index(vs, k, i)) ==> vs[j].0
                != k,
    decreases vs.len() - i,
{
    if i < vs.len() && vs[i].0 != k {
        lemma_key_index_prefix(vs, k, i + 1);
    }
}

/// The first entry named `k` from `i` on is the one at `idx`.
proof fn lemma_get_first(ws: Seq<(Seq<char>, JsonView)>, k: Seq<char>, i: int, idx: int)
    requires
        0 <= i <= idx < ws.len(),
        ws[idx].0 == k,
        forall|j: int| i <= j < idx ==> ws[j].0 != k,
    ensures
        members_get(ws, k, i) == Some(ws[idx].1),
    decreases idx - i,
{
    if i < idx {
        lemma_get_first(ws, k, i + 1, idx);
    }
}

/// Two variable lists that differ only in entries not named `k` give the
/// same value for `k`.
proof fn lemma_get_same(
    vs: Seq<(Seq<char>, JsonView)>,
    ws: Seq<(Seq<char>, JsonView)>,
    k: Seq<char>,
    i: int,
)
    requires
        0 <= i,
        vs.len() <= ws.len(),
        forall|j: int| 0 <= j < vs.len() ==> ws[j] == vs[j] || (ws[j].0 != k && vs[j].0 != k),
        forall|j: int| vs.len() <= j < ws.len() ==> ws[j].0 != k,
    ensures
        members_get(ws, k, i) == members_get(vs, k, i),
    decreases ws.len() - i,
{
    if i < ws.len() {
        lemma_get_same(vs, ws, k, i + 1);
    }
}

/// A variable reads back as the value it was last set to.
pub proof fn lemma_get_after_set(vs: Seq<(Seq<char>, JsonView)>, k: Seq<char>, v: JsonView)
    ensures
        members_get(vars_set(vs, k, v), k, 0) == Some(v),
{
    let i = key_index(vs, k, 0);
    lemma_key_index_range(vs, k, 0);
    lemma_key_index_prefix(vs, k, 0);
    let ws = vars_set(vs, k, v);
    if i >= 0 {
        lemma_get_first(ws, k, 0, i);
    } else {
        lemma_get_first(ws, k, 0, vs.len() as int);
    }
}

/// Setting a variable leaves every other variable as it was.
pub proof fn lemma_set_keeps_others(
    vs: Seq<(Seq<char>, JsonView)>,
    k: Seq<char>,
    v: JsonView,
    other: Seq<char>,
)
    requires
        other != k,
    ensures
        members_get(vars_set(vs, k, v), other, 0) == members_get(vs, other, 0),
{
    lemma_key_index_range(vs, k, 0);
    lemma_get_same(vs, vars_set(vs, k, v), other, 0);
}

/// Setting a variable keeps the variable names distinct.
pub proof fn lemma_set_keeps_keys_unique(vs: Seq<(Seq<char>, JsonView)>, k: Seq<char>, v: JsonView)
    requires
        keys_unique(vs),
    ensures
        keys_unique(vars_set(vs, k, v)),
{
    lemma_key_index_range(vs, k, 0);
    lemma_key_index_prefix(vs, k, 0);
    let ws = vars_set(vs, k, v);
    assert forall|i: int, j: int| 0 <= i < j < ws.len() implies #[trigger] ws[i].0 != #[trigger] ws[j].0 by {
        if key_index(vs, k, 0) >= 0 {
            assert(ws[i].0 == vs[i].0);
            assert(ws[j].0 == vs[j].0);
        } else if j == vs.len() {
            assert(vs[i].0 != k);
        }
    }
}

/// Where `q` occurs at or after `lo`, searching from `lo` finds it.
proof fn lemma_find_seq_finds(s: Seq<char>, q: Seq<char>, lo: int, i: int)
    requires
        0 <= lo <= i,
        occurs_at(s, q, i),
    ensures
        find_seq(s, q, lo) >= 0,
    decreases i - lo,
{
    if !occurs_at(s, q, lo) {
        lemma_find_seq_finds(s, q, lo + 1, i);
    }
}

/// A template without `{{` renders to itself, whatever the variables.
pub proof fn lemma_render_without_placeholders(t: Seq<char>, vs: Seq<(Seq<char>, JsonView)>, n: int)
    requires
        !contains_seq(t, "{{"@),
    ensures
        render_vars(t, vs, n) == t,
    decreases n,
{
    reveal_strlit("{{");
    reveal_strlit("}}");
    if 0 < n <= vs.len() {
        lemma_render_without_placeholders(t, vs, n - 1);
        let p = placeholder(vs[n - 1].0);
        if find_seq(t, p, 0) >= 0 {
            lemma_find_seq_range(t, p, 0);
            let i = find_seq(t, p, 0);
            assert(t.subrange(i, i + 2) =~= "{{"@) by {
                assert(t.subrange(i, i + p.len()) == p);
                assert forall|m: int| 0 <= m < 2 implies t.subrange(i, i + 2)[m] == "{{"@[m] by {
                    assert(t.subrange(i, i + p.len())[m] == p[m]);
                }
            }
            lemma_find_seq_finds(t, "{{"@, 0, i);
        }
        assert(t.subrange(0, t.len() as int) =~= t);
    }
}

impl IvrExecutionContext {
    pub open spec fn vars(&self) -> Seq<(Seq<char>, JsonView)> {
        jview_members(self.variables@)
    }

    pub open spec fn var(&self, k: Seq<char>) -> Option<JsonView> {
        members_get(self.vars(), k, 0)
    }

    /// A fresh context for a call: no variables, no counters, nothing collected.
    pub fn new(call_id: String, caller_id: String, did: String) -> (r: IvrExecutionContext)
        ensures
            r.call_id@ == call_id@,
            r.caller_id@ == caller_id@,
            r.did@ == did@,
            r.vars().len() == 0,
            r.current_node_id is None,
            r.loop_counters@.len() == 0,
            r.collected_dtmf@.len() == 0,
            r.last_webhook_response is None,
    {
        IvrExecutionContext {
            call_id,
            caller_id,
            did,
            variables: Vec::new(),
            current_node_id: None,
            loop_counters: Vec::new(),
            collected_dtmf: String::new(),
            last_webhook_response: None,
        }
    }

    /// Sets variable `key`.
    pub fn set_var(&mut self, key: &str, value: JsonValue)
        ensures
            final(self).vars() == vars_set(old(self).vars(), key@, value@),
            final(self).call_id == old(self).call_id,
            final(self).caller_id == old(self).caller_id,
            final(self).did == old(self).did,
            final(self).current_node_id == old(self).current_node_id,
            final(self).loop_counters == old(self).loop_counters,
            final(self).collected_dtmf == old(self).collected_dtmf,
            final(self).last_webhook_response == old(self).last_webhook_response,
    {
        proof {
            lemma_jview_members(self.variables@);
        }
        let ghost vs = self.vars();
        let mut i: usize = 0;
        while i < self.variables.len()
            invariant
                *self == *old(self),
                vs == old(self).vars(),
                vs == jview_members(self.variables@),
                vs.len() == self.variables@.len(),
                forall|j: int|
                    0 <= j < self.variables@.len() ==> #[trigger] vs[j] == (
                        self.variables@[j].0@,
                        jview(self.variables@[j].1),
                    ),
                0 <= i <= self.variables@.len(),
                key_index(vs, key@, 0) == key_index(vs, key@, i as int),
            decreases self.variables@.len() - i,
        {
            if str_eq(self.variables[i].0.as_str(), key) {
                let ghost old_vars = self.variables@;
                let name = crate::text::string_from(key);
                self.variables.set(i, (name, value));
                proof {
                    lemma_jview_members(self.variables@);
                    assert(jview_members(self.variables@) =~= vs.update(i as int, (key@, jview(value))));
                }
                return ;
            }
            i = i + 1;
        }
        let name = crate::text::string_from(key);
        self.variables.push((name, value));
        proof {
            lemma_jview_members(self.variables@);
            assert(jview_members(self.variables@) =~= vs.push((key@, jview(value))));
        }
    }

    /// Variable `key`.
    pub fn get_var(&self, key: &str) -> (r: Option<&JsonValue>)
        ensures
            match r {
                Some(v) => self.var(key@) == Some(v@),
                None => self.var(key@) is None,
            },
    {
        proof {
            lemma_jview_members(self.variables@);
        }
        let ghost vs = self.vars();
        let mut i: usize = 0;
        while i < self.variables.len()
            invariant
                vs == jview_members(self.variables@),
                vs.len() == self.variables@.len(),
                forall|j: int|
                    0 <= j < self.variables@.len() ==> #[trigger] vs[j] == (
                        self.variables@[j].0@,
                        jview(self.variables@[j].1),
                    ),
                0 <= i <= self.variables@.len(),
                members_get(vs, key@, 0) == members_get(vs, key@, i as int),
            decreases self.variables@.len() - i,
        {
            if str_eq(self.variables[i].0.as_str(), key) {
                return Some(&self.variables[i].1);
            }
            i = i + 1;
        }
        None
    }

    /// Substitutes every `{{name}}` with the variable's text, variable by
    /// variable in the order they were first set.
    pub fn render_template(&self, template: &str) -> (r: String)
        ensures
            r@ == render_vars(template@, self.vars(), self.vars().len() as int),
    {
        proof {
            lemma_jview_members(self.variables@);
        }
        let ghost vs = self.vars();
        let mut cur = crate::text::string_from(template);
        let mut i: usize = 0;
        while i < self.variables.len()
            invariant
                vs == jview_members(self.variables@),
                vs.len() == self.variables@.len(),
                forall|j: int|
                    0 <= j < self.variables@.len() ==> #[trigger] vs[j] == (
                        self.variables@[j].0@,
                        jview(self.variables@[j].1),
                    ),
                0 <= i <= self.variables@.len(),
                cur@ == render_vars(template@, vs, i as int),
            decreases self.variables@.len() - i,
        {
            let mut ph = String::new();
            push_str(&mut ph, "{{");
            push_str(&mut ph, self.variables[i].0.as_str());
            push_str(&mut ph, "}}");
            let pv = chars_of(ph.as_str());
            proof {
                reveal_strlit("{{");
                assert(pv@ =~= placeholder(self.variables@[i as int].0@));
                assert(pv@.len() > 0);
            }
            let value = json_to_string(&self.variables[i].1);
            let cv = chars_of(cur.as_str());
            cur = replace_chars(&cv, &pv, value.as_str());
            i = i + 1;
        }
        cur
    }
}

// ---------------------------------------------------------------------------
// Node results
// ---------------------------------------------------------------------------

/// What executing one node asks the engine to do next.
#[derive(Debug)]
pub enum NodeExecuteResult {
    /// Follow the edge leaving through `port`.
    Continue { port: String },
    Hangup { reason: String },
    /// Transfer to an extension, PSTN number or queue; the run ends.
    Transfer { target: String, transfer_type: String },
    /// Collect DTMF digits (collect_dtmf / menu nodes).
    WaitForDtmf { max_digits: u8, timeout_secs: u32, terminator: Option<char> },
    WaitForAsr { timeout_secs: u32 },
    Error { message: String },
}

pub enum ResultView {
    Continue(Seq<char>),
    Hangup(Seq<char>),
    Transfer(Seq<char>, Seq<char>),
    WaitForDtmf(u8, u32, Option<char>),
    WaitForAsr(u32),
    Error(Seq<char>),
}

impl View for NodeExecuteResult {
    type V = ResultView;

    open spec fn view(&self) -> ResultView {
        match self {
            NodeExecuteResult::Continue { port } => ResultView::Continue(port@),
            NodeExecuteResult::Hangup { reason } => ResultView::Hangup(reason@),
            NodeExecuteResult::Transfer { target, transfer_type } => ResultView::Transfer(
                target@,
                transfer_type@,
            ),
            NodeExecuteResult::WaitForDtmf { max_digits, timeout_secs, terminator } =>
                ResultView::WaitForDtmf(*max_digits, *timeout_secs, *terminator),
            NodeExecuteResult::WaitForAsr { timeout_secs } => ResultView::WaitForAsr(*timeout_secs),
            NodeExecuteResult::Error { message } => ResultView::Error(message@),
        }
    }
}

} // verus!

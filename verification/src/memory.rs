//! The knowledge graph an agent's memories hang off: nodes, edges, and the
//! starter graph used before any has been saved. Persistence is the
//! application's work.

use vstd::prelude::*;

verus! {

use vstd::string::StringExecFns;

/// One node of the knowledge graph.
#[derive(Debug, Clone)]
pub struct KnowledgeNode {
    /// Unique identifier of the node.
    pub id: String,
    /// What the node stands for.
    pub node_type: String,
    /// Display label, where one differs from the identifier.
    pub label: Option<String>,
}

/// One directed, labelled edge of the knowledge graph.
#[derive(Debug, Clone)]
pub struct KnowledgeEdge {
    /// Identifier of the source node.
    pub source: String,
    /// Identifier of the target node.
    pub target: String,
    /// What the edge states.
    pub label: String,
}

/// The knowledge graph.
#[derive(Debug, Clone)]
pub struct KnowledgeGraph {
    /// The nodes.
    pub nodes: Vec<KnowledgeNode>,
    /// The edges.
    pub edges: Vec<KnowledgeEdge>,
}

fn starter_node(id: &str, node_type: &str, label: &str) -> (n: KnowledgeNode)
    ensures
        n.id@ == id@,
        n.node_type@ == node_type@,
        n.label matches Some(l) && l@ == label@,
{
    KnowledgeNode {
        id: String::from_str(id),
        node_type: String::from_str(node_type),
        label: Some(String::from_str(label)),
    }
}

fn starter_edge(source: &str, target: &str, label: &str) -> (e: KnowledgeEdge)
    ensures
        e.source@ == source@,
        e.target@ == target@,
        e.label@ == label@,
{
    KnowledgeEdge {
        source: String::from_str(source),
        target: String::from_str(target),
        label: String::from_str(label),
    }
}

/// Whether a node has the given identifier, type and label.
pub open spec fn node_is(n: KnowledgeNode, id: Seq<char>, t: Seq<char>, label: Seq<char>) -> bool {
    n.id@ == id && n.node_type@ == t && (n.label matches Some(l) && l@ == label)
}

/// Whether an edge joins the given nodes under the given label.
pub open spec fn edge_is(
    e: KnowledgeEdge,
    source: Seq<char>,
    target: Seq<char>,
    label: Seq<char>,
) -> bool {
    e.source@ == source && e.target@ == target && e.label@ == label
}

/// Most nodes the graph keeps.
pub const MAX_NODES: usize = 500;

/// Most edges the graph keeps.
pub const MAX_EDGES: usize = 1000;

/// The index of the first node carrying identifier `id`, if any.
pub open spec fn spec_find_node(nodes: Seq<KnowledgeNode>, id: Seq<char>) -> Option<int>
    decreases nodes.len(),
{
    if nodes.len() == 0 {
        None
    } else if nodes[0].id@ == id {
        Some(0)
    } else {
        match spec_find_node(nodes.drop_first(), id) {
            Some(i) => Some(i + 1),
            None => None,
        }
    }
}

proof fn lemma_find_node_at(nodes: Seq<KnowledgeNode>, id: Seq<char>, i: int)
    requires
        0 <= i < nodes.len(),
        nodes[i].id@ == id,
        forall|k: int| 0 <= k < i ==> nodes[k].id@ != id,
    ensures
        spec_find_node(nodes, id) == Some(i),
    decreases i,
{
    if i > 0 {
        lemma_find_node_at(nodes.drop_first(), id, i - 1);
    }
}

proof fn lemma_find_node_missing(nodes: Seq<KnowledgeNode>, id: Seq<char>)
    requires
        forall|k: int| 0 <= k < nodes.len() ==> nodes[k].id@ != id,
    ensures
        spec_find_node(nodes, id) is None,
    decreases nodes.len(),
{
    if nodes.len() > 0 {
        lemma_find_node_missing(nodes.drop_first(), id);
    }
}

/// Finds the position of the node with identifier `id`, if any.
fn find_node(nodes: &Vec<KnowledgeNode>, id: &str) -> (r: Option<usize>)
    ensures
        match r {
            Some(i) => i < nodes@.len() && spec_find_node(nodes@, id@) == Some(i as int),
            None => spec_find_node(nodes@, id@) is None,
        },
{
    let mut i: usize = 0;
    while i < nodes.len()
        invariant
            i <= nodes@.len(),
            forall|k: int| 0 <= k < i ==> nodes@[k].id@ != id@,
        decreases nodes@.len() - i,
    {
        if crate::text::str_eq(nodes[i].id.as_str(), id) {
            proof {
                lemma_find_node_at(nodes@, id@, i as int);
            }
            return Some(i);
        }
        i += 1;
    }
    proof {
        lemma_find_node_missing(nodes@, id@);
    }
    None
}

impl KnowledgeGraph {
    /// Adds a node: rejected when the identifier or label is empty or a node
    /// with this identifier already exists; the oldest nodes are kept when
    /// the graph is full.
    pub fn add_node(&mut self, node_id: String, node_type: String, label: String) -> (r: Result<
        (),
        String,
    >)
        ensures
            final(self).edges@ == old(self).edges@,
            r is Err <==> (node_id@.len() == 0 || label@.len() == 0 || spec_find_node(
                old(self).nodes@,
                node_id@,
            ) is Some),
            r is Err ==> final(self).nodes@ == old(self).nodes@,
            r is Ok ==> {
                let grown = old(self).nodes@.push(
                    KnowledgeNode { id: node_id, node_type, label: Some(label) },
                );
                final(self).nodes@ == if grown.len() > MAX_NODES {
                    grown.take(MAX_NODES as int)
                } else {
                    grown
                }
            },
    {
        if node_id.as_str().is_empty() || label.as_str().is_empty() {
            return Err(String::from_str("Node ID and label cannot be empty"));
        }
        if find_node(&self.nodes, node_id.as_str()).is_some() {
            return Err(String::from_str("Node with this ID already exists"));
        }
        self.nodes.push(KnowledgeNode { id: node_id, node_type, label: Some(label) });
        if self.nodes.len() > MAX_NODES {
            self.nodes.truncate(MAX_NODES);
        }
        Ok(())
    }

    /// Adds an edge: rejected when a field is empty or either endpoint names
    /// no existing node; the oldest edges are kept when the graph is full.
    pub fn add_edge(&mut self, source: String, target: String, label: String) -> (r: Result<
        (),
        String,
    >)
        ensures
            final(self).nodes@ == old(self).nodes@,
            r is Err <==> (source@.len() == 0 || target@.len() == 0 || label@.len() == 0
                || spec_find_node(old(self).nodes@, source@) is None || spec_find_node(
                old(self).nodes@,
                target@,
            ) is None),
            r is Err ==> final(self).edges@ == old(self).edges@,
            r is Ok ==> {
                let grown = old(self).edges@.push(KnowledgeEdge { source, target, label });
                final(self).edges@ == if grown.len() > MAX_EDGES {
                    grown.take(MAX_EDGES as int)
                } else {
                    grown
                }
            },
    {
        if source.as_str().is_empty() || target.as_str().is_empty() || label.as_str().is_empty() {
            return Err(String::from_str("Source, target, and label cannot be empty"));
        }
        let source_exists = find_node(&self.nodes, source.as_str()).is_some();
        let target_exists = find_node(&self.nodes, target.as_str()).is_some();
        if !source_exists || !target_exists {
            return Err(String::from_str("Source or target node does not exist"));
        }
        self.edges.push(KnowledgeEdge { source, target, label });
        if self.edges.len() > MAX_EDGES {
            self.edges.truncate(MAX_EDGES);
        }
        Ok(())
    }
}

impl Default for KnowledgeGraph {
    /// The starter graph: the project, its frameworks and languages, and how
    /// they relate.
    fn default() -> (g: KnowledgeGraph)
        ensures
            g.nodes@.len() == 5,
            node_is(g.nodes@[0], "ClaudeCli"@, "project"@, "ClaudeCli"@),
            node_is(g.nodes@[1], "React"@, "framework"@, "React 19"@),
            node_is(g.nodes@[2], "Tauri"@, "framework"@, "Tauri 2"@),
            node_is(g.nodes@[3], "TypeScript"@, "language"@, "TypeScript"@),
            node_is(g.nodes@[4], "Rust"@, "language"@, "Rust"@),
            g.edges@.len() == 4,
            edge_is(g.edges@[0], "ClaudeCli"@, "React"@, "frontend"@),
            edge_is(g.edges@[1], "ClaudeCli"@, "Tauri"@, "desktop"@),
            edge_is(g.edges@[2], "ClaudeCli"@, "TypeScript"@, "written_in"@),
            edge_is(g.edges@[3], "Tauri"@, "Rust"@, "powered_by"@),
    {
        let mut nodes: Vec<KnowledgeNode> = Vec::new();
        nodes.push(starter_node("ClaudeCli", "project", "ClaudeCli"));
        nodes.push(starter_node("React", "framework", "React 19"));
        nodes.push(starter_node("Tauri", "framework", "Tauri 2"));
        nodes.push(starter_node("TypeScript", "language", "TypeScript"));
        nodes.push(starter_node("Rust", "language", "Rust"));
        let mut edges: Vec<KnowledgeEdge> = Vec::new();
        edges.push(starter_edge("ClaudeCli", "React", "frontend"));
        edges.push(starter_edge("ClaudeCli", "Tauri", "desktop"));
        edges.push(starter_edge("ClaudeCli", "TypeScript", "written_in"));
        edges.push(starter_edge("Tauri", "Rust", "powered_by"));
        KnowledgeGraph { nodes, edges }
    }
}

} // verus!

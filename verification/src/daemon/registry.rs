//! What the registry holds of a node.
use crate::text;
use vstd::prelude::*;

verus! {

/// A node's own description of itself.
#[derive(Debug)]
pub struct NodeManifest {
    /// Name of the node.
    pub name: String,
    /// Version of the node.
    pub version: String,
    /// What the node is for.
    pub description: String,
    /// Kind of node, such as `rust` or `python`.
    pub node_type: String,
    /// Command that builds the node.
    pub build: Option<String>,
    /// Command that runs the node.
    pub command: Option<String>,
    /// Nodes that have to run before this one.
    pub depends_on: Vec<String>,
    /// What the node can do, each as its lower case name.
    pub capabilities: Vec<String>,
    /// Topics that the node publishes to.
    pub publishes: Vec<String>,
    /// Topics that the node subscribes to.
    pub subscribes: Vec<String>,
    /// Commands that the node takes.
    pub commands: Vec<String>,
}

/// The contents of a [`NodeManifest`].
pub struct NodeManifestView {
    pub name: Seq<char>,
    pub version: Seq<char>,
    pub description: Seq<char>,
    pub node_type: Seq<char>,
    pub build: Option<Seq<char>>,
    pub command: Option<Seq<char>>,
    pub depends_on: Seq<Seq<char>>,
    pub capabilities: Seq<Seq<char>>,
    pub publishes: Seq<Seq<char>>,
    pub subscribes: Seq<Seq<char>>,
    pub commands: Seq<Seq<char>>,
}

impl View for NodeManifest {
    type V = NodeManifestView;

    open spec fn view(&self) -> NodeManifestView {
        NodeManifestView {
            name: self.name@,
            version: self.version@,
            description: self.description@,
            node_type: self.node_type@,
            build: text::opt_view(self.build),
            command: text::opt_view(self.command),
            depends_on: text::views(self.depends_on@),
            capabilities: text::views(self.capabilities@),
            publishes: text::views(self.publishes@),
            subscribes: text::views(self.subscribes@),
            commands: text::views(self.commands@),
        }
    }
}

impl Clone for NodeManifest {
    fn clone(&self) -> (r: Self)
        ensures
            r@ == self@,
    {
        NodeManifest {
            name: self.name.clone(),
            version: self.version.clone(),
            description: self.description.clone(),
            node_type: self.node_type.clone(),
            build: text::copy_opt(&self.build),
            command: text::copy_opt(&self.command),
            depends_on: text::copy_texts(self.depends_on.as_slice()),
            capabilities: text::copy_texts(self.capabilities.as_slice()),
            publishes: text::copy_texts(self.publishes.as_slice()),
            subscribes: text::copy_texts(self.subscribes.as_slice()),
            commands: text::copy_texts(self.commands.as_slice()),
        }
    }
}

impl Default for NodeManifest {
    /// A manifest in which every entry is empty.
    fn default() -> (r: Self)
        ensures
            r@ == (NodeManifestView {
                name: Seq::empty(),
                version: Seq::empty(),
                description: Seq::empty(),
                node_type: Seq::empty(),
                build: None,
                command: None,
                depends_on: Seq::empty(),
                capabilities: Seq::empty(),
                publishes: Seq::empty(),
                subscribes: Seq::empty(),
                commands: Seq::empty(),
            }),
    {
        let r = NodeManifest {
            name: String::new(),
            version: String::new(),
            description: String::new(),
            node_type: String::new(),
            build: None,
            command: None,
            depends_on: Vec::new(),
            capabilities: Vec::new(),
            publishes: Vec::new(),
            subscribes: Vec::new(),
            commands: Vec::new(),
        };
        assert(text::views(r.depends_on@) =~= Seq::empty());
        assert(text::views(r.capabilities@) =~= Seq::empty());
        assert(text::views(r.publishes@) =~= Seq::empty());
        assert(text::views(r.subscribes@) =~= Seq::empty());
        assert(text::views(r.commands@) =~= Seq::empty());
        r
    }
}

/// The contents of an optional manifest.
pub open spec fn opt_manifest(m: Option<NodeManifest>) -> Option<NodeManifestView> {
    match m {
        Some(m) => Some(m@),
        None => None,
    }
}

/// A copy of an optional manifest.
pub fn copy_manifest(m: &Option<NodeManifest>) -> (r: Option<NodeManifest>)
    ensures
        opt_manifest(r) == opt_manifest(*m),
{
    match m {
        Some(m) => Some(m.clone()),
        None => None,
    }
}

/// The name that a node goes by: its instance name if it has one, else the name in its
/// manifest, else `unknown`.
pub open spec fn name_of(
    name_override: Option<Seq<char>>,
    manifest: Option<NodeManifestView>,
) -> Seq<char> {
    match name_override {
        Some(name) => name,
        None => match manifest {
            Some(m) => m.name,
            None => "unknown"@,
        },
    }
}

/// The name that a node goes by: its instance name if it has one, else the name in its
/// manifest, else `unknown`.
pub fn effective_name(
    name_override: &Option<String>,
    manifest: &Option<NodeManifest>,
) -> (r: String)
    ensures
        r@ == name_of(text::opt_view(*name_override), opt_manifest(*manifest)),
{
    if let Some(name) = name_override {
        return name.clone();
    }
    match manifest {
        Some(m) => m.name.clone(),
        None => "unknown".to_owned(),
    }
}

/// A registered node.
#[derive(Debug)]
pub struct NodeEntry {
    /// Directory of the node.
    pub path: String,
    /// Instance name, for a node that is registered more than once.
    pub name_override: Option<String>,
    /// Configuration file of the instance.
    pub config_override: Option<String>,
}

/// The contents of a [`NodeEntry`].
pub struct NodeEntryView {
    pub path: Seq<char>,
    pub name_override: Option<Seq<char>>,
    pub config_override: Option<Seq<char>>,
}

impl View for NodeEntry {
    type V = NodeEntryView;

    open spec fn view(&self) -> NodeEntryView {
        NodeEntryView {
            path: self.path@,
            name_override: text::opt_view(self.name_override),
            config_override: text::opt_view(self.config_override),
        }
    }
}

} // verus!

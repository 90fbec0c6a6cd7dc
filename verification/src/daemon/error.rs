//! What can go wrong when nodes are managed.
use vstd::prelude::*;
use vstd::string::*;

verus! {

/// Why a node operation failed.
#[derive(Debug)]
pub enum NodeManagerError {
    /// The registry failed, with its own words.
    Registry(String),
    /// The service manager failed, with its own words.
    Systemd(String),
    /// There is no node of this name.
    NodeNotFound(String),
    /// A build or clean failed.
    BuildError(String),
    /// A build or clean of the node is going on.
    AlreadyBuilding(String),
    /// A build or clean of the node took too long.
    BuildTimeout(String),
    /// Reading or writing failed, with the system's own words.
    Io(String),
}

/// The contents of a [`NodeManagerError`].
pub enum NodeManagerErrorView {
    Registry(Seq<char>),
    Systemd(Seq<char>),
    NodeNotFound(Seq<char>),
    BuildError(Seq<char>),
    AlreadyBuilding(Seq<char>),
    BuildTimeout(Seq<char>),
    Io(Seq<char>),
}

impl View for NodeManagerError {
    type V = NodeManagerErrorView;

    open spec fn view(&self) -> NodeManagerErrorView {
        match self {
            NodeManagerError::Registry(s) => NodeManagerErrorView::Registry(s@),
            NodeManagerError::Systemd(s) => NodeManagerErrorView::Systemd(s@),
            NodeManagerError::NodeNotFound(s) => NodeManagerErrorView::NodeNotFound(s@),
            NodeManagerError::BuildError(s) => NodeManagerErrorView::BuildError(s@),
            NodeManagerError::AlreadyBuilding(s) => NodeManagerErrorView::AlreadyBuilding(s@),
            NodeManagerError::BuildTimeout(s) => NodeManagerErrorView::BuildTimeout(s@),
            NodeManagerError::Io(s) => NodeManagerErrorView::Io(s@),
        }
    }
}

impl NodeManagerErrorView {
    /// The error in words.
    pub open spec fn text(self) -> Seq<char> {
        match self {
            NodeManagerErrorView::Registry(s) => "Registry error: "@ + s,
            NodeManagerErrorView::Systemd(s) => "Systemd error: "@ + s,
            NodeManagerErrorView::NodeNotFound(s) => "Node not found: "@ + s,
            NodeManagerErrorView::BuildError(s) => "Build error: "@ + s,
            NodeManagerErrorView::AlreadyBuilding(s) => "Build already in progress for: "@ + s,
            NodeManagerErrorView::BuildTimeout(s) => "Build timed out for: "@ + s,
            NodeManagerErrorView::Io(s) => "IO error: "@ + s,
        }
    }
}

impl NodeManagerError {
    /// The error in words.
    pub fn to_string(&self) -> (r: String)
        ensures
            r@ == self@.text(),
    {
        match self {
            NodeManagerError::Registry(s) => "Registry error: ".to_owned().concat(s.as_str()),
            NodeManagerError::Systemd(s) => "Systemd error: ".to_owned().concat(s.as_str()),
            NodeManagerError::NodeNotFound(s) => "Node not found: ".to_owned().concat(s.as_str()),
            NodeManagerError::BuildError(s) => "Build error: ".to_owned().concat(s.as_str()),
            NodeManagerError::AlreadyBuilding(s) => "Build already in progress for: ".to_owned()
                .concat(s.as_str()),
            NodeManagerError::BuildTimeout(s) => "Build timed out for: ".to_owned().concat(
                s.as_str(),
            ),
            NodeManagerError::Io(s) => "IO error: ".to_owned().concat(s.as_str()),
        }
    }
}

impl Clone for NodeManagerError {
    fn clone(&self) -> (r: Self)
        ensures
            r@ == self@,
    {
        match self {
            NodeManagerError::Registry(s) => NodeManagerError::Registry(s.clone()),
            NodeManagerError::Systemd(s) => NodeManagerError::Systemd(s.clone()),
            NodeManagerError::NodeNotFound(s) => NodeManagerError::NodeNotFound(s.clone()),
            NodeManagerError::BuildError(s) => NodeManagerError::BuildError(s.clone()),
            NodeManagerError::AlreadyBuilding(s) => NodeManagerError::AlreadyBuilding(s.clone()),
            NodeManagerError::BuildTimeout(s) => NodeManagerError::BuildTimeout(s.clone()),
            NodeManagerError::Io(s) => NodeManagerError::Io(s.clone()),
        }
    }
}

/// The contents of the outcome of an operation.
pub open spec fn outcome<T>(r: Result<T, NodeManagerError>) -> Result<T, NodeManagerErrorView> {
    match r {
        Ok(v) => Ok(v),
        Err(e) => Err(e@),
    }
}

} // verus!

//! Who may call which tool.
use vstd::prelude::*;

verus! {

/// How much a caller may do.
#[derive(Debug, Clone, Copy, PartialEq, Eq, Structural)]
pub enum Tier {
    /// May look.
    Viewer,
    /// May also run nodes.
    Operator,
    /// May do everything.
    Admin,
}

impl Tier {
    /// The place of the tier, counted from the one that may do least.
    pub open spec fn rank(self) -> int {
        match self {
            Tier::Viewer => 0,
            Tier::Operator => 1,
            Tier::Admin => 2,
        }
    }

    /// Whether a caller of this tier may do what takes the other tier.
    pub fn has_permission(self, required: Tier) -> (r: bool)
        ensures
            r == (self.rank() >= required.rank()),
    {
        match (self, required) {
            (Tier::Admin, _) => true,
            (Tier::Operator, Tier::Admin) => false,
            (Tier::Operator, _) => true,
            (Tier::Viewer, Tier::Viewer) => true,
            (Tier::Viewer, _) => false,
        }
    }
}

/// Whether a tool only looks.
pub open spec fn viewer_tool(tool: Seq<char>) -> bool {
    ||| tool == "list_nodes"@
    ||| tool == "get_node_health"@
    ||| tool == "discover_nodes"@
    ||| tool == "get_node_manifest"@
    ||| tool == "list_commands"@
    ||| tool == "get_stream_info"@
    ||| tool == "get_system_status"@
    ||| tool == "get_machine_info"@
    ||| tool == "get_node_schema"@
    ||| tool == "discover_capabilities"@
}

/// Whether a tool runs nodes or reads what they hold.
pub open spec fn operator_tool(tool: Seq<char>) -> bool {
    ||| tool == "start_node"@
    ||| tool == "stop_node"@
    ||| tool == "restart_node"@
    ||| tool == "get_node_config"@
    ||| tool == "send_command"@
    ||| tool == "get_node_logs"@
    ||| tool == "enable_autostart"@
    ||| tool == "disable_autostart"@
}

/// The tier that a tool takes. A tool that is not known takes the highest.
pub open spec fn tier_of(tool: Seq<char>) -> Tier {
    if viewer_tool(tool) {
        Tier::Viewer
    } else if operator_tool(tool) {
        Tier::Operator
    } else {
        Tier::Admin
    }
}

/// The tier that a tool takes.
pub fn required_tier(tool: &str) -> (r: Tier)
    ensures
        r == tier_of(tool@),
{
    if tool.eq("list_nodes") || tool.eq("get_node_health") || tool.eq("discover_nodes") || tool.eq(
        "get_node_manifest",
    ) || tool.eq("list_commands") || tool.eq("get_stream_info") || tool.eq("get_system_status")
        || tool.eq("get_machine_info") || tool.eq("get_node_schema") || tool.eq(
        "discover_capabilities",
    ) {
        Tier::Viewer
    } else if tool.eq("start_node") || tool.eq("stop_node") || tool.eq("restart_node") || tool.eq(
        "get_node_config",
    ) || tool.eq("send_command") || tool.eq("get_node_logs") || tool.eq("enable_autostart")
        || tool.eq("disable_autostart") {
        Tier::Operator
    } else {
        Tier::Admin
    }
}

/// Tiers are ordered: each may do what the ones below it may do, an admin may call every tool,
/// and a tool that is not known is for admins alone.
pub proof fn tiers_are_ordered(a: Tier, b: Tier, c: Tier, tool: Seq<char>)
    ensures
        a.rank() >= a.rank(),
        a.rank() >= b.rank() && b.rank() >= c.rank() ==> a.rank() >= c.rank(),
        a.rank() >= b.rank() && b.rank() >= a.rank() ==> a == b,
        Tier::Admin.rank() >= tier_of(tool).rank(),
        !viewer_tool(tool) && !operator_tool(tool) ==> (a.rank() >= tier_of(tool).rank() <==> a
            == Tier::Admin),
{
}

} // verus!

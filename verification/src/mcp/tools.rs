//! Inputs of the link and source tools.

use vstd::prelude::*;

verus! {

/// Input for the `get_link` tool.
#[derive(Clone, Debug)]
pub struct GetLinkInput {
    /// The link ID to retrieve.
    pub link_id: String,
}

/// Input for the `list_links` tool.
#[derive(Clone, Debug)]
pub struct ListLinksInput {
    /// Maximum number of links to return (1-100, default 50).
    pub limit: Option<i64>,
    /// Cursor from a previous response for pagination.
    pub cursor: Option<String>,
}

/// Input for the `delete_link` tool.
#[derive(Clone, Debug)]
pub struct DeleteLinkInput {
    /// The link ID to delete.
    pub link_id: String,
}

/// Agent context attached to a link (action, CTA, description).
#[derive(Clone, Debug)]
pub struct AgentContextInput {
    /// The action this link performs (e.g. "open_product").
    pub action: Option<String>,
    /// Call-to-action text (e.g. "Buy Now").
    pub cta: Option<String>,
    /// Human- and agent-readable description of the link's purpose.
    pub description: Option<String>,
}

/// Input for the `create_source` tool.
#[derive(Clone, Debug)]
pub struct CreateSourceInput {
    /// Human-readable name, unique per tenant (1-64 chars).
    pub name: String,
    /// Source type; only `custom` is supported.
    pub source_type: String,
}

/// Input for the `list_sources` tool.
#[derive(Clone, Debug)]
pub struct ListSourcesInput {}

} // verus!

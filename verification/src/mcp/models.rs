//! MCP tool envelopes: resource ids carried in the input, pagination, and
//! outputs that have no REST counterpart.

use vstd::prelude::*;

verus! {

/// Input for the `get_link` tool.
#[derive(Clone, Debug)]
pub struct GetLinkInput {
    /// The link ID to retrieve.
    pub link_id: String,
}

/// Input for the `list_links` tool.
#[derive(Clone, Debug)]
pub struct ListLinksInput {
    /// Maximum number of links to return (1-100, default 50).
    pub limit: Option<i64>,
    /// Cursor from a previous response for pagination.
    pub cursor: Option<String>,
}

/// Input for the `delete_link` tool.
#[derive(Clone, Debug)]
pub struct DeleteLinkInput {
    /// The link ID to delete.
    pub link_id: String,
}

/// Input for the `get_link_stats` tool.
#[derive(Clone, Debug)]
pub struct GetLinkStatsInput {
    /// The link ID to fetch stats for.
    pub link_id: String,
}

/// Input for the `create_source` tool.
#[derive(Clone, Debug)]
pub struct CreateSourceInput {
    /// Human-readable name, unique per tenant (1-64 chars).
    pub name: String,
    /// Source type; only `custom` is supported.
    pub source_type: String,
}

/// Input for the `list_sources` tool.
#[derive(Clone, Debug)]
pub struct ListSourcesInput {}

/// Kinds of conversion source.
#[derive(Clone, Copy, Debug, PartialEq, Eq, Structural)]
pub enum SourceType {
    Custom,
}

/// Output for the `links.delete` tool.
#[derive(Clone, Debug)]
pub struct DeleteLinkOutput {
    /// The link ID that was deleted.
    pub link_id: String,
    /// Always `true` on a successful delete.
    pub deleted: bool,
}

/// Output for the `sources.create` tool.
#[derive(Clone, Debug)]
pub struct CreateSourceOutput {
    /// The new source's id.
    pub id: String,
    /// Name as supplied by the caller.
    pub name: String,
    /// Source type.
    pub source_type: SourceType,
    /// Webhook URL the customer's backend posts conversion events to.
    pub webhook_url: String,
}

/// One conversion source with its webhook URL.
#[derive(Clone, Debug)]
pub struct SourceSummary {
    /// Source id.
    pub id: String,
    /// Name.
    pub name: String,
    /// Source type.
    pub source_type: SourceType,
    /// Webhook URL the customer's backend posts conversion events to.
    pub webhook_url: String,
    /// When the source was created (RFC 3339).
    pub created_at: String,
}

/// Output for the `sources.list` tool.
#[derive(Clone, Debug)]
pub struct ListSourcesOutput {
    /// All conversion sources of the tenant.
    pub sources: Vec<SourceSummary>,
}

/// The conversion webhook URL of a source token: the public URL without
/// trailing slashes, then `/w/` and the token.
pub open spec fn webhook_url_text(public_url: Seq<char>, url_token: Seq<char>) -> Seq<char> {
    crate::landing::trim_end_char(public_url, '/') + "/w/"@ + url_token
}

/// The conversion webhook URL of a source token.
pub fn webhook_url_for(public_url: &str, url_token: &str) -> (r: String)
    ensures
        r@ == webhook_url_text(public_url@, url_token@),
{
    let base = crate::landing::trim_end_matches_char(public_url, '/');
    crate::text::concat3(base.as_str(), "/w/", url_token)
}

} // verus!

//! Outbound webhook event payloads built by the resolver.

use vstd::prelude::*;
use crate::text::to_owned;
use crate::platform::{Os, os_name};
use crate::config::opt_view;

verus! {

/// A click on a link, as sent to the tenant's webhooks.
#[derive(Clone, Debug)]
pub struct ClickEventPayload {
    pub tenant_id: String,
    pub link_id: String,
    pub user_agent: Option<String>,
    pub referer: Option<String>,
    pub platform: String,
    pub timestamp: String,
}

/// The click event of a resolved link: the visitor's agent and referrer as
/// sent, and the analytics name of the detected platform.
pub fn click_event(
    tenant_id: &str,
    link_id: &str,
    user_agent: Option<String>,
    referer: Option<String>,
    os: Os,
    timestamp: &str,
) -> (r: ClickEventPayload)
    ensures
        r.tenant_id@ == tenant_id@,
        r.link_id@ == link_id@,
        opt_view(&r.user_agent) == opt_view(&user_agent),
        opt_view(&r.referer) == opt_view(&referer),
        r.platform@ == os_name(os),
        r.timestamp@ == timestamp@,
{
    ClickEventPayload {
        tenant_id: to_owned(tenant_id),
        link_id: to_owned(link_id),
        user_agent,
        referer,
        platform: to_owned(os.as_str()),
        timestamp: to_owned(timestamp),
    }
}

} // verus!

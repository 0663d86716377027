//! RoleLogic GET/POST /config helpers. Iframe UI mode: `GET /config`
//! returns an embed URL pointing at the plugin's own role-config page;
//! all real editing happens there.
//!
//! POST /config is a no-op kept for contract compliance: iframe-mode
//! plugins never receive it in practice, but the token is still verified so a
//! stale call can't ping silently.

use crate::json::{Json, Value};
use crate::text;
use vstd::prelude::*;
use vstd::string::*;

verus! {

/// The URL of the role-config page of a role link.
pub open spec fn embed_url(base_url: Seq<char>, guild_id: Seq<char>, role_id: Seq<char>) -> Seq<
    char,
> {
    base_url + "/admin/"@ + guild_id + "/role/"@ + role_id
}

/// The response to GET /config.
pub open spec fn iframe_config(base_url: Seq<char>, guild_id: Seq<char>, role_id: Seq<char>) -> Json {
    Json::object().with("version"@, Json::Int(1)).with("ui_mode"@, Json::Text("iframe"@)).with(
        "name"@,
        Json::Text("osu! Player Role"@),
    ).with(
        "description"@,
        Json::Text(
            "Grant Discord roles based on osu! profile and stats — rank, PP, play count, accuracy, supporter tag, badges, and 30+ more condition targets. Per-mode aware (osu / taiko / fruits / mania)."@,
        ),
    ).with("embed_url"@, Json::Text(embed_url(base_url, guild_id, role_id))).with(
        "supports_impersonation_readonly"@,
        Json::Bool(true),
    )
}

/// Build the iframe-mode response returned by GET /config. RoleLogic
/// appends `?rl_token=<jwt>` to `embed_url` before rendering the iframe;
/// the admin page verifies that token locally to authenticate the admin.
pub fn build_iframe_config(base_url: &str, guild_id: &str, role_id: &str) -> (r: Value)
    ensures
        r@ == iframe_config(base_url@, guild_id@, role_id@),
{
    let mut url = text::join3(base_url, "/admin/", guild_id);
    url.append("/role/");
    url.append(role_id);
    Value::object().with("version", Value::number(1)).with("ui_mode", Value::text("iframe")).with(
        "name",
        Value::text("osu! Player Role"),
    ).with(
        "description",
        Value::text(
            "Grant Discord roles based on osu! profile and stats — rank, PP, play count, accuracy, supporter tag, badges, and 30+ more condition targets. Per-mode aware (osu / taiko / fruits / mania).",
        ),
    ).with("embed_url", Value::text(url.as_str())).with(
        // Read-only impersonation tokens are honored (writes are blocked
        // server-side), so RoleLogic may hand out a read-only token for viewing.
        "supports_impersonation_readonly",
        Value::Bool(true),
    )
}

/// POST /config is unreachable in iframe mode (the RoleLogic backend
/// rejects it before forwarding), but the contract still expects 200 on the
/// off chance an older backend forwards a call. Token has already been
/// verified in the handler.
pub fn accept_empty_config() -> (r: Value)
    ensures
        r@ == Json::object().with("success"@, Json::Bool(true)),
{
    Value::object().with("success", Value::Bool(true))
}

/// RoleLogic is sent to the page of the role link that it asks about, which the plugin
/// shows in a frame.
pub proof fn law_config_embeds_the_page_of_the_link(
    base_url: &str,
    guild_id: &str,
    role_id: &str,
    r: Value,
)
    requires
        call_ensures(build_iframe_config, (base_url, guild_id, role_id), r),
    ensures
        r@.field("ui_mode"@) == Some(Json::Text("iframe"@)),
        r@.field("embed_url"@) == Some(
            Json::Text(base_url@ + "/admin/"@ + guild_id@ + "/role/"@ + role_id@),
        ),
        r@.field("version"@) == Some(Json::Int(1)),
        r@.field("supports_impersonation_readonly"@) == Some(Json::Bool(true)),
{
    reveal_strlit("version");
    reveal_strlit("ui_mode");
    reveal_strlit("name");
    reveal_strlit("description");
    reveal_strlit("embed_url");
    reveal_strlit("supports_impersonation_readonly");
    assert("version"@.len() == 7 && "version"@[0] == 'v');
    assert("ui_mode"@.len() == 7 && "ui_mode"@[0] == 'u');
    assert("name"@.len() == 4 && "name"@[0] == 'n');
    assert("description"@.len() == 11 && "description"@[0] == 'd');
    assert("embed_url"@.len() == 9 && "embed_url"@[0] == 'e');
    assert("supports_impersonation_readonly"@.len() == 31 && "supports_impersonation_readonly"@[0] == 's');
    let j = r@;
    assert(j->Fields_0[0].0 == "version"@);
    assert(j->Fields_0[1].0 == "ui_mode"@);
    assert(j->Fields_0[2].0 == "name"@);
    assert(j->Fields_0[3].0 == "description"@);
    assert(j->Fields_0[4].0 == "embed_url"@);
    assert(j->Fields_0[5].0 == "supports_impersonation_readonly"@);
    crate::json::lemma_field_at(j->Fields_0, 0);
    crate::json::lemma_field_at(j->Fields_0, 1);
    crate::json::lemma_field_at(j->Fields_0, 4);
    crate::json::lemma_field_at(j->Fields_0, 5);
}

} // verus!

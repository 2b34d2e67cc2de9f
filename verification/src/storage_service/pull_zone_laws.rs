//! What the calls about pull zones do to them.
use vstd::prelude::*;
use crate::error::ServiceError;
use crate::http::Method;
use crate::json::{number_display, Json, JsonView};
use crate::reading::{
    failed_with, keys_of, refused_with, text_under, value_under, was_refused,
};
use crate::storage_service::bunnynet::{BunnynetCall, BunnynetRetryPolicy, CallView};
use crate::storage_service::cdn_service::CdnService;
use crate::storage_service::pull_zone::{
    begin_creation, begin_update, domain_calls, hostname_calls, remove_hostname_call, secured,
    AdapterPlan, CdnCreation, CdnUpdate, PlannedView,
};
use crate::storage_service::storage_service_trait::Settings;
use crate::types::{AdapterConfig, AdapterConfigView, CdnConfig, CdnConfigView};

verus! {

/// A pull zone: the host names that it answers to, those for which it has a certificate, and those
/// for which it insists on using it.
#[verifier::ext_equal]
pub struct ZoneState {
    pub hosts: Set<Seq<char>>,
    pub certified: Set<Seq<char>>,
    pub forced: Set<Seq<char>>,
}

/// A pull zone that serves nothing but the given host names, all of them under their certificates.
pub open spec fn serving(hosts: Set<Seq<char>>) -> ZoneState {
    ZoneState { hosts, certified: hosts, forced: hosts }
}

/// The host names that come of an optional domain.
pub open spec fn hosts_of(domain: Option<Seq<char>>) -> Set<Seq<char>> {
    match domain {
        Some(domain) => set![domain],
        None => set![],
    }
}

/// The host name that the body of a call names.
pub open spec fn named_host(body: Option<JsonView>) -> Seq<char> {
    match body {
        Some(JsonView::Object(entries)) => entries["Hostname"@]->Text_0,
        _ => Seq::empty(),
    }
}

/// The path of an action on a pull zone.
pub open spec fn action_path(zone_id: Seq<char>, action: Seq<char>) -> Seq<char> {
    "pullzone/"@ + zone_id + "/"@ + action
}

/// The path of the request for a certificate of a host name.
pub open spec fn certificate_path(host: Seq<char>) -> Seq<char> {
    "pullzone/loadFreeCertificate?hostname="@ + host
}

/// What a call does to a pull zone. A host name gets a certificate only while the zone answers to
/// it, and the zone insists on a certificate only where it has one.
pub open spec fn carried_out(zone_id: Seq<char>, zone: ZoneState, call: CallView) -> ZoneState {
    let host = named_host(call.body);
    if call.method == Method::Post && call.path == action_path(zone_id, "addHostname"@) {
        ZoneState { hosts: zone.hosts.insert(host), ..zone }
    } else if call.method == Method::Delete && call.path == action_path(
        zone_id,
        "removeHostname"@,
    ) {
        ZoneState {
            hosts: zone.hosts.remove(host),
            certified: zone.certified.remove(host),
            forced: zone.forced.remove(host),
        }
    } else if call.method == Method::Get && exists|name: Seq<char>|
        zone.hosts.contains(name) && call.path == #[trigger] certificate_path(name) {
        ZoneState {
            certified: zone.certified.insert(
                choose|name: Seq<char>|
                    zone.hosts.contains(name) && call.path == #[trigger] certificate_path(name),
            ),
            ..zone
        }
    } else if call.method == Method::Post && call.path == action_path(zone_id, "setForceSSL"@)
        && zone.certified.contains(host) && call.body->0->Object_0["ForceSSL"@] == JsonView::Bool(
        true,
    ) {
        ZoneState { forced: zone.forced.insert(host), ..zone }
    } else {
        zone
    }
}

/// What the calls of a plan do to a pull zone, one after the other.
pub open spec fn all_carried_out(
    zone_id: Seq<char>,
    zone: ZoneState,
    calls: Seq<PlannedView>,
) -> ZoneState
    decreases calls.len(),
{
    if calls.len() == 0 {
        zone
    } else {
        carried_out(
            zone_id,
            all_carried_out(zone_id, zone, calls.drop_last()),
            calls.last().call,
        )
    }
}

proof fn lemma_paths(zone_id: Seq<char>)
    ensures
        action_path(zone_id, "addHostname"@) != action_path(zone_id, "setForceSSL"@),
        "pullzone/"@ + zone_id + "/addHostname"@ == action_path(zone_id, "addHostname"@),
        "pullzone/"@ + zone_id + "/removeHostname"@ == action_path(zone_id, "removeHostname"@),
        "pullzone/"@ + zone_id + "/setForceSSL"@ == action_path(zone_id, "setForceSSL"@),
        "ForceSSL"@ != "Hostname"@,
{
    reveal_strlit("addHostname");
    reveal_strlit("setForceSSL");
    reveal_strlit("removeHostname");
    reveal_strlit("/addHostname");
    reveal_strlit("/setForceSSL");
    reveal_strlit("/removeHostname");
    reveal_strlit("/");
    reveal_strlit("ForceSSL");
    reveal_strlit("Hostname");
    let front = "pullzone/"@ + zone_id + "/"@;
    assert((front + "addHostname"@)[front.len() as int] == 'a');
    assert((front + "setForceSSL"@)[front.len() as int] == 's');
    assert("/addHostname"@ =~= "/"@ + "addHostname"@);
    assert("/setForceSSL"@ =~= "/"@ + "setForceSSL"@);
    assert("/removeHostname"@ =~= "/"@ + "removeHostname"@);
    assert("pullzone/"@ + zone_id + "/addHostname"@ =~= action_path(zone_id, "addHostname"@));
    assert("pullzone/"@ + zone_id + "/removeHostname"@ =~= action_path(zone_id, "removeHostname"@));
    assert("pullzone/"@ + zone_id + "/setForceSSL"@ =~= action_path(zone_id, "setForceSSL"@));
    assert("ForceSSL"@[0] == 'F' && "Hostname"@[0] == 'H');
}

proof fn lemma_certificate_path(a: Seq<char>, b: Seq<char>)
    requires
        certificate_path(a) == certificate_path(b),
    ensures
        a == b,
{
    let front = "pullzone/loadFreeCertificate?hostname="@;
    assert(a =~= certificate_path(a).skip(front.len() as int));
    assert(b =~= certificate_path(b).skip(front.len() as int));
}

proof fn lemma_attached(zone_id: Seq<char>, calls: Seq<PlannedView>, host: Seq<char>)
    requires
        calls == hostname_calls(zone_id, host),
    ensures
        all_carried_out(zone_id, serving(set![]), calls) == serving(set![host]),
{
    reveal_with_fuel(all_carried_out, 4);
    lemma_paths(zone_id);
    let empty = serving(set![]);
    assert(calls.drop_last().drop_last().drop_last() =~= seq![]);
    assert(calls.drop_last().drop_last().last() == calls[0]);
    assert(calls.drop_last().last() == calls[1]);
    let one = carried_out(zone_id, empty, calls[0].call);
    assert(one.hosts =~= set![host]);
    assert(certificate_path(host) == calls[1].call.path);
    assert(one.hosts.contains(host));
    let name = choose|name: Seq<char>|
        one.hosts.contains(name) && calls[1].call.path == #[trigger] certificate_path(name);
    lemma_certificate_path(name, host);
    let two = carried_out(zone_id, one, calls[1].call);
    assert(two.certified =~= set![host]);
    let three = carried_out(zone_id, two, calls[2].call);
    assert(three =~= serving(set![host]));
}

proof fn lemma_exchanged(
    old: CdnConfigView,
    new: CdnConfigView,
)
    ensures
        all_carried_out(
            old.pull_zone_id,
            serving(hosts_of(old.domain)),
            domain_calls(old, new),
        ) == serving(hosts_of(new.domain)),
{
    let calls = domain_calls(old, new);
    let zone_id = old.pull_zone_id;
    let before = serving(hosts_of(old.domain));
    if new.domain == old.domain {
    } else {
        lemma_paths(zone_id);
        reveal_with_fuel(all_carried_out, 5);
        match old.domain {
            None => {
                if let Some(host) = new.domain {
                    assert(calls =~= hostname_calls(zone_id, host));
                    lemma_attached(zone_id, calls, host);
                } else {
                    assert(calls =~= seq![]);
                }
            },
            Some(gone) => {
                let removal = remove_hostname_call(zone_id, gone);
                let after = carried_out(zone_id, before, removal.call);
                assert(after =~= serving(set![]));
                if let Some(host) = new.domain {
                    let added = hostname_calls(zone_id, host);
                    assert(calls =~= seq![removal] + added);
                    lemma_attached(zone_id, added, host);
                    lemma_after_first(zone_id, before, removal, added);
                } else {
                    assert(calls =~= seq![removal]);
                    assert(calls.drop_last() =~= seq![]);
                }
            },
        }
    }
}

proof fn lemma_after_first(
    zone_id: Seq<char>,
    zone: ZoneState,
    first: PlannedView,
    rest: Seq<PlannedView>,
)
    ensures
        all_carried_out(zone_id, zone, seq![first] + rest) == all_carried_out(
            zone_id,
            carried_out(zone_id, zone, first.call),
            rest,
        ),
    decreases rest.len(),
{
    let calls = seq![first] + rest;
    if rest.len() == 0 {
        assert(calls.drop_last() =~= seq![]);
        reveal_with_fuel(all_carried_out, 2);
    } else {
        assert(calls.drop_last() =~= seq![first] + rest.drop_last());
        lemma_after_first(zone_id, zone, first, rest.drop_last());
    }
}

/// Carrying out the plan of an update takes a pull zone that serves exactly the old domain, or
/// none, to one that serves exactly the new domain, or none, with a certificate for it that it
/// insists on. That holds of an update that leaves the security of the zone alone and of one that
/// has changed it.
pub proof fn law_update_exchanges_the_domain(
    old_config: AdapterConfig,
    new_config: AdapterConfig,
    has_linked_alias: bool,
    update: Result<CdnUpdate, ServiceError>,
    reply: Result<Option<Json>, String>,
    plan: Result<AdapterPlan, ServiceError>,
)
    requires
        call_ensures(begin_update, (old_config, new_config, has_linked_alias), update),
        update matches Ok(CdnUpdate::Plan(begun)) ==> plan == Ok::<AdapterPlan, ServiceError>(begun),
        update matches Ok(CdnUpdate::Secure { call, old, new }) ==> call_ensures(
            secured,
            (old, new, reply),
            plan,
        ),
    ensures
        update is Ok && plan is Ok ==> {
            let old = old_config.deep_view()->Cdn_0;
            let new = new_config.deep_view()->Cdn_0;
            &&& old_config is Cdn && new_config is Cdn
            &&& all_carried_out(
                old.pull_zone_id,
                serving(hosts_of(old.domain)),
                plan->Ok_0.deep_view().calls,
            ) == serving(hosts_of(new.domain))
        },
{
    if update is Ok && plan is Ok {
        lemma_exchanged(old_config.deep_view()->Cdn_0, new_config.deep_view()->Cdn_0);
    }
}

/// Once a pull zone has been created, carrying out the rest of the plan makes it serve exactly the
/// domain that was asked for, or none, with a certificate for it that it insists on.
pub proof fn law_creation_attaches_the_domain(
    creation: CdnCreation,
    reply: Result<Option<Json>, String>,
    plan: Result<AdapterPlan, ServiceError>,
)
    requires
        call_ensures(CdnCreation::created, (creation, reply), plan),
    ensures
        plan matches Ok(plan) ==> all_carried_out(
            plan.deep_view().config.pull_zone_id,
            serving(set![]),
            plan.deep_view().calls,
        ) == serving(hosts_of(creation.deep_view().config.domain)),
{
    if let Ok(plan) = plan {
        if let Some(host) = creation.deep_view().config.domain {
            lemma_attached(
                plan.deep_view().config.pull_zone_id,
                plan.deep_view().calls,
                host,
            );
        }
    }
}

/// An update is refused exactly where a configuration is not that of a CDN, where aliases and
/// tokens would come together, and where aliases would go although one is in use. Otherwise the
/// security of the zone is changed first, by a call that says what it is to be, exactly where it
/// differs.
pub proof fn law_updates_begin_with_security(
    old_config: AdapterConfig,
    new_config: AdapterConfig,
    has_linked_alias: bool,
    update: Result<CdnUpdate, ServiceError>,
)
    requires
        call_ensures(begin_update, (old_config, new_config, has_linked_alias), update),
    ensures
        match (old_config.deep_view(), new_config.deep_view()) {
            (AdapterConfigView::Cdn(old), AdapterConfigView::Cdn(new)) => {
                &&& update is Err <==> (new.alias_enabled && new.use_authentication || (
                has_linked_alias && !new.alias_enabled))
                &&& update is Ok ==> (update->Ok_0 is Secure <==> old.use_authentication
                    != new.use_authentication)
                &&& update matches Ok(CdnUpdate::Secure { call, old: from, new: to }) ==> {
                    let call = call.deep_view();
                    let body = call.body->0;
                    &&& from.deep_view() == old && to.deep_view() == new
                    &&& call.method == Method::Post
                    &&& call.path == "pullzone/"@ + old.pull_zone_id
                    &&& call.policy == BunnynetRetryPolicy::Idempotent
                    &&& call.body is Some
                    &&& keys_of(body) == set!["ZoneSecurityEnabled"@]
                    &&& value_under(body, "ZoneSecurityEnabled"@) == Some(
                        JsonView::Bool(new.use_authentication),
                    )
                }
            },
            _ => update is Err,
        },
        update is Err ==> was_refused(update),
{
    if let Ok(CdnUpdate::Secure { call, old, new }) = update {
        assert(keys_of(call.deep_view().body->0) =~= set!["ZoneSecurityEnabled"@]);
    }
}

/// An updated adapter has the domain, the security and the aliases that were asked for, and the
/// identifier and the name of the old pull zone. Its security key stays where the security does; a
/// zone that comes to ask for tokens has the key from the reply, and one that no longer does has
/// none.
pub proof fn law_updated_configuration(
    old_config: CdnConfig,
    new_config: CdnConfig,
    has_linked_alias: bool,
    update: Result<CdnUpdate, ServiceError>,
    reply: Result<Option<Json>, String>,
    plan: Result<AdapterPlan, ServiceError>,
)
    requires
        call_ensures(
            begin_update,
            (AdapterConfig::Cdn(old_config), AdapterConfig::Cdn(new_config), has_linked_alias),
            update,
        ),
        update matches Ok(CdnUpdate::Plan(begun)) ==> plan == Ok::<AdapterPlan, ServiceError>(begun),
        update matches Ok(CdnUpdate::Secure { call, old, new }) ==> call_ensures(
            secured,
            (old, new, reply),
            plan,
        ),
    ensures
        update is Ok && plan is Ok ==> {
            let old = old_config.deep_view();
            let new = new_config.deep_view();
            let config = plan->Ok_0.deep_view().config;
            &&& config.domain == new.domain
            &&& config.use_authentication == new.use_authentication
            &&& config.alias_enabled == new.alias_enabled
            &&& config.pull_zone_id == old.pull_zone_id
            &&& config.pull_zone_name == old.pull_zone_name
            &&& old.use_authentication == new.use_authentication ==> config.api_key == old.api_key
            &&& old.use_authentication && !new.use_authentication ==> config.api_key is None
            &&& !old.use_authentication && new.use_authentication ==> config.api_key is Some
                && reply is Ok && config.api_key == text_under(
                reply->Ok_0.deep_view()->0,
                "ZoneSecurityKey"@,
            )
        },
        update matches Ok(CdnUpdate::Secure { .. }) ==> (plan is Ok <==> {
            &&& reply matches Ok(Some(json))
            &&& new_config.use_authentication ==> text_under(
                json.deep_view(),
                "ZoneSecurityKey"@,
            ) is Some
        }),
{
}

/// An adapter is created unless it is not one of a CDN, asks for aliases and tokens together, or
/// has an identifier of which no name can be made. The call that creates the pull zone names it,
/// says where its contents come from and whether it asks for tokens, and is not repeated once it
/// may have been carried out.
pub proof fn law_creations_ask_for_a_zone(
    settings: &Settings,
    adapter_id: &str,
    new_config: AdapterConfig,
    creation: Result<CdnCreation, ServiceError>,
)
    requires
        call_ensures(begin_creation, (settings, adapter_id, new_config), creation),
    ensures
        !(new_config is Cdn) ==> was_refused(creation),
        new_config.deep_view() matches AdapterConfigView::Cdn(config) ==> {
            &&& config.alias_enabled && config.use_authentication ==> was_refused(creation)
            &&& creation matches Ok(creation) ==> {
                let call = creation.deep_view().call;
                let body = call.body->0;
                let prefix = settings.cdn_adapter_id_prefix@ + "_"@;
                let name = creation.deep_view().pullzone_name;
                &&& creation.deep_view().config == config
                &&& !(config.alias_enabled && config.use_authentication)
                &&& adapter_id@ == prefix + adapter_id@.skip(prefix.len() as int)
                &&& name == settings.bunnynet_pullzone_name_prefix@ + "-"@ + adapter_id@.skip(
                    prefix.len() as int,
                )
                &&& forall|i: int|
                    0 <= i < name.len() ==> ('0' <= #[trigger] name[i] <= '9' || 'A' <= name[i]
                        <= 'Z' || 'a' <= name[i] <= 'z' || name[i] == '-')
                &&& call.method == Method::Post
                &&& call.path == "pullzone"@
                &&& call.policy == BunnynetRetryPolicy::NonIdempotent
                &&& call.body is Some
                &&& keys_of(body) == set![
                    "ZoneSecurityEnabled"@,
                    "FollowRedirects"@,
                    "OriginUrl"@,
                    "Name"@,
                    "OptimizerEnabled"@,
                ]
                &&& value_under(body, "ZoneSecurityEnabled"@) == Some(
                    JsonView::Bool(config.use_authentication),
                )
                &&& value_under(body, "FollowRedirects"@) == Some(JsonView::Bool(true))
                &&& text_under(body, "OriginUrl"@) == Some(
                    settings.services_base_url@ + "/content/redirect/"@ + adapter_id@,
                )
                &&& text_under(body, "Name"@) == Some(name)
                &&& value_under(body, "OptimizerEnabled"@) == Some(JsonView::Bool(true))
            }
        },
{
    reveal_strlit("ZoneSecurityEnabled");
    reveal_strlit("FollowRedirects");
    reveal_strlit("OriginUrl");
    reveal_strlit("Name");
    reveal_strlit("OptimizerEnabled");
    assert("ZoneSecurityEnabled"@.len() == 19);
    assert("FollowRedirects"@.len() == 15);
    assert("OriginUrl"@.len() == 9);
    assert("Name"@.len() == 4);
    assert("OptimizerEnabled"@.len() == 16);
    if let Ok(made) = creation {
        let prefix = settings.cdn_adapter_id_prefix@ + "_"@;
        assert(adapter_id@ =~= prefix + adapter_id@.skip(prefix.len() as int));
        let name = made.deep_view().pullzone_name;
        assert forall|i: int| 0 <= i < name.len() implies ('0' <= #[trigger] name[i] <= '9' || 'A'
            <= name[i] <= 'Z' || 'a' <= name[i] <= 'z' || name[i] == '-') by {
            assert(crate::storage_service::cdn_service::zone_char(name[i]));
        }
        assert(keys_of(made.deep_view().call.body->0) =~= set![
            "ZoneSecurityEnabled"@,
            "FollowRedirects"@,
            "OriginUrl"@,
            "Name"@,
            "OptimizerEnabled"@,
        ]);
    }
}

/// A created adapter has the domain, the security and the aliases that were asked for, the
/// identifier from the reply, the name that was asked for, and a security key from the reply
/// exactly where it asks for tokens. It cannot come about where the reply lacks one of these.
pub proof fn law_created_configuration(
    creation: CdnCreation,
    reply: Result<Option<Json>, String>,
    plan: Result<AdapterPlan, ServiceError>,
)
    requires
        call_ensures(CdnCreation::created, (creation, reply), plan),
    ensures
        plan is Ok <==> {
            &&& reply matches Ok(Some(json))
            &&& value_under(json.deep_view(), "Id"@) matches Some(JsonView::Number(_))
            &&& creation.config.use_authentication ==> text_under(
                json.deep_view(),
                "ZoneSecurityKey"@,
            ) is Some
        },
        plan matches Ok(plan) ==> {
            let asked = creation.deep_view().config;
            let config = plan.deep_view().config;
            let json = reply->Ok_0.deep_view()->0;
            &&& config.domain == asked.domain
            &&& config.use_authentication == asked.use_authentication
            &&& config.alias_enabled == asked.alias_enabled
            &&& config.pull_zone_id == number_display(value_under(json, "Id"@)->0->Number_0)
            &&& config.pull_zone_name == creation.deep_view().pullzone_name
            &&& config.api_key == (if asked.use_authentication {
                text_under(json, "ZoneSecurityKey"@)
            } else {
                None
            })
        },
        reply matches Err(shown) ==> failed_with(
            plan,
            "Failed to send create pullzone request: ["@ + shown@ + "]"@,
        ),
{
    reveal_strlit("Failed to send create pullzone request: ");
    reveal_strlit("Failed to send create pullzone request: [");
    reveal_strlit("[");
    assert("Failed to send create pullzone request: ["@
        =~= "Failed to send create pullzone request: "@ + "["@);
}

/// The calls of a plan are made in order. One that succeeds is taken off the plan; one that fails
/// ends it, with its own report and what was said of the failure. The configuration is given out
/// once no call is left.
pub proof fn law_plans_are_carried_out_in_order(
    plan: AdapterPlan,
    call: Option<&BunnynetCall>,
    reply: Result<Option<Json>, String>,
    next: Result<AdapterPlan, ServiceError>,
    config: AdapterConfig,
)
    requires
        call_ensures(AdapterPlan::next_call, (&plan,), call),
        plan.deep_view().calls.len() > 0 ==> call_ensures(
            AdapterPlan::advance,
            (plan, reply),
            next,
        ),
        plan.deep_view().calls.len() == 0 ==> call_ensures(AdapterPlan::finish, (plan,), config),
    ensures
        ({
            let calls = plan.deep_view().calls;
            &&& calls.len() == 0 <==> call is None
            &&& calls.len() == 0 ==> config.deep_view() == AdapterConfigView::Cdn(
                plan.deep_view().config,
            )
            &&& calls.len() > 0 ==> {
                &&& call.deep_view() == Some(calls[0].call)
                &&& reply is Ok <==> next is Ok
                &&& next matches Ok(rest) ==> calls == seq![calls[0]] + rest.deep_view().calls
                    && rest.deep_view().config == plan.deep_view().config
                &&& reply matches Err(shown) ==> failed_with(
                    next,
                    calls[0].on_failure + "["@ + shown@ + "]"@,
                )
            }
        }),
{
    let calls = plan.deep_view().calls;
    if calls.len() > 0 {
        if let Ok(rest) = next {
            assert(calls =~= seq![calls[0]] + rest.deep_view().calls);
        }
    }
}

/// The call may be repeated, and its failure is reported as what it was to do.
pub open spec fn reports_itself(zone_id: Seq<char>, planned: PlannedView) -> bool {
    let call = planned.call;
    &&& call.policy == BunnynetRetryPolicy::Idempotent
    &&& match call.method {
        Method::Post => {
            &&& call.path == action_path(zone_id, "addHostname"@) ==> planned.on_failure
                == "Failed to send add hostname request: "@
            &&& call.path == action_path(zone_id, "setForceSSL"@) ==> planned.on_failure
                == "Failed to send set force SSL request: "@
        },
        Method::Delete => planned.on_failure == "Failed to send remove hostname request: "@,
        _ => planned.on_failure == "Failed to send load free certificate request: "@,
    }
}

/// The calls of a plan may all be repeated, and the failure of each is reported as what it was to
/// do. That holds of the plan of an update and of that of a creation.
pub proof fn law_planned_calls_report_their_failures(
    creation: CdnCreation,
    old: CdnConfig,
    new: CdnConfig,
    reply: Result<Option<Json>, String>,
    created: Result<AdapterPlan, ServiceError>,
    plan: Result<AdapterPlan, ServiceError>,
    at: int,
)
    requires
        call_ensures(CdnCreation::created, (creation, reply), created),
        call_ensures(secured, (old, new, reply), plan),
    ensures
        created matches Ok(made) ==> (0 <= at < made.deep_view().calls.len() ==> reports_itself(
            made.deep_view().config.pull_zone_id,
            made.deep_view().calls[at],
        )),
        plan matches Ok(plan) ==> (0 <= at < plan.deep_view().calls.len() ==> reports_itself(
            old.pull_zone_id@,
            plan.deep_view().calls[at],
        )),
{
    lemma_paths(old.pull_zone_id@);
    if let Ok(made) = created {
        lemma_paths(made.deep_view().config.pull_zone_id);
    }
}

/// What keeps an adapter from being created is told: what cannot be asked for first, then an
/// identifier without the prefix of a CDN or with characters that a name must not have.
pub proof fn law_creations_are_refused(
    settings: &Settings,
    adapter_id: &str,
    new_config: AdapterConfig,
    creation: Result<CdnCreation, ServiceError>,
    name: Result<String, ServiceError>,
)
    requires
        call_ensures(begin_creation, (settings, adapter_id, new_config), creation),
        call_ensures(
            CdnService::generate_pullzone_name_from_adapter_id,
            (&CdnService, settings, adapter_id),
            name,
        ),
    ensures
        !(new_config is Cdn) ==> refused_with(creation, "Invalid CDN config"@),
        new_config.deep_view() matches AdapterConfigView::Cdn(config) ==> {
            if config.alias_enabled && config.use_authentication {
                refused_with(
                    creation,
                    "Alias and authentication could not be enabled at the same time."@,
                )
            } else {
                match name {
                    Err(error) => creation matches Err(found) && found.deep_view()
                        == error.deep_view(),
                    Ok(name) => creation matches Ok(creation) && creation.pullzone_name@ == name@,
                }
            }
        },
        ({
            let prefix = settings.cdn_adapter_id_prefix@ + "_"@;
            let wanted = settings.bunnynet_pullzone_name_prefix@ + "-"@ + adapter_id@.skip(
                prefix.len() as int,
            );
            if !prefix.is_prefix_of(adapter_id@) {
                failed_with(name, "Failed to get CND adapter ID suffix"@)
            } else if exists|i: int|
                0 <= i < wanted.len() && !('0' <= #[trigger] wanted[i] <= '9' || 'A' <= wanted[i]
                    <= 'Z' || 'a' <= wanted[i] <= 'z' || wanted[i] == '-') {
                failed_with(
                    name,
                    "Pullzone name must consist of numbers, letters, and hyphens only"@,
                )
            } else {
                name matches Ok(name) && name@ == wanted
            }
        }),
{
    let prefix = settings.cdn_adapter_id_prefix@ + "_"@;
    let wanted = settings.bunnynet_pullzone_name_prefix@ + "-"@ + adapter_id@.skip(
        prefix.len() as int,
    );
    if prefix.is_prefix_of(adapter_id@) {
        if exists|i: int|
            0 <= i < wanted.len() && !('0' <= #[trigger] wanted[i] <= '9' || 'A' <= wanted[i]
                <= 'Z' || 'a' <= wanted[i] <= 'z' || wanted[i] == '-') {
            let i = choose|i: int|
                0 <= i < wanted.len() && !('0' <= #[trigger] wanted[i] <= '9' || 'A' <= wanted[i]
                    <= 'Z' || 'a' <= wanted[i] <= 'z' || wanted[i] == '-');
            assert(!crate::storage_service::cdn_service::zone_char(wanted[i]));
        } else {
            assert forall|i: int| 0 <= i < wanted.len() implies
                crate::storage_service::cdn_service::zone_char(#[trigger] wanted[i]) by {}
        }
    }
}

/// What keeps an adapter from being created or updated once a call has been made is told: that the
/// call failed, that its reply is empty, or what the reply lacks. What keeps an update from
/// beginning is told as well.
pub proof fn law_faults_of_zones_are_told(
    creation: CdnCreation,
    old: CdnConfig,
    new: CdnConfig,
    old_config: AdapterConfig,
    new_config: AdapterConfig,
    has_linked_alias: bool,
    reply: Result<Option<Json>, String>,
    created: Result<AdapterPlan, ServiceError>,
    plan: Result<AdapterPlan, ServiceError>,
    update: Result<CdnUpdate, ServiceError>,
)
    requires
        call_ensures(CdnCreation::created, (creation, reply), created),
        call_ensures(secured, (old, new, reply), plan),
        call_ensures(begin_update, (old_config, new_config, has_linked_alias), update),
    ensures
        match reply {
            Err(shown) => {
                &&& failed_with(
                    created,
                    "Failed to send create pullzone request: "@ + "["@ + shown@ + "]"@,
                )
                &&& failed_with(
                    plan,
                    "Failed to send update pullzone request: "@ + "["@ + shown@ + "]"@,
                )
            },
            Ok(None) => {
                &&& failed_with(created, "Expected response body from create pullzone request"@)
                &&& failed_with(plan, "Expected response body from update pullzone request"@)
            },
            Ok(Some(json)) => {
                let json = json.deep_view();
                let keyless = text_under(json, "ZoneSecurityKey"@) is None;
                let numbered = value_under(json, "Id"@) matches Some(JsonView::Number(_));
                &&& !numbered ==> failed_with(created, "Failed to get pullzone ID from response"@)
                &&& numbered && keyless && creation.config.use_authentication ==> failed_with(
                    created,
                    "Failed to get pullzone security key from response"@,
                )
                &&& keyless && new.use_authentication ==> failed_with(
                    plan,
                    "Failed to get pullzone security key from response"@,
                )
            },
        },
        match (old_config, new_config) {
            (AdapterConfig::Cdn(_), AdapterConfig::Cdn(wanted)) => {
                &&& wanted.alias_enabled && wanted.use_authentication ==> refused_with(
                    update,
                    "Cannot enable alias and use authentication at the same time"@,
                )
                &&& !wanted.alias_enabled && has_linked_alias ==> refused_with(
                    update,
                    "Cannot disable alias when CDN has linked alias"@,
                )
            },
            _ => refused_with(update, "Invalid CDN config"@),
        },
{
}

} // verus!

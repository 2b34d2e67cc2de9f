//! Creating, updating and deleting the pull zones behind CDN adapters.
use vstd::prelude::*;
use crate::error::{general, general_error, invalid, outcome, ErrorView, ServiceError};
use crate::http::Method;
use crate::json::{lookup, number_display, number_text, text_at, Json, JsonView};
use crate::storage_service::bunnynet::{
    idempotent_call, BunnynetCall, BunnynetRetryPolicy, CallView,
};
use crate::storage_service::cdn_service::{pullzone_name, CdnService};
use crate::storage_service::storage_service_trait::Settings;
use crate::text::{cat2, cat3, cat4};
use crate::types::{
    same_option, AdapterConfig, AdapterConfigView, CdnConfig, CdnConfigView,
};

verus! {

/// A call that remains to be made, and what is reported where it fails.
#[derive(Debug)]
pub struct PlannedCall {
    pub call: BunnynetCall,
    pub on_failure: String,
}

pub struct PlannedView {
    pub call: CallView,
    pub on_failure: Seq<char>,
}

impl DeepView for PlannedCall {
    type V = PlannedView;

    open spec fn deep_view(&self) -> PlannedView {
        PlannedView { call: self.call.deep_view(), on_failure: self.on_failure@ }
    }
}

/// The calls that remain to be made, in order, and the configuration that holds once all of
/// them have succeeded.
#[derive(Debug)]
pub struct AdapterPlan {
    pub calls: Vec<PlannedCall>,
    pub config: CdnConfig,
}

pub struct PlanView {
    pub calls: Seq<PlannedView>,
    pub config: CdnConfigView,
}

impl DeepView for AdapterPlan {
    type V = PlanView;

    open spec fn deep_view(&self) -> PlanView {
        PlanView { calls: self.calls.deep_view(), config: self.config.deep_view() }
    }
}

/// What came of a call: the document in its reply, if any, or the error as it is displayed.
pub open spec fn shown_reply(reply: Result<Option<Json>, String>) -> Result<
    Option<JsonView>,
    Seq<char>,
> {
    match reply {
        Ok(json) => Ok(json.deep_view()),
        Err(shown) => Err(shown@),
    }
}

/// The error for a call that failed.
pub open spec fn call_failed(on_failure: Seq<char>, shown: Seq<char>) -> ErrorView {
    general_error(on_failure + "["@ + shown + "]"@)
}

/// The error for a call that failed.
fn call_failure<T>(on_failure: &str, shown: &str) -> (result: Result<T, ServiceError>)
    ensures
        result matches Err(error) && error.deep_view() == call_failed(on_failure@, shown@),
{
    Err(ServiceError::of_message(cat4(on_failure, "[", shown, "]")))
}

/// What is left of a plan after its first call.
pub open spec fn plan_after(plan: PlanView, reply: Result<Option<JsonView>, Seq<char>>) -> Result<
    PlanView,
    ErrorView,
> {
    match reply {
        Ok(_) => Ok(PlanView { calls: plan.calls.skip(1), config: plan.config }),
        Err(shown) => Err(call_failed(plan.calls[0].on_failure, shown)),
    }
}

impl AdapterPlan {
    /// The call that is to be made next.
    pub fn next_call(&self) -> (call: Option<&BunnynetCall>)
        ensures
            call.deep_view() == (if self.deep_view().calls.len() == 0 {
                None
            } else {
                Some(self.deep_view().calls[0].call)
            }),
    {
        if self.calls.len() == 0 {
            None
        } else {
            Some(&self.calls[0].call)
        }
    }

    /// Takes in what came of the next call.
    pub fn advance(self, reply: Result<Option<Json>, String>) -> (plan: Result<Self, ServiceError>)
        requires
            self.deep_view().calls.len() > 0,
        ensures
            outcome(plan) == plan_after(self.deep_view(), shown_reply(reply)),
    {
        let mut calls = self.calls;
        let ghost all = calls.deep_view();
        let done = calls.remove(0);
        assert(calls.deep_view() =~= all.skip(1));
        match reply {
            Ok(_) => Ok(AdapterPlan { calls, config: self.config }),
            Err(shown) => call_failure(done.on_failure.as_str(), shown.as_str()),
        }
    }

    /// The configuration, once every call has succeeded.
    pub fn finish(self) -> (config: AdapterConfig)
        requires
            self.deep_view().calls.len() == 0,
        ensures
            config.deep_view() == AdapterConfigView::Cdn(self.deep_view().config),
    {
        AdapterConfig::Cdn(self.config)
    }
}

/// What carrying out a plan comes to when its calls come to the given ends in turn.
pub open spec fn plan_result(
    plan: PlanView,
    replies: Seq<Result<Option<JsonView>, Seq<char>>>,
) -> Result<CdnConfigView, ErrorView>
    recommends
        replies.len() == plan.calls.len(),
    decreases plan.calls.len(),
{
    if plan.calls.len() == 0 {
        Ok(plan.config)
    } else {
        match plan_after(plan, replies[0]) {
            Ok(rest) => plan_result(rest, replies.skip(1)),
            Err(error) => Err(error),
        }
    }
}

/// Carrying out a plan gives its configuration where every call succeeds, and otherwise reports
/// the first call that failed.
pub proof fn law_plan_reports_first_failure(
    plan: PlanView,
    replies: Seq<Result<Option<JsonView>, Seq<char>>>,
    at: int,
)
    requires
        replies.len() == plan.calls.len(),
        0 <= at <= replies.len(),
        forall|i: int| 0 <= i < at ==> (#[trigger] replies[i]) is Ok,
        at < replies.len() ==> replies[at] is Err,
    ensures
        plan_result(plan, replies) == (if at == replies.len() {
            Ok::<CdnConfigView, ErrorView>(plan.config)
        } else {
            Err::<CdnConfigView, ErrorView>(
                call_failed(plan.calls[at].on_failure, replies[at]->Err_0),
            )
        }),
    decreases at,
{
    if at > 0 {
        assert(replies[0] is Ok);
        let rest = PlanView { calls: plan.calls.skip(1), config: plan.config };
        assert forall|i: int| 0 <= i < at - 1 implies (#[trigger] replies.skip(1)[i]) is Ok by {
            assert(replies[i + 1] is Ok);
        }
        law_plan_reports_first_failure(rest, replies.skip(1), at - 1);
    }
}

/// The body of a call about a host name.
pub open spec fn hostname_body(domain: Seq<char>) -> JsonView {
    JsonView::Object(map!["Hostname"@ => JsonView::Text(domain)])
}

/// The calls that attach a domain to a pull zone: adding it, loading a certificate for it, and
/// insisting on that.
pub open spec fn hostname_calls(zone_id: Seq<char>, domain: Seq<char>) -> Seq<PlannedView> {
    seq![
        PlannedView {
            call: idempotent_call(
                Method::Post,
                "pullzone/"@ + zone_id + "/addHostname"@,
                Some(hostname_body(domain)),
            ),
            on_failure: "Failed to send add hostname request: "@,
        },
        PlannedView {
            call: idempotent_call(
                Method::Get,
                "pullzone/loadFreeCertificate?hostname="@ + domain,
                None,
            ),
            on_failure: "Failed to send load free certificate request: "@,
        },
        PlannedView {
            call: idempotent_call(
                Method::Post,
                "pullzone/"@ + zone_id + "/setForceSSL"@,
                Some(
                    JsonView::Object(
                        map![
                            "ForceSSL"@ => JsonView::Bool(true),
                            "Hostname"@ => JsonView::Text(domain),
                        ],
                    ),
                ),
            ),
            on_failure: "Failed to send set force SSL request: "@,
        },
    ]
}

/// The call that detaches a domain from a pull zone.
pub open spec fn remove_hostname_call(zone_id: Seq<char>, domain: Seq<char>) -> PlannedView {
    PlannedView {
        call: idempotent_call(
            Method::Delete,
            "pullzone/"@ + zone_id + "/removeHostname"@,
            Some(hostname_body(domain)),
        ),
        on_failure: "Failed to send remove hostname request: "@,
    }
}

/// Adds the calls that attach a domain to a pull zone.
fn push_hostname_calls(calls: &mut Vec<PlannedCall>, zone_id: &str, domain: &str)
    ensures
        final(calls).deep_view() == old(calls).deep_view() + hostname_calls(zone_id@, domain@),
{
    let ghost before = calls.deep_view();
    let body = Json::object().with("Hostname", Json::of_text(domain));
    let first = PlannedCall {
        call: BunnynetCall::idempotent(
            Method::Post,
            cat3("pullzone/", zone_id, "/addHostname"),
            Some(body),
        ),
        on_failure: "Failed to send add hostname request: ".to_string(),
    };
    let second = PlannedCall {
        call: BunnynetCall::idempotent(
            Method::Get,
            cat2("pullzone/loadFreeCertificate?hostname=", domain),
            None,
        ),
        on_failure: "Failed to send load free certificate request: ".to_string(),
    };
    let body = Json::object().with("ForceSSL", Json::Bool(true)).with(
        "Hostname",
        Json::of_text(domain),
    );
    let third = PlannedCall {
        call: BunnynetCall::idempotent(
            Method::Post,
            cat3("pullzone/", zone_id, "/setForceSSL"),
            Some(body),
        ),
        on_failure: "Failed to send set force SSL request: ".to_string(),
    };
    let ghost added = hostname_calls(zone_id@, domain@);
    assert(first.deep_view() == added[0]);
    assert(second.deep_view() == added[1]);
    assert(third.deep_view() == added[2]);
    calls.push(first);
    calls.push(second);
    calls.push(third);
    assert(calls.deep_view() =~= before + added);
}

/// A pull zone that is being created.
#[derive(Debug)]
pub struct CdnCreation {
    pub call: BunnynetCall,
    pub config: CdnConfig,
    pub pullzone_name: String,
}

pub struct CreationView {
    pub call: CallView,
    pub config: CdnConfigView,
    pub pullzone_name: Seq<char>,
}

impl DeepView for CdnCreation {
    type V = CreationView;

    open spec fn deep_view(&self) -> CreationView {
        CreationView {
            call: self.call.deep_view(),
            config: self.config.deep_view(),
            pullzone_name: self.pullzone_name@,
        }
    }
}

/// The call that creates a pull zone. It must not be repeated once the server may have carried
/// it out.
pub open spec fn create_call(
    settings: &Settings,
    adapter_id: Seq<char>,
    name: Seq<char>,
    use_authentication: bool,
) -> CallView {
    CallView {
        method: Method::Post,
        path: "pullzone"@,
        body: Some(
            JsonView::Object(
                map![
                    "ZoneSecurityEnabled"@ => JsonView::Bool(use_authentication),
                    "FollowRedirects"@ => JsonView::Bool(true),
                    "OriginUrl"@ => JsonView::Text(
                        settings.services_base_url@ + "/content/redirect/"@ + adapter_id,
                    ),
                    "Name"@ => JsonView::Text(name),
                    "OptimizerEnabled"@ => JsonView::Bool(true),
                ],
            ),
        ),
        policy: BunnynetRetryPolicy::NonIdempotent,
    }
}

/// How the creation of an adapter begins.
pub open spec fn creation_of(
    settings: &Settings,
    adapter_id: Seq<char>,
    new_config: AdapterConfigView,
) -> Result<CreationView, ErrorView> {
    match new_config {
        AdapterConfigView::Cdn(config) => if config.alias_enabled && config.use_authentication {
            Err(
                ErrorView::InvalidRequestParameters(
                    "Alias and authentication could not be enabled at the same time."@,
                ),
            )
        } else {
            match pullzone_name(settings, adapter_id) {
                Err(error) => Err(error),
                Ok(name) => Ok(
                    CreationView {
                        call: create_call(settings, adapter_id, name, config.use_authentication),
                        config,
                        pullzone_name: name,
                    },
                ),
            }
        },
        _ => Err(ErrorView::InvalidRequestParameters("Invalid CDN config"@)),
    }
}

/// Begins the creation of an adapter.
pub fn begin_creation(settings: &Settings, adapter_id: &str, new_config: AdapterConfig) -> (creation:
    Result<CdnCreation, ServiceError>)
    ensures
        outcome(creation) == creation_of(settings, adapter_id@, new_config.deep_view()),
{
    let config = match new_config {
        AdapterConfig::Cdn(config) => config,
        _ => {
            return invalid("Invalid CDN config");
        },
    };
    if config.alias_enabled && config.use_authentication {
        return invalid("Alias and authentication could not be enabled at the same time.");
    }
    let name = match CdnService::new().generate_pullzone_name_from_adapter_id(
        settings,
        adapter_id,
    ) {
        Ok(name) => name,
        Err(error) => {
            return Err(error);
        },
    };
    let origin = cat3(settings.services_base_url.as_str(), "/content/redirect/", adapter_id);
    let body = Json::object()
        .with("ZoneSecurityEnabled", Json::Bool(config.use_authentication))
        .with("FollowRedirects", Json::Bool(true))
        .with("OriginUrl", Json::of_text(origin.as_str()))
        .with("Name", Json::of_text(name.as_str()))
        .with("OptimizerEnabled", Json::Bool(true));
    Ok(
        CdnCreation {
            call: BunnynetCall {
                method: Method::Post,
                path: "pullzone".to_string(),
                body: Some(body),
                policy: BunnynetRetryPolicy::NonIdempotent,
            },
            config,
            pullzone_name: name,
        },
    )
}

/// The identifier of a pull zone in a reply.
pub open spec fn zone_id_in(json: JsonView) -> Option<Seq<char>> {
    match lookup(json, "Id"@) {
        Some(id) => match id {
            JsonView::Number(number) => Some(number_display(number)),
            _ => None,
        },
        None => None,
    }
}

/// The identifier of a pull zone in a reply.
fn read_zone_id(json: &Json) -> (id: Option<String>)
    ensures
        id.deep_view() == zone_id_in(json.deep_view()),
{
    match json.get("Id") {
        Some(id) => match id.as_number() {
            Some(number) => Some(number_text(number)),
            None => None,
        },
        None => None,
    }
}

/// The security key that a pull zone has: one from the reply where it asks for tokens, and none
/// otherwise.
pub open spec fn zone_key_in(json: JsonView, use_authentication: bool) -> Result<
    Option<Seq<char>>,
    ErrorView,
> {
    if use_authentication {
        match text_at(json, "ZoneSecurityKey"@) {
            Some(key) => Ok(Some(key)),
            None => Err(
                general_error("Failed to get pullzone security key from response"@),
            ),
        }
    } else {
        Ok(None)
    }
}

/// The security key that a pull zone has.
fn read_zone_key(json: &Json, use_authentication: bool) -> (key: Result<
    Option<String>,
    ServiceError,
>)
    ensures
        outcome(key) == zone_key_in(json.deep_view(), use_authentication),
{
    if use_authentication {
        match json.text_at("ZoneSecurityKey") {
            Some(key) => Ok(Some(key)),
            None => general("Failed to get pullzone security key from response"),
        }
    } else {
        Ok(None)
    }
}

/// What remains to be done once a pull zone has been created: its domain, where it has one, is
/// attached.
pub open spec fn plan_for_created(
    creation: CreationView,
    reply: Result<Option<JsonView>, Seq<char>>,
) -> Result<PlanView, ErrorView> {
    match reply {
        Err(shown) => Err(call_failed("Failed to send create pullzone request: "@, shown)),
        Ok(None) => Err(
            general_error("Expected response body from create pullzone request"@),
        ),
        Ok(Some(json)) => match zone_id_in(json) {
            None => Err(general_error("Failed to get pullzone ID from response"@)),
            Some(id) => match zone_key_in(json, creation.config.use_authentication) {
                Err(error) => Err(error),
                Ok(key) => Ok(
                    PlanView {
                        calls: match creation.config.domain {
                            Some(domain) => hostname_calls(id, domain),
                            None => seq![],
                        },
                        config: CdnConfigView {
                            api_key: key,
                            pull_zone_id: id,
                            pull_zone_name: creation.pullzone_name,
                            ..creation.config
                        },
                    },
                ),
            },
        },
    }
}

impl CdnCreation {
    /// Takes in the reply to the call that creates the pull zone.
    pub fn created(self, reply: Result<Option<Json>, String>) -> (plan: Result<
        AdapterPlan,
        ServiceError,
    >)
        ensures
            outcome(plan) == plan_for_created(self.deep_view(), shown_reply(reply)),
    {
        let json = match reply {
            Err(shown) => {
                return call_failure("Failed to send create pullzone request: ", shown.as_str());
            },
            Ok(None) => {
                return general("Expected response body from create pullzone request");
            },
            Ok(Some(json)) => json,
        };
        let id = match read_zone_id(&json) {
            Some(id) => id,
            None => {
                return general("Failed to get pullzone ID from response");
            },
        };
        let key = match read_zone_key(&json, self.config.use_authentication) {
            Ok(key) => key,
            Err(error) => {
                return Err(error);
            },
        };
        let mut calls: Vec<PlannedCall> = Vec::new();
        assert(calls.deep_view() =~= seq![]);
        if let Some(domain) = &self.config.domain {
            push_hostname_calls(&mut calls, id.as_str(), domain.as_str());
            assert(calls.deep_view() =~= hostname_calls(id@, domain@));
        }
        Ok(
            AdapterPlan {
                calls,
                config: CdnConfig {
                    api_key: key,
                    pull_zone_id: id,
                    pull_zone_name: self.pullzone_name,
                    ..self.config
                },
            },
        )
    }
}

/// A pull zone that is being updated.
#[derive(Debug)]
pub enum CdnUpdate {
    /// Whether the zone asks for tokens changes, which is to be requested first.
    Secure { call: BunnynetCall, old: CdnConfig, new: CdnConfig },
    /// Only the domain may change.
    Plan(AdapterPlan),
}

pub enum UpdateView {
    Secure { call: CallView, old: CdnConfigView, new: CdnConfigView },
    Plan(PlanView),
}

impl DeepView for CdnUpdate {
    type V = UpdateView;

    open spec fn deep_view(&self) -> UpdateView {
        match self {
            CdnUpdate::Secure { call, old, new } => UpdateView::Secure {
                call: call.deep_view(),
                old: old.deep_view(),
                new: new.deep_view(),
            },
            CdnUpdate::Plan(plan) => UpdateView::Plan(plan.deep_view()),
        }
    }
}

/// The calls that exchange the domain of a pull zone.
pub open spec fn domain_calls(old: CdnConfigView, new: CdnConfigView) -> Seq<PlannedView> {
    if new.domain == old.domain {
        seq![]
    } else {
        (match old.domain {
            Some(domain) => seq![remove_hostname_call(old.pull_zone_id, domain)],
            None => seq![],
        }) + (match new.domain {
            Some(domain) => hostname_calls(old.pull_zone_id, domain),
            None => seq![],
        })
    }
}

/// What remains to be done once the security of a pull zone is settled. The zone keeps its
/// identifier and its name.
pub open spec fn update_plan(
    old: CdnConfigView,
    new: CdnConfigView,
    key: Option<Seq<char>>,
) -> PlanView {
    PlanView {
        calls: domain_calls(old, new),
        config: CdnConfigView {
            api_key: key,
            pull_zone_id: old.pull_zone_id,
            pull_zone_name: old.pull_zone_name,
            ..new
        },
    }
}

/// How the update of an adapter begins.
pub open spec fn update_of(
    old_config: AdapterConfigView,
    new_config: AdapterConfigView,
    has_linked_alias: bool,
) -> Result<UpdateView, ErrorView> {
    match (old_config, new_config) {
        (AdapterConfigView::Cdn(old), AdapterConfigView::Cdn(new)) => if new.alias_enabled
            && new.use_authentication {
            Err(
                ErrorView::InvalidRequestParameters(
                    "Cannot enable alias and use authentication at the same time"@,
                ),
            )
        } else if !new.alias_enabled && has_linked_alias {
            Err(
                ErrorView::InvalidRequestParameters(
                    "Cannot disable alias when CDN has linked alias"@,
                ),
            )
        } else if new.use_authentication != old.use_authentication {
            Ok(
                UpdateView::Secure {
                    call: idempotent_call(
                        Method::Post,
                        "pullzone/"@ + old.pull_zone_id,
                        Some(
                            JsonView::Object(
                                map![
                                    "ZoneSecurityEnabled"@ => JsonView::Bool(
                                        new.use_authentication,
                                    ),
                                ],
                            ),
                        ),
                    ),
                    old,
                    new,
                },
            )
        } else {
            Ok(UpdateView::Plan(update_plan(old, new, old.api_key)))
        },
        _ => Err(ErrorView::InvalidRequestParameters("Invalid CDN config"@)),
    }
}

/// The plan for the update of an adapter.
fn plan_update(old: CdnConfig, new: CdnConfig, key: Option<String>) -> (plan: AdapterPlan)
    ensures
        plan.deep_view() == update_plan(old.deep_view(), new.deep_view(), key.deep_view()),
{
    let mut calls: Vec<PlannedCall> = Vec::new();
    assert(calls.deep_view() =~= seq![]);
    if !same_option(&new.domain, &old.domain) {
        if let Some(domain) = &old.domain {
            let body = Json::object().with("Hostname", Json::of_text(domain.as_str()));
            let planned = PlannedCall {
                call: BunnynetCall::idempotent(
                    Method::Delete,
                    cat3("pullzone/", old.pull_zone_id.as_str(), "/removeHostname"),
                    Some(body),
                ),
                on_failure: "Failed to send remove hostname request: ".to_string(),
            };
            assert(planned.deep_view() == remove_hostname_call(old.pull_zone_id@, domain@));
            calls.push(planned);
            assert(calls.deep_view() =~= seq![remove_hostname_call(old.pull_zone_id@, domain@)]);
        }
        if let Some(domain) = &new.domain {
            push_hostname_calls(&mut calls, old.pull_zone_id.as_str(), domain.as_str());
        }
    }
    assert(calls.deep_view() =~= domain_calls(old.deep_view(), new.deep_view()));
    AdapterPlan {
        calls,
        config: CdnConfig {
            api_key: key,
            pull_zone_id: old.pull_zone_id,
            pull_zone_name: old.pull_zone_name,
            ..new
        },
    }
}

/// Begins the update of an adapter.
pub fn begin_update(
    old_config: AdapterConfig,
    new_config: AdapterConfig,
    has_linked_alias: bool,
) -> (update: Result<CdnUpdate, ServiceError>)
    ensures
        outcome(update) == update_of(
            old_config.deep_view(),
            new_config.deep_view(),
            has_linked_alias,
        ),
{
    let old = match old_config {
        AdapterConfig::Cdn(old) => old,
        _ => {
            return invalid("Invalid CDN config");
        },
    };
    let new = match new_config {
        AdapterConfig::Cdn(new) => new,
        _ => {
            return invalid("Invalid CDN config");
        },
    };
    if new.alias_enabled && new.use_authentication {
        return invalid("Cannot enable alias and use authentication at the same time");
    }
    if !new.alias_enabled && has_linked_alias {
        return invalid("Cannot disable alias when CDN has linked alias");
    }
    if new.use_authentication != old.use_authentication {
        let body = Json::object().with("ZoneSecurityEnabled", Json::Bool(new.use_authentication));
        let call = BunnynetCall::idempotent(
            Method::Post,
            cat2("pullzone/", old.pull_zone_id.as_str()),
            Some(body),
        );
        return Ok(CdnUpdate::Secure { call, old, new });
    }
    let key = crate::types::copy_text(&old.api_key);
    Ok(CdnUpdate::Plan(plan_update(old, new, key)))
}

/// What remains to be done once the security of a pull zone has been changed.
pub open spec fn plan_for_secured(
    old: CdnConfigView,
    new: CdnConfigView,
    reply: Result<Option<JsonView>, Seq<char>>,
) -> Result<PlanView, ErrorView> {
    match reply {
        Err(shown) => Err(call_failed("Failed to send update pullzone request: "@, shown)),
        Ok(None) => Err(
            general_error("Expected response body from update pullzone request"@),
        ),
        Ok(Some(json)) => match zone_key_in(json, new.use_authentication) {
            Err(error) => Err(error),
            Ok(key) => Ok(update_plan(old, new, key)),
        },
    }
}

/// Takes in the reply to the call that changes the security of a pull zone.
pub fn secured(old: CdnConfig, new: CdnConfig, reply: Result<Option<Json>, String>) -> (plan: Result<
    AdapterPlan,
    ServiceError,
>)
    ensures
        outcome(plan) == plan_for_secured(
            old.deep_view(),
            new.deep_view(),
            shown_reply(reply),
        ),
{
    let json = match reply {
        Err(shown) => {
            return call_failure("Failed to send update pullzone request: ", shown.as_str());
        },
        Ok(None) => {
            return general("Expected response body from update pullzone request");
        },
        Ok(Some(json)) => json,
    };
    match read_zone_key(&json, new.use_authentication) {
        Ok(key) => Ok(plan_update(old, new, key)),
        Err(error) => Err(error),
    }
}

/// A pull zone never ends up with both aliases and tokens: neither creating nor updating an
/// adapter gives such a configuration.
pub proof fn law_alias_excludes_authentication(
    settings: &Settings,
    adapter_id: Seq<char>,
    old_config: AdapterConfigView,
    new_config: AdapterConfigView,
    has_linked_alias: bool,
    reply: Result<Option<JsonView>, Seq<char>>,
)
    ensures
        creation_of(settings, adapter_id, new_config) matches Ok(creation) ==> (plan_for_created(
            creation,
            reply,
        ) matches Ok(plan) ==> !(plan.config.alias_enabled && plan.config.use_authentication)),
        update_of(old_config, new_config, has_linked_alias) matches Ok(UpdateView::Plan(plan))
            ==> !(plan.config.alias_enabled && plan.config.use_authentication),
        update_of(old_config, new_config, has_linked_alias) matches Ok(
            UpdateView::Secure { call, old, new },
        ) ==> (plan_for_secured(old, new, reply) matches Ok(plan) ==> !(plan.config.alias_enabled
            && plan.config.use_authentication)),
{
}

/// An update keeps the identifier and the name of the pull zone.
pub proof fn law_update_keeps_zone(
    old_config: CdnConfigView,
    new_config: AdapterConfigView,
    has_linked_alias: bool,
    reply: Result<Option<JsonView>, Seq<char>>,
)
    ensures
        update_of(AdapterConfigView::Cdn(old_config), new_config, has_linked_alias) matches Ok(
            UpdateView::Plan(plan),
        ) ==> plan.config.pull_zone_id == old_config.pull_zone_id && plan.config.pull_zone_name
            == old_config.pull_zone_name,
        update_of(AdapterConfigView::Cdn(old_config), new_config, has_linked_alias) matches Ok(
            UpdateView::Secure { call, old, new },
        ) ==> (plan_for_secured(old, new, reply) matches Ok(plan) ==> plan.config.pull_zone_id
            == old_config.pull_zone_id && plan.config.pull_zone_name
            == old_config.pull_zone_name),
{
}

/// The configuration of a new adapter has a security key exactly where it asks for tokens.
pub proof fn law_created_zone_has_key_iff_authenticated(
    creation: CreationView,
    reply: Result<Option<JsonView>, Seq<char>>,
)
    ensures
        plan_for_created(creation, reply) matches Ok(plan) ==> (plan.config.api_key is Some
            <==> plan.config.use_authentication),
{
}

} // verus!

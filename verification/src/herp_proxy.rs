//! The orchestrator proxy: the outbound half of the protocol.
//!
//! Every outbound call is split in two verified halves. A request builder
//! turns local state into an `OrchestratorRequest`, a plain description of
//! one HTTP call; an outcome interpreter turns the `Transport` value that
//! came back into the typed result the operation owes. The transport
//! itself (sockets, TLS, timeouts) is not here: the surrounding binary
//! performs the described call and hands back a `Transport`.

use vstd::prelude::*;

use crate::json::{spec_as_str, spec_get, spec_get_str, spec_obj_fields, view_of, JsonData, JsonValue};
use crate::service::{Credentials, CredentialsData, Service, ServiceData};

verus! {

/// Why registration failed: the orchestrator was unreachable, or it
/// answered with a non-2xx status.
#[derive(Debug, PartialEq, Clone, Copy)]
pub enum RegistrationError {
    ConnectionError,
    RegistrationRejected(u16),
}

/// Why no token was obtained: the orchestrator was unreachable, or its
/// reply carried no string `token` field.
#[derive(Debug, PartialEq, Clone, Copy)]
pub enum AuthError {
    ConnectionError,
    MalformedResponse,
}

/// Why no service id was resolved: the orchestrator was unreachable, no
/// listed record matched (or the list was missing), or the reply was not
/// shaped as promised.
#[derive(Debug, PartialEq, Clone, Copy)]
pub enum ResolutionError {
    ConnectionError,
    ServiceNotFound,
    MalformedResponse,
}

/// Why install confirmation failed. An authentication failure anywhere
/// upstream surfaces as `AuthorizationFailed`, distinguishable from an
/// orchestrator-side `InstallRejected`.
#[derive(Debug, PartialEq, Clone, Copy)]
pub enum InstallError {
    ConnectionError,
    AuthorizationFailed,
    ServiceNotFound,
    MalformedResponse,
    InstallRejected,
}

/// The acknowledgement string the orchestrator returns on a confirmed
/// install.
#[derive(Debug, PartialEq)]
pub struct InstallResult(pub String);

impl View for InstallResult {
    type V = Seq<char>;

    open spec fn view(&self) -> Seq<char> {
        self.0@
    }
}

/// What one outbound HTTP call produced, as the proxy logic sees it:
/// either the host could not be reached at all, or a response arrived
/// with a status and, when the body parsed as JSON, its parsed body.
pub enum Transport {
    /// The orchestrator could not be reached: connect failure, timeout,
    /// or an aborted exchange.
    Unreachable,
    /// A response arrived. `body` is `None` when it did not parse as JSON.
    Response { status: u16, body: Option<JsonValue> },
}

#[derive(Debug, PartialEq, Eq, Clone, Copy)]
pub enum HttpMethod {
    Get,
    Post,
}

/// One outbound HTTP call, described as plain data for the transport
/// layer to perform.
pub struct OrchestratorRequest {
    pub method: HttpMethod,
    pub url: String,
    /// Value for the `Authorization` header, if the call carries one.
    pub auth: Option<String>,
    /// JSON body, if the call sends one.
    pub body: Option<JsonValue>,
}

/// A status in the 2xx range counts as success.
pub open spec fn spec_is_success(status: u16) -> bool {
    200 <= status < 300
}

pub fn is_success(status: u16) -> (r: bool)
    ensures
        r == spec_is_success(status),
{
    200 <= status && status < 300
}

/// How the orchestrator's REST surface is reached: a host and a map from
/// endpoint names to paths.
#[derive(Debug, PartialEq)]
pub struct Herp {
    pub host: String,
    pub endpoints: JsonValue,
}

/// The mathematical content of a `Herp`.
pub struct HerpData {
    pub host: Seq<char>,
    pub endpoints: JsonData,
}

impl View for Herp {
    type V = HerpData;

    open spec fn view(&self) -> HerpData {
        HerpData { host: self.host@, endpoints: self.endpoints@ }
    }
}

/// The path configured for `endpoint`, if the endpoint map holds one.
pub open spec fn spec_endpoint_path(h: HerpData, endpoint: Seq<char>) -> Option<Seq<char>> {
    spec_get_str(h.endpoints, endpoint)
}

/// The full URL of `endpoint`: scheme, host and configured path.
pub open spec fn spec_url(h: HerpData, endpoint: Seq<char>) -> Seq<char>
    recommends
        spec_endpoint_path(h, endpoint) is Some,
{
    "http://"@ + h.host + spec_endpoint_path(h, endpoint).unwrap()
}

impl Herp {
    pub fn new(host: String, endpoints: JsonValue) -> (r: Herp)
        ensures
            r@.host == host@,
            r@.endpoints == endpoints@,
    {
        Herp { host, endpoints }
    }

    /// Whether a path is configured for `endpoint`. Callers must check
    /// this before building the corresponding request.
    pub fn has_endpoint(&self, endpoint: &String) -> (r: bool)
        ensures
            r == (spec_endpoint_path(self@, endpoint@) is Some),
    {
        match self.endpoints.get_str(endpoint) {
            Some(_) => true,
            None => false,
        }
    }

    /// The full URL of `endpoint` under this deployment's configuration.
    pub fn get_url(&self, endpoint: &String) -> (r: String)
        requires
            spec_endpoint_path(self@, endpoint@) is Some,
        ensures
            r@ == spec_url(self@, endpoint@),
    {
        let path = self.endpoints.get_str(endpoint).unwrap();
        let mut url = String::from_str("http://");
        url.append(self.host.as_str());
        url.append(path.as_str());
        url
    }

    /// The registration call: a POST of the service descriptor to the
    /// `register` endpoint.
    pub fn register_request(&self, service: &Service) -> (r: OrchestratorRequest)
        requires
            spec_endpoint_path(self@, "register"@) is Some,
        ensures
            r.method is Post,
            r.url@ == spec_url(self@, "register"@),
            r.auth is None,
            r.body matches Some(b) && b@ == spec_service_json(service@),
    {
        let url = self.get_url(&String::from_str("register"));
        OrchestratorRequest {
            method: HttpMethod::Post,
            url,
            auth: None,
            body: Some(service_json(service)),
        }
    }

    /// The login call: a POST of the credentials, shaped as
    /// `{email, password}`, to the `login` endpoint.
    pub fn login_request(&self, credentials: &Credentials) -> (r: OrchestratorRequest)
        requires
            spec_endpoint_path(self@, "login"@) is Some,
        ensures
            r.method is Post,
            r.url@ == spec_url(self@, "login"@),
            r.auth is None,
            r.body matches Some(b) && b@ == spec_login_json(credentials@),
    {
        let url = self.get_url(&String::from_str("login"));
        let mut fields: Vec<(String, JsonValue)> = Vec::new();
        fields.push((String::from_str("email"), JsonValue::Str(credentials.name.clone())));
        fields.push((String::from_str("password"), JsonValue::Str(credentials.password.clone())));
        let body = JsonValue::Obj(fields);
        proof {
            reveal_with_fuel(view_of, 2);
            let fs = spec_obj_fields(body@);
            assert(fields@.len() == 2);
            assert(fs[0] == ("email"@, JsonData::Str(credentials.name@)));
            assert(fs[1] == ("password"@, JsonData::Str(credentials.password@)));
            assert(fs =~= spec_obj_fields(spec_login_json(credentials@)));
            assert(body@ == JsonData::Obj(fs));
            assert(body@ == spec_login_json(credentials@));
        }
        OrchestratorRequest { method: HttpMethod::Post, url, auth: None, body: Some(body) }
    }

    /// The service-listing call: a GET of the `services` endpoint with
    /// the token as `Authorization` header.
    pub fn services_request(&self, token: &String) -> (r: OrchestratorRequest)
        requires
            spec_endpoint_path(self@, "services"@) is Some,
        ensures
            r.method is Get,
            r.url@ == spec_url(self@, "services"@),
            r.auth matches Some(a) && a@ == token@,
            r.body is None,
    {
        let url = self.get_url(&String::from_str("services"));
        OrchestratorRequest { method: HttpMethod::Get, url, auth: Some(token.clone()), body: None }
    }

    /// The install-confirmation call: a GET of the `install` endpoint
    /// joined with the resolved service id, with the token as
    /// `Authorization` header.
    pub fn install_request(&self, token: &String, id: &String) -> (r: OrchestratorRequest)
        requires
            spec_endpoint_path(self@, "install"@) is Some,
        ensures
            r.method is Get,
            r.url@ == spec_url(self@, "install"@) + "/"@ + id@,
            r.auth matches Some(a) && a@ == token@,
            r.body is None,
    {
        let mut url = self.get_url(&String::from_str("install"));
        url.append("/");
        url.append(id.as_str());
        OrchestratorRequest { method: HttpMethod::Get, url, auth: Some(token.clone()), body: None }
    }
}

/// The registration body: the service descriptor as a JSON object.
pub open spec fn spec_service_json(s: ServiceData) -> JsonData {
    JsonData::Obj(
        seq![
            ("name"@, JsonData::Str(s.name)),
            ("title"@, JsonData::Str(s.title)),
            ("description"@, JsonData::Str(s.description)),
            ("version"@, JsonData::Str(s.version)),
            ("host"@, JsonData::Str(s.host)),
        ],
    )
}

/// The service descriptor as the JSON object sent on registration.
pub fn service_json(s: &Service) -> (r: JsonValue)
    ensures
        r@ == spec_service_json(s@),
{
    let mut fields: Vec<(String, JsonValue)> = Vec::new();
    fields.push((String::from_str("name"), JsonValue::Str(s.name.clone())));
    fields.push((String::from_str("title"), JsonValue::Str(s.title.clone())));
    fields.push((String::from_str("description"), JsonValue::Str(s.description.clone())));
    fields.push((String::from_str("version"), JsonValue::Str(s.version.clone())));
    fields.push((String::from_str("host"), JsonValue::Str(s.host.clone())));
    let r = JsonValue::Obj(fields);
    proof {
        reveal_with_fuel(view_of, 2);
        let fs = spec_obj_fields(r@);
        assert(fields@.len() == 5);
        assert(fs[0] == ("name"@, JsonData::Str(s.name@)));
        assert(fs[1] == ("title"@, JsonData::Str(s.title@)));
        assert(fs[2] == ("description"@, JsonData::Str(s.description@)));
        assert(fs[3] == ("version"@, JsonData::Str(s.version@)));
        assert(fs[4] == ("host"@, JsonData::Str(s.host@)));
        assert(fs =~= spec_obj_fields(spec_service_json(s@)));
        assert(r@ == JsonData::Obj(fs));
        assert(r@ == spec_service_json(s@));
    }
    r
}

/// The login body: the credentials shaped as `{email, password}`.
pub open spec fn spec_login_json(c: CredentialsData) -> JsonData {
    JsonData::Obj(
        seq![("email"@, JsonData::Str(c.name)), ("password"@, JsonData::Str(c.password))],
    )
}

/// What registration owes for each transport outcome: success exactly on
/// a 2xx response, `ConnectionError` when the host was unreachable,
/// `RegistrationRejected` with the status otherwise. No response body is
/// read.
pub open spec fn spec_register_outcome(t: Transport) -> Result<(), RegistrationError> {
    match t {
        Transport::Unreachable => Err(RegistrationError::ConnectionError),
        Transport::Response { status, body } => if spec_is_success(status) {
            Ok(())
        } else {
            Err(RegistrationError::RegistrationRejected(status))
        },
    }
}

/// Interprets the transport outcome of the registration call.
pub fn register_outcome(t: &Transport) -> (r: Result<(), RegistrationError>)
    ensures
        r == spec_register_outcome(*t),
{
    match t {
        Transport::Unreachable => Err(RegistrationError::ConnectionError),
        Transport::Response { status, .. } => {
            if is_success(*status) {
                Ok(())
            } else {
                Err(RegistrationError::RegistrationRejected(*status))
            }
        },
    }
}

/// What authentication owes for each transport outcome: the string
/// `token` field of the JSON reply; `MalformedResponse` when the reply
/// is not JSON or lacks such a field; `ConnectionError` when the host
/// was unreachable. The status is not read.
pub open spec fn spec_authenticate_outcome(t: Transport) -> Result<Seq<char>, AuthError> {
    match t {
        Transport::Unreachable => Err(AuthError::ConnectionError),
        Transport::Response { status, body } => match body {
            Some(v) => match spec_get_str(v@, "token"@) {
                Some(tok) => Ok(tok),
                None => Err(AuthError::MalformedResponse),
            },
            None => Err(AuthError::MalformedResponse),
        },
    }
}

/// Interprets the transport outcome of the login call.
pub fn authenticate_outcome(t: &Transport) -> (r: Result<String, AuthError>)
    ensures
        match r {
            Ok(tok) => spec_authenticate_outcome(*t) == Ok::<Seq<char>, AuthError>(tok@),
            Err(e) => spec_authenticate_outcome(*t) == Err::<Seq<char>, AuthError>(e),
        },
{
    match t {
        Transport::Unreachable => Err(AuthError::ConnectionError),
        Transport::Response { body: Some(v), .. } => {
            match v.get_str(&String::from_str("token")) {
                Some(tok) => Ok(tok.clone()),
                None => Err(AuthError::MalformedResponse),
            }
        },
        Transport::Response { body: None, .. } => Err(AuthError::MalformedResponse),
    }
}

/// Whether a listed service record names this plugin: its `name` and
/// `title` string fields equal the descriptor's, case-sensitively.
pub open spec fn spec_record_matches(rec: JsonData, s: ServiceData) -> bool {
    spec_get_str(rec, "name"@) == Some(s.name) && spec_get_str(rec, "title"@) == Some(s.title)
}

/// The position of the first matching record at or after `i`, if any.
pub open spec fn spec_first_match_from(records: Seq<JsonData>, s: ServiceData, i: int) -> Option<
    int,
>
    decreases records.len() - i,
{
    if i < 0 || i >= records.len() {
        None
    } else if spec_record_matches(records[i], s) {
        Some(i)
    } else {
        spec_first_match_from(records, s, i + 1)
    }
}

/// What the selected position means: the record there matches, it lies
/// in the list, and no earlier record matches. With several matching
/// records, the first in response order is the one resolved.
pub proof fn lemma_first_match_is_earliest(records: Seq<JsonData>, s: ServiceData, i: int)
    requires
        spec_first_match_from(records, s, 0) == Some(i),
    ensures
        0 <= i < records.len(),
        spec_record_matches(records[i], s),
        forall|j: int| 0 <= j < i ==> !spec_record_matches(#[trigger] records[j], s),
{
    lemma_first_match_from_props(records, s, 0, i);
}

proof fn lemma_first_match_from_props(records: Seq<JsonData>, s: ServiceData, start: int, i: int)
    requires
        0 <= start,
        spec_first_match_from(records, s, start) == Some(i),
    ensures
        start <= i < records.len(),
        spec_record_matches(records[i], s),
        forall|j: int| start <= j < i ==> !spec_record_matches(#[trigger] records[j], s),
    decreases records.len() - start,
{
    if start < records.len() && spec_record_matches(records[start], s) {
    } else {
        lemma_first_match_from_props(records, s, start + 1, i);
    }
}

/// What service resolution owes for each transport outcome. The reply's
/// `data` field must be an array; the first record whose `name` and
/// `title` match the descriptor is selected, and its string `_id` is the
/// result. No match, a missing or non-array `data`: `ServiceNotFound`. A
/// non-JSON reply, or a first match without a string `_id`:
/// `MalformedResponse`. The status is not read.
pub open spec fn spec_resolve_service_id(t: Transport, s: ServiceData) -> Result<
    Seq<char>,
    ResolutionError,
> {
    match t {
        Transport::Unreachable => Err(ResolutionError::ConnectionError),
        Transport::Response { status, body } => match body {
            None => Err(ResolutionError::MalformedResponse),
            Some(v) => match spec_get(v@, "data"@) {
                Some(JsonData::Arr(records)) => match spec_first_match_from(records, s, 0) {
                    Some(i) => match spec_get_str(records[i], "_id"@) {
                        Some(id) => Ok(id),
                        None => Err(ResolutionError::MalformedResponse),
                    },
                    None => Err(ResolutionError::ServiceNotFound),
                },
                _ => Err(ResolutionError::ServiceNotFound),
            },
        },
    }
}

/// Whether this record's `name` and `title` match the descriptor's.
pub fn record_matches(rec: &JsonValue, service: &Service) -> (r: bool)
    ensures
        r == spec_record_matches(rec@, service@),
{
    let name_ok = match rec.get_str(&String::from_str("name")) {
        Some(n) => n.eq(&service.name),
        None => false,
    };
    let title_ok = match rec.get_str(&String::from_str("title")) {
        Some(tl) => tl.eq(&service.title),
        None => false,
    };
    name_ok && title_ok
}

/// Interprets the transport outcome of the service-listing call,
/// resolving this plugin's orchestrator-assigned id.
pub fn resolve_service_id(t: &Transport, service: &Service) -> (r: Result<String, ResolutionError>)
    ensures
        match r {
            Ok(id) => spec_resolve_service_id(*t, service@) == Ok::<Seq<char>, ResolutionError>(
                id@,
            ),
            Err(e) => spec_resolve_service_id(*t, service@) == Err::<Seq<char>, ResolutionError>(
                e,
            ),
        },
{
    let v = match t {
        Transport::Unreachable => {
            return Err(ResolutionError::ConnectionError);
        },
        Transport::Response { body: None, .. } => {
            return Err(ResolutionError::MalformedResponse);
        },
        Transport::Response { body: Some(v), .. } => v,
    };
    let data = match v.get(&String::from_str("data")) {
        Some(d) => d,
        None => {
            return Err(ResolutionError::ServiceNotFound);
        },
    };
    match data {
        JsonValue::Arr(records) => {
            let ghost rs = data@->Arr_0;
            proof {
                assert forall|k: int| 0 <= k < records@.len() implies rs[k] == view_of(
                    records@[k],
                ) by {}
            }
            let n = records.len();
            #[verifier::loop_isolation(false)]
            for i in 0..n
                invariant
                    n == records@.len(),
                    rs.len() == n,
                    data@ == JsonData::Arr(rs),
                    spec_get(v@, "data"@) == Some(data@),
                    forall|k: int| 0 <= k < n ==> rs[k] == view_of(records@[k]),
                    spec_first_match_from(rs, service@, 0) == spec_first_match_from(
                        rs,
                        service@,
                        i as int,
                    ),
            {
                if record_matches(&records[i], service) {
                    match records[i].get_str(&String::from_str("_id")) {
                        Some(id) => {
                            return Ok(id.clone());
                        },
                        None => {
                            return Err(ResolutionError::MalformedResponse);
                        },
                    }
                }
            }
            Err(ResolutionError::ServiceNotFound)
        },
        _ => Err(ResolutionError::ServiceNotFound),
    }
}

/// What install confirmation owes for each transport outcome: the body
/// of a 2xx reply when that body is a bare JSON string;
/// `InstallRejected` on any non-2xx status or any other body shape;
/// `ConnectionError` when the host was unreachable.
pub open spec fn spec_install_outcome(t: Transport) -> Result<Seq<char>, InstallError> {
    match t {
        Transport::Unreachable => Err(InstallError::ConnectionError),
        Transport::Response { status, body } => if !spec_is_success(status) {
            Err(InstallError::InstallRejected)
        } else {
            match body {
                Some(v) => match spec_as_str(v@) {
                    Some(s) => Ok(s),
                    None => Err(InstallError::InstallRejected),
                },
                None => Err(InstallError::InstallRejected),
            }
        },
    }
}

/// Interprets the transport outcome of the install-confirmation call.
pub fn install_outcome(t: &Transport) -> (r: Result<InstallResult, InstallError>)
    ensures
        match r {
            Ok(res) => spec_install_outcome(*t) == Ok::<Seq<char>, InstallError>(res@),
            Err(e) => spec_install_outcome(*t) == Err::<Seq<char>, InstallError>(e),
        },
{
    match t {
        Transport::Unreachable => Err(InstallError::ConnectionError),
        Transport::Response { status, body } => {
            if !is_success(*status) {
                Err(InstallError::InstallRejected)
            } else {
                match body {
                    Some(v) => match v.as_str() {
                        Some(s) => Ok(InstallResult(s.clone())),
                        None => Err(InstallError::InstallRejected),
                    },
                    None => Err(InstallError::InstallRejected),
                }
            }
        },
    }
}

/// How a resolution failure surfaces from install confirmation.
pub open spec fn spec_resolution_to_install_error(e: ResolutionError) -> InstallError {
    match e {
        ResolutionError::ConnectionError => InstallError::ConnectionError,
        ResolutionError::ServiceNotFound => InstallError::ServiceNotFound,
        ResolutionError::MalformedResponse => InstallError::MalformedResponse,
    }
}

pub fn resolution_to_install_error(e: ResolutionError) -> (r: InstallError)
    ensures
        r == spec_resolution_to_install_error(e),
{
    match e {
        ResolutionError::ConnectionError => InstallError::ConnectionError,
        ResolutionError::ServiceNotFound => InstallError::ServiceNotFound,
        ResolutionError::MalformedResponse => InstallError::MalformedResponse,
    }
}

/// The install-confirmation conversation: authenticate, resolve this
/// plugin's id, then confirm the install. Each state names the call
/// whose response is awaited; `Done` carries the final result.
#[derive(Debug)]
pub enum ConfirmInstall {
    /// The login response is awaited.
    Authenticating,
    /// The service-listing response is awaited; `token` came from login.
    Resolving { token: String },
    /// The install-confirmation response is awaited.
    Confirming,
    /// The conversation is over.
    Done { result: Result<InstallResult, InstallError> },
}

/// Opens the install-confirmation conversation: the first awaited call
/// is the login.
pub fn confirm_install_start(herp: &Herp, credentials: &Credentials) -> (r: (
    ConfirmInstall,
    OrchestratorRequest,
))
    requires
        spec_endpoint_path(herp@, "login"@) is Some,
    ensures
        r.0 is Authenticating,
        r.1.method is Post,
        r.1.url@ == spec_url(herp@, "login"@),
        r.1.auth is None,
        r.1.body matches Some(b) && b@ == spec_login_json(credentials@),
{
    (ConfirmInstall::Authenticating, herp.login_request(credentials))
}

/// Advances the install-confirmation conversation by one response.
///
/// Any authentication failure short-circuits to `AuthorizationFailed`.
/// A resolution failure ends the conversation with that failure. The
/// install response itself decides between the acknowledgement string
/// and `InstallRejected`.
pub fn confirm_install_step(
    herp: &Herp,
    service: &Service,
    state: ConfirmInstall,
    response: &Transport,
) -> (r: (ConfirmInstall, Option<OrchestratorRequest>))
    requires
        !(state is Done),
        state is Authenticating ==> spec_endpoint_path(herp@, "services"@) is Some,
        state is Resolving ==> spec_endpoint_path(herp@, "install"@) is Some,
    ensures
        state is Authenticating ==> match spec_authenticate_outcome(*response) {
            Ok(tok) => {
                &&& r.0 matches ConfirmInstall::Resolving { token }
                &&& token@ == tok
                &&& r.1 matches Some(req)
                &&& req.method is Get
                &&& req.url@ == spec_url(herp@, "services"@)
                &&& req.auth matches Some(a)
                &&& a@ == tok
                &&& req.body is None
            },
            Err(_) => {
                &&& r.0 matches ConfirmInstall::Done { result }
                &&& result == Err::<InstallResult, InstallError>(InstallError::AuthorizationFailed)
                &&& r.1 is None
            },
        },
        state matches ConfirmInstall::Resolving { token } ==> match spec_resolve_service_id(
            *response,
            service@,
        ) {
            Ok(id) => {
                &&& r.0 is Confirming
                &&& r.1 matches Some(req)
                &&& req.method is Get
                &&& req.url@ == spec_url(herp@, "install"@) + "/"@ + id
                &&& req.auth matches Some(a)
                &&& a@ == token@
                &&& req.body is None
            },
            Err(e) => {
                &&& r.0 matches ConfirmInstall::Done { result }
                &&& result == Err::<InstallResult, InstallError>(
                    spec_resolution_to_install_error(e),
                )
                &&& r.1 is None
            },
        },
        state is Confirming ==> {
            &&& r.1 is None
            &&& r.0 matches ConfirmInstall::Done { result }
            &&& match spec_install_outcome(*response) {
                Ok(s) => result matches Ok(ack) && ack@ == s,
                Err(e) => result == Err::<InstallResult, InstallError>(e),
            }
        },
{
    match state {
        ConfirmInstall::Authenticating => {
            match authenticate_outcome(response) {
                Ok(token) => {
                    let req = herp.services_request(&token);
                    (ConfirmInstall::Resolving { token }, Some(req))
                },
                Err(_) => (
                    ConfirmInstall::Done { result: Err(InstallError::AuthorizationFailed) },
                    None,
                ),
            }
        },
        ConfirmInstall::Resolving { token } => {
            match resolve_service_id(response, service) {
                Ok(id) => {
                    let req = herp.install_request(&token, &id);
                    (ConfirmInstall::Confirming, Some(req))
                },
                Err(e) => (
                    ConfirmInstall::Done { result: Err(resolution_to_install_error(e)) },
                    None,
                ),
            }
        },
        ConfirmInstall::Confirming => {
            (ConfirmInstall::Done { result: install_outcome(response) }, None)
        },
        ConfirmInstall::Done { result } => (ConfirmInstall::Done { result }, None),
    }
}

} // verus!

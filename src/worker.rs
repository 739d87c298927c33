//! The worker: its identity, its two role-bound clients, the calls it makes
//! and the decisions between them.
use vstd::prelude::*;
use vstd::string::StringExecFns;
use crate::generate;
use crate::job;
use crate::outside::{accepted_proxy_url, json_str_member, parse_json, parses_as_json, proxy_for_all, str_member};
use crate::poll::{Phase, PollFailure, Poller};

verus! {

/// Everything that can go wrong in building the worker or in one job cycle.
#[derive(Debug, Clone, Copy, PartialEq, Eq, Structural)]
pub enum WorkerErr {
    /// The configuration file could not be read.
    FileRead,
    /// The configuration file is not a valid worker configuration.
    TomlParse,
    /// A proxy URL was not accepted.
    InvalidProxy,
    /// An HTTP client could not be built.
    ClientCreation,
    /// A call failed at the transport level.
    Request,
    /// A response body did not have the expected shape.
    JsonParse,
    /// The queue had no work to hand out.
    EmptyQueue,
    /// Completion was not reported within the polling budget.
    Timeout,
    /// The service reported the generation as faulted.
    RemoteFault,
}

/// A credential and the proxy that calls made with it go through.
#[derive(Debug, Clone)]
pub struct ApiInfo {
    pub key: String,
    pub proxy: String,
}

/// What kinds of work this worker accepts; sent with every pop request.
#[derive(Debug, Clone)]
pub struct PopPayload {
    pub name: String,
    pub max_pixels: u32,
    pub priority_usernames: Vec<String>,
    pub nsfw: bool,
    pub blacklist: Vec<String>,
    pub models: Vec<String>,
    pub allow_img2img: bool,
    pub allow_inpainting: bool,
    pub allow_unsafe_ip: bool,
    pub threads: u32,
    pub allow_post_processing: bool,
    pub allow_controlnet: bool,
    pub require_upfront_kudos: bool,
}

/// The worker's identity: capabilities, one credential per role, and where the
/// dispatch service lives.
#[derive(Debug, Clone)]
pub struct WorkerData {
    pub payload: PopPayload,
    pub gen_info: ApiInfo,
    pub rec_info: ApiInfo,
    pub bridge_version: u32,
    pub bridge_agent: String,
    pub horde_url: String,
}

/// The two network roles. Reception pulls jobs; generation submits and
/// observes generations.
#[derive(Debug, Clone, Copy, PartialEq, Eq, Structural)]
pub enum Role {
    Reception,
    Generation,
}

/// HTTP method of a call.
#[derive(Debug, Clone, Copy, PartialEq, Eq, Structural)]
pub enum Method {
    Get,
    Post,
}

/// One HTTP call to make: on the client of `role`, with `api_key` as the
/// `apikey` header when there is one.
#[derive(Debug, Clone)]
pub struct HttpCall {
    pub method: Method,
    pub url: String,
    pub role: Role,
    pub api_key: Option<String>,
}

/// Path of the job-pop endpoint.
pub open spec fn pop_path() -> Seq<char> {
    "/api/v2/generate/pop"@
}

/// Path of the asynchronous submission endpoint.
pub open spec fn submit_path() -> Seq<char> {
    "/api/v2/generate/async"@
}

/// Path prefix of the completion check endpoint.
pub open spec fn check_path() -> Seq<char> {
    "/api/v2/generate/check/"@
}

/// Path prefix of the status endpoint.
pub open spec fn status_path() -> Seq<char> {
    "/api/v2/generate/status/"@
}

/// A worker with its identity and one client per role, each bound to that
/// role's proxy.
pub struct Worker {
    data: WorkerData,
    rec_client: reqwest::Client,
    gen_client: reqwest::Client,
}

/// `base` followed by `suffix`.
fn joined(base: &String, suffix: &str) -> (r: String)
    ensures
        r@ == base@ + suffix@,
{
    let mut r = base.clone();
    r.append(suffix);
    r
}

impl WorkerErr {
    /// The error that ends a job cycle when polling gives up.
    pub fn from_poll_failure(f: PollFailure) -> (r: WorkerErr)
        ensures
            f == PollFailure::Timeout ==> r == WorkerErr::Timeout,
            f == PollFailure::RemoteFault ==> r == WorkerErr::RemoteFault,
            f == PollFailure::Request ==> r == WorkerErr::Request,
            f == PollFailure::Schema ==> r == WorkerErr::JsonParse,
    {
        match f {
            PollFailure::Timeout => WorkerErr::Timeout,
            PollFailure::RemoteFault => WorkerErr::RemoteFault,
            PollFailure::Request => WorkerErr::Request,
            PollFailure::Schema => WorkerErr::JsonParse,
        }
    }
}

/// Both proxies of an identity are accepted.
pub open spec fn proxies_accepted(data: WorkerData) -> bool {
    accepted_proxy_url(data.rec_info.proxy@) && accepted_proxy_url(data.gen_info.proxy@)
}

impl Worker {
    /// The worker's identity.
    pub closed spec fn identity(&self) -> WorkerData {
        self.data
    }

    /// The client of the reception role.
    pub closed spec fn reception_client(&self) -> reqwest::Client {
        self.rec_client
    }

    /// The client of the generation role.
    pub closed spec fn generation_client(&self) -> reqwest::Client {
        self.gen_client
    }

    /// Builds one client per role, each through its own proxy. Both proxy URLs
    /// are checked before any client is built.
    fn init(data: &WorkerData) -> (r: Result<(reqwest::Client, reqwest::Client), WorkerErr>)
        ensures
            r == Err::<(reqwest::Client, reqwest::Client), WorkerErr>(WorkerErr::InvalidProxy)
                <==> !proxies_accepted(*data),
            r is Err ==> r == Err::<(reqwest::Client, reqwest::Client), WorkerErr>(
                WorkerErr::InvalidProxy,
            ) || r == Err::<(reqwest::Client, reqwest::Client), WorkerErr>(
                WorkerErr::ClientCreation,
            ),
    {
        let rec_proxy = match proxy_for_all(data.rec_info.proxy.as_str()) {
            Ok(proxy) => proxy,
            Err(_) => return Err(WorkerErr::InvalidProxy),
        };
        let gen_proxy = match proxy_for_all(data.gen_info.proxy.as_str()) {
            Ok(proxy) => proxy,
            Err(_) => return Err(WorkerErr::InvalidProxy),
        };
        let rec_client = match reqwest::Client::builder().proxy(rec_proxy).build() {
            Ok(client) => client,
            Err(_) => return Err(WorkerErr::ClientCreation),
        };
        let gen_client = match reqwest::Client::builder().proxy(gen_proxy).build() {
            Ok(client) => client,
            Err(_) => return Err(WorkerErr::ClientCreation),
        };
        Ok((rec_client, gen_client))
    }

    /// Builds a worker from an identity. Fails with `InvalidProxy` exactly when
    /// a proxy URL is not accepted; otherwise it fails only with
    /// `ClientCreation`, when the transport layer cannot be set up.
    pub fn from_data(data: WorkerData) -> (r: Result<Worker, WorkerErr>)
        ensures
            r matches Err(e) ==> (e == WorkerErr::InvalidProxy <==> !proxies_accepted(data)),
            r matches Err(e) ==> e == WorkerErr::InvalidProxy || e == WorkerErr::ClientCreation,
            r is Ok ==> proxies_accepted(data),
            r matches Ok(w) ==> w.identity() == data,
    {
        match Self::init(&data) {
            Ok((rec_client, gen_client)) => Ok(Worker { data, rec_client, gen_client }),
            Err(err) => Err(err),
        }
    }

    /// Builds a worker from the parts of its identity.
    pub fn new(
        payload: PopPayload,
        gen_info: ApiInfo,
        rec_info: ApiInfo,
        bridge_version: u32,
        bridge_agent: String,
        horde_url: String,
    ) -> (r: Result<Worker, WorkerErr>)
        ensures
            r matches Err(e) ==> (e == WorkerErr::InvalidProxy <==> !(accepted_proxy_url(
                rec_info.proxy@,
            ) && accepted_proxy_url(gen_info.proxy@))),
            r matches Err(e) ==> e == WorkerErr::InvalidProxy || e == WorkerErr::ClientCreation,
            r is Ok ==> accepted_proxy_url(rec_info.proxy@) && accepted_proxy_url(gen_info.proxy@),
            r matches Ok(w) ==> w.identity() == (WorkerData {
                payload,
                gen_info,
                rec_info,
                bridge_version,
                bridge_agent,
                horde_url,
            }),
    {
        let data = WorkerData { payload, gen_info, rec_info, bridge_version, bridge_agent, horde_url };
        Self::from_data(data)
    }

    /// The worker's identity.
    pub fn data(&self) -> (r: &WorkerData)
        ensures
            *r == self.identity(),
    {
        &self.data
    }

    /// The client that serves `role`.
    pub fn client(&self, role: Role) -> (r: &reqwest::Client)
        ensures
            role == Role::Reception ==> *r == self.reception_client(),
            role == Role::Generation ==> *r == self.generation_client(),
    {
        match role {
            Role::Reception => &self.rec_client,
            Role::Generation => &self.gen_client,
        }
    }

    /// The pop call: a POST on the reception role, with the reception key.
    /// Its body is the capability descriptor.
    pub fn pop_call(&self) -> (r: HttpCall)
        ensures
            r.method == Method::Post,
            r.url@ == self.identity().horde_url@ + pop_path(),
            r.role == Role::Reception,
            r.api_key == Some(self.identity().rec_info.key),
    {
        HttpCall {
            method: Method::Post,
            url: joined(&self.data.horde_url, "/api/v2/generate/pop"),
            role: Role::Reception,
            api_key: Some(self.data.rec_info.key.clone()),
        }
    }

    /// The submission call: a POST on the generation role, with the generation
    /// key. Its body is the generation request.
    pub fn submit_call(&self) -> (r: HttpCall)
        ensures
            r.method == Method::Post,
            r.url@ == self.identity().horde_url@ + submit_path(),
            r.role == Role::Generation,
            r.api_key == Some(self.identity().gen_info.key),
    {
        HttpCall {
            method: Method::Post,
            url: joined(&self.data.horde_url, "/api/v2/generate/async"),
            role: Role::Generation,
            api_key: Some(self.data.gen_info.key.clone()),
        }
    }

    /// The completion check for generation `id`: a GET without a key.
    pub fn check_call(&self, id: &str) -> (r: HttpCall)
        ensures
            r.method == Method::Get,
            r.url@ == self.identity().horde_url@ + check_path() + id@,
            r.role == Role::Generation,
            r.api_key is None,
    {
        let url = joined(&self.data.horde_url, "/api/v2/generate/check/");
        HttpCall { method: Method::Get, url: url.concat(id), role: Role::Generation, api_key: None }
    }

    /// The status call for generation `id`: a GET without a key, handed out
    /// only once the poller has seen completion.
    pub fn status_call(&self, id: &str, poller: &Poller) -> (r: Option<HttpCall>)
        ensures
            r is Some <==> poller.phase == Phase::Ready,
            r matches Some(c) ==> (c.method == Method::Get && c.url@ == self.identity().horde_url@
                + status_path() + id@ && c.role == Role::Generation && c.api_key is None),
    {
        match poller.phase {
            Phase::Ready => {
                let url = joined(&self.data.horde_url, "/api/v2/generate/status/");
                Some(
                    HttpCall {
                        method: Method::Get,
                        url: url.concat(id),
                        role: Role::Generation,
                        api_key: None,
                    },
                )
            },
            _ => None,
        }
    }
}

/// The generation id carried by a submission response's `id` member: missing
/// or not a string is a schema error.
pub fn id_from_member(id: Option<&str>) -> (r: Result<String, WorkerErr>)
    ensures
        id is None ==> r == Err::<String, WorkerErr>(WorkerErr::JsonParse),
        id matches Some(s) ==> (r matches Ok(t) && t@ == s@),
{
    match id {
        Some(s) => Ok(s.to_owned()),
        None => Err(WorkerErr::JsonParse),
    }
}

/// Decodes the body of a submission response into the generation id. A body
/// that is not JSON, or has no string `id`, is a schema error.
pub fn submission_id(body: &str) -> (r: Result<String, WorkerErr>)
    ensures
        !parses_as_json(body@) ==> r == Err::<String, WorkerErr>(WorkerErr::JsonParse),
        parses_as_json(body@) && json_str_member(body@, "id"@) is None ==> r == Err::<
            String,
            WorkerErr,
        >(WorkerErr::JsonParse),
        parses_as_json(body@) && json_str_member(body@, "id"@) is Some ==> (r matches Ok(t)
            && json_str_member(body@, "id"@) == Some(t@)),
{
    match parse_json(body) {
        Err(_) => Err(WorkerErr::JsonParse),
        Ok(_) => {
            let id = str_member(body, "id");
            match &id {
                Some(t) => id_from_member(Some(t.as_str())),
                None => id_from_member(None),
            }
        },
    }
}

/// Turns a popped job into the request to submit. The queue's "no work" answer
/// is `EmptyQueue` and never reaches the translation.
pub fn request_for_job(job: job::Root) -> (r: Result<generate::Root, WorkerErr>)
    ensures
        job.is_empty_spec() ==> r == Err::<generate::Root, WorkerErr>(WorkerErr::EmptyQueue),
        !job.is_empty_spec() ==> (r matches Ok(req) && req@ == generate::translated(job)),
{
    if job.is_empty() {
        Err(WorkerErr::EmptyQueue)
    } else {
        Ok(generate::Root::from_job(job))
    }
}

} // verus!

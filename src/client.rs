use vstd::prelude::*;
use vstd::string::StringExecFns;
use crate::wire::{
    bool_text, boolean, decimal, decimal_text, params_view, ClientError, Method, Request,
};

verus! {

/// The absolute address obtained by resolving `path` against the base address
/// `base`, as text; `None` when either cannot be read as a URL.
pub uninterp spec fn joined_url(base: Seq<char>, path: Seq<char>) -> Option<Seq<char>>;

/// The text of an optional string.
pub open spec fn opt_text(o: Option<String>) -> Option<Seq<char>> {
    match o {
        Some(s) => Some(s@),
        None => None,
    }
}

/// Relies on url::Url::parse to read the base address, url::Url::join to
/// resolve `path` against it, and `From<Url> for String` for the joined URL's
/// serialisation; the outcome depends on the two strings alone.
#[verifier::external_body]
fn join_url(base: &str, path: &str) -> (r: Option<String>)
    ensures
        opt_text(r) == joined_url(base@, path@),
{
    match url::Url::parse(base) {
        Ok(b) => b.join(path).ok().map(String::from),
        Err(_) => None,
    }
}

/// A request as mathematical values.
pub struct RequestView {
    pub method: Method,
    pub url: Seq<char>,
    pub params: Seq<(Seq<char>, Seq<char>)>,
}

impl View for Request {
    type V = RequestView;

    open spec fn view(&self) -> RequestView {
        RequestView { method: self.method, url: self.url@, params: params_view(self.params@) }
    }
}

/// The outcome of building a request, as mathematical values.
pub open spec fn outcome(r: Result<Request, ClientError>) -> Result<RequestView, ClientError> {
    match r {
        Ok(q) => Ok(q@),
        Err(e) => Err(e),
    }
}

/// A request to `path` under `base` with the given method and parameters, or
/// `InvalidUrl` when the two cannot be joined.
pub open spec fn planned(
    base: Seq<char>,
    path: Seq<char>,
    method: Method,
    params: Seq<(Seq<char>, Seq<char>)>,
) -> Result<RequestView, ClientError> {
    match joined_url(base, path) {
        Some(u) => Ok(RequestView { method, url: u, params }),
        None => Err(ClientError::InvalidUrl),
    }
}

/// A client as mathematical values: the base address and the optional
/// administrative credentials.
pub struct ClientView {
    pub base: Seq<char>,
    pub login: Option<Seq<char>>,
    pub password: Option<Seq<char>>,
}

impl ClientView {
    /// Both the login and the password are set.
    pub open spec fn has_credentials(self) -> bool {
        self.login is Some && self.password is Some
    }

    /// What `register` yields.
    pub open spec fn register_spec(
        self,
        port: u16,
        healthcheck_endpoint: Seq<char>,
        access_token: Seq<char>,
        service_type: Seq<char>,
    ) -> Result<RequestView, ClientError> {
        planned(
            self.base,
            "/me"@,
            Method::Post,
            seq![
                ("healthcheck_endpoint"@, healthcheck_endpoint),
                ("access_token"@, access_token),
                ("service_type"@, service_type),
                ("port"@, decimal_text(port as nat)),
            ],
        )
    }

    /// What `accept_service` yields.
    pub open spec fn accept_service_spec(self, identifier: Seq<char>) -> Result<
        RequestView,
        ClientError,
    > {
        if self.has_credentials() {
            planned(
                self.base,
                "/accept_service"@,
                Method::Post,
                seq![
                    ("identifier"@, identifier),
                    ("login"@, self.login->0),
                    ("password"@, self.password->0),
                ],
            )
        } else {
            Err(ClientError::MissingCredentials)
        }
    }

    /// What `disable_service` yields.
    pub open spec fn disable_service_spec(self, identifier: Seq<char>) -> Result<
        RequestView,
        ClientError,
    > {
        if self.has_credentials() {
            planned(
                self.base,
                "/disable_service"@,
                Method::Post,
                seq![
                    ("identifier"@, identifier),
                    ("login"@, self.login->0),
                    ("password"@, self.password->0),
                ],
            )
        } else {
            Err(ClientError::MissingCredentials)
        }
    }

    /// What `newtoken` yields.
    pub open spec fn newtoken_spec(self) -> Result<RequestView, ClientError> {
        if self.has_credentials() {
            planned(
                self.base,
                "/newtoken"@,
                Method::Post,
                seq![("login"@, self.login->0), ("password"@, self.password->0)],
            )
        } else {
            Err(ClientError::MissingCredentials)
        }
    }

    /// What `find` yields.
    pub open spec fn find_spec(
        self,
        service_type: Option<Seq<char>>,
        limit: Option<nat>,
        available: Option<bool>,
    ) -> Result<RequestView, ClientError> {
        planned(self.base, "/find"@, Method::Get, find_params(service_type, limit, available))
    }

    /// What `subscribe` yields.
    pub open spec fn subscribe_spec(
        self,
        identifier: Seq<char>,
        on_registration: bool,
        on_acceptance: bool,
        endpoint: Seq<char>,
    ) -> Result<RequestView, ClientError> {
        if self.has_credentials() {
            planned(
                self.base,
                "/subscribe"@,
                Method::Post,
                seq![
                    ("login"@, self.login->0),
                    ("password"@, self.password->0),
                    ("identifier"@, identifier),
                    ("endpoint"@, endpoint),
                    ("on_registration"@, bool_text(on_registration)),
                    ("on_acceptance"@, bool_text(on_acceptance)),
                ],
            )
        } else {
            Err(ClientError::MissingCredentials)
        }
    }
}

/// One pair `(key, v)` when the value is supplied, none otherwise.
pub open spec fn optional_pair(key: Seq<char>, value: Option<Seq<char>>) -> Seq<(Seq<char>, Seq<char>)> {
    match value {
        Some(v) => seq![(key, v)],
        None => Seq::empty(),
    }
}

/// The query of a `find`: each supplied filter, in the order service type,
/// limit, availability, and nothing for an omitted one.
pub open spec fn find_params(
    service_type: Option<Seq<char>>,
    limit: Option<nat>,
    available: Option<bool>,
) -> Seq<(Seq<char>, Seq<char>)> {
    optional_pair("service_type"@, service_type)
        + optional_pair("limit"@, match limit { Some(n) => Some(decimal_text(n)), None => None })
        + optional_pair("available"@, match available { Some(b) => Some(bool_text(b)), None => None })
}

/// A client of a service registry: the registry's base address and optional
/// administrative credentials. It never changes after construction.
#[derive(Clone, Debug)]
pub struct TellmeClient {
    url: String,
    login: Option<String>,
    password: Option<String>,
}

impl View for TellmeClient {
    type V = ClientView;

    closed spec fn view(&self) -> ClientView {
        ClientView { base: self.url@, login: opt_text(self.login), password: opt_text(self.password) }
    }
}

fn pair(key: &str, value: String) -> (r: (String, String))
    ensures
        r.0@ == key@,
        r.1@ == value@,
{
    (String::from_str(key), value)
}

impl TellmeClient {
    /// Stores the base address (the text of an absolute URL) and the
    /// credentials as given.
    pub fn new(url: String, login: Option<String>, password: Option<String>) -> (r: Self)
        ensures
            r@ == (ClientView { base: url@, login: opt_text(login), password: opt_text(password) }),
    {
        TellmeClient { url, login, password }
    }

    /// Whether both the login and the password are set.
    pub fn has_credentials(&self) -> (r: bool)
        ensures
            r == self@.has_credentials(),
    {
        self.login.is_some() && self.password.is_some()
    }

    /// A request to `path` under the base address, or `InvalidUrl` when the
    /// two cannot be joined.
    fn request_to(&self, path: &str, method: Method, params: Vec<(String, String)>) -> (r: Result<
        Request,
        ClientError,
    >)
        ensures
            outcome(r) == planned(self@.base, path@, method, params_view(params@)),
    {
        match join_url(self.url.as_str(), path) {
            Some(url) => Ok(Request { method, url, params }),
            None => Err(ClientError::InvalidUrl),
        }
    }

    /// The registration of this process as a service: a form POST to `/me`
    /// carrying the caller's access token. Needs no stored credentials.
    pub fn register(
        &self,
        port: u16,
        healthcheck_endpoint: String,
        access_token: String,
        service_type: String,
    ) -> (r: Result<Request, ClientError>)
        ensures
            outcome(r) == self@.register_spec(
                port,
                healthcheck_endpoint@,
                access_token@,
                service_type@,
            ),
    {
        let mut params: Vec<(String, String)> = Vec::new();
        params.push(pair("healthcheck_endpoint", healthcheck_endpoint));
        params.push(pair("access_token", access_token));
        params.push(pair("service_type", service_type));
        params.push(pair("port", decimal(port as u64)));
        let r = self.request_to("/me", Method::Post, params);
        proof {
            assert(params_view(params@) =~= seq![
                ("healthcheck_endpoint"@, healthcheck_endpoint@),
                ("access_token"@, access_token@),
                ("service_type"@, service_type@),
                ("port"@, decimal_text(port as nat)),
            ]);
        }
        r
    }

    /// The acceptance of the service `identifier`: a form POST to
    /// `/accept_service` with the stored credentials. Without both credentials
    /// no request is built.
    pub fn accept_service(&self, identifier: String) -> (r: Result<Request, ClientError>)
        ensures
            outcome(r) == self@.accept_service_spec(identifier@),
    {
        match (&self.login, &self.password) {
            (Some(login), Some(password)) => {
                let mut params: Vec<(String, String)> = Vec::new();
                params.push(pair("identifier", identifier));
                params.push(pair("login", login.clone()));
                params.push(pair("password", password.clone()));
                let r = self.request_to("/accept_service", Method::Post, params);
                proof {
                    assert(params_view(params@) =~= seq![
                        ("identifier"@, identifier@),
                        ("login"@, self@.login->0),
                        ("password"@, self@.password->0),
                    ]);
                }
                r
            },
            _ => Err(ClientError::MissingCredentials),
        }
    }

    /// The removal of the service `identifier`: a form POST to
    /// `/disable_service` with the stored credentials. Without both
    /// credentials no request is built.
    pub fn disable_service(&self, identifier: String) -> (r: Result<Request, ClientError>)
        ensures
            outcome(r) == self@.disable_service_spec(identifier@),
    {
        match (&self.login, &self.password) {
            (Some(login), Some(password)) => {
                let mut params: Vec<(String, String)> = Vec::new();
                params.push(pair("identifier", identifier));
                params.push(pair("login", login.clone()));
                params.push(pair("password", password.clone()));
                let r = self.request_to("/disable_service", Method::Post, params);
                proof {
                    assert(params_view(params@) =~= seq![
                        ("identifier"@, identifier@),
                        ("login"@, self@.login->0),
                        ("password"@, self@.password->0),
                    ]);
                }
                r
            },
            _ => Err(ClientError::MissingCredentials),
        }
    }

    /// The request for a fresh access token: a form POST to `/newtoken` with
    /// the stored credentials. Without both credentials no request is built.
    pub fn newtoken(&self) -> (r: Result<Request, ClientError>)
        ensures
            outcome(r) == self@.newtoken_spec(),
    {
        match (&self.login, &self.password) {
            (Some(login), Some(password)) => {
                let mut params: Vec<(String, String)> = Vec::new();
                params.push(pair("login", login.clone()));
                params.push(pair("password", password.clone()));
                let r = self.request_to("/newtoken", Method::Post, params);
                proof {
                    assert(params_view(params@) =~= seq![
                        ("login"@, self@.login->0),
                        ("password"@, self@.password->0),
                    ]);
                }
                r
            },
            _ => Err(ClientError::MissingCredentials),
        }
    }

    /// The discovery query: a GET to `/find` whose query holds exactly the
    /// filters supplied, in the order service type, limit, availability.
    pub fn find(
        &self,
        service_type: Option<String>,
        limit: Option<usize>,
        available: Option<bool>,
    ) -> (r: Result<Request, ClientError>)
        ensures
            outcome(r) == self@.find_spec(
                opt_text(service_type),
                match limit {
                    Some(n) => Some(n as nat),
                    None => None,
                },
                available,
            ),
    {
        let mut params: Vec<(String, String)> = Vec::new();
        let ghost st = opt_text(service_type);
        if let Some(service_type) = service_type {
            params.push(pair("service_type", service_type));
        }
        assert(params_view(params@) =~= optional_pair("service_type"@, st));
        let ghost before_limit = params_view(params@);
        if let Some(limit) = limit {
            params.push(pair("limit", decimal(limit as u64)));
        }
        let ghost lt = match limit {
            Some(n) => Some(decimal_text(n as nat)),
            None => None,
        };
        assert(params_view(params@) =~= before_limit + optional_pair("limit"@, lt));
        let ghost before_available = params_view(params@);
        if let Some(available) = available {
            params.push(pair("available", boolean(available)));
        }
        let ghost at = match available {
            Some(b) => Some(bool_text(b)),
            None => None,
        };
        assert(params_view(params@) =~= before_available + optional_pair("available"@, at));
        self.request_to("/find", Method::Get, params)
    }

    /// A webhook subscription for the service `identifier`: a form POST to
    /// `/subscribe` with the stored credentials, the receiving `endpoint` and
    /// the two event flags. Without both credentials no request is built.
    pub fn subscribe(
        &self,
        identifier: String,
        on_registration: bool,
        on_acceptance: bool,
        endpoint: String,
    ) -> (r: Result<Request, ClientError>)
        ensures
            outcome(r) == self@.subscribe_spec(
                identifier@,
                on_registration,
                on_acceptance,
                endpoint@,
            ),
    {
        match (&self.login, &self.password) {
            (Some(login), Some(password)) => {
                let mut params: Vec<(String, String)> = Vec::new();
                params.push(pair("login", login.clone()));
                params.push(pair("password", password.clone()));
                params.push(pair("identifier", identifier));
                params.push(pair("endpoint", endpoint));
                params.push(pair("on_registration", boolean(on_registration)));
                params.push(pair("on_acceptance", boolean(on_acceptance)));
                let r = self.request_to("/subscribe", Method::Post, params);
                proof {
                    assert(params_view(params@) =~= seq![
                        ("login"@, self@.login->0),
                        ("password"@, self@.password->0),
                        ("identifier"@, identifier@),
                        ("endpoint"@, endpoint@),
                        ("on_registration"@, bool_text(on_registration)),
                        ("on_acceptance"@, bool_text(on_acceptance)),
                    ]);
                }
                r
            },
            _ => Err(ClientError::MissingCredentials),
        }
    }
}

} // verus!

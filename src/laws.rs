use vstd::prelude::*;
use crate::client::{find_params, joined_url, planned, ClientView, RequestView};
use crate::wire::{bool_text, decimal_text, ClientError, Method};

verus! {

/// Every operation that needs credentials refuses, with `MissingCredentials`
/// and without building a request, on a client that lacks the login, the
/// password, or both.
pub proof fn credentials_required(
    c: ClientView,
    identifier: Seq<char>,
    on_registration: bool,
    on_acceptance: bool,
    endpoint: Seq<char>,
)
    requires
        c.login is None || c.password is None,
    ensures
        c.accept_service_spec(identifier) == Err::<RequestView, ClientError>(
            ClientError::MissingCredentials,
        ),
        c.disable_service_spec(identifier) == Err::<RequestView, ClientError>(
            ClientError::MissingCredentials,
        ),
        c.newtoken_spec() == Err::<RequestView, ClientError>(
            ClientError::MissingCredentials,
        ),
        c.subscribe_spec(identifier, on_registration, on_acceptance, endpoint) == Err::<
            RequestView,
            ClientError,
        >(ClientError::MissingCredentials),
{
}

/// A `find` without filters sends an empty query, and one with only a limit
/// sends exactly that limit in decimal and nothing else.
pub proof fn find_sends_only_supplied(c: ClientView, limit: nat)
    ensures
        c.find_spec(None, None, None) == planned(c.base, "/find"@, Method::Get, Seq::empty()),
        c.find_spec(None, Some(limit), None) == planned(
            c.base,
            "/find"@,
            Method::Get,
            seq![("limit"@, decimal_text(limit))],
        ),
{
    assert(find_params(None, None, None) =~= Seq::empty());
    assert(find_params(None, Some(limit), None) =~= seq![("limit"@, decimal_text(limit))]);
}

/// A subscription to registration alone and one to acceptance alone, for the
/// same service, are each built whenever the client holds credentials and the
/// base address joins with the path; they are two distinct submissions whose
/// flags do not overlap.
pub proof fn subscriptions_independent(
    c: ClientView,
    identifier: Seq<char>,
    endpoint_a: Seq<char>,
    endpoint_b: Seq<char>,
)
    requires
        c.has_credentials(),
        joined_url(c.base, "/subscribe"@) is Some,
    ensures
        ({
            let a = c.subscribe_spec(identifier, true, false, endpoint_a);
            let b = c.subscribe_spec(identifier, false, true, endpoint_b);
            &&& a is Ok && b is Ok
            &&& a->Ok_0.params != b->Ok_0.params
            &&& a->Ok_0.params[4] == ("on_registration"@, bool_text(true))
            &&& a->Ok_0.params[5] == ("on_acceptance"@, bool_text(false))
            &&& b->Ok_0.params[4] == ("on_registration"@, bool_text(false))
            &&& b->Ok_0.params[5] == ("on_acceptance"@, bool_text(true))
        }),
{
    let a = c.subscribe_spec(identifier, true, false, endpoint_a);
    let b = c.subscribe_spec(identifier, false, true, endpoint_b);
    assert(bool_text(true) != bool_text(false)) by {
        assert(bool_text(true).len() != bool_text(false).len());
    }
    assert(a->Ok_0.params[4] != b->Ok_0.params[4]);
}

} // verus!

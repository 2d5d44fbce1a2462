//! The fetch of the origin page as a state machine: the component sends a
//! request, reports each response's status and `Location`, and learns
//! whether to follow a redirect, to read the body, or to give up. Every URL
//! a fetch requests is an `https` URL.

use vstd::prelude::*;
use crate::failure::{failure_status, Failure};
use crate::forward::{ascii_lowering, ascii_names, forwarded_by, marker_header, outbound, outbound_headers};
use crate::origin::{has_scheme, is_https_url, origin_outcome, origin_url, texts_of};
use crate::text::text_eq;
use crate::MAX_REDIRECTS;

verus! {

/// What the `url` crate gives for joining `location` onto the parsed `base`:
/// the scheme and the serialization of the joined URL, or `None` when
/// parsing `base` or the join fails.
pub uninterp spec fn spec_url_join(base: Seq<char>, location: Seq<char>) -> Option<(Seq<char>, Seq<char>)>;

/// The text held by an optional string.
pub open spec fn text_of(o: Option<String>) -> Option<Seq<char>> {
    match o {
        Some(s) => Some(s@),
        None => None,
    }
}

/// The `https` URL that a join result leads to, `None` when the join failed
/// or led elsewhere.
pub open spec fn https_target(joined: Option<(Seq<char>, Seq<char>)>) -> Option<Seq<char>> {
    match joined {
        Some((scheme, serialized)) => if scheme == "https"@ && has_scheme(serialized, "https"@) {
            Some(serialized)
        } else {
            None
        },
        None => None,
    }
}

/// The URL a redirect leads to: `location` resolved against `base`, where
/// that gives an `https` URL; `None` otherwise.
pub open spec fn redirect_target(base: Seq<char>, location: Seq<char>) -> Option<Seq<char>> {
    https_target(spec_url_join(base, location))
}

/// Statuses 300 to 399.
pub open spec fn is_redirect(status: u16) -> bool {
    300 <= status < 400
}

/// Statuses 200 to 299.
pub open spec fn is_success(status: u16) -> bool {
    200 <= status <= 299
}

/// Where a fetch stands: the URL to request next, how many redirects were
/// followed, and the headers sent with every request.
pub struct FetchState {
    pub url: Seq<char>,
    pub redirects: nat,
    pub headers: Seq<(Seq<char>, Seq<char>)>,
}

/// What a response tells the component to do.
#[derive(Debug, PartialEq, Eq)]
pub enum Step {
    /// Request the new URL of the fetch.
    Follow,
    /// The response is the page: read its body.
    Arrived,
    /// Answer the client with this failure.
    Failed(Failure),
}

/// What a response with `status` and `location` tells a fetch in state `s`.
pub open spec fn step_outcome(s: FetchState, status: u16, location: Option<Seq<char>>) -> Step {
    if is_redirect(status) {
        if s.redirects >= MAX_REDIRECTS {
            Step::Failed(Failure::TooManyRedirects)
        } else if location is None {
            Step::Failed(Failure::RedirectWithoutLocation { status })
        } else if redirect_target(s.url, location.unwrap()) is None {
            Step::Failed(Failure::RedirectNotHttps)
        } else {
            Step::Follow
        }
    } else if is_success(status) {
        Step::Arrived
    } else {
        Step::Failed(Failure::RemoteStatus { status })
    }
}

/// The state of the fetch after that response: a followed redirect moves to
/// its target and counts one more redirect; anything else leaves the state.
pub open spec fn next_state(s: FetchState, status: u16, location: Option<Seq<char>>) -> FetchState {
    if step_outcome(s, status, location) is Follow {
        FetchState {
            url: redirect_target(s.url, location.unwrap()).unwrap(),
            redirects: s.redirects + 1,
            headers: s.headers,
        }
    } else {
        s
    }
}

/// Every response of `responses`, met in turn from state `s`, is a redirect
/// that is followed.
pub open spec fn follows_all(s: FetchState, responses: Seq<(u16, Option<Seq<char>>)>) -> bool
    decreases responses.len(),
{
    if responses.len() == 0 {
        true
    } else {
        let (status, location) = responses[0];
        &&& step_outcome(s, status, location) is Follow
        &&& follows_all(next_state(s, status, location), responses.drop_first())
    }
}

/// The URLs requested from state `s` when the origin answers request `i`
/// with `responses[i]`: one request, then one more for every redirect that
/// is followed.
pub open spec fn requested_urls(s: FetchState, responses: Seq<(u16, Option<Seq<char>>)>) -> Seq<Seq<char>>
    decreases responses.len(),
{
    if responses.len() > 0 && step_outcome(s, responses[0].0, responses[0].1) is Follow {
        seq![s.url] + requested_urls(next_state(s, responses[0].0, responses[0].1), responses.drop_first())
    } else {
        seq![s.url]
    }
}

/// How the fetch from state `s` ends with these responses: the first step
/// that is not a followed redirect, `None` when the responses run out first.
pub open spec fn final_step(s: FetchState, responses: Seq<(u16, Option<Seq<char>>)>) -> Option<Step>
    decreases responses.len(),
{
    if responses.len() == 0 {
        None
    } else if step_outcome(s, responses[0].0, responses[0].1) is Follow {
        final_step(next_state(s, responses[0].0, responses[0].1), responses.drop_first())
    } else {
        Some(step_outcome(s, responses[0].0, responses[0].1))
    }
}

/// A fetch in progress.
pub struct Fetcher {
    url: String,
    redirects: usize,
    headers: Vec<(String, String)>,
}

impl View for Fetcher {
    type V = FetchState;

    closed spec fn view(&self) -> FetchState {
        FetchState { url: self.url@, redirects: self.redirects as nat, headers: self.headers.deep_view() }
    }
}

/// `Url::parse` of `base`, then `Url::join` of `location` onto it, then the
/// joined URL's `scheme()` and `as_str()`. Besides naming the result, the
/// contract states the layout that the `url` crate keeps for every parsed
/// URL: the serialization starts with the scheme, followed by `:`.
#[verifier::external_body]
fn join_url(base: &str, location: &str) -> (r: Option<(String, String)>)
    ensures
        texts_of(r) == spec_url_join(base@, location@),
        r matches Some((scheme, serialized)) ==> has_scheme(serialized@, scheme@),
{
    match url::Url::parse(base) {
        Ok(parsed) => match parsed.join(location) {
            Ok(joined) => Some((joined.scheme().to_string(), joined.as_str().to_string())),
            Err(_) => None,
        },
        Err(_) => None,
    }
}

/// The redirect target given what the join gave back: the joined URL when it
/// is an `https` URL, `None` when the join failed or led elsewhere.
pub fn redirect_target_from(joined: Option<(String, String)>) -> (r: Option<String>)
    ensures
        text_of(r) == https_target(texts_of(joined)),
{
    match joined {
        Some((scheme, serialized)) => if text_eq(scheme.as_str(), "https") && is_https_url(
            serialized.as_str(),
        ) {
            Some(serialized)
        } else {
            None
        },
        None => None,
    }
}

/// Resolves a redirect's `location` against the URL that was requested,
/// keeping only an `https` target.
pub fn resolve_redirect(base: &str, location: &str) -> (r: Option<String>)
    ensures
        text_of(r) == redirect_target(base@, location@),
        r matches Some(t) ==> has_scheme(t@, "https"@),
{
    let joined = join_url(base, location);
    redirect_target_from(joined)
}

impl Fetcher {
    /// A fetch never counts more redirects than it may follow, and always
    /// requests an `https` URL.
    #[verifier::type_invariant]
    spec fn well_formed(self) -> bool {
        &&& self.redirects <= MAX_REDIRECTS
        &&& has_scheme(self.url@, "https"@)
    }

    /// A fetch of `url` that sends `headers` with every request; `None`
    /// unless `url` is an `https` URL.
    pub fn new(url: String, headers: Vec<(String, String)>) -> (r: Option<Fetcher>)
        ensures
            r is Some <==> has_scheme(url@, "https"@),
            r matches Some(f) ==> f@ == (FetchState {
                url: url@,
                redirects: 0,
                headers: headers.deep_view(),
            }),
    {
        if is_https_url(url.as_str()) {
            Some(Fetcher { url, redirects: 0, headers })
        } else {
            None
        }
    }

    /// The URL to request next, always an `https` URL.
    pub fn url(&self) -> (r: &str)
        ensures
            r@ == self@.url,
            has_scheme(r@, "https"@),
    {
        proof {
            use_type_invariant(self);
        }
        self.url.as_str()
    }

    /// How many redirects were followed.
    pub fn redirects(&self) -> (r: usize)
        ensures
            r == self@.redirects,
            r <= MAX_REDIRECTS,
    {
        proof {
            use_type_invariant(self);
        }
        self.redirects
    }

    /// The headers sent with every request of this fetch.
    pub fn headers(&self) -> (r: &Vec<(String, String)>)
        ensures
            r.deep_view() == self@.headers,
    {
        &self.headers
    }

    /// Takes in a response's status and its `Location` header, if any:
    /// follows a redirect to an `https` target while fewer than the most
    /// allowed were followed, accepts a success, and fails on anything else.
    pub fn on_response(&mut self, status: u16, location: Option<String>) -> (r: Step)
        ensures
            r == step_outcome(old(self)@, status, text_of(location)),
            final(self)@ == next_state(old(self)@, status, text_of(location)),
    {
        proof {
            use_type_invariant(&*self);
        }
        if 300 <= status && status < 400 {
            if self.redirects >= MAX_REDIRECTS {
                return Step::Failed(Failure::TooManyRedirects);
            }
            match location {
                None => Step::Failed(Failure::RedirectWithoutLocation { status }),
                Some(loc) => match resolve_redirect(self.url.as_str(), loc.as_str()) {
                    None => Step::Failed(Failure::RedirectNotHttps),
                    Some(target) => {
                        self.url = target;
                        self.redirects = self.redirects + 1;
                        Step::Follow
                    },
                },
            }
        } else if 200 <= status && status <= 299 {
            Step::Arrived
        } else {
            Step::Failed(Failure::RemoteStatus { status })
        }
    }

    /// The failure of a request to the current URL that got no response.
    pub fn fetch_failed(&self) -> (r: Failure)
        ensures
            r matches Failure::FetchFailed { url } && url@ == self@.url,
    {
        Failure::FetchFailed { url: self.url.clone() }
    }

    /// The failure of reading the body from the current URL, with the
    /// reader's own `detail`.
    pub fn read_failed(&self, detail: String) -> (r: Failure)
        ensures
            r matches Failure::ReadFailed { url, detail: d } && url@ == self@.url && d == detail,
    {
        Failure::ReadFailed { url: self.url.clone(), detail }
    }
}

/// Starts the fetch for a request: reads the origin URL from the
/// `x-origin-url` header value (`None` when the request has no readable one)
/// and prepares the headers that every outbound request carries.
pub fn begin(origin_header: Option<&str>, request_headers: &Vec<(String, Option<String>)>) -> (r:
    Result<Fetcher, Failure>)
    ensures
        ({
            let outcome = origin_outcome(
                match origin_header {
                    Some(h) => Some(h@),
                    None => None,
                },
            );
            &&& r matches Ok(f) ==> {
                &&& outcome == Ok::<Seq<char>, Failure>(f@.url)
                &&& f@.redirects == 0
                &&& f@.headers == outbound(request_headers.deep_view())
                &&& ascii_names(request_headers.deep_view()) ==> f@.headers == forwarded_by(
                    ascii_lowering(),
                    request_headers.deep_view(),
                ).push(marker_header())
                &&& has_scheme(f@.url, "https"@)
            }
            &&& r matches Err(e) ==> outcome == Err::<Seq<char>, Failure>(e)
        }),
{
    match origin_url(origin_header) {
        Err(e) => Err(e),
        Ok(url) => Ok(Fetcher { url, redirects: 0, headers: outbound_headers(request_headers) }),
    }
}

/// A followed redirect counts exactly one more redirect, keeps the headers
/// and leads to an `https` URL; any other response leaves the fetch as it
/// was. The count never passes the most allowed.
pub proof fn redirects_stay_within_budget(s: FetchState, status: u16, location: Option<Seq<char>>)
    requires
        s.redirects <= MAX_REDIRECTS,
    ensures
        next_state(s, status, location).redirects <= MAX_REDIRECTS,
        next_state(s, status, location).headers == s.headers,
        step_outcome(s, status, location) is Follow ==> {
            &&& next_state(s, status, location).redirects == s.redirects + 1
            &&& has_scheme(next_state(s, status, location).url, "https"@)
        },
        !(step_outcome(s, status, location) is Follow) ==> next_state(s, status, location) == s,
{
}

/// Every status is exactly one of: a redirect, a success that ends the
/// fetch, or a failure of the origin that is reported as such.
pub proof fn every_status_is_classified(s: FetchState, status: u16, location: Option<Seq<char>>)
    ensures
        is_redirect(status) ==> !(step_outcome(s, status, location) is Arrived),
        is_success(status) <==> step_outcome(s, status, location) is Arrived,
        !is_redirect(status) && !is_success(status) ==> step_outcome(s, status, location)
            == Step::Failed(Failure::RemoteStatus { status }),
{
}

/// The failures that can only arise once a fetch has begun: from sending,
/// from the responses, and from reading and converting the body.
pub open spec fn arises_after_begin(f: Failure) -> bool {
    ||| f is FetchFailed
    ||| f is TooManyRedirects
    ||| f is RedirectWithoutLocation
    ||| f is RedirectNotHttps
    ||| f is RemoteStatus
    ||| f is BodyTooLarge
    ||| f is ReadFailed
    ||| f is EmptyBody
    ||| f is ConversionFailed
}

/// Status 400 answers exactly the faults of the request's `x-origin-url`
/// header: reading the header fails only with them, every failure that can
/// arise once the fetch began is answered otherwise, and the responses of a
/// fetch give only such failures.
pub proof fn bad_request_comes_only_from_the_header(
    header: Option<Seq<char>>,
    f: Failure,
    s: FetchState,
    status: u16,
    location: Option<Seq<char>>,
)
    ensures
        origin_outcome(header) matches Err(e) ==> e.is_request_error() && failure_status(e) == 400,
        failure_status(f) == 400 <==> !arises_after_begin(f),
        arises_after_begin(f) ==> failure_status(f) == 422 || failure_status(f) == 502,
        step_outcome(s, status, location) matches Step::Failed(e) ==> arises_after_begin(e),
{
}

/// However the origin answers, a fetch follows at most as many redirects as
/// remain in its budget; from a fresh fetch, at most ten, so at most eleven
/// requests are sent.
pub proof fn redirect_chains_are_bounded(s: FetchState, responses: Seq<(u16, Option<Seq<char>>)>)
    requires
        s.redirects <= MAX_REDIRECTS,
        follows_all(s, responses),
    ensures
        s.redirects + responses.len() <= MAX_REDIRECTS,
    decreases responses.len(),
{
    if responses.len() > 0 {
        let (status, location) = responses[0];
        redirects_stay_within_budget(s, status, location);
        redirect_chains_are_bounded(next_state(s, status, location), responses.drop_first());
    }
}

/// The requests of a whole fetch: the first goes to the fetch's URL; each
/// further one goes to the `https` target of the redirect that answered the
/// one before; there are at most as many as the redirect budget allows plus
/// one (eleven from a fresh fetch); every one goes to an `https` URL; and a
/// redirect that answers the last request the budget allows ends the fetch
/// with `TooManyRedirects`.
pub proof fn requested_urls_follow_the_redirects(s: FetchState, responses: Seq<(u16, Option<Seq<char>>)>)
    requires
        s.redirects <= MAX_REDIRECTS,
        has_scheme(s.url, "https"@),
    ensures
        ({
            let urls = requested_urls(s, responses);
            &&& 1 <= urls.len() <= MAX_REDIRECTS - s.redirects + 1
            &&& urls.len() <= responses.len() + 1
            &&& urls[0] == s.url
            &&& forall|i: int| 0 <= i < urls.len() ==> has_scheme(#[trigger] urls[i], "https"@)
            &&& forall|i: int|
                0 <= i < urls.len() - 1 ==> {
                    &&& is_redirect(#[trigger] responses[i].0)
                    &&& responses[i].1 is Some
                    &&& redirect_target(urls[i], responses[i].1.unwrap()) == Some(urls[i + 1])
                }
            &&& (urls.len() == MAX_REDIRECTS - s.redirects + 1 && urls.len() <= responses.len()
                && is_redirect(responses[urls.len() - 1].0)) ==> final_step(s, responses) == Some(
                Step::Failed(Failure::TooManyRedirects),
            )
        }),
    decreases responses.len(),
{
    let urls = requested_urls(s, responses);
    if responses.len() > 0 && step_outcome(s, responses[0].0, responses[0].1) is Follow {
        let t = next_state(s, responses[0].0, responses[0].1);
        let rest = responses.drop_first();
        redirects_stay_within_budget(s, responses[0].0, responses[0].1);
        requested_urls_follow_the_redirects(t, rest);
        let tail = requested_urls(t, rest);
        assert(urls == seq![s.url] + tail);
        assert forall|i: int| 0 <= i < urls.len() implies has_scheme(#[trigger] urls[i], "https"@) by {
            if i > 0 {
                assert(urls[i] == tail[i - 1]);
            }
        }
        assert forall|i: int| 0 <= i < urls.len() - 1 implies {
            &&& is_redirect(#[trigger] responses[i].0)
            &&& responses[i].1 is Some
            &&& redirect_target(urls[i], responses[i].1.unwrap()) == Some(urls[i + 1])
        } by {
            if i > 0 {
                assert(urls[i] == tail[i - 1]);
                assert(urls[i + 1] == tail[i]);
                assert(responses[i] == rest[i - 1]);
            } else {
                assert(urls[1] == tail[0]);
            }
        }
        if urls.len() == MAX_REDIRECTS - s.redirects + 1 && urls.len() <= responses.len() {
            assert(responses[urls.len() - 1] == rest[tail.len() - 1]);
        }
    }
}

/// A redirect is followed to wherever the join of its `Location` onto the
/// current URL leads, as long as that is an `https` URL and the budget is not
/// spent, whether the `Location` is relative or absolute: the fetch moves to
/// the joined URL, counts one more redirect and keeps its headers.
pub proof fn https_redirects_are_followed(s: FetchState, status: u16, location: Seq<char>, target: Seq<char>)
    requires
        is_redirect(status),
        s.redirects < MAX_REDIRECTS,
        spec_url_join(s.url, location) == Some(("https"@, target)),
        has_scheme(target, "https"@),
    ensures
        step_outcome(s, status, Some(location)) == Step::Follow,
        next_state(s, status, Some(location)) == (FetchState {
            url: target,
            redirects: s.redirects + 1,
            headers: s.headers,
        }),
{
}

/// A redirect within the budget whose `Location` does not join onto the
/// current URL into an `https` URL is refused, and the fetch stays where it
/// was.
pub proof fn other_redirect_targets_are_refused(s: FetchState, status: u16, location: Seq<char>)
    requires
        is_redirect(status),
        s.redirects < MAX_REDIRECTS,
        !(spec_url_join(s.url, location) matches Some((scheme, target)) && scheme == "https"@
            && has_scheme(target, "https"@)),
    ensures
        step_outcome(s, status, Some(location)) == Step::Failed(Failure::RedirectNotHttps),
        next_state(s, status, Some(location)) == s,
{
}

/// Once the budget is spent, every redirect ends the fetch with
/// `TooManyRedirects`, with or without a `Location`; before that, a redirect
/// without `Location` ends it with `RedirectWithoutLocation`.
pub proof fn redirects_past_the_budget_fail(s: FetchState, status: u16, location: Option<Seq<char>>)
    requires
        is_redirect(status),
    ensures
        s.redirects >= MAX_REDIRECTS ==> step_outcome(s, status, location) == Step::Failed(
            Failure::TooManyRedirects,
        ),
        s.redirects < MAX_REDIRECTS && location is None ==> step_outcome(s, status, location)
            == Step::Failed(Failure::RedirectWithoutLocation { status }),
{
}

} // verus!

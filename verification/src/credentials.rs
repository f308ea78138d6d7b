//! API keys: where they come from, and which one a request is sent with.
//!
//! The type of a key is a parameter, `K`: keys are carried, and never looked at.

use vstd::hash_map::StringHashMap;
use vstd::prelude::*;

use crate::error::{Error, ErrorDetails, ErrorView};
use crate::provider::PROVIDER_NAME;
use crate::text::opt_view;

verus! {

/// Where a configuration says that a key is to be found.
#[derive(Debug, PartialEq, Eq)]
pub enum CredentialLocation {
    /// In this environment variable.
    Env(String),
    /// In the file whose path is in this environment variable.
    PathFromEnv(String),
    /// In the request, under this name.
    Dynamic(String),
    /// In this file.
    Path(String),
    /// Wherever the provider's SDK looks.
    Sdk,
    /// Nowhere.
    Unset,
}

/// The model of [`CredentialLocation`].
pub enum CredentialLocationView {
    Env(Seq<char>),
    PathFromEnv(Seq<char>),
    Dynamic(Seq<char>),
    Path(Seq<char>),
    Sdk,
    Unset,
}

impl View for CredentialLocation {
    type V = CredentialLocationView;

    open spec fn view(&self) -> CredentialLocationView {
        match self {
            CredentialLocation::Env(name) => CredentialLocationView::Env(name@),
            CredentialLocation::PathFromEnv(name) => CredentialLocationView::PathFromEnv(name@),
            CredentialLocation::Dynamic(name) => CredentialLocationView::Dynamic(name@),
            CredentialLocation::Path(path) => CredentialLocationView::Path(path@),
            CredentialLocation::Sdk => CredentialLocationView::Sdk,
            CredentialLocation::Unset => CredentialLocationView::Unset,
        }
    }
}

/// What was found where a key was looked for.
#[derive(Debug, PartialEq, Eq)]
pub enum Credential<K> {
    /// A key.
    Static(K),
    /// The contents of a file.
    FileContents(K),
    /// The name under which each request brings its key.
    Dynamic(String),
    /// The provider's SDK finds the key.
    Sdk,
    /// No key is configured.
    Unset,
    /// The key that is configured is not there.
    Missing,
}

/// The model of [`Credential`].
pub enum CredentialView<K> {
    Static(K),
    FileContents(K),
    Dynamic(Seq<char>),
    Sdk,
    Unset,
    Missing,
}

impl<K> View for Credential<K> {
    type V = CredentialView<K>;

    open spec fn view(&self) -> CredentialView<K> {
        match self {
            Credential::Static(key) => CredentialView::Static(*key),
            Credential::FileContents(contents) => CredentialView::FileContents(*contents),
            Credential::Dynamic(name) => CredentialView::Dynamic(name@),
            Credential::Sdk => CredentialView::Sdk,
            Credential::Unset => CredentialView::Unset,
            Credential::Missing => CredentialView::Missing,
        }
    }
}

/// The keys that a request brings, by their names.
#[verifier::reject_recursive_types(K)]
pub struct InferenceCredentials<K> {
    keys: StringHashMap<K>,
}

impl<K> View for InferenceCredentials<K> {
    type V = Map<Seq<char>, K>;

    closed spec fn view(&self) -> Map<Seq<char>, K> {
        self.keys@
    }
}

impl<K> InferenceCredentials<K> {
    pub fn new() -> (r: Self)
        ensures
            r@ == Map::<Seq<char>, K>::empty(),
    {
        InferenceCredentials { keys: StringHashMap::new() }
    }

    pub fn insert(&mut self, name: String, key: K)
        ensures
            final(self)@ == old(self)@.insert(name@, key),
    {
        self.keys.insert(name, key)
    }

    pub fn get(&self, name: &str) -> (r: Option<&K>)
        ensures
            match r {
                Some(key) => self@.contains_key(name@) && *key == self@[name@],
                None => !self@.contains_key(name@),
            },
    {
        self.keys.get(name)
    }
}

/// Where the provider has its key from.
#[derive(Debug, PartialEq, Eq)]
pub enum CohereCredentials<K> {
    /// This is the key.
    Static(K),
    /// Each request brings its key, under this name.
    Dynamic(String),
    /// There is no key.
    Absent,
}

/// The model of [`CohereCredentials`].
pub enum CohereCredentialsView<K> {
    Static(K),
    Dynamic(Seq<char>),
    Absent,
}

impl<K> View for CohereCredentials<K> {
    type V = CohereCredentialsView<K>;

    open spec fn view(&self) -> CohereCredentialsView<K> {
        match self {
            CohereCredentials::Static(key) => CohereCredentialsView::Static(*key),
            CohereCredentials::Dynamic(name) => CohereCredentialsView::Dynamic(name@),
            CohereCredentials::Absent => CohereCredentialsView::Absent,
        }
    }
}

impl<K: Clone> Clone for CohereCredentials<K> {
    fn clone(&self) -> (copy: Self)
        ensures
            match *self {
                CohereCredentials::Static(key) => copy matches CohereCredentials::Static(other)
                    && cloned(key, other),
                _ => copy == *self,
            },
    {
        match self {
            CohereCredentials::Static(key) => CohereCredentials::Static(key.clone()),
            CohereCredentials::Dynamic(name) => CohereCredentials::Dynamic(name.clone()),
            CohereCredentials::Absent => CohereCredentials::Absent,
        }
    }
}

/// What the provider makes of what was found: a key, the name of one, or nothing
/// where a key is not there. Cohere takes no key from a file or an SDK, and has to
/// have one configured.
pub open spec fn credentials_of<K>(found: CredentialView<K>) -> Result<
    CohereCredentialsView<K>,
    ErrorView,
> {
    match found {
        CredentialView::Static(key) => Ok(CohereCredentialsView::Static(key)),
        CredentialView::Dynamic(name) => Ok(CohereCredentialsView::Dynamic(name)),
        CredentialView::Missing => Ok(CohereCredentialsView::Absent),
        CredentialView::FileContents(_) | CredentialView::Sdk | CredentialView::Unset => Err(
            ErrorView::Config { message: "Invalid api_key_location for Cohere provider"@ },
        ),
    }
}

/// The views of credentials or of an error.
pub open spec fn credentials_outcome<K>(r: Result<CohereCredentials<K>, Error>) -> Result<
    CohereCredentialsView<K>,
    ErrorView,
> {
    match r {
        Ok(credentials) => Ok(credentials@),
        Err(error) => Err(error@),
    }
}

impl<K> TryFrom<Credential<K>> for CohereCredentials<K> {
    type Error = Error;

    fn try_from(credentials: Credential<K>) -> (r: Result<Self, Error>)
        ensures
            credentials_outcome(r) == credentials_of(credentials@),
    {
        match credentials {
            Credential::Static(key) => Ok(CohereCredentials::Static(key)),
            Credential::Dynamic(key_name) => Ok(CohereCredentials::Dynamic(key_name)),
            Credential::Missing => Ok(CohereCredentials::Absent),
            _ => Err(
                Error::new(
                    ErrorDetails::Config {
                        message: "Invalid api_key_location for Cohere provider".to_string(),
                    },
                ),
            ),
        }
    }
}

impl<K> vstd::std_specs::convert::TryFromSpecImpl<Credential<K>> for CohereCredentials<K> {
    /// What `try_from` returns is said of its view, in its own contract.
    open spec fn obeys_try_from_spec() -> bool {
        false
    }

    open spec fn try_from_spec(credentials: Credential<K>) -> Result<Self, Error> {
        arbitrary()
    }
}

/// The error of a request that has no key.
pub open spec fn key_missing() -> ErrorView {
    ErrorView::ApiKeyMissing { provider_name: PROVIDER_NAME@ }
}

/// The key for a request that brings `keys`: the provider's own, or the one that
/// the request brings under the provider's name for it.
pub open spec fn key_of<K>(
    credentials: CohereCredentialsView<K>,
    keys: Map<Seq<char>, K>,
) -> Result<K, ErrorView> {
    match credentials {
        CohereCredentialsView::Static(key) => Ok(key),
        CohereCredentialsView::Dynamic(name) => if keys.contains_key(name) {
            Ok(keys[name])
        } else {
            Err(key_missing())
        },
        CohereCredentialsView::Absent => Err(key_missing()),
    }
}

/// A key, or the view of an error.
pub open spec fn key_outcome<K>(r: Result<&K, Error>) -> Result<K, ErrorView> {
    match r {
        Ok(key) => Ok(*key),
        Err(error) => Err(error@),
    }
}

impl<K> CohereCredentials<K> {
    /// The key for a request that brings `dynamic_api_keys`.
    pub fn get_api_key<'a>(&'a self, dynamic_api_keys: &'a InferenceCredentials<K>) -> (r: Result<
        &'a K,
        Error,
    >)
        ensures
            key_outcome(r) == key_of(self@, dynamic_api_keys@),
    {
        match self {
            CohereCredentials::Static(api_key) => Ok(api_key),
            CohereCredentials::Dynamic(key_name) => match dynamic_api_keys.get(key_name.as_str()) {
                Some(api_key) => Ok(api_key),
                None => Err(
                    Error::new(
                        ErrorDetails::ApiKeyMissing { provider_name: PROVIDER_NAME.to_string() },
                    ),
                ),
            },
            CohereCredentials::Absent => Err(
                Error::new(
                    ErrorDetails::ApiKeyMissing { provider_name: PROVIDER_NAME.to_string() },
                ),
            ),
        }
    }
}

/// Where the key is looked for unless a configuration says otherwise.
pub fn default_api_key_location() -> (location: CredentialLocation)
    ensures
        location@ == default_location(),
{
    CredentialLocation::Env("COHERE_API_KEY".to_string())
}

/// Where the key is looked for unless a configuration says otherwise.
pub open spec fn default_location() -> CredentialLocationView {
    CredentialLocationView::Env("COHERE_API_KEY"@)
}

/// How to get at the provider's credentials.
pub enum CredentialPlan<K> {
    /// They are known already.
    Known(CohereCredentials<K>),
    /// They are to be looked for at `location`; with `remember`, what is found is
    /// to be kept for the providers that are set up later.
    Load { location: CredentialLocation, remember: bool },
}

/// The model of [`CredentialPlan`].
pub enum CredentialPlanView<K> {
    Known(CohereCredentialsView<K>),
    Load { location: CredentialLocationView, remember: bool },
}

impl<K> View for CredentialPlan<K> {
    type V = CredentialPlanView<K>;

    open spec fn view(&self) -> CredentialPlanView<K> {
        match self {
            CredentialPlan::Known(credentials) => CredentialPlanView::Known(credentials@),
            CredentialPlan::Load { location, remember } => CredentialPlanView::Load {
                location: location@,
                remember: *remember,
            },
        }
    }
}

/// A location that is configured is looked at each time. The default location is
/// looked at once: what was kept from it serves from then on.
pub open spec fn plan_of<K>(
    location: Option<CredentialLocationView>,
    kept: Option<CohereCredentialsView<K>>,
) -> CredentialPlanView<K> {
    match location {
        Some(location) => CredentialPlanView::Load { location, remember: false },
        None => match kept {
            Some(credentials) => CredentialPlanView::Known(credentials),
            None => CredentialPlanView::Load { location: default_location(), remember: true },
        },
    }
}

/// How to get at the credentials of a provider whose configuration gives
/// `api_key_location`, when `kept` is what was kept from the default location.
pub fn plan_credentials<K>(
    api_key_location: Option<CredentialLocation>,
    kept: Option<CohereCredentials<K>>,
) -> (plan: CredentialPlan<K>)
    ensures
        plan@ == plan_of(opt_view(api_key_location), opt_view(kept)),
{
    match api_key_location {
        Some(location) => CredentialPlan::Load { location, remember: false },
        None => match kept {
            Some(credentials) => CredentialPlan::Known(credentials),
            None => CredentialPlan::Load { location: default_api_key_location(), remember: true },
        },
    }
}

/// A provider that has a key uses it, whatever keys a request brings.
pub proof fn law_own_key_comes_first<K>(key: K, keys: Map<Seq<char>, K>)
    ensures
        key_of(CohereCredentialsView::Static(key), keys) == Ok::<K, ErrorView>(key),
{
}

/// A key that a request brings under the provider's name for it is the key that the
/// request is sent with, and no other key that it brings plays a part.
pub proof fn law_brought_key_is_used<K>(
    name: Seq<char>,
    key: K,
    keys: Map<Seq<char>, K>,
    other_name: Seq<char>,
    other_key: K,
)
    requires
        other_name != name,
    ensures
        key_of(CohereCredentialsView::Dynamic(name), keys.insert(name, key)) == Ok::<K, ErrorView>(
            key,
        ),
        key_of(CohereCredentialsView::Dynamic(name), keys.insert(other_name, other_key)) == key_of(
            CohereCredentialsView::Dynamic(name),
            keys,
        ),
{
}

/// Without a key of its own or one that the request brings, the only answer is that
/// the key is missing.
pub proof fn law_no_key_no_request<K>(
    credentials: CohereCredentialsView<K>,
    keys: Map<Seq<char>, K>,
)
    ensures
        key_of(credentials, keys) matches Err(error) ==> error == key_missing(),
        key_of(credentials, keys) is Err <==> match credentials {
            CohereCredentialsView::Static(_) => false,
            CohereCredentialsView::Dynamic(name) => !keys.contains_key(name),
            CohereCredentialsView::Absent => true,
        },
{
}

/// The default location is looked at once: whatever is kept from it serves every
/// provider that is set up later without a location of its own, and none that has
/// one.
pub proof fn law_default_location_is_looked_at_once<K>(
    kept: CohereCredentialsView<K>,
    location: CredentialLocationView,
)
    ensures
        plan_of(None, None::<CohereCredentialsView<K>>) == (CredentialPlanView::<K>::Load {
            location: default_location(),
            remember: true,
        }),
        plan_of(None, Some(kept)) == CredentialPlanView::Known(kept),
        plan_of(Some(location), Some(kept)) == plan_of(
            Some(location),
            None::<CohereCredentialsView<K>>,
        ),
{
}

/// What is configured is what is used: a key that was found is the key of every request,
/// a name that was found is the name under which each request brings its key, and where
/// the key is not there, no request has one. Every such failure says that Cohere's key
/// is missing.
pub proof fn law_what_is_configured_is_used<K>(found: CredentialView<K>, keys: Map<Seq<char>, K>)
    ensures
        found matches CredentialView::Static(key) ==> (credentials_of(found) matches Ok(credentials)
            && key_of(credentials, keys) == Ok::<K, ErrorView>(key)),
        found matches CredentialView::Dynamic(name) ==> (credentials_of(found) matches Ok(
            credentials,
        ) && key_of(credentials, keys) == if keys.contains_key(name) {
            Ok::<K, ErrorView>(keys[name])
        } else {
            Err(ErrorView::ApiKeyMissing { provider_name: "Cohere"@ })
        }),
        found is Missing ==> (credentials_of(found) matches Ok(credentials) && key_of(
            credentials,
            keys,
        ) == Err::<K, ErrorView>(ErrorView::ApiKeyMissing { provider_name: "Cohere"@ })),
{
}

/// Credentials keep what was found, the key or its name; what Cohere cannot use is an
/// error in the configuration.
pub proof fn law_credentials_keep_what_was_found<K>(found: CredentialView<K>)
    ensures
        found matches CredentialView::Static(key) ==> credentials_of(found) == Ok::<
            CohereCredentialsView<K>,
            ErrorView,
        >(CohereCredentialsView::Static(key)),
        found matches CredentialView::Dynamic(name) ==> credentials_of(found) == Ok::<
            CohereCredentialsView<K>,
            ErrorView,
        >(CohereCredentialsView::Dynamic(name)),
        found is Missing ==> credentials_of(found) == Ok::<CohereCredentialsView<K>, ErrorView>(
            CohereCredentialsView::Absent,
        ),
        found is FileContents || found is Sdk || found is Unset ==> credentials_of(found) == Err::<
            CohereCredentialsView<K>,
            ErrorView,
        >(ErrorView::Config { message: "Invalid api_key_location for Cohere provider"@ }),
{
}

/// The key of a request is the provider's own, or else the one that the request brings
/// under the provider's name for it; without either, Cohere's key is missing.
pub proof fn law_which_key_is_used<K>(
    credentials: CohereCredentialsView<K>,
    keys: Map<Seq<char>, K>,
)
    ensures
        credentials matches CohereCredentialsView::Static(key) ==> key_of(credentials, keys) == Ok::<
            K,
            ErrorView,
        >(key),
        credentials matches CohereCredentialsView::Dynamic(name) ==> (keys.contains_key(name)
            ==> key_of(credentials, keys) == Ok::<K, ErrorView>(keys[name])),
        credentials matches CohereCredentialsView::Dynamic(name) ==> (!keys.contains_key(name)
            ==> key_of(credentials, keys) == Err::<K, ErrorView>(
            ErrorView::ApiKeyMissing { provider_name: "Cohere"@ },
        )),
        credentials is Absent ==> key_of(credentials, keys) == Err::<K, ErrorView>(
            ErrorView::ApiKeyMissing { provider_name: "Cohere"@ },
        ),
{
}

/// A location that is configured is where the key is looked for, and what is found
/// there is not kept. Without one, what was kept is used, and where nothing was, the
/// key is looked for in the environment and kept.
pub proof fn law_where_the_key_is_looked_for<K>(
    location: Option<CredentialLocationView>,
    kept: Option<CohereCredentialsView<K>>,
)
    ensures
        location matches Some(place) ==> plan_of(location, kept) == (CredentialPlanView::<K>::Load {
            location: place,
            remember: false,
        }),
        location is None ==> (kept matches Some(credentials) ==> plan_of(location, kept)
            == CredentialPlanView::Known(credentials)),
        location is None && kept is None ==> plan_of(location, kept) == (CredentialPlanView::<K>::Load {
            location: CredentialLocationView::Env("COHERE_API_KEY"@),
            remember: true,
        }),
        default_location() == CredentialLocationView::Env("COHERE_API_KEY"@),
{
}

/// Every part of a location, of what was found there, and of what is made of it is seen
/// as it is.
pub proof fn law_credentials_are_seen_whole<K>(
    location: CredentialLocation,
    found: Credential<K>,
    credentials: CohereCredentials<K>,
    plan: CredentialPlan<K>,
)
    ensures
        match location {
            CredentialLocation::Env(name) => location@ == CredentialLocationView::Env(name@),
            CredentialLocation::PathFromEnv(name) => location@
                == CredentialLocationView::PathFromEnv(name@),
            CredentialLocation::Dynamic(name) => location@ == CredentialLocationView::Dynamic(
                name@,
            ),
            CredentialLocation::Path(path) => location@ == CredentialLocationView::Path(path@),
            CredentialLocation::Sdk => location@ is Sdk,
            CredentialLocation::Unset => location@ is Unset,
        },
        match found {
            Credential::Static(key) => found@ == CredentialView::Static(key),
            Credential::FileContents(contents) => found@ == CredentialView::FileContents(contents),
            Credential::Dynamic(name) => found@ == CredentialView::<K>::Dynamic(name@),
            Credential::Sdk => found@ is Sdk,
            Credential::Unset => found@ is Unset,
            Credential::Missing => found@ is Missing,
        },
        match credentials {
            CohereCredentials::Static(key) => credentials@ == CohereCredentialsView::Static(key),
            CohereCredentials::Dynamic(name) => credentials@ == CohereCredentialsView::<K>::Dynamic(
                name@,
            ),
            CohereCredentials::Absent => credentials@ is Absent,
        },
        match plan {
            CredentialPlan::Known(known) => plan@ == CredentialPlanView::Known(known@),
            CredentialPlan::Load { location: place, remember } => plan@ == (
            CredentialPlanView::<K>::Load { location: place@, remember }),
        },
{
}

/// What comes of looking for credentials, or for a key, is seen as it is.
pub proof fn law_keys_are_seen<K>(r: Result<CohereCredentials<K>, Error>, key: Result<&K, Error>)
    ensures
        r matches Ok(credentials) ==> credentials_outcome(r) == Ok::<
            CohereCredentialsView<K>,
            ErrorView,
        >(credentials@),
        r matches Err(error) ==> credentials_outcome(r) == Err::<
            CohereCredentialsView<K>,
            ErrorView,
        >(error@),
        key matches Ok(it) ==> key_outcome(key) == Ok::<K, ErrorView>(*it),
        key matches Err(error) ==> key_outcome(key) == Err::<K, ErrorView>(error@),
{
}

} // verus!

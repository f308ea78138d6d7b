//! The provider: its setup, and the steps of an inference.

use vstd::prelude::*;

use crate::credentials::{
    credentials_of, key_missing, key_of, CohereCredentials, CohereCredentialsView, Credential,
    InferenceCredentials,
};
use crate::error::{Error, ErrorDetails, ErrorView};
use crate::inference::{
    Latency, ModelInferenceRequest, ModelInferenceRequestView, ProviderInferenceResponse,
    ProviderInferenceResponseView,
};
use crate::outside::{is_success, join_url, joined_url, parse_url, parsed_url, text_result};
use crate::request::{request_of, request_outcome, CohereRequest, CohereRequestView};
use crate::response::{
    error_of, handle_cohere_error, outcome, response_of, CohereResponse, CohereResponseView,
    CohereResponseWithMetadata, CohereResponseWithMetadataView,
};
use crate::text::joined;

verus! {

/// The provider's name, for people.
pub const PROVIDER_NAME: &'static str = "Cohere";

/// The provider's name in configurations and in errors.
pub const PROVIDER_TYPE: &'static str = "cohere";

/// The base of the API's URLs. Its path ends in a slash, so that what is joined to
/// it comes behind the version.
pub const COHERE_API_BASE: &'static str = "https://api.cohere.ai/v2/";

/// A URL, or the error for a text that is none.
pub open spec fn url_or_error(r: Result<Seq<char>, Seq<char>>) -> Result<Seq<char>, ErrorView> {
    match r {
        Ok(url) => Ok(url),
        Err(message) => Err(ErrorView::InvalidBaseUrl { message }),
    }
}

/// The views of a URL or of an error.
pub open spec fn url_outcome(r: Result<String, Error>) -> Result<Seq<char>, ErrorView> {
    match r {
        Ok(url) => Ok(url@),
        Err(error) => Err(error@),
    }
}

/// A URL, or the error for a text that is none.
pub fn checked_url(r: Result<String, String>) -> (url: Result<String, Error>)
    ensures
        url_outcome(url) == url_or_error(text_result(r)),
{
    match r {
        Ok(url) => Ok(url),
        Err(message) => Err(Error::new(ErrorDetails::InvalidBaseUrl { message })),
    }
}

/// The base of the API's URLs, as the URL that it spells.
pub open spec fn api_base() -> Result<Seq<char>, ErrorView> {
    url_or_error(parsed_url(COHERE_API_BASE@))
}

/// The URL that chat requests go to.
pub open spec fn chat_url() -> Result<Seq<char>, ErrorView> {
    match api_base() {
        Ok(base) => url_or_error(joined_url(base, "chat/completions"@)),
        Err(error) => Err(error),
    }
}

/// The base of the API's URLs.
pub fn cohere_api_base() -> (r: Result<String, Error>)
    ensures
        url_outcome(r) == api_base(),
{
    checked_url(parse_url(COHERE_API_BASE))
}

/// The URL that chat requests go to.
pub fn get_chat_url() -> (r: Result<String, Error>)
    ensures
        url_outcome(r) == chat_url(),
{
    match cohere_api_base() {
        Ok(base) => checked_url(join_url(base.as_str(), "chat/completions")),
        Err(error) => Err(error),
    }
}

/// What came of a [`crate::credentials::CredentialPlan`].
pub enum CredentialReply<K> {
    /// The credentials were known already.
    Known(CohereCredentials<K>),
    /// This was found.
    Found(Credential<K>),
    /// The search failed.
    Failed(Error),
}

/// The credentials that come of a reply, or the error.
pub open spec fn credentials_from<K>(reply: CredentialReply<K>) -> Result<
    CohereCredentialsView<K>,
    ErrorView,
> {
    match reply {
        CredentialReply::Known(credentials) => Ok(credentials@),
        CredentialReply::Found(found) => credentials_of(found@),
        CredentialReply::Failed(error) => Err(error@),
    }
}

/// A Cohere model, and the credentials to use it with.
#[derive(Debug)]
pub struct CohereProvider<K> {
    model_name: String,
    credentials: CohereCredentials<K>,
}

/// The model of [`CohereProvider`].
pub struct CohereProviderView<K> {
    pub model_name: Seq<char>,
    pub credentials: CohereCredentialsView<K>,
}

impl<K> View for CohereProvider<K> {
    type V = CohereProviderView<K>;

    closed spec fn view(&self) -> CohereProviderView<K> {
        CohereProviderView { model_name: self.model_name@, credentials: self.credentials@ }
    }
}

/// Where a request is sent, and the key it is sent with.
pub struct Destination<'a, K> {
    pub url: String,
    pub api_key: &'a K,
}

/// The model of [`Destination`].
pub struct DestinationView<K> {
    pub url: Seq<char>,
    pub api_key: K,
}

impl<'a, K> View for Destination<'a, K> {
    type V = DestinationView<K>;

    open spec fn view(&self) -> DestinationView<K> {
        DestinationView { url: self.url@, api_key: *self.api_key }
    }
}

/// Where a request is sent, once it has been written as JSON: a request that could
/// not be written fails first, then the URL, then the key.
pub open spec fn destination_of<K>(
    credentials: CohereCredentialsView<K>,
    written: Result<(), Seq<char>>,
    keys: Map<Seq<char>, K>,
) -> Result<DestinationView<K>, ErrorView> {
    match written {
        Err(reason) => Err(
            ErrorView::Serialization {
                message: "Error serializing Cohere request: "@ + reason,
            },
        ),
        Ok(_) => match chat_url() {
            Err(error) => Err(error),
            Ok(url) => match key_of(credentials, keys) {
                Err(error) => Err(error),
                Ok(api_key) => Ok(DestinationView { url, api_key }),
            },
        },
    }
}

/// The views of a destination or of an error.
pub open spec fn destination_outcome<'a, K>(r: Result<Destination<'a, K>, Error>) -> Result<
    DestinationView<K>,
    ErrorView,
> {
    match r {
        Ok(destination) => Ok(destination@),
        Err(error) => Err(error@),
    }
}

/// The error of an inference that has been sent as `raw_request`.
pub open spec fn server_error(
    message: Seq<char>,
    raw_request: Seq<char>,
    raw_response: Option<Seq<char>>,
) -> ErrorView {
    ErrorView::InferenceServer {
        message,
        provider_type: PROVIDER_TYPE@,
        raw_request: Some(raw_request),
        raw_response,
    }
}

impl<K> CohereProvider<K> {
    /// The provider for `model_name`, with the credentials that came of the plan
    /// for them.
    pub fn new(model_name: String, reply: CredentialReply<K>) -> (r: Result<Self, Error>)
        ensures
            match credentials_from(reply) {
                Ok(credentials) => r matches Ok(provider) && provider@ == (CohereProviderView {
                    model_name: model_name@,
                    credentials,
                }),
                Err(error) => r matches Err(e) && e@ == error,
            },
    {
        let credentials = match reply {
            CredentialReply::Known(credentials) => credentials,
            CredentialReply::Found(found) => match CohereCredentials::try_from(found) {
                Ok(credentials) => credentials,
                Err(error) => return Err(error),
            },
            CredentialReply::Failed(error) => return Err(error),
        };
        Ok(CohereProvider { model_name, credentials })
    }

    pub fn model_name(&self) -> (name: &str)
        ensures
            name@ == self@.model_name,
    {
        self.model_name.as_str()
    }

    pub fn credentials(&self) -> (credentials: &CohereCredentials<K>)
        ensures
            credentials@ == self@.credentials,
    {
        &self.credentials
    }

    /// The first step of an inference, streamed or not: what to send.
    pub fn request_body<'a, F: Copy>(&'a self, request: &'a ModelInferenceRequest<'a, F>) -> (r:
        Result<CohereRequest<'a, F>, Error>)
        ensures
            request_outcome(r) == request_of(self@.model_name, request@),
    {
        CohereRequest::new(self.model_name.as_str(), request)
    }

    /// The second step: where to send it, once it has been written as JSON or could
    /// not be, for the reason in `written`.
    pub fn destination<'a>(
        &'a self,
        written: Result<(), String>,
        dynamic_api_keys: &'a InferenceCredentials<K>,
    ) -> (r: Result<Destination<'a, K>, Error>)
        ensures
            destination_outcome(r) == destination_of(
                self@.credentials,
                match written {
                    Ok(_) => Ok(()),
                    Err(reason) => Err(reason@),
                },
                dynamic_api_keys@,
            ),
    {
        if let Err(reason) = written {
            return Err(
                Error::new(
                    ErrorDetails::Serialization {
                        message: joined("Error serializing Cohere request: ", reason.as_str()),
                    },
                ),
            );
        }
        let url = match get_chat_url() {
            Ok(url) => url,
            Err(error) => return Err(error),
        };
        match self.credentials.get_api_key(dynamic_api_keys) {
            Ok(api_key) => Ok(Destination { url, api_key }),
            Err(error) => Err(error),
        }
    }

    /// Cohere has no batches.
    pub fn start_batch_inference<T>(&self) -> (r: Result<T, Error>)
        ensures
            r matches Err(error) && error@ == (
            ErrorView::UnsupportedModelProviderForBatchInference { provider_type: "Cohere"@ }),
    {
        Err(
            Error::new(
                ErrorDetails::UnsupportedModelProviderForBatchInference {
                    provider_type: "Cohere".to_string(),
                },
            ),
        )
    }

    /// Cohere has no batches.
    pub fn poll_batch_inference<T>(&self) -> (r: Result<T, Error>)
        ensures
            r matches Err(error) && error@ == (
            ErrorView::UnsupportedModelProviderForBatchInference { provider_type: PROVIDER_TYPE@ }),
    {
        Err(
            Error::new(
                ErrorDetails::UnsupportedModelProviderForBatchInference {
                    provider_type: PROVIDER_TYPE.to_string(),
                },
            ),
        )
    }
}

/// What to do with an answer.
pub enum InferAction {
    /// Read `raw_response` as a [`CohereResponse`].
    Parse { raw_request: String, raw_response: String },
    /// Nothing more: this is what comes of the inference.
    Finish(Result<ProviderInferenceResponse, Error>),
}

/// The model of [`InferAction`].
pub enum InferActionView {
    Parse { raw_request: Seq<char>, raw_response: Seq<char> },
    Finish(Result<ProviderInferenceResponseView, ErrorView>),
}

impl View for InferAction {
    type V = InferActionView;

    open spec fn view(&self) -> InferActionView {
        match self {
            InferAction::Parse { raw_request, raw_response } => InferActionView::Parse {
                raw_request: raw_request@,
                raw_response: raw_response@,
            },
            InferAction::Finish(r) => InferActionView::Finish(outcome(*r)),
        }
    }
}

/// What to do with an answer: the body of a success is read, any other is an error
/// in itself. A body that could not be received is an error either way.
pub open spec fn action_of(
    status: u16,
    body: Result<Seq<char>, Seq<char>>,
    raw_request: Seq<char>,
) -> InferActionView {
    if 200 <= status < 300 {
        match body {
            Ok(raw_response) => InferActionView::Parse { raw_request, raw_response },
            Err(reason) => InferActionView::Finish(
                Err(server_error("Error parsing text response: "@ + reason, raw_request, None)),
            ),
        }
    } else {
        match body {
            Ok(text) => InferActionView::Finish(Err(error_of(status, text))),
            Err(reason) => InferActionView::Finish(
                Err(server_error("Error parsing error response: "@ + reason, raw_request, None)),
            ),
        }
    }
}

/// The third step of an inference: what to do with an answer of this status, whose
/// body was received or was not, for the reason given.
pub fn infer_answered(status: u16, body: Result<String, String>, raw_request: String) -> (action:
    InferAction)
    ensures
        action@ == action_of(status, text_result(body), raw_request@),
{
    if is_success(status) {
        match body {
            Ok(raw_response) => InferAction::Parse { raw_request, raw_response },
            Err(reason) => InferAction::Finish(
                Err(
                    Error::new(
                        ErrorDetails::InferenceServer {
                            message: joined("Error parsing text response: ", reason.as_str()),
                            provider_type: PROVIDER_TYPE.to_string(),
                            raw_request: Some(raw_request),
                            raw_response: None,
                        },
                    ),
                ),
            ),
        }
    } else {
        match body {
            Ok(text) => InferAction::Finish(handle_cohere_error(status, text.as_str())),
            Err(reason) => InferAction::Finish(
                Err(
                    Error::new(
                        ErrorDetails::InferenceServer {
                            message: joined("Error parsing error response: ", reason.as_str()),
                            provider_type: PROVIDER_TYPE.to_string(),
                            raw_request: Some(raw_request),
                            raw_response: None,
                        },
                    ),
                ),
            ),
        }
    }
}

/// What comes of an answer that has been read, or could not be, for the reason in
/// `parsed`.
pub open spec fn inference_of<F>(
    parsed: Result<CohereResponseView, Seq<char>>,
    raw_request: Seq<char>,
    raw_response: Seq<char>,
    latency: Latency,
    request: ModelInferenceRequestView<F>,
) -> Result<ProviderInferenceResponseView, ErrorView> {
    match parsed {
        Err(reason) => Err(
            server_error(
                "Error parsing JSON response: "@ + reason,
                raw_request,
                Some(raw_response),
            ),
        ),
        Ok(response) => response_of(
            CohereResponseWithMetadataView {
                response,
                raw_response,
                latency,
                raw_request,
                generic_request: request,
            },
        ),
    }
}

/// The last step of an inference: the response to `request`, once the answer's body
/// has been read or could not be, for the reason in `parsed`.
pub fn infer_parsed<'a, F>(
    parsed: Result<CohereResponse, String>,
    raw_request: String,
    raw_response: String,
    latency: Latency,
    request: &'a ModelInferenceRequest<'a, F>,
) -> (r: Result<ProviderInferenceResponse, Error>)
    ensures
        outcome(r) == inference_of(
            match parsed {
                Ok(response) => Ok(response@),
                Err(reason) => Err(reason@),
            },
            raw_request@,
            raw_response@,
            latency,
            request@,
        ),
{
    match parsed {
        Ok(response) => ProviderInferenceResponse::try_from(
            CohereResponseWithMetadata {
                response,
                latency,
                raw_response,
                raw_request,
                generic_request: request,
            },
        ),
        Err(reason) => Err(
            Error::new(
                ErrorDetails::InferenceServer {
                    message: joined("Error parsing JSON response: ", reason.as_str()),
                    provider_type: PROVIDER_TYPE.to_string(),
                    raw_request: Some(raw_request),
                    raw_response: Some(raw_response),
                },
            ),
        ),
    }
}

/// What comes of an inference once it has been answered, where the answer's body,
/// if it is to be read, reads as `parsed`.
pub open spec fn answered_inference<F>(
    status: u16,
    body: Result<Seq<char>, Seq<char>>,
    parsed: Result<CohereResponseView, Seq<char>>,
    raw_request: Seq<char>,
    latency: Latency,
    request: ModelInferenceRequestView<F>,
) -> Result<ProviderInferenceResponseView, ErrorView> {
    match action_of(status, body, raw_request) {
        InferActionView::Finish(r) => r,
        InferActionView::Parse { raw_request, raw_response } => inference_of(
            parsed,
            raw_request,
            raw_response,
            latency,
            request,
        ),
    }
}

/// What an inference, streamed or not, sends and where it sends it, when the request's
/// JSON is written as `written` says: [`CohereProvider::request_body`] first, and then
/// [`CohereProvider::destination`].
pub open spec fn prepared_inference<K, F>(
    provider: CohereProviderView<K>,
    request: ModelInferenceRequestView<F>,
    written: Result<(), Seq<char>>,
    keys: Map<Seq<char>, K>,
) -> Result<(CohereRequestView<F>, DestinationView<K>), ErrorView> {
    match request_of(provider.model_name, request) {
        Err(error) => Err(error),
        Ok(body) => match destination_of(provider.credentials, written, keys) {
            Err(error) => Err(error),
            Ok(destination) => Ok((body, destination)),
        },
    }
}

/// An inference is sent exactly if its request is not refused, can be written, and has
/// a URL to go to and a key to go with. The first of these that fails is reported, in
/// this order: a refused request fails whatever else is wrong, and a missing key is
/// reported only where nothing else is wrong.
pub proof fn law_what_fails_before_sending<K, F>(
    provider: CohereProviderView<K>,
    request: ModelInferenceRequestView<F>,
    written: Result<(), Seq<char>>,
    keys: Map<Seq<char>, K>,
)
    ensures
        prepared_inference(provider, request, written, keys) is Ok <==> {
            &&& request_of(provider.model_name, request) is Ok
            &&& written is Ok
            &&& chat_url() is Ok
            &&& key_of(provider.credentials, keys) is Ok
        },
        prepared_inference(provider, request, written, keys) matches Ok(prepared) ==> {
            &&& request_of(provider.model_name, request) == Ok::<CohereRequestView<F>, ErrorView>(
                prepared.0,
            )
            &&& chat_url() == Ok::<Seq<char>, ErrorView>(prepared.1.url)
            &&& key_of(provider.credentials, keys) == Ok::<K, ErrorView>(prepared.1.api_key)
        },
        prepared_inference(provider, request, written, keys) matches Err(error) ==> error == (
        if request_of(provider.model_name, request) is Err {
            request_of(provider.model_name, request)->Err_0
        } else if written is Err {
            ErrorView::Serialization {
                message: "Error serializing Cohere request: "@ + written->Err_0,
            }
        } else if chat_url() is Err {
            chat_url()->Err_0
        } else {
            key_missing()
        }),
{
}

/// An inference succeeds exactly if it is answered with a success whose body is
/// received, can be read, and offers one choice.
pub proof fn law_when_an_inference_succeeds<F>(
    status: u16,
    body: Result<Seq<char>, Seq<char>>,
    parsed: Result<CohereResponseView, Seq<char>>,
    raw_request: Seq<char>,
    latency: Latency,
    request: ModelInferenceRequestView<F>,
)
    ensures
        answered_inference(status, body, parsed, raw_request, latency, request) is Ok <==> {
            &&& 200 <= status < 300
            &&& body is Ok
            &&& parsed matches Ok(response) && response.choices.len() == 1
        },
        answered_inference(status, body, parsed, raw_request, latency, request) matches Ok(response)
            ==> {
            &&& response.raw_request == raw_request
            &&& body == Ok::<Seq<char>, Seq<char>>(response.raw_response)
            &&& response.input_messages == request.messages
            &&& response.system == request.system
        },
{
}

/// A request that is answered with anything but a success fails with the words of
/// the answer, whatever they would read as.
pub proof fn law_refusals_are_reported<F>(
    status: u16,
    text: Seq<char>,
    parsed: Result<CohereResponseView, Seq<char>>,
    raw_request: Seq<char>,
    latency: Latency,
    request: ModelInferenceRequestView<F>,
)
    requires
        !(200 <= status < 300),
    ensures
        answered_inference(status, Ok(text), parsed, raw_request, latency, request) == Err::<
            ProviderInferenceResponseView,
            ErrorView,
        >(error_of(status, text)),
{
}

/// A request that goes out goes to the chat URL, with the key that the credentials
/// give.
pub proof fn law_requests_carry_their_key<K>(
    credentials: CohereCredentialsView<K>,
    written: Result<(), Seq<char>>,
    keys: Map<Seq<char>, K>,
)
    ensures
        destination_of(credentials, written, keys) is Ok <==> written is Ok && chat_url() is Ok
            && key_of(credentials, keys) is Ok,
        destination_of(credentials, written, keys) matches Ok(destination) ==> {
            &&& chat_url() == Ok::<Seq<char>, ErrorView>(destination.url)
            &&& key_of(credentials, keys) == Ok::<K, ErrorView>(destination.api_key)
        },
{
}

/// Chat requests go to where `chat/completions` leads from the base of the API. Where
/// there is no such URL, the error says why.
pub proof fn law_where_chat_requests_go()
    ensures
        parsed_url("https://api.cohere.ai/v2/"@) matches Err(message) ==> {
            &&& api_base() == Err::<Seq<char>, ErrorView>(ErrorView::InvalidBaseUrl { message })
            &&& chat_url() == Err::<Seq<char>, ErrorView>(ErrorView::InvalidBaseUrl { message })
        },
        parsed_url("https://api.cohere.ai/v2/"@) matches Ok(base) ==> {
            &&& api_base() == Ok::<Seq<char>, ErrorView>(base)
            &&& joined_url(base, "chat/completions"@) matches Ok(url) ==> chat_url() == Ok::<
                Seq<char>,
                ErrorView,
            >(url)
            &&& joined_url(base, "chat/completions"@) matches Err(message) ==> chat_url() == Err::<
                Seq<char>,
                ErrorView,
            >(ErrorView::InvalidBaseUrl { message })
        },
{
}

/// A URL is kept as it is, and the error for a text that is none gives the reason.
pub proof fn law_urls_are_kept(r: Result<Seq<char>, Seq<char>>)
    ensures
        r matches Ok(url) ==> url_or_error(r) == Ok::<Seq<char>, ErrorView>(url),
        r matches Err(message) ==> url_or_error(r) == Err::<Seq<char>, ErrorView>(
            ErrorView::InvalidBaseUrl { message },
        ),
{
}

/// A provider that is set up uses what was found for it: a key for every request, or
/// the key that each request brings under the name that was found. What was known
/// before is taken as it is, and a failed search is reported as it is.
pub proof fn law_a_provider_uses_what_was_found<K>(
    reply: CredentialReply<K>,
    keys: Map<Seq<char>, K>,
)
    ensures
        reply matches CredentialReply::Known(known) ==> credentials_from(reply) == Ok::<
            CohereCredentialsView<K>,
            ErrorView,
        >(known@),
        reply matches CredentialReply::Failed(error) ==> credentials_from(reply) == Err::<
            CohereCredentialsView<K>,
            ErrorView,
        >(error@),
        reply matches CredentialReply::Found(Credential::Static(key)) ==> (credentials_from(
            reply,
        ) matches Ok(credentials) && key_of(credentials, keys) == Ok::<K, ErrorView>(key)),
        reply matches CredentialReply::Found(Credential::Dynamic(name)) ==> (credentials_from(
            reply,
        ) matches Ok(credentials) && key_of(credentials, keys) == if keys.contains_key(name@) {
            Ok::<K, ErrorView>(keys[name@])
        } else {
            Err(ErrorView::ApiKeyMissing { provider_name: "Cohere"@ })
        }),
        reply matches CredentialReply::Found(Credential::Missing) ==> (credentials_from(
            reply,
        ) matches Ok(credentials) && key_of(credentials, keys) == Err::<K, ErrorView>(
            ErrorView::ApiKeyMissing { provider_name: "Cohere"@ },
        )),
        reply matches CredentialReply::Found(found) ==> (found is FileContents || found is Sdk
            || found is Unset ==> credentials_from(reply) == Err::<
            CohereCredentialsView<K>,
            ErrorView,
        >(ErrorView::Config { message: "Invalid api_key_location for Cohere provider"@ })),
{
}

/// The body of a success is read as it came, together with the request as it was sent;
/// that of any other answer is reported as an error in its own words. A body that was
/// not received is the server's error, which gives the reason and the request.
pub proof fn law_what_is_done_with_an_answer(
    status: u16,
    body: Result<Seq<char>, Seq<char>>,
    raw_request: Seq<char>,
)
    ensures
        body matches Ok(text) ==> (200 <= status < 300 ==> action_of(status, body, raw_request) == (
        InferActionView::Parse { raw_request, raw_response: text })),
        body matches Ok(text) ==> (!(200 <= status < 300) ==> action_of(status, body, raw_request)
            == InferActionView::Finish(
            Err(
                if status == 400 || status == 401 || status == 403 || status == 429 {
                    ErrorView::InferenceClient {
                        message: text,
                        status_code: Some(status),
                        provider_type: "cohere"@,
                        raw_request: None,
                        raw_response: None,
                    }
                } else {
                    ErrorView::InferenceServer {
                        message: text,
                        provider_type: "cohere"@,
                        raw_request: None,
                        raw_response: None,
                    }
                },
            ),
        )),
        body matches Err(reason) ==> action_of(status, body, raw_request)
            == InferActionView::Finish(
            Err(
                ErrorView::InferenceServer {
                    message: if 200 <= status < 300 {
                        "Error parsing text response: "@ + reason
                    } else {
                        "Error parsing error response: "@ + reason
                    },
                    provider_type: "cohere"@,
                    raw_request: Some(raw_request),
                    raw_response: None,
                },
            ),
        ),
{
}

/// An answer that was read becomes the response to the request that it answers, with
/// everything that is known of it. One that could not be read is the server's error,
/// which gives the reason, the request and the answer.
pub proof fn law_what_is_made_of_an_answer<F>(
    parsed: Result<CohereResponseView, Seq<char>>,
    raw_request: Seq<char>,
    raw_response: Seq<char>,
    latency: Latency,
    request: ModelInferenceRequestView<F>,
)
    ensures
        parsed matches Ok(response) ==> inference_of(
            parsed,
            raw_request,
            raw_response,
            latency,
            request,
        ) == response_of(
            CohereResponseWithMetadataView {
                response,
                raw_response,
                latency,
                raw_request,
                generic_request: request,
            },
        ),
        parsed matches Err(reason) ==> inference_of(
            parsed,
            raw_request,
            raw_response,
            latency,
            request,
        ) == Err::<ProviderInferenceResponseView, ErrorView>(
            ErrorView::InferenceServer {
                message: "Error parsing JSON response: "@ + reason,
                provider_type: "cohere"@,
                raw_request: Some(raw_request),
                raw_response: Some(raw_response),
            },
        ),
{
}

/// A request that was written goes to the chat URL with its key, or fails for want of
/// one of them, the URL first; one that was not is reported, with the reason.
pub proof fn law_where_a_request_goes<K>(
    credentials: CohereCredentialsView<K>,
    written: Result<(), Seq<char>>,
    keys: Map<Seq<char>, K>,
)
    ensures
        written matches Err(reason) ==> destination_of(credentials, written, keys) == Err::<
            DestinationView<K>,
            ErrorView,
        >(ErrorView::Serialization { message: "Error serializing Cohere request: "@ + reason }),
        written is Ok ==> (chat_url() matches Err(error) ==> destination_of(
            credentials,
            written,
            keys,
        ) == Err::<DestinationView<K>, ErrorView>(error)),
        written is Ok && chat_url() is Ok ==> (key_of(credentials, keys) matches Err(error)
            ==> destination_of(credentials, written, keys) == Err::<DestinationView<K>, ErrorView>(
            error,
        )),
        written is Ok && chat_url() is Ok ==> (key_of(credentials, keys) matches Ok(api_key)
            ==> destination_of(credentials, written, keys) == Ok::<DestinationView<K>, ErrorView>(
            DestinationView { url: chat_url()->Ok_0, api_key },
        )),
{
}

/// Every part of a destination, and of what to do with an answer, is seen as it is.
pub proof fn law_destinations_are_seen_whole<'a, K>(
    destination: Destination<'a, K>,
    r: Result<Destination<'a, K>, Error>,
    text: Result<String, String>,
    url: Result<String, Error>,
    action: InferAction,
)
    ensures
        destination@.url == destination.url@,
        destination@.api_key == *destination.api_key,
        r matches Ok(it) ==> destination_outcome(r) == Ok::<DestinationView<K>, ErrorView>(it@),
        r matches Err(error) ==> destination_outcome(r) == Err::<DestinationView<K>, ErrorView>(
            error@,
        ),
        text matches Ok(it) ==> text_result(text) == Ok::<Seq<char>, Seq<char>>(it@),
        text matches Err(reason) ==> text_result(text) == Err::<Seq<char>, Seq<char>>(reason@),
        url matches Ok(it) ==> url_outcome(url) == Ok::<Seq<char>, ErrorView>(it@),
        url matches Err(error) ==> url_outcome(url) == Err::<Seq<char>, ErrorView>(error@),
        action matches InferAction::Parse { raw_request, raw_response } ==> action@ == (
        InferActionView::Parse { raw_request: raw_request@, raw_response: raw_response@ }),
        action matches InferAction::Finish(finished) ==> action@ == InferActionView::Finish(
            outcome(finished),
        ),
{
}

} // verus!

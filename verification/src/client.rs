//! The client, the builder of one request, and the decisions round the one
//! HTTP exchange that a request takes.
//!
//! Nothing here touches the network. The client turns a request into the POST
//! that is to be sent, and says for each status of the answer what is to be
//! read from it and what it means.

use crate::error::{ElevenLabsTTDError, ErrorView};
use crate::json::{JsonDoc, JsonValue};
use crate::models::elevanlabs_models::ELEVEN_V3;
use crate::types::{
    TTDInput, TTDInputView, TTDPronunciationDictionaryLocators,
    TTDPronunciationDictionaryLocatorsView, TTDRequest, TTDRequestView, TTDSettings,
};
use crate::wire::{
    body_doc, endpoint_url, lemma_body_members, ENDPOINT_PATH, OUTPUT_FORMAT_QUERY,
};
use vstd::prelude::*;

verus! {

/// The base address of the service.
pub const DEFAULT_BASE_URL: &'static str = "https://api.elevenlabs.io/v1";

/// The audio encoding that is asked for where the caller names none.
pub const DEFAULT_OUTPUT_FORMAT: &'static str = "mp3_44100_128";

/// The name of the header that carries the API key.
pub const API_KEY_HEADER: &'static str = "xi-api-key";

/// The name of the header that says what the body is.
pub const CONTENT_TYPE_HEADER: &'static str = "Content-Type";

/// What the body is: JSON.
pub const JSON_CONTENT_TYPE: &'static str = "application/json";

/// Whether a response with this status carries what was asked for.
pub open spec fn is_success(status: u16) -> bool {
    200 <= status < 300
}

/// What is to be read from a response, once its status is known.
#[derive(Debug, Clone, Copy, PartialEq, Eq, Structural)]
pub enum BodyRead {
    /// The whole body, as bytes: it is the audio.
    Audio,
    /// The body as text, for the error that the status stands for.
    FailureText,
}

/// The part of a response that is to be read: the audio where the status is
/// a success, the text of the failure otherwise.
pub fn body_to_read(status: u16) -> (read: BodyRead)
    ensures
        read == if is_success(status) {
            BodyRead::Audio
        } else {
            BodyRead::FailureText
        },
{
    if 200 <= status && status < 300 {
        BodyRead::Audio
    } else {
        BodyRead::FailureText
    }
}

/// What a response comes to, from its status and what was read from it: the
/// audio of a success, or the error that the status and the text stand for.
/// Of the two arguments after the status only the one that `body_to_read`
/// names is looked at.
pub fn conclude(status: u16, audio: Vec<u8>, failure_text: String) -> (result: Result<
    Vec<u8>,
    ElevenLabsTTDError,
>)
    ensures
        is_success(status) ==> result == Ok::<Vec<u8>, ElevenLabsTTDError>(audio),
        !is_success(status) ==> result is Err && result->Err_0@ == ErrorView::for_status(
            status,
            failure_text@,
        ),
{
    match body_to_read(status) {
        BodyRead::Audio => Ok(audio),
        BodyRead::FailureText => Err(ElevenLabsTTDError::from_status(status, failure_text)),
    }
}

/// One POST, ready to be sent.
#[derive(Debug)]
pub struct PostRequest {
    /// The address, with its query.
    pub url: String,
    /// The headers, each a name and a value.
    pub headers: Vec<(String, String)>,
    /// The body, to be written as JSON.
    pub body: JsonValue,
}

/// A POST as a mathematical value.
pub struct PostRequestView {
    pub url: Seq<char>,
    pub headers: Seq<(Seq<char>, Seq<char>)>,
    pub body: JsonDoc,
}

impl View for PostRequest {
    type V = PostRequestView;

    open spec fn view(&self) -> PostRequestView {
        PostRequestView { url: self.url@, headers: self.headers.deep_view(), body: self.body@ }
    }
}

/// What the service needs to know of its caller: the key and the base address.
pub struct ElevenLabsTTDClient {
    pub api_key: String,
    pub base_url: String,
}

/// A client with its texts as character sequences.
pub struct ElevenLabsTTDClientView {
    pub api_key: Seq<char>,
    pub base_url: Seq<char>,
}

impl View for ElevenLabsTTDClient {
    type V = ElevenLabsTTDClientView;

    open spec fn view(&self) -> ElevenLabsTTDClientView {
        ElevenLabsTTDClientView { api_key: self.api_key@, base_url: self.base_url@ }
    }
}

impl Clone for ElevenLabsTTDClient {
    fn clone(&self) -> (copy: Self)
        ensures
            copy == *self,
    {
        ElevenLabsTTDClient { api_key: self.api_key.clone(), base_url: self.base_url.clone() }
    }
}

impl ElevenLabsTTDClientView {
    /// The POST that carries `request` for this client.
    pub open spec fn post(self, request: TTDRequestView) -> PostRequestView {
        PostRequestView {
            url: endpoint_url(self.base_url, request.output_format),
            headers: seq![
                (API_KEY_HEADER@, self.api_key),
                (CONTENT_TYPE_HEADER@, JSON_CONTENT_TYPE@),
            ],
            body: body_doc(request),
        }
    }
}

/// The output format of a request stands in the address of its POST, as the
/// query, and is no member of the body, whatever the request holds.
pub proof fn lemma_output_format_travels_in_address(
    client: ElevenLabsTTDClientView,
    request: TTDRequestView,
)
    ensures
        !client.post(request).body.has_member("output_format"@),
        request.output_format matches Some(format) ==> client.post(request).url
            == client.base_url + ENDPOINT_PATH@ + OUTPUT_FORMAT_QUERY@ + format,
        request.output_format is None ==> client.post(request).url == client.base_url
            + ENDPOINT_PATH@,
{
    lemma_body_members(request);
}

impl ElevenLabsTTDClient {
    /// A client for the service at its public address.
    pub fn new(api_key: &str) -> (client: Self)
        ensures
            client@ == (ElevenLabsTTDClientView { api_key: api_key@, base_url: DEFAULT_BASE_URL@ }),
    {
        ElevenLabsTTDClient {
            api_key: String::from_str(api_key),
            base_url: String::from_str(DEFAULT_BASE_URL),
        }
    }

    /// A client for the service at another address, as tests and private
    /// installations need it.
    pub fn with_base_url(api_key: &str, base_url: &str) -> (client: Self)
        ensures
            client@ == (ElevenLabsTTDClientView { api_key: api_key@, base_url: base_url@ }),
    {
        ElevenLabsTTDClient {
            api_key: String::from_str(api_key),
            base_url: String::from_str(base_url),
        }
    }

    /// Starts a request for these turns, with nothing else set.
    pub fn text_to_dialogue(&self, inputs: Vec<TTDInput>) -> (builder: TextToDialogueBuilder)
        ensures
            builder@ == TextToDialogueBuilderView::start(self@, inputs.deep_view()),
    {
        TextToDialogueBuilder::new(self.clone(), inputs)
    }

    /// The POST that carries `request`: to the dialogue endpoint below the
    /// base address, with the output format as its query, the key and the
    /// content type as its headers, and the rest of the request as its body.
    pub fn prepare(&self, request: &TTDRequest) -> (post: PostRequest)
        ensures
            post@ == self@.post(request@),
    {
        let mut headers: Vec<(String, String)> = Vec::new();
        headers.push((String::from_str(API_KEY_HEADER), self.api_key.clone()));
        headers.push(
            (String::from_str(CONTENT_TYPE_HEADER), String::from_str(JSON_CONTENT_TYPE)),
        );
        assert(headers.deep_view() =~= self@.post(request@).headers);
        PostRequest { url: request.url(self.base_url.as_str()), headers, body: request.body() }
    }
}

/// A request in the making: the turns, and what has been chosen so far.
pub struct TextToDialogueBuilder {
    pub client: ElevenLabsTTDClient,
    pub inputs: Vec<TTDInput>,
    pub output_format: Option<String>,
    pub model_id: Option<String>,
    pub settings: Option<TTDSettings>,
    pub pronunciation_dictionary_locators: Option<TTDPronunciationDictionaryLocators>,
    pub seed: Option<u32>,
}

/// A builder with its texts as character sequences.
pub struct TextToDialogueBuilderView {
    pub client: ElevenLabsTTDClientView,
    pub inputs: Seq<TTDInputView>,
    pub output_format: Option<Seq<char>>,
    pub model_id: Option<Seq<char>>,
    pub settings: Option<TTDSettings>,
    pub pronunciation_dictionary_locators: Option<TTDPronunciationDictionaryLocatorsView>,
    pub seed: Option<u32>,
}

impl View for TextToDialogueBuilder {
    type V = TextToDialogueBuilderView;

    open spec fn view(&self) -> TextToDialogueBuilderView {
        TextToDialogueBuilderView {
            client: self.client@,
            inputs: self.inputs.deep_view(),
            output_format: self.output_format.deep_view(),
            model_id: self.model_id.deep_view(),
            settings: self.settings,
            pronunciation_dictionary_locators: self.pronunciation_dictionary_locators.deep_view(),
            seed: self.seed,
        }
    }
}

impl TextToDialogueBuilderView {
    /// The builder for these turns with nothing else set.
    pub open spec fn start(
        client: ElevenLabsTTDClientView,
        inputs: Seq<TTDInputView>,
    ) -> TextToDialogueBuilderView {
        TextToDialogueBuilderView {
            client,
            inputs,
            output_format: None,
            model_id: None,
            settings: None,
            pronunciation_dictionary_locators: None,
            seed: None,
        }
    }

    pub open spec fn with_output_format(self, output_format: Seq<char>) -> Self {
        TextToDialogueBuilderView { output_format: Some(output_format), ..self }
    }

    pub open spec fn with_model(self, model_id: Seq<char>) -> Self {
        TextToDialogueBuilderView { model_id: Some(model_id), ..self }
    }

    pub open spec fn with_settings(self, settings: TTDSettings) -> Self {
        TextToDialogueBuilderView { settings: Some(settings), ..self }
    }

    pub open spec fn with_locators(self, locators: TTDPronunciationDictionaryLocatorsView) -> Self {
        TextToDialogueBuilderView { pronunciation_dictionary_locators: Some(locators), ..self }
    }

    pub open spec fn with_seed(self, seed: u32) -> Self {
        TextToDialogueBuilderView { seed: Some(seed), ..self }
    }

    /// The request that the builder stands for: what was chosen, and the
    /// default output format and model where none was.
    pub open spec fn request(self) -> TTDRequestView {
        TTDRequestView {
            output_format: Some(
                match self.output_format {
                    Some(format) => format,
                    None => DEFAULT_OUTPUT_FORMAT@,
                },
            ),
            inputs: self.inputs,
            model_id: match self.model_id {
                Some(model_id) => model_id,
                None => ELEVEN_V3@,
            },
            settings: self.settings,
            pronunciation_dictionary_locators: self.pronunciation_dictionary_locators,
            seed: self.seed,
        }
    }
}

/// Where no output format or model was chosen the request holds the default
/// one; where one was chosen the request holds that one.
pub proof fn lemma_defaults_fill_what_is_unset(builder: TextToDialogueBuilderView)
    ensures
        builder.output_format is None ==> builder.request().output_format == Some(
            DEFAULT_OUTPUT_FORMAT@,
        ),
        builder.output_format is Some ==> builder.request().output_format == builder.output_format,
        builder.model_id is None ==> builder.request().model_id == ELEVEN_V3@,
        builder.model_id is Some ==> builder.request().model_id == builder.model_id->0,
        builder.request().inputs == builder.inputs,
        builder.request().settings == builder.settings,
        builder.request().pronunciation_dictionary_locators
            == builder.pronunciation_dictionary_locators,
        builder.request().seed == builder.seed,
{
}

/// Of two choices for one field the later one holds.
pub proof fn lemma_last_choice_holds(
    builder: TextToDialogueBuilderView,
    formats: (Seq<char>, Seq<char>),
    models: (Seq<char>, Seq<char>),
    settings: (TTDSettings, TTDSettings),
    locators: (TTDPronunciationDictionaryLocatorsView, TTDPronunciationDictionaryLocatorsView),
    seeds: (u32, u32),
)
    ensures
        builder.with_output_format(formats.0).with_output_format(formats.1)
            == builder.with_output_format(formats.1),
        builder.with_model(models.0).with_model(models.1) == builder.with_model(models.1),
        builder.with_settings(settings.0).with_settings(settings.1) == builder.with_settings(
            settings.1,
        ),
        builder.with_locators(locators.0).with_locators(locators.1) == builder.with_locators(
            locators.1,
        ),
        builder.with_seed(seeds.0).with_seed(seeds.1) == builder.with_seed(seeds.1),
{
}

/// Choices for different fields can be made in either order.
pub proof fn lemma_choices_commute(
    builder: TextToDialogueBuilderView,
    format: Seq<char>,
    model: Seq<char>,
    settings: TTDSettings,
    locators: TTDPronunciationDictionaryLocatorsView,
    seed: u32,
)
    ensures
        builder.with_output_format(format).with_model(model) == builder.with_model(
            model,
        ).with_output_format(format),
        builder.with_output_format(format).with_settings(settings) == builder.with_settings(
            settings,
        ).with_output_format(format),
        builder.with_output_format(format).with_locators(locators) == builder.with_locators(
            locators,
        ).with_output_format(format),
        builder.with_output_format(format).with_seed(seed) == builder.with_seed(
            seed,
        ).with_output_format(format),
        builder.with_model(model).with_settings(settings) == builder.with_settings(
            settings,
        ).with_model(model),
        builder.with_model(model).with_locators(locators) == builder.with_locators(
            locators,
        ).with_model(model),
        builder.with_model(model).with_seed(seed) == builder.with_seed(seed).with_model(model),
        builder.with_settings(settings).with_locators(locators) == builder.with_locators(
            locators,
        ).with_settings(settings),
        builder.with_settings(settings).with_seed(seed) == builder.with_seed(seed).with_settings(
            settings,
        ),
        builder.with_locators(locators).with_seed(seed) == builder.with_seed(seed).with_locators(
            locators,
        ),
{
}

impl TextToDialogueBuilder {
    fn new(client: ElevenLabsTTDClient, inputs: Vec<TTDInput>) -> (builder: Self)
        ensures
            builder@ == TextToDialogueBuilderView::start(client@, inputs.deep_view()),
    {
        TextToDialogueBuilder {
            client,
            inputs,
            output_format: None,
            model_id: None,
            settings: None,
            pronunciation_dictionary_locators: None,
            seed: None,
        }
    }

    /// Chooses the audio encoding.
    pub fn output_format(self, output_format: &str) -> (builder: Self)
        ensures
            builder@ == self@.with_output_format(output_format@),
    {
        let mut builder = self;
        builder.output_format = Some(String::from_str(output_format));
        builder
    }

    /// Chooses the model.
    pub fn model(self, model_id: &str) -> (builder: Self)
        ensures
            builder@ == self@.with_model(model_id@),
    {
        let mut builder = self;
        builder.model_id = Some(String::from_str(model_id));
        builder
    }

    /// Chooses the settings.
    pub fn settings(self, settings: TTDSettings) -> (builder: Self)
        ensures
            builder@ == self@.with_settings(settings),
    {
        let mut builder = self;
        builder.settings = Some(settings);
        builder
    }

    /// Chooses the pronunciation dictionary.
    pub fn pronunciation_dictionary_locators(
        self,
        pronunciation_dictionary_locators: TTDPronunciationDictionaryLocators,
    ) -> (builder: Self)
        ensures
            builder@ == self@.with_locators(pronunciation_dictionary_locators@),
    {
        let mut builder = self;
        builder.pronunciation_dictionary_locators = Some(pronunciation_dictionary_locators);
        builder
    }

    /// Chooses the seed.
    pub fn seed(self, seed: u32) -> (builder: Self)
        ensures
            builder@ == self@.with_seed(seed),
    {
        let mut builder = self;
        builder.seed = Some(seed);
        builder
    }

    /// The request that the builder stands for, with the defaults filled in.
    pub fn into_request(self) -> (request: TTDRequest)
        ensures
            request@ == self@.request(),
    {
        let output_format = match self.output_format {
            Some(format) => format,
            None => String::from_str(DEFAULT_OUTPUT_FORMAT),
        };
        let model_id = match self.model_id {
            Some(model_id) => model_id,
            None => String::from_str(ELEVEN_V3),
        };
        TTDRequest {
            inputs: self.inputs,
            output_format: Some(output_format),
            seed: self.seed,
            model_id,
            settings: self.settings,
            pronunciation_dictionary_locators: self.pronunciation_dictionary_locators,
        }
    }

    /// The POST that the builder comes to: its request, with the defaults
    /// filled in, made ready for its client.
    pub fn into_post(self) -> (post: PostRequest)
        ensures
            post@ == self@.client.post(self@.request()),
    {
        let client = self.client.clone();
        let request = self.into_request();
        client.prepare(&request)
    }
}

} // verus!

//! The wire format of a dialogue request: its address and its body.
//!
//! The body is a JSON object. `output_format` is not one of its members: it
//! travels in the address, as a query parameter.

use crate::json::{
    items_view, lemma_array_view, lemma_object_view, members_view, JsonDoc, JsonValue,
};
use crate::types::{
    TTDInput, TTDInputView, TTDPronunciationDictionaryLocators,
    TTDPronunciationDictionaryLocatorsView, TTDRequest, TTDRequestView, TTDSettings,
};
use vstd::prelude::*;

verus! {

/// The path of the dialogue endpoint, below the base address.
pub const ENDPOINT_PATH: &'static str = "/text-to-dialogue";

/// What stands between the path and the output format in an address.
pub const OUTPUT_FORMAT_QUERY: &'static str = "?output_format=";

/// The address of the dialogue endpoint below `base_url`, with the output
/// format as its query where one is given. Neither part is escaped.
pub open spec fn endpoint_url(base_url: Seq<char>, output_format: Option<Seq<char>>) -> Seq<char> {
    match output_format {
        Some(format) => base_url + ENDPOINT_PATH@ + OUTPUT_FORMAT_QUERY@ + format,
        None => base_url + ENDPOINT_PATH@,
    }
}

/// The member `name`, where there is a value for it, and nothing otherwise.
pub open spec fn optional_member(name: Seq<char>, value: Option<JsonDoc>) -> Seq<
    (Seq<char>, JsonDoc),
> {
    match value {
        Some(doc) => seq![(name, doc)],
        None => Seq::empty(),
    }
}

/// The JSON object for one dialogue turn.
pub open spec fn input_doc(input: TTDInputView) -> JsonDoc {
    JsonDoc::Object(
        seq![("text"@, JsonDoc::Text(input.text)), ("voice_id"@, JsonDoc::Text(input.voice_id))],
    )
}

/// The JSON object for the settings: a member for each setting that is there.
pub open spec fn settings_doc(settings: TTDSettings) -> JsonDoc {
    JsonDoc::Object(
        optional_member(
            "stability"@,
            match settings.stability {
                Some(bits) => Some(JsonDoc::Single(bits)),
                None => None,
            },
        ) + optional_member(
            "use_speaker_boost"@,
            match settings.use_speaker_boost {
                Some(enabled) => Some(JsonDoc::Bool(enabled)),
                None => None,
            },
        ),
    )
}

/// The JSON object for a pronunciation dictionary locator.
pub open spec fn locators_doc(locators: TTDPronunciationDictionaryLocatorsView) -> JsonDoc {
    JsonDoc::Object(
        seq![
            ("pronunciation_dictionary_id"@, JsonDoc::Text(locators.pronunciation_dictionary_id)),
        ] + optional_member(
            "version_id"@,
            match locators.version_id {
                Some(id) => Some(JsonDoc::Text(id)),
                None => None,
            },
        ),
    )
}

/// The body of a request: the turns and the model, then a member for each
/// of the settings, the locators and the seed that is there.
pub open spec fn body_doc(request: TTDRequestView) -> JsonDoc {
    JsonDoc::Object(
        seq![
            ("inputs"@, JsonDoc::Array(request.inputs.map_values(|i: TTDInputView| input_doc(i)))),
            ("model_id"@, JsonDoc::Text(request.model_id)),
        ] + optional_member(
            "settings"@,
            match request.settings {
                Some(settings) => Some(settings_doc(settings)),
                None => None,
            },
        ) + optional_member(
            "pronunciation_dictionary_locators"@,
            match request.pronunciation_dictionary_locators {
                Some(locators) => Some(locators_doc(locators)),
                None => None,
            },
        ) + optional_member(
            "seed"@,
            match request.seed {
                Some(seed) => Some(JsonDoc::Integer(seed as u64)),
                None => None,
            },
        ),
    )
}

/// The members of a request's body are `inputs` and `model_id`, and
/// `settings`, `pronunciation_dictionary_locators` and `seed` where the
/// request holds them. It never has a member named `output_format`.
pub proof fn lemma_body_members(request: TTDRequestView)
    ensures
        body_doc(request) is Object,
        forall|name: Seq<char>|
            body_doc(request).has_member(name) <==> {
                ||| name == "inputs"@
                ||| name == "model_id"@
                ||| name == "settings"@ && request.settings is Some
                ||| name == "pronunciation_dictionary_locators"@
                    && request.pronunciation_dictionary_locators is Some
                ||| name == "seed"@ && request.seed is Some
            },
        !body_doc(request).has_member("output_format"@),
{
    reveal_strlit("output_format");
    reveal_strlit("inputs");
    reveal_strlit("model_id");
    reveal_strlit("settings");
    reveal_strlit("pronunciation_dictionary_locators");
    reveal_strlit("seed");
    let members = body_doc(request)->Object_0;
    let fixed = seq![
        ("inputs"@, JsonDoc::Array(request.inputs.map_values(|i: TTDInputView| input_doc(i)))),
        ("model_id"@, JsonDoc::Text(request.model_id)),
    ];
    let settings = optional_member(
        "settings"@,
        match request.settings {
            Some(settings) => Some(settings_doc(settings)),
            None => None,
        },
    );
    let locators = optional_member(
        "pronunciation_dictionary_locators"@,
        match request.pronunciation_dictionary_locators {
            Some(locators) => Some(locators_doc(locators)),
            None => None,
        },
    );
    let seed = optional_member(
        "seed"@,
        match request.seed {
            Some(seed) => Some(JsonDoc::Integer(seed as u64)),
            None => None,
        },
    );
    assert(members == fixed + settings + locators + seed);
    assert(members[0].0 == "inputs"@);
    assert(members[1].0 == "model_id"@);
    if request.settings is Some {
        assert(members[2].0 == "settings"@);
    }
    if request.pronunciation_dictionary_locators is Some {
        assert(members[2 + settings.len() as int].0 == "pronunciation_dictionary_locators"@);
    }
    if request.seed is Some {
        assert(members[2 + settings.len() as int + locators.len() as int].0 == "seed"@);
    }
    assert forall|i: int| 0 <= i < members.len() implies {
        ||| members[i].0 == "inputs"@
        ||| members[i].0 == "model_id"@
        ||| members[i].0 == "settings"@ && request.settings is Some
        ||| members[i].0 == "pronunciation_dictionary_locators"@
            && request.pronunciation_dictionary_locators is Some
        ||| members[i].0 == "seed"@ && request.seed is Some
    } by {
        if i < 2 {
        } else if i < 2 + settings.len() {
        } else if i < 2 + settings.len() + locators.len() {
        } else {
        }
    }
}

fn push_member(members: &mut Vec<(String, JsonValue)>, name: &str, value: JsonValue)
    ensures
        members_view(final(members)@) == members_view(old(members)@).push((name@, value@)),
{
    members.push((String::from_str(name), value));
    assert(members_view(members@) =~= members_view(old(members)@).push((name@, value@)));
}

fn object(members: Vec<(String, JsonValue)>) -> (doc: JsonValue)
    ensures
        doc@ == JsonDoc::Object(members_view(members@)),
{
    proof {
        lemma_object_view(members);
    }
    JsonValue::Object(members)
}

impl TTDInput {
    /// The JSON object for the turn.
    pub fn to_json(&self) -> (doc: JsonValue)
        ensures
            doc@ == input_doc(self@),
    {
        let mut members: Vec<(String, JsonValue)> = Vec::new();
        push_member(&mut members, "text", JsonValue::Text(self.text.clone()));
        push_member(&mut members, "voice_id", JsonValue::Text(self.voice_id.clone()));
        assert(members_view(members@) =~= input_doc(self@)->Object_0);
        object(members)
    }
}

impl TTDSettings {
    /// The JSON object for the settings.
    pub fn to_json(&self) -> (doc: JsonValue)
        ensures
            doc@ == settings_doc(*self),
    {
        let mut members: Vec<(String, JsonValue)> = Vec::new();
        if let Some(bits) = self.stability {
            push_member(&mut members, "stability", JsonValue::Single(bits));
        }
        if let Some(enabled) = self.use_speaker_boost {
            push_member(&mut members, "use_speaker_boost", JsonValue::Bool(enabled));
        }
        assert(members_view(members@) =~= settings_doc(*self)->Object_0);
        object(members)
    }
}

impl TTDPronunciationDictionaryLocators {
    /// The JSON object for the locator.
    pub fn to_json(&self) -> (doc: JsonValue)
        ensures
            doc@ == locators_doc(self@),
    {
        let mut members: Vec<(String, JsonValue)> = Vec::new();
        push_member(
            &mut members,
            "pronunciation_dictionary_id",
            JsonValue::Text(self.pronunciation_dictionary_id.clone()),
        );
        if let Some(id) = &self.version_id {
            push_member(&mut members, "version_id", JsonValue::Text(id.clone()));
        }
        assert(members_view(members@) =~= locators_doc(self@)->Object_0);
        object(members)
    }
}

impl TTDRequest {
    /// The address to which the request goes, below `base_url`.
    pub fn url(&self, base_url: &str) -> (url: String)
        ensures
            url@ == endpoint_url(base_url@, self@.output_format),
    {
        let mut url = String::from_str(base_url);
        url.append(ENDPOINT_PATH);
        if let Some(format) = &self.output_format {
            url.append(OUTPUT_FORMAT_QUERY);
            url.append(format.as_str());
        }
        url
    }

    /// The body of the request.
    pub fn body(&self) -> (doc: JsonValue)
        ensures
            doc@ == body_doc(self@),
    {
        let mut items: Vec<JsonValue> = Vec::new();
        let mut i: usize = 0;
        while i < self.inputs.len()
            invariant
                i <= self.inputs.len(),
                items.len() == i,
                forall|j: int| 0 <= j < i ==> (#[trigger] items@[j])@ == input_doc(self.inputs@[j]@),
            decreases self.inputs.len() - i,
        {
            items.push(self.inputs[i].to_json());
            i = i + 1;
        }
        proof {
            lemma_array_view(items);
            assert(items_view(items@) =~= self@.inputs.map_values(|i: TTDInputView| input_doc(i)));
        }
        let mut members: Vec<(String, JsonValue)> = Vec::new();
        push_member(&mut members, "inputs", JsonValue::Array(items));
        push_member(&mut members, "model_id", JsonValue::Text(self.model_id.clone()));
        if let Some(settings) = &self.settings {
            push_member(&mut members, "settings", settings.to_json());
        }
        if let Some(locators) = &self.pronunciation_dictionary_locators {
            push_member(&mut members, "pronunciation_dictionary_locators", locators.to_json());
        }
        if let Some(seed) = self.seed {
            push_member(&mut members, "seed", JsonValue::Integer(seed as u64));
        }
        assert(members_view(members@) =~= body_doc(self@)->Object_0);
        object(members)
    }
}

} // verus!

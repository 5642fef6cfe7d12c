//! The records that make up a dialogue request, and the record of a voice.

use vstd::prelude::*;

verus! {

/// One spoken line and the voice that speaks it.
#[derive(Debug)]
pub struct TTDInput {
    /// The text to be spoken.
    pub text: String,
    /// The ID of the voice that speaks it.
    pub voice_id: String,
}

/// A dialogue turn with its texts as character sequences.
pub struct TTDInputView {
    pub text: Seq<char>,
    pub voice_id: Seq<char>,
}

impl View for TTDInput {
    type V = TTDInputView;

    open spec fn view(&self) -> TTDInputView {
        TTDInputView { text: self.text@, voice_id: self.voice_id@ }
    }
}

impl DeepView for TTDInput {
    type V = TTDInputView;

    open spec fn deep_view(&self) -> TTDInputView {
        self@
    }
}

impl Clone for TTDInput {
    fn clone(&self) -> (copy: Self)
        ensures
            copy == *self,
    {
        TTDInput { text: self.text.clone(), voice_id: self.voice_id.clone() }
    }
}

/// The encoding of 0.0 as an IEEE 754 single-precision number.
pub const ZERO_BITS: u32 = 0x0000_0000;

/// The encoding of -0.0.
pub const NEGATIVE_ZERO_BITS: u32 = 0x8000_0000;

/// The encoding of 0.5.
pub const HALF_BITS: u32 = 0x3f00_0000;

/// The encoding of 1.0.
pub const ONE_BITS: u32 = 0x3f80_0000;

/// The encoding of positive infinity; the encodings above it, up to the sign
/// bit, are those of the positive NaNs.
pub const INFINITY_BITS: u32 = 0x7f80_0000;

/// The encoding of negative infinity; the encodings above it are those of
/// the negative NaNs.
pub const NEGATIVE_INFINITY_BITS: u32 = 0xff80_0000;

/// Whether `bits` encodes a NaN.
pub open spec fn is_nan_bits(bits: u32) -> bool {
    INFINITY_BITS < bits < NEGATIVE_ZERO_BITS || NEGATIVE_INFINITY_BITS < bits
}

/// Whether `bits` encodes a number from 0.0 to 1.0. The encodings of the
/// numbers that are not negative are ordered as the numbers are.
pub open spec fn is_unit_bits(bits: u32) -> bool {
    bits <= ONE_BITS
}

/// The encoding of the number that `bits` encodes, brought into the range
/// from 0.0 to 1.0: a number below 0.0 becomes 0.0, one above 1.0 becomes 1.0,
/// and anything else, a NaN and -0.0 too, is kept.
pub open spec fn clamp_unit_bits(bits: u32) -> u32 {
    if is_nan_bits(bits) || bits == NEGATIVE_ZERO_BITS {
        bits
    } else if bits > NEGATIVE_ZERO_BITS {
        ZERO_BITS
    } else if bits > ONE_BITS {
        ONE_BITS
    } else {
        bits
    }
}

/// How the voices are to be rendered.
///
/// `stability` holds a single-precision number by its IEEE 754 encoding, the
/// value that `f32::to_bits` gives.
#[derive(Debug, Clone, Copy)]
pub struct TTDSettings {
    /// How stable the voice is, from 0.0 (wide emotional range) to 1.0
    /// (monotonous), as an encoded number.
    pub stability: Option<u32>,
    /// Whether likeness to the speaker's own voice is boosted.
    pub use_speaker_boost: Option<bool>,
}

impl TTDSettings {
    /// The settings that a request starts from.
    pub open spec fn initial() -> TTDSettings {
        TTDSettings { stability: Some(HALF_BITS), use_speaker_boost: Some(true) }
    }

    /// Settings with a stability of 0.5 and with speaker boost.
    pub fn new() -> (settings: Self)
        ensures
            settings == Self::initial(),
    {
        TTDSettings { stability: Some(HALF_BITS), use_speaker_boost: Some(true) }
    }

    /// Sets the stability to the number that `stability` encodes, brought into
    /// the range from 0.0 to 1.0.
    pub fn stability(self, stability: u32) -> (settings: Self)
        ensures
            settings == (TTDSettings { stability: Some(clamp_unit_bits(stability)), ..self }),
    {
        let clamped = if stability > INFINITY_BITS && stability < NEGATIVE_ZERO_BITS {
            stability
        } else if stability > NEGATIVE_INFINITY_BITS || stability == NEGATIVE_ZERO_BITS {
            stability
        } else if stability > NEGATIVE_ZERO_BITS {
            ZERO_BITS
        } else if stability > ONE_BITS {
            ONE_BITS
        } else {
            stability
        };
        TTDSettings { stability: Some(clamped), use_speaker_boost: self.use_speaker_boost }
    }

    /// Switches speaker boost on or off.
    pub fn speaker_boost(self, enabled: bool) -> (settings: Self)
        ensures
            settings == (TTDSettings { use_speaker_boost: Some(enabled), ..self }),
    {
        TTDSettings { stability: self.stability, use_speaker_boost: Some(enabled) }
    }
}

impl Default for TTDSettings {
    fn default() -> (settings: Self)
        ensures
            settings == Self::initial(),
    {
        TTDSettings::new()
    }
}

/// Clamping keeps what is in range, lands in range or on what it was given,
/// and changes nothing when done again.
pub proof fn lemma_clamp_unit_bits(bits: u32)
    ensures
        is_unit_bits(bits) ==> clamp_unit_bits(bits) == bits,
        is_unit_bits(clamp_unit_bits(bits)) || clamp_unit_bits(bits) == bits,
        clamp_unit_bits(bits) != bits ==> clamp_unit_bits(bits) == ZERO_BITS || clamp_unit_bits(
            bits,
        ) == ONE_BITS,
        clamp_unit_bits(clamp_unit_bits(bits)) == clamp_unit_bits(bits),
{
}

/// A pronunciation dictionary held by the service, by its ID.
#[derive(Debug)]
pub struct TTDPronunciationDictionaryLocators {
    /// The ID of the pronunciation dictionary.
    pub pronunciation_dictionary_id: String,
    /// The ID of the dictionary's version; the latest version is used where
    /// none is given.
    pub version_id: Option<String>,
}

/// A locator with its texts as character sequences.
pub struct TTDPronunciationDictionaryLocatorsView {
    pub pronunciation_dictionary_id: Seq<char>,
    pub version_id: Option<Seq<char>>,
}

impl View for TTDPronunciationDictionaryLocators {
    type V = TTDPronunciationDictionaryLocatorsView;

    open spec fn view(&self) -> TTDPronunciationDictionaryLocatorsView {
        TTDPronunciationDictionaryLocatorsView {
            pronunciation_dictionary_id: self.pronunciation_dictionary_id@,
            version_id: self.version_id.deep_view(),
        }
    }
}

impl DeepView for TTDPronunciationDictionaryLocators {
    type V = TTDPronunciationDictionaryLocatorsView;

    open spec fn deep_view(&self) -> TTDPronunciationDictionaryLocatorsView {
        self@
    }
}

impl Clone for TTDPronunciationDictionaryLocators {
    fn clone(&self) -> (copy: Self)
        ensures
            copy == *self,
    {
        TTDPronunciationDictionaryLocators {
            pronunciation_dictionary_id: self.pronunciation_dictionary_id.clone(),
            version_id: match &self.version_id {
                Some(id) => Some(id.clone()),
                None => None,
            },
        }
    }
}

/// One request to the service, as the builder assembles it.
///
/// `output_format` travels in the address of the request, not in its body.
#[derive(Debug)]
pub struct TTDRequest {
    /// The encoding of the audio that is asked for, written as codec, sample
    /// rate and bit rate, such as `mp3_22050_32`.
    pub output_format: Option<String>,
    /// The dialogue turns, in speaking order.
    pub inputs: Vec<TTDInput>,
    /// The model that renders the dialogue.
    pub model_id: String,
    /// How the voices are to be rendered.
    pub settings: Option<TTDSettings>,
    /// The pronunciation dictionary to apply to the text.
    pub pronunciation_dictionary_locators: Option<TTDPronunciationDictionaryLocators>,
    /// A seed for sampling; the same seed and request tend to give the same audio.
    pub seed: Option<u32>,
}

/// A request with its texts as character sequences.
pub struct TTDRequestView {
    pub output_format: Option<Seq<char>>,
    pub inputs: Seq<TTDInputView>,
    pub model_id: Seq<char>,
    pub settings: Option<TTDSettings>,
    pub pronunciation_dictionary_locators: Option<TTDPronunciationDictionaryLocatorsView>,
    pub seed: Option<u32>,
}

impl View for TTDRequest {
    type V = TTDRequestView;

    open spec fn view(&self) -> TTDRequestView {
        TTDRequestView {
            output_format: self.output_format.deep_view(),
            inputs: self.inputs.deep_view(),
            model_id: self.model_id@,
            settings: self.settings,
            pronunciation_dictionary_locators: self.pronunciation_dictionary_locators.deep_view(),
            seed: self.seed,
        }
    }
}

impl Clone for TTDRequest {
    fn clone(&self) -> (copy: Self)
        ensures
            copy@ == self@,
    {
        let inputs = self.inputs.clone();
        assert(inputs.deep_view() =~= self.inputs.deep_view());
        TTDRequest {
            output_format: match &self.output_format {
                Some(format) => Some(format.clone()),
                None => None,
            },
            inputs,
            model_id: self.model_id.clone(),
            settings: self.settings,
            pronunciation_dictionary_locators: match &self.pronunciation_dictionary_locators {
                Some(locators) => Some(locators.clone()),
                None => None,
            },
            seed: self.seed,
        }
    }
}

/// A voice of the catalog.
#[derive(Debug, Clone, Copy)]
pub struct StaticVoice {
    pub voice_id: &'static str,
    pub name: &'static str,
    pub gender: &'static str,
}

/// A voice with its texts as character sequences.
pub struct StaticVoiceView {
    pub voice_id: Seq<char>,
    pub name: Seq<char>,
    pub gender: Seq<char>,
}

impl View for StaticVoice {
    type V = StaticVoiceView;

    open spec fn view(&self) -> StaticVoiceView {
        StaticVoiceView { voice_id: self.voice_id@, name: self.name@, gender: self.gender@ }
    }
}

impl DeepView for StaticVoice {
    type V = StaticVoiceView;

    open spec fn deep_view(&self) -> StaticVoiceView {
        self@
    }
}

impl StaticVoice {
    /// The voice with these three texts.
    pub fn new(voice_id: &'static str, name: &'static str, gender: &'static str) -> (voice: Self)
        ensures
            voice.voice_id == voice_id,
            voice.name == name,
            voice.gender == gender,
    {
        StaticVoice { voice_id, name, gender }
    }

    /// The ID by which the service knows the voice.
    pub fn id(&self) -> (id: &str)
        ensures
            id == self.voice_id,
    {
        self.voice_id
    }
}

} // verus!

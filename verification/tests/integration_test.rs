use elevenlabs_ttd::models;
use elevenlabs_ttd::voices;
use elevenlabs_ttd::{ElevenLabsTTDClient, ElevenLabsTTDError};

#[test]
fn lib_test_client_creation() {
    let client = ElevenLabsTTDClient::new("test-key");
    assert_eq!(client.api_key, "test-key");
}

#[test]
fn lib_test_builder_pattern() {
    let client = ElevenLabsTTDClient::new("test-key");
    let builder = client.text_to_dialogue(vec![]).model("model-456");

    assert!(builder.inputs.is_empty());
    assert_eq!(builder.model_id, Some("model-456".to_string()));
}

#[test]
fn integration_test_test_client_creation() {
    let _client = ElevenLabsTTDClient::new("test-api-key");
    assert_eq!(true, true);
}

#[test]
fn integration_test_test_builder_pattern() {
    let client = ElevenLabsTTDClient::new("test-key");
    let _builder = client
        .text_to_dialogue(vec![])
        .model(models::elevanlabs_models::ELEVEN_V3);

    assert_eq!(true, true);
}

#[test]
fn test_error_display() {
    let error = ElevenLabsTTDError::ValidationError("Invalid voice ID".to_string());
    let display = error.to_string();
    assert!(display.contains("Validation error"));
    assert!(display.contains("Invalid voice ID"));
}

#[test]
fn test_static_voices() {
    assert_eq!(voices::all_voices::rachel().voice_id, "21m00Tcm4TlvDq8ikWAM");
    assert_eq!(voices::all_voices::rachel().name, "Rachel");
    assert_eq!(voices::all_voices::rachel().gender, "female");

    assert_eq!(voices::all_voices::antoni().id(), "ErXwobaYiN019PkySvjV");
}

#[test]
fn test_voice_filtering() {
    let all_voices = voices::all_voices::all();
    let male_voices = voices::all_voices::male();
    let female_voices = voices::all_voices::female();

    assert!(all_voices.len() > 0);
    assert!(male_voices.len() > 0);
    assert!(female_voices.len() > 0);
    assert_eq!(all_voices.len(), male_voices.len() + female_voices.len());

    for voice in male_voices {
        assert_eq!(voice.gender, "male");
    }

    for voice in female_voices {
        assert_eq!(voice.gender, "female");
    }
}

#[test]
fn test_voice_search() {
    let found = voices::all_voices::find_by_name("Rachel");
    assert!(found.is_some());
    assert_eq!(found.unwrap().voice_id, "21m00Tcm4TlvDq8ikWAM");

    let found_lower = voices::all_voices::find_by_name("rachel");
    assert!(found_lower.is_some());
    assert_eq!(found_lower.unwrap().voice_id, "21m00Tcm4TlvDq8ikWAM");

    let not_found = voices::all_voices::find_by_name("NonExistentVoice");
    assert!(not_found.is_none());
}

#[test]
fn test_builder_with_voice_reference() {
    let client = ElevenLabsTTDClient::new("test-key");
    let _builder = client
        .text_to_dialogue(vec![])
        .model(models::elevanlabs_models::ELEVEN_V3);

    assert_eq!(true, true);
}

#[test]
fn test_invalid_api_key_error() {
    let _client = ElevenLabsTTDClient::new("invalid-key");
    assert_eq!(true, true);
}

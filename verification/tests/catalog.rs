use elevenlabs_ttd::voices::all_voices::{
    all, antoni, female, filter_by_gender, find_by_name, male, rachel, FEMALE, MALE,
};
use elevenlabs_ttd::StaticVoice;

#[test]
fn a_voice_is_made_of_its_three_texts() {
    let voice = StaticVoice::new("id-1", "Name", "female");
    assert_eq!(voice.voice_id, "id-1");
    assert_eq!(voice.name, "Name");
    assert_eq!(voice.gender, "female");
    assert_eq!(voice.id(), "id-1");
}

#[test]
fn the_tags_are_spelled_in_small_letters() {
    assert_eq!(MALE, "male");
    assert_eq!(FEMALE, "female");
}

#[test]
fn the_catalog_has_a_fixed_order() {
    let first = all();
    let second = all();
    assert_eq!(first.len(), second.len());
    for i in 0..first.len() {
        assert_eq!(first[i].voice_id, second[i].voice_id);
        assert_eq!(first[i].name, second[i].name);
        assert_eq!(first[i].gender, second[i].gender);
    }
    assert_eq!(first[0].voice_id, rachel().voice_id);
    assert_eq!(first[1].voice_id, antoni().voice_id);
}

#[test]
fn the_records_of_the_named_voices() {
    assert_eq!(rachel().voice_id, "21m00Tcm4TlvDq8ikWAM");
    assert_eq!(rachel().name, "Rachel");
    assert_eq!(rachel().gender, "female");
    assert_eq!(antoni().voice_id, "ErXwobaYiN019PkySvjV");
    assert_eq!(antoni().name, "Antoni");
    assert_eq!(antoni().gender, "male");
}

#[test]
fn every_voice_has_one_of_the_two_tags() {
    for voice in all() {
        assert!(voice.gender == "male" || voice.gender == "female", "{}", voice.name);
    }
}

#[test]
fn male_and_female_make_up_the_catalog() {
    assert_eq!(all().len(), male().len() + female().len());
    for voice in male() {
        assert_eq!(voice.gender, "male");
    }
    for voice in female() {
        assert_eq!(voice.gender, "female");
    }
}

#[test]
fn a_selection_keeps_the_order_of_the_catalog() {
    let expected: Vec<&str> =
        all().iter().filter(|voice| voice.gender == "female").map(|voice| voice.voice_id).collect();
    let found: Vec<&str> = female().iter().map(|voice| voice.voice_id).collect();
    assert_eq!(found, expected);
    let expected: Vec<&str> =
        all().iter().filter(|voice| voice.gender == "male").map(|voice| voice.voice_id).collect();
    let found: Vec<&str> = male().iter().map(|voice| voice.voice_id).collect();
    assert_eq!(found, expected);
}

#[test]
fn a_selection_by_tag_is_letter_for_letter() {
    assert_eq!(filter_by_gender("male").len(), male().len());
    assert_eq!(filter_by_gender("female").len(), female().len());
    assert!(filter_by_gender("Male").is_empty());
    assert!(filter_by_gender("FEMALE").is_empty());
    assert!(filter_by_gender("").is_empty());
    assert!(filter_by_gender("other").is_empty());
}

#[test]
fn a_name_is_found_whatever_its_case() {
    for name in ["Rachel", "rachel", "RACHEL", "rAcHeL"] {
        let found = find_by_name(name);
        assert_eq!(found.map(|voice| voice.voice_id), Some("21m00Tcm4TlvDq8ikWAM"), "{}", name);
    }
    for name in ["Antoni", "antoni", "ANTONI"] {
        let found = find_by_name(name);
        assert_eq!(found.map(|voice| voice.voice_id), Some("ErXwobaYiN019PkySvjV"), "{}", name);
    }
}

#[test]
fn a_name_must_match_as_a_whole() {
    assert!(find_by_name("NonExistentVoice").is_none());
    assert!(find_by_name("").is_none());
    assert!(find_by_name("Rach").is_none());
    assert!(find_by_name("Rachel ").is_none());
    assert!(find_by_name(" Rachel").is_none());
    assert!(find_by_name("Rachell").is_none());
    assert!(find_by_name("21m00Tcm4TlvDq8ikWAM").is_none());
}

#[test]
fn every_voice_is_found_by_its_own_name() {
    for voice in all() {
        let found = find_by_name(voice.name).unwrap();
        assert!(found.name.eq_ignore_ascii_case(voice.name));
        let upper = voice.name.to_ascii_uppercase();
        assert_eq!(find_by_name(&upper).unwrap().voice_id, found.voice_id);
    }
}

//! The catalog of voices, and the lookups on it.
//!
//! Every voice of the catalog is tagged `male` or `female`. A name is looked
//! up without regard to the case of ASCII letters.

use crate::text::{
    eq_ignore_ascii_case, lemma_eq_ignore_ascii_case_equivalence, same_text,
    same_text_ignoring_case,
};
use crate::types::{StaticVoice, StaticVoiceView};
use vstd::prelude::*;

verus! {

/// The tag of a male voice.
pub const MALE: &'static str = "male";

/// The tag of a female voice.
pub const FEMALE: &'static str = "female";

/// The record of the voice Rachel.
pub open spec fn rachel_view() -> StaticVoiceView {
    StaticVoiceView { voice_id: "21m00Tcm4TlvDq8ikWAM"@, name: "Rachel"@, gender: FEMALE@ }
}

/// The record of the voice Antoni.
pub open spec fn antoni_view() -> StaticVoiceView {
    StaticVoiceView { voice_id: "ErXwobaYiN019PkySvjV"@, name: "Antoni"@, gender: MALE@ }
}

/// The catalog, in its fixed order.
pub open spec fn catalog() -> Seq<StaticVoiceView> {
    seq![rachel_view(), antoni_view()]
}

/// Whether every voice of `voices` is tagged `male` or `female`.
pub open spec fn all_tagged(voices: Seq<StaticVoiceView>) -> bool {
    forall|i: int|
        0 <= i < voices.len() ==> (#[trigger] voices[i]).gender == MALE@ || voices[i].gender
            == FEMALE@
}

/// The test that a voice has the tag `gender`, letter for letter.
pub open spec fn has_gender(gender: Seq<char>) -> spec_fn(StaticVoiceView) -> bool {
    |voice: StaticVoiceView| voice.gender == gender
}

/// The voices of `voices` with the tag `gender`, in their order.
pub open spec fn with_gender(voices: Seq<StaticVoiceView>, gender: Seq<char>) -> Seq<
    StaticVoiceView,
> {
    voices.filter(has_gender(gender))
}

/// Whether the voice at `i` is the first of `voices` whose name is `name`,
/// case set aside.
pub open spec fn is_first_named(voices: Seq<StaticVoiceView>, name: Seq<char>, i: int) -> bool {
    &&& 0 <= i < voices.len()
    &&& eq_ignore_ascii_case(voices[i].name, name)
    &&& forall|j: int| 0 <= j < i ==> !eq_ignore_ascii_case((#[trigger] voices[j]).name, name)
}

/// Whether no voice of `voices` has the name `name`, case set aside.
pub open spec fn none_named(voices: Seq<StaticVoiceView>, name: Seq<char>) -> bool {
    forall|j: int|
        0 <= j < voices.len() ==> !eq_ignore_ascii_case((#[trigger] voices[j]).name, name)
}

/// Every voice that a selection by tag holds has that tag.
pub proof fn lemma_selected_have_gender(voices: Seq<StaticVoiceView>, gender: Seq<char>)
    ensures
        forall|i: int|
            0 <= i < with_gender(voices, gender).len() ==> (#[trigger] with_gender(
                voices,
                gender,
            )[i]).gender == gender,
{
    assert forall|i: int| 0 <= i < with_gender(voices, gender).len() implies (#[trigger] with_gender(
        voices,
        gender,
    )[i]).gender == gender by {
        voices.lemma_filter_pred(has_gender(gender), i);
    }
}

/// Where every voice is tagged `male` or `female`, the male and the female
/// voices together are as many as all the voices.
pub proof fn lemma_genders_partition(voices: Seq<StaticVoiceView>)
    requires
        all_tagged(voices),
    ensures
        with_gender(voices, MALE@).len() + with_gender(voices, FEMALE@).len() == voices.len(),
    decreases voices.len(),
{
    reveal(Seq::filter);
    reveal_strlit("male");
    reveal_strlit("female");
    if voices.len() > 0 {
        let rest = voices.drop_last();
        assert forall|i: int| 0 <= i < rest.len() implies (#[trigger] rest[i]).gender == MALE@
            || rest[i].gender == FEMALE@ by {
            assert(rest[i] == voices[i]);
        }
        lemma_genders_partition(rest);
        let last = voices[voices.len() - 1];
        assert(last.gender == MALE@ || last.gender == FEMALE@);
        assert(MALE@.len() != FEMALE@.len());
    }
}

/// Every voice of the catalog is tagged `male` or `female`.
pub proof fn lemma_catalog_tagged()
    ensures
        all_tagged(catalog()),
{
}

/// The male and the female voices of the catalog together are as many as the
/// catalog holds, and each of them has the tag it was selected by.
pub proof fn lemma_catalog_partition()
    ensures
        with_gender(catalog(), MALE@).len() + with_gender(catalog(), FEMALE@).len()
            == catalog().len(),
        forall|i: int|
            0 <= i < with_gender(catalog(), MALE@).len() ==> (#[trigger] with_gender(
                catalog(),
                MALE@,
            )[i]).gender == MALE@,
        forall|i: int|
            0 <= i < with_gender(catalog(), FEMALE@).len() ==> (#[trigger] with_gender(
                catalog(),
                FEMALE@,
            )[i]).gender == FEMALE@,
{
    lemma_catalog_tagged();
    lemma_genders_partition(catalog());
    lemma_selected_have_gender(catalog(), MALE@);
    lemma_selected_have_gender(catalog(), FEMALE@);
}

/// A lookup finds the same for two names that differ in letter case only.
pub proof fn lemma_lookup_ignores_case(voices: Seq<StaticVoiceView>, a: Seq<char>, b: Seq<char>)
    requires
        eq_ignore_ascii_case(a, b),
    ensures
        forall|i: int| is_first_named(voices, a, i) == is_first_named(voices, b, i),
        none_named(voices, a) == none_named(voices, b),
{
    assert forall|j: int| 0 <= j < voices.len() implies eq_ignore_ascii_case(
        (#[trigger] voices[j]).name,
        a,
    ) == eq_ignore_ascii_case(voices[j].name, b) by {
        lemma_eq_ignore_ascii_case_equivalence(voices[j].name, a, b);
        lemma_eq_ignore_ascii_case_equivalence(a, b, a);
        lemma_eq_ignore_ascii_case_equivalence(voices[j].name, b, a);
    }
}

/// A name has at most one first match, and has one exactly where some voice
/// bears it.
pub proof fn lemma_first_named_unique(voices: Seq<StaticVoiceView>, name: Seq<char>, i: int, j: int)
    requires
        is_first_named(voices, name, i),
        is_first_named(voices, name, j),
    ensures
        i == j,
        !none_named(voices, name),
{
    assert(eq_ignore_ascii_case(voices[i].name, name));
    if i < j {
        assert(!eq_ignore_ascii_case(voices[i].name, name));
    }
    if j < i {
        assert(!eq_ignore_ascii_case(voices[j].name, name));
    }
}

/// The voice Rachel.
pub fn rachel() -> (voice: StaticVoice)
    ensures
        voice@ == rachel_view(),
{
    StaticVoice::new("21m00Tcm4TlvDq8ikWAM", "Rachel", FEMALE)
}

/// The voice Antoni.
pub fn antoni() -> (voice: StaticVoice)
    ensures
        voice@ == antoni_view(),
{
    StaticVoice::new("ErXwobaYiN019PkySvjV", "Antoni", MALE)
}

/// Every voice of the catalog, in its fixed order.
pub fn all() -> (voices: Vec<StaticVoice>)
    ensures
        voices.deep_view() == catalog(),
{
    let mut voices: Vec<StaticVoice> = Vec::new();
    voices.push(rachel());
    voices.push(antoni());
    assert(voices.deep_view() =~= catalog());
    voices
}

fn select(voices: &Vec<StaticVoice>, gender: &str) -> (chosen: Vec<StaticVoice>)
    ensures
        chosen.deep_view() == with_gender(voices.deep_view(), gender@),
{
    let ghost table = voices.deep_view();
    let mut chosen: Vec<StaticVoice> = Vec::new();
    let mut i: usize = 0;
    proof {
        reveal(Seq::filter);
        assert(table.take(0) =~= Seq::empty());
        assert(chosen.deep_view() =~= with_gender(table.take(0), gender@));
    }
    while i < voices.len()
        invariant
            i <= voices.len(),
            table == voices.deep_view(),
            chosen.deep_view() == with_gender(table.take(i as int), gender@),
        decreases voices.len() - i,
    {
        let voice = voices[i];
        let ghost before = chosen.deep_view();
        let keep = same_text(voice.gender, gender);
        if keep {
            chosen.push(voice);
        }
        proof {
            reveal(Seq::filter);
            let next = table.take(i + 1);
            assert(next.drop_last() =~= table.take(i as int));
            assert(next.last() == voice@);
            assert(has_gender(gender@)(voice@) == keep);
            if keep {
                assert(chosen.deep_view() =~= before.push(voice@));
            } else {
                assert(chosen.deep_view() =~= before);
            }
        }
        i = i + 1;
    }
    assert(table.take(i as int) =~= table);
    chosen
}

fn search(voices: &Vec<StaticVoice>, name: &str) -> (found: Option<StaticVoice>)
    ensures
        match found {
            Some(voice) => exists|i: int|
                is_first_named(voices.deep_view(), name@, i) && voices.deep_view()[i] == voice@,
            None => none_named(voices.deep_view(), name@),
        },
{
    let ghost table = voices.deep_view();
    let mut i: usize = 0;
    while i < voices.len()
        invariant
            i <= voices.len(),
            table == voices.deep_view(),
            forall|j: int| 0 <= j < i ==> !eq_ignore_ascii_case((#[trigger] table[j]).name, name@),
        decreases voices.len() - i,
    {
        let voice = voices[i];
        if same_text_ignoring_case(voice.name, name) {
            assert(table[i as int] == voice@);
            assert(is_first_named(table, name@, i as int));
            return Some(voice);
        }
        i = i + 1;
    }
    None
}

/// The voices of the catalog with the tag `gender`, letter for letter, in
/// the catalog's order.
pub fn filter_by_gender(gender: &str) -> (voices: Vec<StaticVoice>)
    ensures
        voices.deep_view() == with_gender(catalog(), gender@),
{
    let table = all();
    select(&table, gender)
}

/// The male voices of the catalog.
pub fn male() -> (voices: Vec<StaticVoice>)
    ensures
        voices.deep_view() == with_gender(catalog(), MALE@),
{
    filter_by_gender(MALE)
}

/// The female voices of the catalog.
pub fn female() -> (voices: Vec<StaticVoice>)
    ensures
        voices.deep_view() == with_gender(catalog(), FEMALE@),
{
    filter_by_gender(FEMALE)
}

/// The first voice of the catalog whose name is `name`, the case of ASCII
/// letters set aside; `None` where there is none.
pub fn find_by_name(name: &str) -> (found: Option<StaticVoice>)
    ensures
        match found {
            Some(voice) => exists|i: int|
                is_first_named(catalog(), name@, i) && catalog()[i] == voice@,
            None => none_named(catalog(), name@),
        },
{
    let table = all();
    search(&table, name)
}

} // verus!

use tagscript::resolve::{get_value_or_default, get_vector_value_or_default, replacements};
use tagscript::script::Track;

fn track(is_default: bool) -> Track {
    Track::new(is_default)
}

#[test]
fn value_wins_over_default() {
    assert_eq!(get_value_or_default("a", "b"), "a");
    assert_eq!(get_value_or_default("", "b"), "b");
    assert_eq!(get_value_or_default("", ""), "");
}

#[test]
fn vector_falls_back_as_a_whole() {
    let own = vec![String::from("A")];
    let def = vec![String::from("B"), String::from("C")];
    let empty: Vec<String> = Vec::new();
    assert_eq!(get_vector_value_or_default(&own, &def), &own);
    assert_eq!(get_vector_value_or_default(&empty, &def), &def);
}

#[test]
fn expansion_replaces_every_occurrence() {
    let mut t = track(false);
    t.track_number = String::from("05");
    let d = track(true);
    let name = replacements(&String::from("{{track}}-{{track}}.mp3"), &t, &d);
    assert_eq!(name, "05-05.mp3");
}

#[test]
fn expansion_uses_effective_values() {
    let mut t = track(false);
    t.track_number = String::from("01");
    t.title = String::from("Song");
    let mut d = track(true);
    d.artist = String::from("X");
    d.year = String::from("2001");
    d.genre = String::from("Pop");
    t.genre = String::from("Rock");
    let name = replacements(
        &String::from("{{artist}} - {{year}} - {{track}} {{title}} [{{genre}}] {{album}} {{other}}"),
        &t,
        &d,
    );
    assert_eq!(name, "X - 2001 - 01 Song [Rock]  {{other}}");
}

#[test]
fn single_brace_text_is_left_alone() {
    let mut t = track(false);
    t.track_number = String::from("05");
    let d = track(true);
    let name = replacements(&String::from("{track}.mp3"), &t, &d);
    assert_eq!(name, "{track}.mp3");
}

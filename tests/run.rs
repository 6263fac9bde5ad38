use tagscript::plan::{
    delete_tags, edit_tags, prepare_run, process_script, rename_file, Action, Invocation,
};
use tagscript::run::{advance, RunEvent, RunState};
use tagscript::scaffold::new_script;
use tagscript::script::{parse_script, Track};
use tagscript::validate::{validate_script, ValidationError};

fn parse(s: &str) -> Vec<Track> {
    parse_script(String::from(s)).expect("script should parse")
}

fn strs(v: &[&str]) -> Vec<String> {
    v.iter().map(|s| String::from(*s)).collect()
}

fn runs(actions: &[Action]) -> Vec<Invocation> {
    actions
        .iter()
        .filter_map(|a| match a {
            Action::Run(i) => Some(i.clone()),
            Action::Progress(_) => None,
        })
        .collect()
}

#[test]
fn end_to_end_inherits_artist_and_renames() {
    let tracks =
        parse("new_filename={{track}} {{title}}.mp3\nartist=X\n\nfile=a.mp3\ntrack=01\ntitle=Song");
    let exists = vec![false, true];
    let plan = prepare_run(&tracks, &exists, false).expect("valid script");
    assert!(matches!(&plan[0], Action::Progress(p) if p == "a.mp3"));
    let inv = runs(&plan);
    assert_eq!(inv.len(), 2);
    assert_eq!(inv[0].program, "editag");
    assert_eq!(
        inv[0].args,
        strs(&[
            "--track-number", "01", "--title", "Song", "--artist", "X", "--album", "", "--year",
            "", "--genre", "", "a.mp3"
        ])
    );
    assert_eq!(inv[1].program, "mv");
    assert_eq!(inv[1].args, strs(&["a.mp3", "01 Song.mp3"]));
}

#[test]
fn delete_tags_fall_back_to_default_list() {
    let tracks = parse("delete_tag=TXXX\ndelete_tag=TPE2\nfile=a.mp3\nfile=b.mp3\ndelete_tag=TSSE\n");
    let a = delete_tags(&tracks[1], &tracks[0]);
    assert_eq!(a.len(), 2);
    assert_eq!(a[0].args, strs(&["--delete-tag", "TXXX", "a.mp3"]));
    assert_eq!(a[1].args, strs(&["--delete-tag", "TPE2", "a.mp3"]));
    let b = delete_tags(&tracks[2], &tracks[0]);
    assert_eq!(b.len(), 1);
    assert_eq!(b[0].program, "editag");
    assert_eq!(b[0].args, strs(&["--delete-tag", "TSSE", "b.mp3"]));
}

#[test]
fn no_tags_to_delete_means_no_delete_runs() {
    let tracks = parse("file=a.mp3\n");
    assert!(delete_tags(&tracks[1], &tracks[0]).is_empty());
}

#[test]
fn edit_uses_own_values_over_defaults() {
    let tracks = parse("artist=D\nalbum=DA\nfile=a.mp3\nartist=Own\ntrack=3\n");
    let inv = edit_tags(&tracks[1], &tracks[0]);
    assert_eq!(
        inv.args,
        strs(&[
            "--track-number", "3", "--title", "", "--artist", "Own", "--album", "DA", "--year", "",
            "--genre", "", "a.mp3"
        ])
    );
}

#[test]
fn no_template_means_no_rename() {
    let tracks = parse("file=a.mp3\ntitle=T\n");
    assert!(rename_file(&tracks[1], &tracks[0]).is_none());
}

#[test]
fn template_expanding_to_empty_means_no_rename() {
    let tracks = parse("new_filename={{title}}\nfile=a.mp3\n");
    assert!(rename_file(&tracks[1], &tracks[0]).is_none());
}

#[test]
fn own_template_wins_over_default() {
    let tracks = parse("new_filename=default.mp3\nfile=a.mp3\nnew_filename={{title}}.ogg\ntitle=T\n");
    let m = rename_file(&tracks[1], &tracks[0]).expect("a rename");
    assert_eq!(m.program, "mv");
    assert_eq!(m.args, strs(&["a.mp3", "T.ogg"]));
}

#[test]
fn plan_keeps_script_order() {
    let tracks = parse("delete_tag=X\nfile=a.mp3\nfile=b.mp3\n");
    let plan = process_script(&tracks);
    assert_eq!(plan.len(), 6);
    assert!(matches!(&plan[0], Action::Progress(p) if p == "a.mp3"));
    assert!(matches!(&plan[3], Action::Progress(p) if p == "b.mp3"));
    let inv = runs(&plan);
    assert_eq!(inv[1].args, strs(&["--delete-tag", "X", "a.mp3"]));
    assert_eq!(inv[3].args, strs(&["--delete-tag", "X", "b.mp3"]));
}

#[test]
fn missing_filename_fails_validation() {
    let tracks = parse("file=a.mp3\nfile=\n");
    let exists = vec![false, true, false];
    match validate_script(&tracks, &exists) {
        Err(ValidationError::MissingFilename { ordinal }) => assert_eq!(ordinal, 2),
        other => panic!("unexpected {:?}", other),
    }
    assert!(prepare_run(&tracks, &exists, false).is_err());
}

#[test]
fn missing_file_fails_validation_with_no_runs() {
    let tracks = parse("file=a.mp3\nfile=b.mp3\n");
    let exists = vec![false, true, false];
    match prepare_run(&tracks, &exists, false) {
        Err(ValidationError::FileNotFound { path }) => assert_eq!(path, "b.mp3"),
        other => panic!("unexpected {:?}", other),
    }
}

#[test]
fn first_failure_is_reported() {
    let tracks = parse("file=gone.mp3\nfile=\n");
    let exists = vec![false, false, false];
    match validate_script(&tracks, &exists) {
        Err(ValidationError::FileNotFound { path }) => assert_eq!(path, "gone.mp3"),
        other => panic!("unexpected {:?}", other),
    }
}

#[test]
fn valid_script_passes() {
    let tracks = parse("file=a.mp3\n");
    assert!(validate_script(&tracks, &vec![false, true]).is_ok());
}

#[test]
fn check_mode_plans_nothing() {
    let tracks = parse("new_filename={{track}}.mp3\nfile=a.mp3\ntrack=1\n");
    let plan = prepare_run(&tracks, &vec![false, true], true).expect("valid script");
    assert!(plan.is_empty());
}

#[test]
fn scaffold_lists_mp3_files_only() {
    let text = new_script(&strs(&["a.mp3", "notes.txt", "b.mp3"]));
    assert_eq!(
        text,
        "new_filename={{track}} {{title}}.mp3\nartist=TODO\nalbum=TODO\nyear=TODO\ngenre=TODO\n\
         delete_tag=TXXX\ndelete_tag=TPE2\ndelete_tag=TSSE\n\
         \nfile=a.mp3\ntrack=TODO\ntitle=TODO\n\
         \nfile=b.mp3\ntrack=TODO\ntitle=TODO\n"
    );
    let tracks = parse(&text);
    assert_eq!(tracks.len(), 3);
    assert_eq!(tracks[2].original_filename, "b.mp3");
}

#[test]
fn run_state_walks_steps_in_order() {
    let s = advance(RunState::NotStarted, RunEvent::Start, 2);
    assert_eq!(s, RunState::Running { next: 0 });
    let s = advance(s, RunEvent::Finished { success: true }, 2);
    assert_eq!(s, RunState::Running { next: 1 });
    let s = advance(s, RunEvent::Finished { success: true }, 2);
    assert_eq!(s, RunState::Completed);
    assert_eq!(advance(s, RunEvent::Start, 2), RunState::Completed);
}

#[test]
fn run_state_stops_on_failure() {
    let s = advance(RunState::NotStarted, RunEvent::Start, 3);
    let s = advance(s, RunEvent::Finished { success: false }, 3);
    assert_eq!(s, RunState::Failed);
    assert_eq!(advance(s, RunEvent::Finished { success: true }, 3), RunState::Failed);
}

#[test]
fn run_of_no_steps_completes_at_once() {
    assert_eq!(advance(RunState::NotStarted, RunEvent::Start, 0), RunState::Completed);
}

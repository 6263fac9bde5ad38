use tagscript::script::{classify_line, parse_script, Key, Line, Track};
use tagscript::text::split_lines;

fn parse(s: &str) -> Vec<Track> {
    parse_script(String::from(s)).expect("script should parse")
}

#[test]
fn empty_script_is_single_default_block() {
    let tracks = parse("");
    assert_eq!(tracks.len(), 1);
    assert!(tracks[0].is_default);
    assert!(tracks[0].original_filename.is_empty());
    assert!(tracks[0].artist.is_empty());
    assert!(tracks[0].delete_tags.is_empty());
}

#[test]
fn comments_and_blanks_only_give_empty_default() {
    let tracks = parse("# a comment\n\n   \n  # indented comment\n");
    assert_eq!(tracks.len(), 1);
    assert!(tracks[0].is_default);
    assert!(tracks[0].new_filename.is_empty());
    assert!(tracks[0].title.is_empty());
}

#[test]
fn default_settings_without_files_stay_in_default_block() {
    let tracks = parse("artist=X\nalbum=Y\n");
    assert_eq!(tracks.len(), 1);
    assert!(tracks[0].is_default);
    assert_eq!(tracks[0].artist, "X");
    assert_eq!(tracks[0].album, "Y");
}

#[test]
fn one_block_per_file_line() {
    let tracks = parse("artist=X\nfile=a.mp3\ntrack=01\nfile=b.mp3\nfile=c.mp3\ntitle=T\n");
    assert_eq!(tracks.len(), 4);
    assert!(tracks[0].is_default);
    assert_eq!(tracks.iter().filter(|t| !t.is_default).count(), 3);
    assert_eq!(tracks[1].original_filename, "a.mp3");
    assert_eq!(tracks[1].track_number, "01");
    assert_eq!(tracks[2].original_filename, "b.mp3");
    assert_eq!(tracks[3].original_filename, "c.mp3");
    assert_eq!(tracks[3].title, "T");
    assert!(tracks[2].title.is_empty());
}

#[test]
fn later_setting_overwrites_earlier_in_block() {
    let tracks = parse("file=a.mp3\ntitle=One\ntitle=Two\n");
    assert_eq!(tracks[1].title, "Two");
}

#[test]
fn delete_tags_accumulate_in_order() {
    let tracks = parse("delete_tag=TXXX\ndelete_tag=TPE2\nfile=a.mp3\ndelete_tag=TSSE\n");
    assert_eq!(tracks[0].delete_tags, vec![String::from("TXXX"), String::from("TPE2")]);
    assert_eq!(tracks[1].delete_tags, vec![String::from("TSSE")]);
}

#[test]
fn every_key_sets_its_field() {
    let tracks = parse(
        "file=f.mp3\nnew_filename=n\nartist=ar\ntrack=7\ntitle=ti\nalbum=al\nyear=1999\ngenre=rock\n",
    );
    let t = &tracks[1];
    assert!(!t.is_default);
    assert_eq!(t.original_filename, "f.mp3");
    assert_eq!(t.new_filename, "n");
    assert_eq!(t.artist, "ar");
    assert_eq!(t.track_number, "7");
    assert_eq!(t.title, "ti");
    assert_eq!(t.album, "al");
    assert_eq!(t.year, "1999");
    assert_eq!(t.genre, "rock");
}

#[test]
fn unknown_key_is_parse_error_with_line_number() {
    let err = parse_script(String::from("artist=X\n\nfoo=bar\n")).unwrap_err();
    assert_eq!(err.line_number, 3);
    assert_eq!(err.line, "foo=bar");
}

#[test]
fn parse_error_on_first_line() {
    let err = parse_script(String::from("nonsense")).unwrap_err();
    assert_eq!(err.line_number, 1);
    assert_eq!(err.line, "nonsense");
}

#[test]
fn value_keeps_text_after_key_verbatim() {
    let tracks = parse("  title= Hello World  \nfile=a.mp3\n");
    assert_eq!(tracks[0].title, " Hello World  ");
}

#[test]
fn crlf_line_endings_are_accepted() {
    let tracks = parse("artist=X\r\nfile=a.mp3\r\n");
    assert_eq!(tracks[0].artist, "X");
    assert_eq!(tracks[1].original_filename, "a.mp3");
}

#[test]
fn empty_file_value_gives_empty_path() {
    let tracks = parse("file=a.mp3\nfile=\n");
    assert_eq!(tracks.len(), 3);
    assert!(tracks[2].original_filename.is_empty());
    assert!(!tracks[2].is_default);
}

#[test]
fn split_lines_matches_std_lines() {
    for s in ["", "a", "a\n", "a\nb", "a\r\nb\r\n", "\n\n", "x\ry", "a\n\r"] {
        let got = split_lines(s);
        let want: Vec<String> = s.lines().map(String::from).collect();
        assert_eq!(got, want, "text {:?}", s);
    }
}

#[test]
fn classify_line_kinds() {
    assert!(matches!(classify_line("   "), Line::Ignored));
    assert!(matches!(classify_line("# x"), Line::Ignored));
    assert!(matches!(classify_line("foo=bar"), Line::Unknown));
    match classify_line("\tgenre=jazz") {
        Line::Setting(k, v) => {
            assert_eq!(k, Key::Genre);
            assert_eq!(v, "jazz");
        }
        _ => panic!("expected a setting"),
    }
}

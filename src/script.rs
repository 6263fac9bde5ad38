//! The script format: a default block followed by one block per file.
use vstd::prelude::*;
use crate::text::{chars_of, is_space, is_ws, lines_of, split_lines, substring, views};

verus! {

/// One block of a script: the default block, or the settings for one file.
/// An empty string (or an empty `delete_tags`) means "not given in this block".
#[derive(Debug, Clone)]
pub struct Track {
    pub is_default: bool,
    pub original_filename: String,
    pub new_filename: String,
    pub track_number: String,
    pub title: String,
    pub artist: String,
    pub album: String,
    pub year: String,
    pub genre: String,
    pub delete_tags: Vec<String>,
}

/// The mathematical value of a [`Track`].
pub struct TrackView {
    pub is_default: bool,
    pub original_filename: Seq<char>,
    pub new_filename: Seq<char>,
    pub track_number: Seq<char>,
    pub title: Seq<char>,
    pub artist: Seq<char>,
    pub album: Seq<char>,
    pub year: Seq<char>,
    pub genre: Seq<char>,
    pub delete_tags: Seq<Seq<char>>,
}

impl View for Track {
    type V = TrackView;

    open spec fn view(&self) -> TrackView {
        TrackView {
            is_default: self.is_default,
            original_filename: self.original_filename@,
            new_filename: self.new_filename@,
            track_number: self.track_number@,
            title: self.title@,
            artist: self.artist@,
            album: self.album@,
            year: self.year@,
            genre: self.genre@,
            delete_tags: views(self.delete_tags@),
        }
    }
}

/// A block with nothing given.
pub open spec fn empty_track(is_default: bool) -> TrackView {
    TrackView {
        is_default,
        original_filename: Seq::empty(),
        new_filename: Seq::empty(),
        track_number: Seq::empty(),
        title: Seq::empty(),
        artist: Seq::empty(),
        album: Seq::empty(),
        year: Seq::empty(),
        genre: Seq::empty(),
        delete_tags: Seq::empty(),
    }
}

/// Whether every field but `is_default` is empty.
pub open spec fn all_fields_empty(t: TrackView) -> bool {
    &&& t.original_filename.len() == 0
    &&& t.new_filename.len() == 0
    &&& t.track_number.len() == 0
    &&& t.title.len() == 0
    &&& t.artist.len() == 0
    &&& t.album.len() == 0
    &&& t.year.len() == 0
    &&& t.genre.len() == 0
    &&& t.delete_tags.len() == 0
}

/// The views of a sequence of tracks.
pub open spec fn track_views(v: Seq<Track>) -> Seq<TrackView> {
    v.map_values(|t: Track| t@)
}

impl Track {
    /// A block with nothing given.
    pub fn new(is_default: bool) -> (r: Track)
        ensures
            r@ == empty_track(is_default),
    {
        let r = Track {
            is_default,
            original_filename: String::new(),
            new_filename: String::new(),
            track_number: String::new(),
            title: String::new(),
            artist: String::new(),
            album: String::new(),
            year: String::new(),
            genre: String::new(),
            delete_tags: Vec::new(),
        };
        assert(views(r.delete_tags@) =~= Seq::empty());
        r
    }
}

/// The keys a script line may start with.
#[derive(Debug, Clone, Copy, PartialEq, Eq, Structural)]
pub enum Key {
    File,
    NewFilename,
    Artist,
    TrackNumber,
    Title,
    Album,
    Year,
    Genre,
    DeleteTag,
}

/// The prefix, `=` included, that introduces each key.
pub open spec fn key_text(k: Key) -> Seq<char> {
    match k {
        Key::File => seq!['f', 'i', 'l', 'e', '='],
        Key::NewFilename => seq!['n', 'e', 'w', '_', 'f', 'i', 'l', 'e', 'n', 'a', 'm', 'e', '='],
        Key::Artist => seq!['a', 'r', 't', 'i', 's', 't', '='],
        Key::TrackNumber => seq!['t', 'r', 'a', 'c', 'k', '='],
        Key::Title => seq!['t', 'i', 't', 'l', 'e', '='],
        Key::Album => seq!['a', 'l', 'b', 'u', 'm', '='],
        Key::Year => seq!['y', 'e', 'a', 'r', '='],
        Key::Genre => seq!['g', 'e', 'n', 'r', 'e', '='],
        Key::DeleteTag => seq!['d', 'e', 'l', 'e', 't', 'e', '_', 't', 'a', 'g', '='],
    }
}

/// The prefix that introduces a key.
pub fn key_chars(k: Key) -> (r: Vec<char>)
    ensures
        r@ == key_text(k),
{
    let r = match k {
        Key::File => vec!['f', 'i', 'l', 'e', '='],
        Key::NewFilename => vec!['n', 'e', 'w', '_', 'f', 'i', 'l', 'e', 'n', 'a', 'm', 'e', '='],
        Key::Artist => vec!['a', 'r', 't', 'i', 's', 't', '='],
        Key::TrackNumber => vec!['t', 'r', 'a', 'c', 'k', '='],
        Key::Title => vec!['t', 'i', 't', 'l', 'e', '='],
        Key::Album => vec!['a', 'l', 'b', 'u', 'm', '='],
        Key::Year => vec!['y', 'e', 'a', 'r', '='],
        Key::Genre => vec!['g', 'e', 'n', 'r', 'e', '='],
        Key::DeleteTag => vec!['d', 'e', 'l', 'e', 't', 'e', '_', 't', 'a', 'g', '='],
    };
    assert(r@ =~= key_text(k));
    r
}

/// Whether `s` starts with `p`.
pub open spec fn has_prefix(s: Seq<char>, p: Seq<char>) -> bool {
    p.len() <= s.len() && s.subrange(0, p.len() as int) == p
}

/// The key that `s` starts with, if any.
pub open spec fn line_key(s: Seq<char>) -> Option<Key> {
    if has_prefix(s, key_text(Key::File)) {
        Some(Key::File)
    } else if has_prefix(s, key_text(Key::NewFilename)) {
        Some(Key::NewFilename)
    } else if has_prefix(s, key_text(Key::Artist)) {
        Some(Key::Artist)
    } else if has_prefix(s, key_text(Key::TrackNumber)) {
        Some(Key::TrackNumber)
    } else if has_prefix(s, key_text(Key::Title)) {
        Some(Key::Title)
    } else if has_prefix(s, key_text(Key::Album)) {
        Some(Key::Album)
    } else if has_prefix(s, key_text(Key::Year)) {
        Some(Key::Year)
    } else if has_prefix(s, key_text(Key::Genre)) {
        Some(Key::Genre)
    } else if has_prefix(s, key_text(Key::DeleteTag)) {
        Some(Key::DeleteTag)
    } else {
        None
    }
}

/// Whether `s[at..]` starts with `p`.
pub(crate) fn has_prefix_at(s: &Vec<char>, at: usize, p: &Vec<char>) -> (r: bool)
    requires
        at <= s@.len(),
    ensures
        r == has_prefix(s@.skip(at as int), p@),
{
    let sl = s.len();
    if p.len() > sl - at {
        return false;
    }
    let mut j: usize = 0;
    while j < p.len()
        invariant
            sl == s@.len(),
            at <= s@.len(),
            p@.len() <= s@.len() - at,
            j <= p@.len(),
            forall|m: int| 0 <= m < j ==> s@[at + m] == p@[m],
        decreases p@.len() - j,
    {
        if s[at + j] != p[j] {
            assert(s@.skip(at as int).subrange(0, p@.len() as int)[j as int] != p@[j as int]);
            return false;
        }
        j = j + 1;
    }
    assert(s@.skip(at as int).subrange(0, p@.len() as int) =~= p@);
    true
}

/// The key that `s[at..]` starts with, if any.
fn match_key(s: &Vec<char>, at: usize) -> (r: Option<Key>)
    requires
        at <= s@.len(),
    ensures
        r == line_key(s@.skip(at as int)),
{
    if has_prefix_at(s, at, &key_chars(Key::File)) {
        Some(Key::File)
    } else if has_prefix_at(s, at, &key_chars(Key::NewFilename)) {
        Some(Key::NewFilename)
    } else if has_prefix_at(s, at, &key_chars(Key::Artist)) {
        Some(Key::Artist)
    } else if has_prefix_at(s, at, &key_chars(Key::TrackNumber)) {
        Some(Key::TrackNumber)
    } else if has_prefix_at(s, at, &key_chars(Key::Title)) {
        Some(Key::Title)
    } else if has_prefix_at(s, at, &key_chars(Key::Album)) {
        Some(Key::Album)
    } else if has_prefix_at(s, at, &key_chars(Key::Year)) {
        Some(Key::Year)
    } else if has_prefix_at(s, at, &key_chars(Key::Genre)) {
        Some(Key::Genre)
    } else if has_prefix_at(s, at, &key_chars(Key::DeleteTag)) {
        Some(Key::DeleteTag)
    } else {
        None
    }
}

/// The index of the first non-whitespace character of `s` at or after `i`
/// (`s.len()` when there is none).
pub open spec fn lead_from(s: Seq<char>, i: int) -> int
    decreases s.len() - i,
{
    if 0 <= i < s.len() && is_ws(s[i]) {
        lead_from(s, i + 1)
    } else {
        i
    }
}

/// The number of whitespace characters that `s` starts with.
pub open spec fn lead(s: Seq<char>) -> int {
    lead_from(s, 0)
}

/// What a line means, in the model.
pub enum LineSpec {
    /// Blank, or a comment: its trimmed text starts with `#`.
    Ignored,
    /// A key and its value.
    Setting(Key, Seq<char>),
    /// Anything else.
    Unknown,
}

/// Classifies a line. Leading whitespace is skipped before the test for a
/// comment and the match of a key; the value is the rest of the line after
/// the key's `=`, trailing whitespace included.
pub open spec fn classify(line: Seq<char>) -> LineSpec {
    let k = lead(line);
    if k >= line.len() || line[k] == '#' {
        LineSpec::Ignored
    } else {
        match line_key(line.skip(k)) {
            Some(key) => LineSpec::Setting(key, line.skip(k + key_text(key).len())),
            None => LineSpec::Unknown,
        }
    }
}

/// What a line means.
pub enum Line {
    Ignored,
    Setting(Key, String),
    Unknown,
}

impl View for Line {
    type V = LineSpec;

    open spec fn view(&self) -> LineSpec {
        match self {
            Line::Ignored => LineSpec::Ignored,
            Line::Setting(k, v) => LineSpec::Setting(*k, v@),
            Line::Unknown => LineSpec::Unknown,
        }
    }
}

/// Classifies one line of a script.
pub fn classify_line(line: &str) -> (r: Line)
    ensures
        r@ == classify(line@),
{
    let cs = chars_of(line);
    let n = cs.len();
    let mut k: usize = 0;
    while k < n && is_space(cs[k])
        invariant
            cs@ == line@,
            n == cs@.len(),
            k <= n,
            lead_from(cs@, k as int) == lead(cs@),
        decreases n - k,
    {
        k = k + 1;
    }
    if k == n || cs[k] == '#' {
        return Line::Ignored;
    }
    match match_key(&cs, k) {
        None => Line::Unknown,
        Some(key) => {
            let klen = key_chars(key).len();
            let v = substring(line, k + klen, n);
            assert(v@ =~= line@.skip(k + key_text(key).len()));
            Line::Setting(key, v)
        },
    }
}

/// A line that is not blank, not a comment and starts with no key.
#[derive(Debug, Clone)]
pub struct ParseError {
    /// Its number, counting from 1.
    pub line_number: usize,
    /// Its text.
    pub line: String,
}

/// The mathematical value of a [`ParseError`].
pub struct ParseErrorView {
    pub line_number: nat,
    pub line: Seq<char>,
}

impl View for ParseError {
    type V = ParseErrorView;

    open spec fn view(&self) -> ParseErrorView {
        ParseErrorView { line_number: self.line_number as nat, line: self.line@ }
    }
}

/// A block after a key other than `file=` and its value.
pub open spec fn set_field(t: TrackView, k: Key, v: Seq<char>) -> TrackView {
    match k {
        Key::File => TrackView { original_filename: v, ..t },
        Key::NewFilename => TrackView { new_filename: v, ..t },
        Key::Artist => TrackView { artist: v, ..t },
        Key::TrackNumber => TrackView { track_number: v, ..t },
        Key::Title => TrackView { title: v, ..t },
        Key::Album => TrackView { album: v, ..t },
        Key::Year => TrackView { year: v, ..t },
        Key::Genre => TrackView { genre: v, ..t },
        Key::DeleteTag => TrackView { delete_tags: t.delete_tags.push(v), ..t },
    }
}

/// The result of reading `lines[i..]`, where `done` holds the closed blocks
/// and `cur` the block being read.
pub open spec fn parse_from(
    lines: Seq<Seq<char>>,
    i: int,
    done: Seq<TrackView>,
    cur: TrackView,
) -> Result<Seq<TrackView>, ParseErrorView>
    decreases lines.len() - i,
{
    if i < 0 || i >= lines.len() {
        Ok(done.push(cur))
    } else {
        match classify(lines[i]) {
            LineSpec::Ignored => parse_from(lines, i + 1, done, cur),
            LineSpec::Unknown => Err(ParseErrorView { line_number: (i + 1) as nat, line: lines[i] }),
            LineSpec::Setting(k, v) => if k == Key::File {
                parse_from(lines, i + 1, done.push(cur), set_field(empty_track(false), k, v))
            } else {
                parse_from(lines, i + 1, done, set_field(cur, k, v))
            },
        }
    }
}

/// The result of parsing a script's text.
pub open spec fn parse_text(s: Seq<char>) -> Result<Seq<TrackView>, ParseErrorView> {
    parse_from(lines_of(s), 0, Seq::empty(), empty_track(true))
}

/// The shape of every parsed script: one default block, first, and no other.
pub open spec fn script_wf(s: Seq<TrackView>) -> bool {
    &&& s.len() >= 1
    &&& s[0].is_default
    &&& forall|i: int| 1 <= i < s.len() ==> !(#[trigger] s[i]).is_default
}

/// The number of blocks that are not the default block.
pub open spec fn non_default_count(s: Seq<TrackView>) -> nat
    decreases s.len(),
{
    if s.len() == 0 {
        0
    } else {
        non_default_count(s.drop_last()) + if s.last().is_default {
            0nat
        } else {
            1nat
        }
    }
}

/// Whether a line is a `file=` line.
pub open spec fn is_file_line(line: Seq<char>) -> bool {
    match classify(line) {
        LineSpec::Setting(k, _) => k == Key::File,
        _ => false,
    }
}

/// The number of `file=` lines in `lines[i..]`.
pub open spec fn file_lines_from(lines: Seq<Seq<char>>, i: int) -> nat
    decreases lines.len() - i,
{
    if i < 0 || i >= lines.len() {
        0
    } else {
        (if is_file_line(lines[i]) {
            1nat
        } else {
            0nat
        }) + file_lines_from(lines, i + 1)
    }
}

/// The number of `file=` lines in a script's text.
pub open spec fn file_line_count(s: Seq<char>) -> nat {
    file_lines_from(lines_of(s), 0)
}

proof fn lemma_parse_from_shape(
    lines: Seq<Seq<char>>,
    i: int,
    done: Seq<TrackView>,
    cur: TrackView,
)
    requires
        0 <= i <= lines.len(),
        (done.len() == 0 && cur.is_default) || (script_wf(done) && !cur.is_default),
    ensures
        parse_from(lines, i, done, cur) is Ok ==> {
            let r = parse_from(lines, i, done, cur)->Ok_0;
            &&& script_wf(r)
            &&& non_default_count(r) == non_default_count(done) + (if cur.is_default {
                0nat
            } else {
                1nat
            }) + file_lines_from(lines, i)
        },
    decreases lines.len() - i,
{
    if i == lines.len() {
        let r = done.push(cur);
        assert(r.drop_last() =~= done);
        if done.len() > 0 {
            assert forall|j: int| 1 <= j < r.len() implies !(#[trigger] r[j]).is_default by {
                if j < done.len() {
                    assert(r[j] == done[j]);
                }
            }
        }
    } else {
        match classify(lines[i]) {
            LineSpec::Ignored => {
                lemma_parse_from_shape(lines, i + 1, done, cur);
            },
            LineSpec::Unknown => {},
            LineSpec::Setting(k, v) => {
                if k == Key::File {
                    let d2 = done.push(cur);
                    assert(d2.drop_last() =~= done);
                    assert forall|j: int| 1 <= j < d2.len() implies !(#[trigger] d2[j]).is_default by {
                        if j < done.len() {
                            assert(d2[j] == done[j]);
                        }
                    }
                    lemma_parse_from_shape(lines, i + 1, d2, set_field(empty_track(false), k, v));
                } else {
                    lemma_parse_from_shape(lines, i + 1, done, set_field(cur, k, v));
                }
            },
        }
    }
}

/// Every parsed script has one default block, first, and as many other
/// blocks as it has `file=` lines.
pub proof fn lemma_parse_shape(s: Seq<char>)
    requires
        parse_text(s) is Ok,
    ensures
        script_wf(parse_text(s)->Ok_0),
        non_default_count(parse_text(s)->Ok_0) == file_line_count(s),
{
    lemma_parse_from_shape(lines_of(s), 0, Seq::empty(), empty_track(true));
    assert(non_default_count(Seq::<TrackView>::empty()) == 0);
}

/// A script without `file=` lines parses, when it parses, to the default
/// block alone.
pub proof fn lemma_no_file_lines_single_default(s: Seq<char>)
    requires
        parse_text(s) is Ok,
        file_line_count(s) == 0,
    ensures
        parse_text(s)->Ok_0.len() == 1,
        parse_text(s)->Ok_0[0].is_default,
{
    let r = parse_text(s)->Ok_0;
    lemma_parse_shape(s);
    if r.len() > 1 {
        lemma_non_default_count_positive(r);
    }
}

/// A sequence with a block that is not default, after the first, has a
/// positive count of such blocks.
proof fn lemma_non_default_count_positive(r: Seq<TrackView>)
    requires
        r.len() > 1,
        !r[r.len() - 1].is_default,
    ensures
        non_default_count(r) > 0,
{
}

proof fn lemma_ignored_lines(lines: Seq<Seq<char>>, i: int, done: Seq<TrackView>, cur: TrackView)
    requires
        0 <= i <= lines.len(),
        forall|j: int| 0 <= j < lines.len() ==> classify(#[trigger] lines[j]) == LineSpec::Ignored,
    ensures
        parse_from(lines, i, done, cur) == Ok::<Seq<TrackView>, ParseErrorView>(done.push(cur)),
    decreases lines.len() - i,
{
    if i < lines.len() {
        assert(classify(lines[i]) == LineSpec::Ignored);
        lemma_ignored_lines(lines, i + 1, done, cur);
    }
}

/// A script whose lines are all blank or comments parses to the default
/// block alone, with nothing given in it.
pub proof fn lemma_blank_script_empty_default(s: Seq<char>)
    requires
        forall|j: int|
            0 <= j < lines_of(s).len() ==> classify(#[trigger] lines_of(s)[j]) == LineSpec::Ignored,
    ensures
        parse_text(s) == Ok::<Seq<TrackView>, ParseErrorView>(seq![empty_track(true)]),
        all_fields_empty(parse_text(s)->Ok_0[0]),
{
    lemma_ignored_lines(lines_of(s), 0, Seq::empty(), empty_track(true));
    assert(Seq::<TrackView>::empty().push(empty_track(true)) =~= seq![empty_track(true)]);
}

proof fn lemma_parse_from_unknown(
    lines: Seq<Seq<char>>,
    i: int,
    j: int,
    done: Seq<TrackView>,
    cur: TrackView,
)
    requires
        0 <= i <= j < lines.len(),
        classify(lines[j]) == LineSpec::Unknown,
        forall|m: int| i <= m < j ==> classify(#[trigger] lines[m]) != LineSpec::Unknown,
    ensures
        parse_from(lines, i, done, cur) == Err::<Seq<TrackView>, ParseErrorView>(
            ParseErrorView { line_number: (j + 1) as nat, line: lines[j] },
        ),
    decreases j - i,
{
    if i < j {
        assert(classify(lines[i]) != LineSpec::Unknown);
        match classify(lines[i]) {
            LineSpec::Setting(k, v) => {
                if k == Key::File {
                    lemma_parse_from_unknown(lines, i + 1, j, done.push(cur), set_field(empty_track(false), k, v));
                } else {
                    lemma_parse_from_unknown(lines, i + 1, j, done, set_field(cur, k, v));
                }
            },
            _ => {
                lemma_parse_from_unknown(lines, i + 1, j, done, cur);
            },
        }
    }
}

/// The first line that is neither blank, a comment nor a known key fails
/// the parse, with its number (counting from 1) and its text.
pub proof fn lemma_first_unknown_line(s: Seq<char>, j: int)
    requires
        0 <= j < lines_of(s).len(),
        classify(lines_of(s)[j]) == LineSpec::Unknown,
        forall|m: int| 0 <= m < j ==> classify(#[trigger] lines_of(s)[m]) != LineSpec::Unknown,
    ensures
        parse_text(s) == Err::<Seq<TrackView>, ParseErrorView>(
            ParseErrorView { line_number: (j + 1) as nat, line: lines_of(s)[j] },
        ),
{
    lemma_parse_from_unknown(lines_of(s), 0, j, Seq::empty(), empty_track(true));
}

/// Sets the field that `k` names (appends, for `delete_tag=`).
pub fn apply_setting(t: &mut Track, k: Key, v: String)
    ensures
        final(t)@ == set_field(old(t)@, k, v@),
{
    match k {
        Key::File => t.original_filename = v,
        Key::NewFilename => t.new_filename = v,
        Key::Artist => t.artist = v,
        Key::TrackNumber => t.track_number = v,
        Key::Title => t.title = v,
        Key::Album => t.album = v,
        Key::Year => t.year = v,
        Key::Genre => t.genre = v,
        Key::DeleteTag => {
            let ghost v_view = v@;
            t.delete_tags.push(v);
            assert(views(t.delete_tags@) =~= views(old(t).delete_tags@).push(v_view));
        },
    }
}

/// Parses a script into its blocks: the default block first, then one block
/// per `file=` line, in order.
pub fn parse_script(script: String) -> (r: Result<Vec<Track>, ParseError>)
    ensures
        match r {
            Ok(v) => {
                &&& parse_text(script@) == Ok::<Seq<TrackView>, ParseErrorView>(track_views(v@))
                &&& script_wf(track_views(v@))
                &&& non_default_count(track_views(v@)) == file_line_count(script@)
            },
            Err(e) => parse_text(script@) == Err::<Seq<TrackView>, ParseErrorView>(e@),
        },
{
    let lines = split_lines(script.as_str());
    let mut track = Track::new(true);
    let mut tracks: Vec<Track> = Vec::new();
    let mut idx: usize = 0;
    assert(track_views(tracks@) =~= Seq::empty());
    while idx < lines.len()
        invariant
            views(lines@) == lines_of(script@),
            idx <= lines@.len(),
            parse_from(lines_of(script@), idx as int, track_views(tracks@), track@)
                == parse_text(script@),
        decreases lines@.len() - idx,
    {
        let line = classify_line(lines[idx].as_str());
        assert(lines_of(script@)[idx as int] == lines@[idx as int]@);
        match line {
            Line::Ignored => {},
            Line::Unknown => {
                return Err(ParseError { line_number: idx + 1, line: lines[idx].clone() });
            },
            Line::Setting(k, v) => {
                if k == Key::File {
                    let ghost before = track_views(tracks@);
                    let ghost cur = track@;
                    tracks.push(track);
                    assert(track_views(tracks@) =~= before.push(cur));
                    track = Track::new(false);
                }
                apply_setting(&mut track, k, v);
            },
        }
        idx = idx + 1;
    }
    let ghost before = track_views(tracks@);
    let ghost cur = track@;
    tracks.push(track);
    assert(track_views(tracks@) =~= before.push(cur));
    proof {
        lemma_parse_shape(script@);
    }
    Ok(tracks)
}

} // verus!

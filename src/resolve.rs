//! Effective values of a file block: its own where given, else the default
//! block's; and expansion of the rename template.
use vstd::prelude::*;
use vstd::string::*;
use crate::script::{Track, TrackView, has_prefix, has_prefix_at};
use crate::text::{chars_of, substring, views};

verus! {

/// `value` where it is non-empty, else `default`.
pub open spec fn or_default(value: Seq<char>, default: Seq<char>) -> Seq<char> {
    if value.len() == 0 {
        default
    } else {
        value
    }
}

/// `value` where it is non-empty, else `default`, taken as a whole.
pub open spec fn or_default_seq(value: Seq<Seq<char>>, default: Seq<Seq<char>>) -> Seq<Seq<char>> {
    if value.len() == 0 {
        default
    } else {
        value
    }
}

/// The tag fields of a block.
#[derive(Debug, Clone, Copy, PartialEq, Eq, Structural)]
pub enum Field {
    TrackNumber,
    Title,
    Artist,
    Album,
    Year,
    Genre,
}

/// The value of a field in a block.
pub open spec fn field(t: TrackView, f: Field) -> Seq<char> {
    match f {
        Field::TrackNumber => t.track_number,
        Field::Title => t.title,
        Field::Artist => t.artist,
        Field::Album => t.album,
        Field::Year => t.year,
        Field::Genre => t.genre,
    }
}

/// The effective value of a field of `entry`, with `defaults` as fallback.
pub open spec fn effective(entry: TrackView, defaults: TrackView, f: Field) -> Seq<char> {
    or_default(field(entry, f), field(defaults, f))
}

/// The tags to delete from `entry`'s file: its own list where it has one,
/// else the default block's whole list.
pub open spec fn effective_deletes(entry: TrackView, defaults: TrackView) -> Seq<Seq<char>> {
    or_default_seq(entry.delete_tags, defaults.delete_tags)
}

/// A field given in a file block wins over the default block; a field not
/// given there is the default block's value.
pub proof fn lemma_override(entry: TrackView, defaults: TrackView, f: Field)
    ensures
        field(entry, f).len() > 0 ==> effective(entry, defaults, f) == field(entry, f),
        field(entry, f).len() == 0 ==> effective(entry, defaults, f) == field(defaults, f),
        entry.delete_tags.len() > 0 ==> effective_deletes(entry, defaults) == entry.delete_tags,
        entry.delete_tags.len() == 0 ==> effective_deletes(entry, defaults) == defaults.delete_tags,
{
}

/// `value` where it is non-empty, else `default`.
pub fn get_value_or_default<'a>(value: &'a str, default: &'a str) -> (r: &'a str)
    ensures
        r@ == or_default(value@, default@),
{
    if value.is_empty() {
        default
    } else {
        value
    }
}

/// `value` where it is non-empty, else `default`.
pub fn get_vector_value_or_default<'a>(value: &'a Vec<String>, default: &'a Vec<String>) -> (r: &'a Vec<String>)
    ensures
        views(r@) == or_default_seq(views(value@), views(default@)),
{
    if value.len() == 0 {
        default
    } else {
        value
    }
}

/// `s` with every occurrence of `pat`, from left to right and without
/// overlap, replaced by `rep`.
pub open spec fn replace_all(s: Seq<char>, pat: Seq<char>, rep: Seq<char>) -> Seq<char>
    decreases s.len(),
{
    if s.len() == 0 {
        s
    } else if pat.len() > 0 && has_prefix(s, pat) {
        rep + replace_all(s.skip(pat.len() as int), pat, rep)
    } else {
        seq![s[0]] + replace_all(s.skip(1), pat, rep)
    }
}

/// `s` with every occurrence of `pat` replaced by `rep`.
pub fn replace_str(s: &str, pat: &Vec<char>, rep: &str) -> (r: String)
    requires
        pat@.len() > 0,
    ensures
        r@ == replace_all(s@, pat@, rep@),
{
    let cs = chars_of(s);
    let n = cs.len();
    let pl = pat.len();
    let mut out = String::new();
    let mut run: usize = 0;
    let mut i: usize = 0;
    assert(s@.skip(0) =~= s@);
    assert(out@ + s@.subrange(0, 0) =~= Seq::<char>::empty());
    while i < n
        invariant
            cs@ == s@,
            n == cs@.len(),
            pl == pat@.len(),
            pl > 0,
            run <= i <= n,
            out@ + s@.subrange(run as int, i as int) + replace_all(s@.skip(i as int), pat@, rep@)
                == replace_all(s@, pat@, rep@),
        decreases n - i,
    {
        if has_prefix_at(&cs, i, pat) {
            let piece = substring(s, run, i);
            let ghost before = out@;
            out.append(piece.as_str());
            out.append(rep);
            proof {
                let rest = s@.skip(i as int);
                assert(rest.skip(pl as int) =~= s@.skip(i + pl));
                assert(s@.subrange((i + pl) as int, (i + pl) as int) =~= Seq::<char>::empty());
                assert(before + s@.subrange(run as int, i as int) + replace_all(rest, pat@, rep@)
                    =~= out@ + s@.subrange((i + pl) as int, (i + pl) as int) + replace_all(
                    s@.skip(i + pl),
                    pat@,
                    rep@,
                ));
            }
            i = i + pl;
            run = i;
        } else {
            proof {
                let rest = s@.skip(i as int);
                assert(rest.skip(1) =~= s@.skip(i + 1));
                assert(rest[0] == s@[i as int]);
                assert(out@ + s@.subrange(run as int, i as int) + replace_all(rest, pat@, rep@)
                    =~= out@ + s@.subrange(run as int, i + 1) + replace_all(
                    s@.skip(i + 1),
                    pat@,
                    rep@,
                ));
            }
            i = i + 1;
        }
    }
    let piece = substring(s, run, n);
    let ghost before = out@;
    out.append(piece.as_str());
    assert(s@.skip(n as int).len() == 0);
    assert(before + s@.subrange(run as int, n as int) + replace_all(s@.skip(n as int), pat@, rep@)
        =~= out@);
    out
}

/// The placeholder that stands for a field in a rename template.
pub open spec fn placeholder_text(f: Field) -> Seq<char> {
    match f {
        Field::TrackNumber => seq!['{', '{', 't', 'r', 'a', 'c', 'k', '}', '}'],
        Field::Title => seq!['{', '{', 't', 'i', 't', 'l', 'e', '}', '}'],
        Field::Artist => seq!['{', '{', 'a', 'r', 't', 'i', 's', 't', '}', '}'],
        Field::Album => seq!['{', '{', 'a', 'l', 'b', 'u', 'm', '}', '}'],
        Field::Year => seq!['{', '{', 'y', 'e', 'a', 'r', '}', '}'],
        Field::Genre => seq!['{', '{', 'g', 'e', 'n', 'r', 'e', '}', '}'],
    }
}

/// The placeholder that stands for a field in a rename template.
pub fn placeholder(f: Field) -> (r: Vec<char>)
    ensures
        r@ == placeholder_text(f),
        r@.len() > 0,
{
    let r = match f {
        Field::TrackNumber => vec!['{', '{', 't', 'r', 'a', 'c', 'k', '}', '}'],
        Field::Title => vec!['{', '{', 't', 'i', 't', 'l', 'e', '}', '}'],
        Field::Artist => vec!['{', '{', 'a', 'r', 't', 'i', 's', 't', '}', '}'],
        Field::Album => vec!['{', '{', 'a', 'l', 'b', 'u', 'm', '}', '}'],
        Field::Year => vec!['{', '{', 'y', 'e', 'a', 'r', '}', '}'],
        Field::Genre => vec!['{', '{', 'g', 'e', 'n', 'r', 'e', '}', '}'],
    };
    assert(r@ =~= placeholder_text(f));
    r
}

/// `template` with each placeholder replaced, field by field in the order
/// track, title, artist, album, year, genre, by the field's effective value.
pub open spec fn expand(template: Seq<char>, entry: TrackView, defaults: TrackView) -> Seq<char> {
    let s1 = replace_all(template, placeholder_text(Field::TrackNumber), effective(entry, defaults, Field::TrackNumber));
    let s2 = replace_all(s1, placeholder_text(Field::Title), effective(entry, defaults, Field::Title));
    let s3 = replace_all(s2, placeholder_text(Field::Artist), effective(entry, defaults, Field::Artist));
    let s4 = replace_all(s3, placeholder_text(Field::Album), effective(entry, defaults, Field::Album));
    let s5 = replace_all(s4, placeholder_text(Field::Year), effective(entry, defaults, Field::Year));
    replace_all(s5, placeholder_text(Field::Genre), effective(entry, defaults, Field::Genre))
}

/// Expands the placeholders of a rename template for one file block.
pub fn replacements(filename: &String, track: &Track, defaults: &Track) -> (r: String)
    ensures
        r@ == expand(filename@, track@, defaults@),
{
    let s1 = replace_str(
        filename.as_str(),
        &placeholder(Field::TrackNumber),
        get_value_or_default(track.track_number.as_str(), defaults.track_number.as_str()),
    );
    let s2 = replace_str(
        s1.as_str(),
        &placeholder(Field::Title),
        get_value_or_default(track.title.as_str(), defaults.title.as_str()),
    );
    let s3 = replace_str(
        s2.as_str(),
        &placeholder(Field::Artist),
        get_value_or_default(track.artist.as_str(), defaults.artist.as_str()),
    );
    let s4 = replace_str(
        s3.as_str(),
        &placeholder(Field::Album),
        get_value_or_default(track.album.as_str(), defaults.album.as_str()),
    );
    let s5 = replace_str(
        s4.as_str(),
        &placeholder(Field::Year),
        get_value_or_default(track.year.as_str(), defaults.year.as_str()),
    );
    replace_str(
        s5.as_str(),
        &placeholder(Field::Genre),
        get_value_or_default(track.genre.as_str(), defaults.genre.as_str()),
    )
}

} // verus!

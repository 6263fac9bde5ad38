//! What running a script does: for each file block, in order, the commands
//! that edit its tags, delete tags and rename it.
use vstd::prelude::*;
use vstd::string::*;
use crate::resolve::{
    Field, effective, effective_deletes, expand, get_value_or_default,
    get_vector_value_or_default, or_default, replacements,
};
use crate::script::{Track, TrackView, empty_track, track_views};
use crate::text::views;
use crate::validate::{ValidationError, ValidationErrorView, validate_script, validation};

verus! {

/// One run of an external program.
#[derive(Debug, Clone)]
pub struct Invocation {
    pub program: String,
    pub args: Vec<String>,
}

/// The mathematical value of an [`Invocation`].
pub struct InvocationView {
    pub program: Seq<char>,
    pub args: Seq<Seq<char>>,
}

impl View for Invocation {
    type V = InvocationView;

    open spec fn view(&self) -> InvocationView {
        InvocationView { program: self.program@, args: views(self.args@) }
    }
}

/// One step of a run.
#[derive(Debug, Clone)]
pub enum Action {
    /// Report that work on this source path begins.
    Progress(String),
    /// Run a program; a failure ends the run.
    Run(Invocation),
}

/// The mathematical value of an [`Action`].
pub enum ActionView {
    Progress(Seq<char>),
    Run(InvocationView),
}

impl View for Action {
    type V = ActionView;

    open spec fn view(&self) -> ActionView {
        match self {
            Action::Progress(p) => ActionView::Progress(p@),
            Action::Run(i) => ActionView::Run(i@),
        }
    }
}

/// The views of a sequence of invocations.
pub open spec fn invocation_views(v: Seq<Invocation>) -> Seq<InvocationView> {
    v.map_values(|i: Invocation| i@)
}

/// The views of a sequence of actions.
pub open spec fn action_views(v: Seq<Action>) -> Seq<ActionView> {
    v.map_values(|a: Action| a@)
}

/// The program that edits tags.
pub open spec fn tag_editor() -> Seq<char> {
    "editag"@
}

/// The program that moves a file.
pub open spec fn mover() -> Seq<char> {
    "mv"@
}

/// The tag-editor run that writes a file block's tags: its own track number
/// and title, the effective artist, album, year and genre, then its path.
pub open spec fn edit_invocation(e: TrackView, d: TrackView) -> InvocationView {
    InvocationView {
        program: tag_editor(),
        args: seq![
            "--track-number"@,
            e.track_number,
            "--title"@,
            e.title,
            "--artist"@,
            effective(e, d, Field::Artist),
            "--album"@,
            effective(e, d, Field::Album),
            "--year"@,
            effective(e, d, Field::Year),
            "--genre"@,
            effective(e, d, Field::Genre),
            e.original_filename,
        ],
    }
}

/// The tag-editor run that deletes one tag from a file.
pub open spec fn delete_invocation(tag: Seq<char>, path: Seq<char>) -> InvocationView {
    InvocationView { program: tag_editor(), args: seq!["--delete-tag"@, tag, path] }
}

/// One delete run per effective tag to delete, in order.
pub open spec fn delete_invocations(e: TrackView, d: TrackView) -> Seq<InvocationView> {
    effective_deletes(e, d).map_values(|t: Seq<char>| delete_invocation(t, e.original_filename))
}

/// The move that renames a file, unless its expanded template is empty.
pub open spec fn rename_invocation(e: TrackView, d: TrackView) -> Option<InvocationView> {
    let template = or_default(e.new_filename, d.new_filename);
    let target = expand(template, e, d);
    if template.len() == 0 || target.len() == 0 {
        None
    } else {
        Some(InvocationView { program: mover(), args: seq![e.original_filename, target] })
    }
}

fn push_str(v: &mut Vec<String>, s: &str)
    ensures
        views(final(v)@) == views(old(v)@).push(s@),
{
    v.push(String::from_str(s));
    assert(views(v@) =~= views(old(v)@).push(s@));
}

/// The run that writes the tags of a file block.
pub fn edit_tags(track: &Track, defaults: &Track) -> (r: Invocation)
    ensures
        r@ == edit_invocation(track@, defaults@),
{
    let mut args: Vec<String> = Vec::new();
    push_str(&mut args, "--track-number");
    push_str(&mut args, track.track_number.as_str());
    push_str(&mut args, "--title");
    push_str(&mut args, track.title.as_str());
    push_str(&mut args, "--artist");
    push_str(&mut args, get_value_or_default(track.artist.as_str(), defaults.artist.as_str()));
    push_str(&mut args, "--album");
    push_str(&mut args, get_value_or_default(track.album.as_str(), defaults.album.as_str()));
    push_str(&mut args, "--year");
    push_str(&mut args, get_value_or_default(track.year.as_str(), defaults.year.as_str()));
    push_str(&mut args, "--genre");
    push_str(&mut args, get_value_or_default(track.genre.as_str(), defaults.genre.as_str()));
    push_str(&mut args, track.original_filename.as_str());
    let r = Invocation { program: String::from_str("editag"), args };
    assert(r@.args =~= edit_invocation(track@, defaults@).args);
    r
}

/// The runs that delete the effective tags to delete from a file block's file.
pub fn delete_tags(track: &Track, defaults: &Track) -> (r: Vec<Invocation>)
    ensures
        invocation_views(r@) == delete_invocations(track@, defaults@),
{
    let tags = get_vector_value_or_default(&track.delete_tags, &defaults.delete_tags);
    let mut out: Vec<Invocation> = Vec::new();
    let mut i: usize = 0;
    while i < tags.len()
        invariant
            views(tags@) == effective_deletes(track@, defaults@),
            i <= tags@.len(),
            invocation_views(out@) =~= delete_invocations(track@, defaults@).take(i as int),
        decreases tags@.len() - i,
    {
        let mut args: Vec<String> = Vec::new();
        push_str(&mut args, "--delete-tag");
        push_str(&mut args, tags[i].as_str());
        push_str(&mut args, track.original_filename.as_str());
        let inv = Invocation { program: String::from_str("editag"), args };
        assert(inv@.args =~= delete_invocation(tags@[i as int]@, track@.original_filename).args);
        assert(views(tags@)[i as int] == tags@[i as int]@);
        assert(inv@ == delete_invocations(track@, defaults@)[i as int]);
        let ghost before = invocation_views(out@);
        out.push(inv);
        assert(invocation_views(out@) =~= before.push(inv@));
        assert(invocation_views(out@) =~= delete_invocations(track@, defaults@).take(i + 1));
        i = i + 1;
    }
    assert(delete_invocations(track@, defaults@).take(i as int) =~= delete_invocations(track@, defaults@));
    out
}

/// The move that renames a file block's file, if its effective rename
/// template expands to a non-empty name.
pub fn rename_file(track: &Track, defaults: &Track) -> (r: Option<Invocation>)
    ensures
        match r {
            Some(i) => rename_invocation(track@, defaults@) == Some(i@),
            None => rename_invocation(track@, defaults@) is None,
        },
{
    let template = if !track.new_filename.as_str().is_empty() {
        &track.new_filename
    } else if !defaults.new_filename.as_str().is_empty() {
        &defaults.new_filename
    } else {
        return None;
    };
    let target = replacements(template, track, defaults);
    if target.as_str().is_empty() {
        return None;
    }
    let mut args: Vec<String> = Vec::new();
    push_str(&mut args, track.original_filename.as_str());
    push_str(&mut args, target.as_str());
    let r = Invocation { program: String::from_str("mv"), args };
    assert(r@.args =~= seq![track@.original_filename, target@]);
    Some(r)
}

/// The steps for one file block: report its path, write its tags, delete
/// tags, then rename it when a name results.
pub open spec fn track_plan(e: TrackView, d: TrackView) -> Seq<ActionView> {
    seq![ActionView::Progress(e.original_filename), ActionView::Run(edit_invocation(e, d))]
        + delete_invocations(e, d).map_values(|i: InvocationView| ActionView::Run(i))
        + match rename_invocation(e, d) {
        Some(m) => seq![ActionView::Run(m)],
        None => Seq::empty(),
    }
}

/// The default block of a script (an empty one if the first block is not
/// a default block).
pub open spec fn defaults_of(ts: Seq<TrackView>) -> TrackView {
    if ts.len() > 0 && ts[0].is_default {
        ts[0]
    } else {
        empty_track(true)
    }
}

/// The steps for the file blocks of `ts[i..]`, in order.
pub open spec fn plan_from(ts: Seq<TrackView>, i: int, d: TrackView) -> Seq<ActionView>
    decreases ts.len() - i,
{
    if i < 0 || i >= ts.len() {
        Seq::empty()
    } else if ts[i].is_default {
        plan_from(ts, i + 1, d)
    } else {
        track_plan(ts[i], d) + plan_from(ts, i + 1, d)
    }
}

/// The steps of running a whole script.
pub open spec fn script_plan(ts: Seq<TrackView>) -> Seq<ActionView> {
    plan_from(ts, 0, defaults_of(ts))
}

/// The steps for one file block.
pub fn process_track(track: &Track, defaults: &Track) -> (r: Vec<Action>)
    ensures
        action_views(r@) == track_plan(track@, defaults@),
{
    let mut out: Vec<Action> = Vec::new();
    out.push(Action::Progress(track.original_filename.clone()));
    out.push(Action::Run(edit_tags(track, defaults)));
    let deletes = delete_tags(track, defaults);
    let ghost dv = invocation_views(deletes@);
    let ghost head = action_views(out@);
    for inv in it: deletes.into_iter()
        invariant
            dv == delete_invocations(track@, defaults@),
            it.seq() == deletes@,
            dv == invocation_views(it.seq()),
            action_views(out@) =~= head + dv.map_values(|v: InvocationView| ActionView::Run(v)).take(
                it.index() as int,
            ),
    {
        let ghost before = action_views(out@);
        let ghost k = it.index() as int;
        assert(inv == it.seq()[k]);
        out.push(Action::Run(inv));
        assert(action_views(out@) =~= before.push(ActionView::Run(dv[k])));
        assert(dv.map_values(|v: InvocationView| ActionView::Run(v)).take(k + 1) =~= dv.map_values(
            |v: InvocationView| ActionView::Run(v),
        ).take(k).push(ActionView::Run(dv[k])));
    }
    assert(dv.map_values(|v: InvocationView| ActionView::Run(v)).take(dv.len() as int) =~= dv.map_values(
        |v: InvocationView| ActionView::Run(v),
    ));
    assert(head =~= seq![
        ActionView::Progress(track@.original_filename),
        ActionView::Run(edit_invocation(track@, defaults@)),
    ]);
    let ghost before = action_views(out@);
    match rename_file(track, defaults) {
        Some(m) => {
            out.push(Action::Run(m));
            assert(action_views(out@) =~= before.push(ActionView::Run(m@)));
        },
        None => {},
    }
    assert(action_views(out@) =~= track_plan(track@, defaults@));
    out
}

/// The steps of running a script, file block by file block in order.
pub fn process_script(tracks: &Vec<Track>) -> (r: Vec<Action>)
    ensures
        action_views(r@) == script_plan(track_views(tracks@)),
{
    let ghost ts = track_views(tracks@);
    let fallback = Track::new(true);
    let defaults: &Track = if tracks.len() > 0 && tracks[0].is_default {
        &tracks[0]
    } else {
        &fallback
    };
    assert(defaults@ == defaults_of(ts));
    let mut out: Vec<Action> = Vec::new();
    let mut i: usize = 0;
    while i < tracks.len()
        invariant
            ts == track_views(tracks@),
            defaults@ == defaults_of(ts),
            i <= tracks@.len(),
            action_views(out@) + plan_from(ts, i as int, defaults_of(ts)) == script_plan(ts),
        decreases tracks@.len() - i,
    {
        let track = &tracks[i];
        assert(ts[i as int] == track@);
        if !track.is_default {
            let mut steps = process_track(track, defaults);
            let ghost before = action_views(out@);
            let ghost added = action_views(steps@);
            out.append(&mut steps);
            assert(action_views(out@) =~= before + added);
            assert(before + (added + plan_from(ts, i + 1, defaults_of(ts))) =~= action_views(out@)
                + plan_from(ts, i + 1, defaults_of(ts)));
        }
        i = i + 1;
    }
    assert(action_views(out@) + plan_from(ts, i as int, defaults_of(ts)) =~= action_views(out@));
    out
}

/// Checks a parsed script and, unless only a check is asked for, plans its
/// run. `exists[i]` tells whether the path of `tracks[i]` exists. A failed
/// check yields no step at all; a check-only run yields no step either.
pub fn prepare_run(tracks: &Vec<Track>, exists: &Vec<bool>, check: bool) -> (r: Result<
    Vec<Action>,
    ValidationError,
>)
    requires
        exists@.len() == tracks@.len(),
    ensures
        match r {
            Ok(p) => {
                &&& validation(track_views(tracks@), exists@) == Ok::<(), ValidationErrorView>(())
                &&& action_views(p@) == if check {
                    Seq::<ActionView>::empty()
                } else {
                    script_plan(track_views(tracks@))
                }
            },
            Err(e) => validation(track_views(tracks@), exists@) == Err::<(), ValidationErrorView>(e@),
        },
{
    match validate_script(tracks, exists) {
        Err(e) => Err(e),
        Ok(()) => {
            if check {
                let p: Vec<Action> = Vec::new();
                assert(action_views(p@) =~= Seq::<ActionView>::empty());
                Ok(p)
            } else {
                Ok(process_script(tracks))
            }
        },
    }
}

} // verus!

//! A starting script for a directory of audio files.
use vstd::prelude::*;
use vstd::string::*;
use crate::text::chars_of;

verus! {

/// Whether `s` ends with `p`.
pub open spec fn has_suffix(s: Seq<char>, p: Seq<char>) -> bool {
    p.len() <= s.len() && s.subrange(s.len() - p.len(), s.len() as int) == p
}

/// The default block of a new script, with placeholders to fill in.
pub open spec fn scaffold_header() -> Seq<char> {
    "new_filename={{track}} {{title}}.mp3\nartist=TODO\nalbum=TODO\nyear=TODO\ngenre=TODO\ndelete_tag=TXXX\ndelete_tag=TPE2\ndelete_tag=TSSE\n"@
}

/// The block of a new script for one file.
pub open spec fn scaffold_block(name: Seq<char>) -> Seq<char> {
    "\nfile="@ + name + "\ntrack=TODO\ntitle=TODO\n"@
}

/// The blocks for the `.mp3` files among `names[..i]`, in order.
pub open spec fn scaffold_blocks(names: Seq<Seq<char>>, i: int) -> Seq<char>
    decreases i,
{
    if i <= 0 || i > names.len() {
        Seq::empty()
    } else {
        scaffold_blocks(names, i - 1) + if has_suffix(names[i - 1], ".mp3"@) {
            scaffold_block(names[i - 1])
        } else {
            Seq::empty()
        }
    }
}

/// Whether `s` ends with the characters `p`.
fn ends_with_chars(s: &str, p: &Vec<char>) -> (r: bool)
    ensures
        r == has_suffix(s@, p@),
{
    let cs = chars_of(s);
    let n = cs.len();
    let pl = p.len();
    if pl > n {
        return false;
    }
    let start = n - pl;
    let mut j: usize = 0;
    while j < pl
        invariant
            cs@ == s@,
            n == cs@.len(),
            pl == p@.len(),
            start == n - pl,
            j <= pl,
            forall|m: int| 0 <= m < j ==> cs@[start + m] == p@[m],
        decreases pl - j,
    {
        if cs[start + j] != p[j] {
            assert(s@.subrange(start as int, n as int)[j as int] != p@[j as int]);
            return false;
        }
        j = j + 1;
    }
    assert(s@.subrange(start as int, n as int) =~= p@);
    true
}

/// The text of a new script: a default block with placeholders, then one
/// block per name, in order, that ends with `.mp3`.
pub fn new_script(file_names: &Vec<String>) -> (r: String)
    ensures
        r@ == scaffold_header() + scaffold_blocks(file_names@.map_values(|n: String| n@), file_names@.len() as int),
{
    let ghost names = file_names@.map_values(|n: String| n@);
    let suffix = chars_of(".mp3");
    let mut out = String::from_str(
        "new_filename={{track}} {{title}}.mp3\nartist=TODO\nalbum=TODO\nyear=TODO\ngenre=TODO\ndelete_tag=TXXX\ndelete_tag=TPE2\ndelete_tag=TSSE\n",
    );
    let mut i: usize = 0;
    while i < file_names.len()
        invariant
            names == file_names@.map_values(|n: String| n@),
            suffix@ == ".mp3"@,
            i <= file_names@.len(),
            out@ == scaffold_header() + scaffold_blocks(names, i as int),
        decreases file_names@.len() - i,
    {
        let name = file_names[i].as_str();
        assert(names[i as int] == name@);
        if ends_with_chars(name, &suffix) {
            let ghost before = out@;
            out.append("\nfile=");
            out.append(name);
            out.append("\ntrack=TODO\ntitle=TODO\n");
            assert(out@ =~= before + scaffold_block(name@));
            assert(scaffold_header() + scaffold_blocks(names, i + 1) =~= before + scaffold_block(name@));
        } else {
            assert(scaffold_header() + scaffold_blocks(names, i + 1) =~= out@);
        }
        i = i + 1;
    }
    out
}

} // verus!

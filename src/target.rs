//! Where the finished video goes: one merged file, or one file per segment in a
//! directory.
use vstd::prelude::*;
use crate::timecode::{digits, push_decimal};

verus! {

/// The destination of an export.
pub enum OutputTarget {
    /// All segments, concatenated into the file at this path.
    Merge(String),
    /// One file per segment in `dir`; the k-th segment takes `names[k]`, or a
    /// generated name where the list is shorter.
    Split { dir: String, names: Vec<String> },
}

/// The views of a list of strings.
pub open spec fn views(v: Seq<String>) -> Seq<Seq<char>> {
    v.map_values(|f: String| f@)
}

/// `s` holds no field separator `|`.
pub open spec fn no_separator(s: Seq<char>) -> bool {
    forall|k: int| 0 <= k < s.len() ==> s[k] != '|'
}

/// The fields joined by `|`.
pub open spec fn join_fields(fs: Seq<Seq<char>>) -> Seq<char>
    decreases fs.len(),
{
    if fs.len() == 0 {
        Seq::empty()
    } else if fs.len() == 1 {
        fs[0]
    } else {
        join_fields(fs.drop_last()) + seq!['|'] + fs.last()
    }
}

/// `fs` are the `|`-separated fields of `s`.
pub open spec fn fields_of(s: Seq<char>, fs: Seq<Seq<char>>) -> bool {
    &&& fs.len() >= 1
    &&& join_fields(fs) == s
    &&& forall|k: int| 0 <= k < fs.len() ==> no_separator(#[trigger] fs[k])
}

proof fn lemma_join_push_char(fs: Seq<Seq<char>>, x: Seq<char>, c: char)
    ensures
        join_fields(fs.push(x.push(c))) == join_fields(fs.push(x)).push(c),
{
    assert(fs.push(x.push(c)).drop_last() =~= fs);
    assert(fs.push(x).drop_last() =~= fs);
    if fs.len() > 0 {
        assert(join_fields(fs.push(x.push(c))) =~= join_fields(fs.push(x)).push(c));
    }
}

proof fn lemma_join_push_empty(fs: Seq<Seq<char>>, x: Seq<char>)
    ensures
        join_fields(fs.push(x).push(Seq::empty())) == join_fields(fs.push(x)).push('|'),
{
    assert(fs.push(x).push(Seq::<char>::empty()).drop_last() =~= fs.push(x));
    assert(join_fields(fs.push(x).push(Seq::empty())) =~= join_fields(fs.push(x)).push('|'));
}

/// Splits `s` at every `|`.
pub fn split_fields(s: &str) -> (r: Vec<String>)
    ensures
        fields_of(s@, views(r@)),
{
    let n = s.unicode_len();
    let mut fields: Vec<String> = Vec::new();
    let mut start: usize = 0;
    let mut i: usize = 0;
    assert(views(fields@) =~= Seq::<Seq<char>>::empty());
    assert(s@.subrange(0, 0) =~= Seq::<char>::empty());
    assert(views(fields@).push(s@.subrange(0, 0)) =~= seq![Seq::<char>::empty()]);
    while i < n
        invariant
            n == s@.len(),
            start <= i <= n,
            join_fields(views(fields@).push(s@.subrange(start as int, i as int)))
                == s@.subrange(0, i as int),
            forall|k: int| 0 <= k < fields.len() ==> no_separator(#[trigger] views(fields@)[k]),
            no_separator(s@.subrange(start as int, i as int)),
        decreases n - i,
    {
        let c = s.get_char(i);
        let ghost fs = views(fields@);
        let ghost x = s@.subrange(start as int, i as int);
        if c == '|' {
            let f = String::from_str(s.substring_char(start, i));
            fields.push(f);
            start = i + 1;
            i = i + 1;
            proof {
                assert(views(fields@) =~= fs.push(x));
                assert(s@.subrange(start as int, i as int) =~= Seq::<char>::empty());
                lemma_join_push_empty(fs, x);
                assert(s@.subrange(0, i as int) =~= s@.subrange(0, i - 1).push('|'));
            }
        } else {
            i = i + 1;
            proof {
                assert(s@.subrange(start as int, i as int) =~= x.push(c));
                lemma_join_push_char(fs, x, c);
                assert(s@.subrange(0, i as int) =~= s@.subrange(0, i - 1).push(c));
            }
        }
    }
    let last = String::from_str(s.substring_char(start, n));
    let ghost fs = views(fields@);
    fields.push(last);
    assert(views(fields@) =~= fs.push(s@.subrange(start as int, n as int)));
    assert(s@.subrange(0, n as int) =~= s@);
    fields
}

/// The generated file name `video_<n>.mp4`.
pub open spec fn default_name(n: nat) -> Seq<char> {
    seq!['v', 'i', 'd', 'e', 'o', '_'] + digits(n) + seq!['.', 'm', 'p', '4']
}

/// The file name of the k-th segment (from 0) in split mode: the supplied name,
/// or `video_<k+1>.mp4` where none was supplied.
pub open spec fn output_name(names: Seq<Seq<char>>, k: nat) -> Seq<char> {
    if k < names.len() { names[k as int] } else { default_name(k + 1) }
}

/// The file name of the k-th segment (from 0) in split mode.
pub fn file_name_for(names: &Vec<String>, k: usize) -> (r: String)
    requires
        k < usize::MAX,
    ensures
        r@ == output_name(views(names@), k as nat),
{
    if k < names.len() {
        names[k].clone()
    } else {
        proof {
            reveal_strlit("video_");
            reveal_strlit(".mp4");
        }
        let mut s = String::from_str("video_");
        push_decimal(&mut s, (k + 1) as u64);
        s.append(".mp4");
        assert(s@ =~= default_name((k + 1) as nat));
        s
    }
}

/// Reads the caller's output value: in merge mode a file path; otherwise a
/// directory followed by file names, all separated by `|`.
pub fn parse_output_target(output: &str, merge: bool) -> (r: OutputTarget)
    ensures
        merge ==> (r matches OutputTarget::Merge(p) && p@ == output@),
        !merge ==> (r matches OutputTarget::Split { dir, names }
            && fields_of(output@, seq![dir@] + views(names@))),
{
    if merge {
        OutputTarget::Merge(String::from_str(output))
    } else {
        let mut fields = split_fields(output);
        let ghost all = views(fields@);
        let dir = fields.remove(0);
        assert(seq![dir@] + views(fields@) =~= all);
        OutputTarget::Split { dir, names: fields }
    }
}

/// `dir` and `name` joined by `/`, with no second separator where `dir` is
/// empty or already ends in one.
pub open spec fn joined(dir: Seq<char>, name: Seq<char>) -> Seq<char> {
    if dir.len() == 0 || dir.last() == '/' || dir.last() == '\\' {
        dir + name
    } else {
        dir + seq!['/'] + name
    }
}

/// The path of the file `name` inside the directory `dir`.
pub fn join_path(dir: &str, name: &str) -> (r: String)
    ensures
        r@ == joined(dir@, name@),
{
    proof { reveal_strlit("/"); }
    let n = dir.unicode_len();
    let mut s = String::from_str(dir);
    if n > 0 {
        let c = dir.get_char(n - 1);
        if c != '/' && c != '\\' {
            s.append("/");
        }
    }
    s.append(name);
    assert(s@ =~= joined(dir@, name@));
    s
}

} // verus!

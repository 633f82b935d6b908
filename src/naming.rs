//! The output file name: the input's file stem, a `.watermark` tag, then the
//! input's extension.
use vstd::prelude::*;
use vstd::string::*;
use crate::error::RunError;

verus! {

/// What `std::path::Path::file_name` gives for a path.
pub uninterp spec fn file_name_of(path: Seq<char>) -> Option<Seq<char>>;

/// Relies on `std::path::Path::file_name`: the final component of the path,
/// or `None` when the path ends in `..` or has no final component. The input
/// is UTF-8, so the lossy conversion of the name changes nothing.
#[verifier::external_body]
fn path_file_name(input: &str) -> (r: Option<String>)
    ensures
        r is Some <==> file_name_of(input@) is Some,
        r matches Some(n) ==> file_name_of(input@) == Some(n@),
{
    std::path::Path::new(input).file_name().map(|n| n.to_string_lossy().into_owned())
}

/// The position of the last `.` of `name`, or -1 when it has none.
pub open spec fn last_dot(name: Seq<char>) -> int
    decreases name.len(),
{
    if name.len() == 0 {
        -1
    } else if name.last() == '.' {
        name.len() - 1
    } else {
        last_dot(name.drop_last())
    }
}

/// The stem of a file name: all of it when it has no `.` or only a leading
/// one, else what stands before the last `.`.
pub open spec fn stem_of(name: Seq<char>) -> Seq<char> {
    if last_dot(name) <= 0 {
        name
    } else {
        name.take(last_dot(name))
    }
}

/// The extension of a file name: none when it has no `.` or only a leading
/// one, else what stands after the last `.`.
pub open spec fn extension_of(name: Seq<char>) -> Option<Seq<char>> {
    if last_dot(name) <= 0 {
        None
    } else {
        Some(name.skip(last_dot(name) + 1))
    }
}

/// The output name for an input file named `name`.
pub open spec fn watermarked(name: Seq<char>) -> Seq<char> {
    match extension_of(name) {
        Some(ext) => stem_of(name) + ".watermark."@ + ext,
        None => stem_of(name) + ".watermark"@,
    }
}

proof fn lemma_last_dot(name: Seq<char>)
    ensures
        -1 <= last_dot(name) < name.len(),
        last_dot(name) >= 0 ==> name[last_dot(name)] == '.',
        forall|j: int| last_dot(name) < j < name.len() ==> name[j] != '.',
    decreases name.len(),
{
    if name.len() > 0 && name.last() != '.' {
        let p = name.drop_last();
        lemma_last_dot(p);
        assert forall|j: int| last_dot(name) < j < name.len() implies name[j] != '.' by {
            if j < p.len() {
                assert(name[j] == p[j]);
            }
        }
    }
}

fn find_last_dot(name: &Vec<char>) -> (r: Option<usize>)
    ensures
        r is None <==> last_dot(name@) == -1,
        r matches Some(i) ==> i == last_dot(name@),
{
    let mut i: usize = name.len();
    assert(name@.take(i as int) =~= name@);
    while i > 0
        invariant
            i <= name@.len(),
            last_dot(name@) == last_dot(name@.take(i as int)),
        decreases i,
    {
        assert(name@.take(i as int).drop_last() =~= name@.take(i - 1));
        if name[i - 1] == '.' {
            return Some(i - 1);
        }
        i = i - 1;
    }
    None
}

/// The output name for an input file named `name`: `clip.mp4` gives
/// `clip.watermark.mp4`, `clip` gives `clip.watermark`.
pub fn watermarked_name(name: &str) -> (r: String)
    ensures
        r@ == watermarked(name@),
{
    let chars = crate::media::chars_of(name);
    proof {
        assert(name@.take(name@.len() as int) =~= name@);
        lemma_last_dot(name@);
    }
    let dot = find_last_dot(&chars);
    match dot {
        Some(i) if i > 0 => {
            assert(chars@ == name@);
            assert(i < chars@.len());
            let stem = name.substring_char(0, i);
            let ext = name.substring_char(i + 1, chars.len());
            let mut out = String::from_str(stem);
            out.append(".watermark.");
            out.append(ext);
            proof {
                assert(stem@ =~= name@.take(i as int));
                assert(ext@ =~= name@.skip(i + 1));
            }
            out
        },
        _ => {
            let mut out = String::from_str(name);
            out.append(".watermark");
            out
        },
    }
}

/// The output file name for an input path. A path with no final file-name
/// component (a root, or one ending in `..`) is refused.
pub fn output_file_name(input: &str) -> (r: Result<String, RunError>)
    ensures
        file_name_of(input@) is None <==> r is Err,
        r matches Err(e) ==> e == RunError::NoFileName,
        r matches Ok(s) ==> s@ == watermarked(file_name_of(input@)->0),
{
    match path_file_name(input) {
        None => Err(RunError::NoFileName),
        Some(n) => Ok(watermarked_name(n.as_str())),
    }
}

} // verus!

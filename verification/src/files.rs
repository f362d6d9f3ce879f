use vstd::prelude::*;
use vstd::string::{StrSliceExecFns, StringExecFns};

verus! {

/// What the path of every video device under the directory `dir` starts
/// with.
pub open spec fn video_prefix(dir: Seq<char>) -> Seq<char> {
    dir + "/video"@
}

/// Whether `path` names a video device under the directory `dir`.
pub open spec fn is_video_path(dir: Seq<char>, path: Seq<char>) -> bool {
    video_prefix(dir).is_prefix_of(path)
}

/// The texts of `paths`, each as its characters.
pub open spec fn paths_view(paths: Seq<String>) -> Seq<Seq<char>> {
    Seq::new(paths.len(), |i: int| paths[i]@)
}

/// Whether `path` names a video device under the directory `dir`.
pub fn is_video_device(dir: &str, path: &str) -> (video: bool)
    ensures
        video == is_video_path(dir@, path@),
{
    let mut prefix = String::from_str(dir);
    prefix.append("/video");
    let prefix_len = prefix.as_str().unicode_len();
    let path_len = path.unicode_len();
    if path_len < prefix_len {
        return false;
    }
    let mut i: usize = 0;
    while i < prefix_len
        invariant
            i <= prefix_len,
            prefix_len == prefix@.len(),
            prefix_len <= path@.len(),
            prefix@ == video_prefix(dir@),
            forall|j: int| 0 <= j < i ==> prefix@[j] == path@[j],
        decreases prefix_len - i,
    {
        if prefix.as_str().get_char(i) != path.get_char(i) {
            assert(path@.subrange(0, prefix@.len() as int)[i as int] != prefix@[i as int]);
            return false;
        }
        i = i + 1;
    }
    assert(prefix@ =~= path@.subrange(0, prefix@.len() as int));
    true
}

/// Of the paths `entries` found in the directory `dir`, those that name a
/// video device, in the order in which they were found.
pub fn _get_video_devices(dir: &str, entries: &Vec<String>) -> (video_files: Vec<String>)
    ensures
        paths_view(video_files@) == paths_view(entries@).filter(
            |path: Seq<char>| is_video_path(dir@, path),
        ),
{
    let ghost wanted = |path: Seq<char>| is_video_path(dir@, path);
    let ghost found = paths_view(entries@);
    let mut video_files: Vec<String> = Vec::new();
    let mut i: usize = 0;
    proof {
        reveal(Seq::filter);
        assert(found.take(0) =~= Seq::<Seq<char>>::empty());
        assert(paths_view(video_files@) =~= Seq::<Seq<char>>::empty());
    }
    while i < entries.len()
        invariant
            i <= entries@.len(),
            found == paths_view(entries@),
            wanted == (|path: Seq<char>| is_video_path(dir@, path)),
            paths_view(video_files@) == found.take(i as int).filter(wanted),
        decreases entries@.len() - i,
    {
        let ghost kept = paths_view(video_files@);
        proof {
            assert(found.take(i as int + 1) =~= found.take(i as int).push(entries@[i as int]@));
            found.take(i as int).lemma_filter_push(entries@[i as int]@, wanted);
        }
        if is_video_device(dir, entries[i].as_str()) {
            video_files.push(entries[i].clone());
            assert(paths_view(video_files@) =~= kept.push(entries@[i as int]@));
        }
        i = i + 1;
    }
    proof {
        assert(found.take(i as int) =~= found);
    }
    video_files
}

} // verus!

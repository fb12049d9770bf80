//! The address blocklist: the loaded memory segments of every shared library
//! whose name contains one of the configured substrings.
use vstd::prelude::*;

use findshlibs::{Segment, SharedLibrary, TargetSharedLibrary};
use vstd::string::StringSliceAdditionalSpecFns;

verus! {

/// A shared library loaded in this process, as the blocklist sees it.
pub struct LoadedLibrary {
    /// The library's name as UTF-8 bytes, `None` when it is not valid UTF-8.
    pub name: Option<Vec<u8>>,
    /// Each loaded segment as its actual start address and its length.
    pub segments: Vec<(usize, usize)>,
}

/// Relies on `findshlibs::TargetSharedLibrary::each`: the libraries loaded
/// now, with their names and loaded segments. What they are depends on the
/// process, so nothing is stated of them.
#[verifier::external_body]
fn loaded_libraries() -> (r: Vec<LoadedLibrary>) {
    let mut libs = Vec::new();
    TargetSharedLibrary::each(|shlib| {
        let name = shlib.name().to_str().map(|s| s.as_bytes().to_vec());
        let segments = shlib.segments().map(
            |seg| (seg.actual_virtual_memory_address(shlib).0, seg.len()),
        ).collect();
        libs.push(LoadedLibrary { name, segments });
    });
    libs
}

/// Whether `needle` occurs in `hay` at position `i`.
pub open spec fn occurs_at(hay: Seq<u8>, needle: Seq<u8>, i: int) -> bool {
    0 <= i && i + needle.len() <= hay.len() && hay.subrange(i, i + needle.len()) == needle
}

/// Whether `needle` occurs anywhere in `hay` (the empty needle always does).
pub open spec fn contains_bytes(hay: Seq<u8>, needle: Seq<u8>) -> bool {
    exists|i: int| occurs_at(hay, needle, i)
}

/// The configured substrings, as bytes.
pub open spec fn patterns(blocklist: Seq<&str>) -> Seq<Seq<u8>> {
    blocklist.map_values(|s: &str| s.spec_bytes())
}

/// Whether a library is blocked: its name is known and contains one of the
/// patterns.
pub open spec fn is_blocked(lib: LoadedLibrary, pats: Seq<Seq<u8>>) -> bool {
    lib.name is Some && exists|j: int|
        0 <= j < pats.len() && contains_bytes(lib.name->Some_0@, #[trigger] pats[j])
}

/// The address range `(start, end)` of a segment given by start and length;
/// the end saturates at the top of the address space.
pub open spec fn segment_range(seg: (usize, usize)) -> (usize, usize) {
    (
        seg.0,
        if seg.0 + seg.1 <= usize::MAX {
            (seg.0 + seg.1) as usize
        } else {
            usize::MAX
        },
    )
}

/// The ranges that a library adds to the blocklist.
pub open spec fn library_ranges(lib: LoadedLibrary, pats: Seq<Seq<u8>>) -> Seq<(usize, usize)> {
    if is_blocked(lib, pats) {
        lib.segments@.map_values(|seg: (usize, usize)| segment_range(seg))
    } else {
        Seq::empty()
    }
}

/// The blocklist of `libs`: the ranges of each blocked library, in order.
pub open spec fn blocked_ranges(libs: Seq<LoadedLibrary>, pats: Seq<Seq<u8>>) -> Seq<
    (usize, usize),
>
    decreases libs.len(),
{
    if libs.len() == 0 {
        Seq::empty()
    } else {
        blocked_ranges(libs.drop_last(), pats).add(library_ranges(libs.last(), pats))
    }
}

fn occurs_at_exec(hay: &[u8], needle: &[u8], i: usize) -> (r: bool)
    requires
        i + needle@.len() <= hay@.len(),
    ensures
        r == occurs_at(hay@, needle@, i as int),
{
    let hay_len: usize = hay.len();
    let mut j: usize = 0;
    while j < needle.len()
        invariant
            i + needle@.len() <= hay@.len() == hay_len,
            0 <= j <= needle@.len(),
            forall|k: int| 0 <= k < j ==> hay@[i + k] == needle@[k],
        decreases needle@.len() - j,
    {
        if hay[i + j] != needle[j] {
            assert(hay@.subrange(i as int, i + needle@.len())[j as int] != needle@[j as int]);
            return false;
        }
        j = j + 1;
    }
    assert(hay@.subrange(i as int, i + needle@.len()) =~= needle@);
    true
}

/// Whether `needle` occurs in `hay`.
pub fn contains(hay: &[u8], needle: &[u8]) -> (r: bool)
    ensures
        r == contains_bytes(hay@, needle@),
{
    if needle.len() > hay.len() {
        return false;
    }
    let last: usize = hay.len() - needle.len();
    let mut i: usize = 0;
    loop
        invariant
            last + needle@.len() == hay@.len(),
            0 <= i <= last,
            forall|k: int| 0 <= k < i ==> !occurs_at(hay@, needle@, k),
        decreases last - i,
    {
        if occurs_at_exec(hay, needle, i) {
            return true;
        }
        if i == last {
            return false;
        }
        i = i + 1;
    }
}

fn library_is_blocked(lib: &LoadedLibrary, blocklist: &[&str]) -> (r: bool)
    ensures
        r == is_blocked(*lib, patterns(blocklist@)),
{
    match &lib.name {
        None => false,
        Some(name) => {
            let mut j: usize = 0;
            while j < blocklist.len()
                invariant
                    lib.name == Some(*name),
                    0 <= j <= blocklist@.len(),
                    forall|k: int|
                        0 <= k < j ==> !contains_bytes(name@, #[trigger] patterns(blocklist@)[k]),
                decreases blocklist@.len() - j,
            {
                let pat: &str = blocklist[j];
                if contains(name.as_slice(), pat.as_bytes()) {
                    assert(contains_bytes(name@, patterns(blocklist@)[j as int]));
                    return true;
                }
                j = j + 1;
            }
            false
        },
    }
}

/// The blocklist that `blocklist` gives over `libs`: every segment of each
/// library whose name contains one of the substrings, as a `(start, end)`
/// range, in the order of the libraries and of their segments.
pub fn blocklist_segments_of(libs: &Vec<LoadedLibrary>, blocklist: &[&str]) -> (r: Vec<
    (usize, usize),
>)
    ensures
        r@ == blocked_ranges(libs@, patterns(blocklist@)),
{
    let ghost pats = patterns(blocklist@);
    let mut out: Vec<(usize, usize)> = Vec::new();
    let mut i: usize = 0;
    while i < libs.len()
        invariant
            pats == patterns(blocklist@),
            0 <= i <= libs@.len(),
            out@ == blocked_ranges(libs@.take(i as int), pats),
        decreases libs@.len() - i,
    {
        let lib = &libs[i];
        assert(libs@.take(i + 1).drop_last() =~= libs@.take(i as int));
        if library_is_blocked(lib, blocklist) {
            let ghost before = out@;
            let mut s: usize = 0;
            while s < lib.segments.len()
                invariant
                    0 <= s <= lib.segments@.len(),
                    is_blocked(*lib, pats),
                    out@ == before.add(library_ranges(*lib, pats).take(s as int)),
                decreases lib.segments@.len() - s,
            {
                let seg = lib.segments[s];
                let end: usize = seg.0.saturating_add(seg.1);
                out.push((seg.0, end));
                assert(library_ranges(*lib, pats).take(s + 1) =~= library_ranges(
                    *lib,
                    pats,
                ).take(s as int).push((seg.0, end)));
                s = s + 1;
            }
            assert(library_ranges(*lib, pats).take(s as int) =~= library_ranges(*lib, pats));
        } else {
            assert(out@.add(library_ranges(*lib, pats)) =~= out@);
        }
        i = i + 1;
    }
    assert(libs@.take(i as int) =~= libs@);
    out
}

/// The blocklist that `blocklist` gives over the libraries loaded now.
pub fn current_blocklist_segments(blocklist: &[&str]) -> (r: Vec<(usize, usize)>)
    ensures
        exists|libs: Seq<LoadedLibrary>| r@ == blocked_ranges(libs, patterns(blocklist@)),
{
    let libs = loaded_libraries();
    blocklist_segments_of(&libs, blocklist)
}

} // verus!

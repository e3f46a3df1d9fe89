use vstd::prelude::*;
use vstd::string::StrSliceExecFns;

use findshlibs::Segment;
use findshlibs::SharedLibrary;
use findshlibs::TargetSharedLibrary;

verus! {

// ---------------------------------------------------------------------------
// Substring matching on library names.
// ---------------------------------------------------------------------------

/// `needle` occurs in `hay` starting at position `i`.
pub open spec fn matches_at(hay: Seq<char>, needle: Seq<char>, i: int) -> bool {
    hay.subrange(i, i + needle.len() as int) == needle
}

/// `needle` occurs somewhere in `hay`.
pub open spec fn contains_seq(hay: Seq<char>, needle: Seq<char>) -> bool {
    exists|i: int| 0 <= i && i + needle.len() <= hay.len() && matches_at(hay, needle, i)
}

fn match_at(hay: &str, needle: &str, i: usize) -> (r: bool)
    requires
        i + needle@.len() <= hay@.len(),
    ensures
        r == matches_at(hay@, needle@, i as int),
{
    let hlen = hay.unicode_len();
    let nlen = needle.unicode_len();
    let mut j: usize = 0;
    while j < nlen
        invariant
            hlen == hay@.len(),
            nlen == needle@.len(),
            i + nlen <= hlen,
            0 <= j <= nlen,
            forall|k: int| 0 <= k < j ==> hay@[i + k] == needle@[k],
        decreases nlen - j,
    {
        if hay.get_char(i + j) != needle.get_char(j) {
            proof {
                assert(hay@.subrange(i as int, i + nlen)[j as int] != needle@[j as int]);
            }
            return false;
        }
        j = j + 1;
    }
    proof {
        assert(hay@.subrange(i as int, i + nlen) =~= needle@);
    }
    true
}

/// Whether `needle` occurs as a substring of `hay`.
pub fn contains_substring(hay: &str, needle: &str) -> (r: bool)
    ensures
        r == contains_seq(hay@, needle@),
{
    let hlen = hay.unicode_len();
    let nlen = needle.unicode_len();
    if nlen > hlen {
        return false;
    }
    if nlen == 0 {
        proof {
            assert(matches_at(hay@, needle@, 0)) by {
                assert(hay@.subrange(0, 0) =~= needle@);
            }
        }
        return true;
    }
    let last_start = hlen - nlen + 1;
    let mut i: usize = 0;
    while i < last_start
        invariant
            hlen == hay@.len(),
            nlen == needle@.len(),
            1 <= nlen <= hlen,
            last_start == hlen - nlen + 1,
            0 <= i <= last_start,
            forall|k: int| 0 <= k < i ==> !matches_at(hay@, needle@, k),
        decreases last_start - i,
    {
        if match_at(hay, needle, i) {
            return true;
        }
        i = i + 1;
    }
    false
}

/// The character sequences of a list of name fragments.
pub open spec fn fragment_views(blocklist: Seq<String>) -> Seq<Seq<char>> {
    blocklist.map_values(|s: String| s@)
}

/// One of the blocklisted name fragments occurs in `name`.
pub open spec fn name_blocked(name: Seq<char>, blocklist: Seq<Seq<char>>) -> bool {
    exists|j: int| 0 <= j < blocklist.len() && contains_seq(name, #[trigger] blocklist[j])
}

/// Whether a library name contains any of the blocklisted fragments.
pub fn is_name_blocked(name: &str, blocklist: &Vec<String>) -> (r: bool)
    ensures
        r == name_blocked(name@, fragment_views(blocklist@)),
{
    let ghost fragments = fragment_views(blocklist@);
    let n = blocklist.len();
    let mut j: usize = 0;
    while j < n
        invariant
            n == blocklist@.len(),
            fragments == fragment_views(blocklist@),
            0 <= j <= n,
            forall|k: int| 0 <= k < j ==> !contains_seq(name@, #[trigger] fragments[k]),
        decreases n - j,
    {
        if contains_substring(name, blocklist[j].as_str()) {
            proof {
                assert(contains_seq(name@, fragments[j as int]));
            }
            return true;
        }
        j = j + 1;
    }
    false
}

// ---------------------------------------------------------------------------
// Resolving the blocklist against the loaded shared libraries.
// ---------------------------------------------------------------------------

/// One loaded shared library, reduced to what the blocklist needs: its name
/// and, for each mapped segment, the segment's actual start address and byte
/// length.
pub struct LibraryInfo {
    pub name: String,
    pub segments: Vec<(usize, usize)>,
}

/// The address range a segment occupies: its start and its end, saturated at
/// the address-space limit.
pub open spec fn seg_range(seg: (usize, usize)) -> (usize, usize) {
    (seg.0, if seg.0 + seg.1 <= usize::MAX { (seg.0 + seg.1) as usize } else { usize::MAX })
}

/// The address ranges of a library's segments, in order.
pub open spec fn ranges_of(segments: Seq<(usize, usize)>) -> Seq<(usize, usize)> {
    segments.map_values(|seg: (usize, usize)| seg_range(seg))
}

/// The blocklisted address ranges: the segment ranges of every library whose
/// name contains one of the blocklisted fragments, in library order.
pub open spec fn resolved_blocklist(
    blocklist: Seq<Seq<char>>,
    libs: Seq<LibraryInfo>,
) -> Seq<(usize, usize)>
    decreases libs.len(),
{
    if libs.len() == 0 {
        Seq::empty()
    } else {
        resolved_blocklist(blocklist, libs.drop_last()) + if name_blocked(
            libs.last().name@,
            blocklist,
        ) {
            ranges_of(libs.last().segments@)
        } else {
            Seq::empty()
        }
    }
}

/// Turn one library's segments into address ranges.
fn library_ranges(segments: &Vec<(usize, usize)>) -> (r: Vec<(usize, usize)>)
    ensures
        r@ == ranges_of(segments@),
{
    let n = segments.len();
    let mut out: Vec<(usize, usize)> = Vec::new();
    let mut i: usize = 0;
    while i < n
        invariant
            n == segments@.len(),
            0 <= i <= n,
            out@ == ranges_of(segments@.take(i as int)),
        decreases n - i,
    {
        let (start, len) = segments[i];
        let end = if len <= usize::MAX - start {
            start + len
        } else {
            usize::MAX
        };
        out.push((start, end));
        proof {
            assert(out@ =~= ranges_of(segments@.take(i + 1)));
        }
        i = i + 1;
    }
    proof {
        assert(segments@.take(n as int) =~= segments@);
    }
    out
}

/// Resolve the blocklisted name fragments against a list of loaded libraries:
/// collect the segment address ranges of every library whose name matches.
pub fn resolve_blocklist(blocklist: &Vec<String>, libs: &Vec<LibraryInfo>) -> (r: Vec<
    (usize, usize),
>)
    ensures
        r@ == resolved_blocklist(fragment_views(blocklist@), libs@),
{
    let ghost fragments = fragment_views(blocklist@);
    let n = libs.len();
    let mut out: Vec<(usize, usize)> = Vec::new();
    let mut i: usize = 0;
    while i < n
        invariant
            n == libs@.len(),
            fragments == fragment_views(blocklist@),
            0 <= i <= n,
            out@ == resolved_blocklist(fragments, libs@.take(i as int)),
        decreases n - i,
    {
        proof {
            assert(libs@.take(i + 1).drop_last() =~= libs@.take(i as int));
            assert(libs@.take(i + 1).last() == libs@[i as int]);
        }
        if is_name_blocked(libs[i].name.as_str(), blocklist) {
            let mut ranges = library_ranges(&libs[i].segments);
            out.append(&mut ranges);
        }
        proof {
            assert(out@ =~= resolved_blocklist(fragments, libs@.take(i + 1)));
        }
        i = i + 1;
    }
    proof {
        assert(libs@.take(n as int) =~= libs@);
    }
    out
}

/// The shared libraries loaded in this process right now, each with its
/// segments' actual start addresses and lengths.
///
/// Relies on `findshlibs::TargetSharedLibrary::each`, which walks the
/// process's currently loaded shared libraries and hands the closure each
/// one; the closure only copies the name and the segment spans out. What is
/// loaded depends on the process and the moment, so nothing is promised of
/// the result.
#[verifier::external_body]
pub fn loaded_libraries() -> (r: Vec<LibraryInfo>) {
    let mut libs: Vec<LibraryInfo> = Vec::new();
    TargetSharedLibrary::each(|shlib| {
        let name = shlib.name().to_string_lossy().into_owned();
        let mut segments: Vec<(usize, usize)> = Vec::new();
        for seg in shlib.segments() {
            segments.push((seg.actual_virtual_memory_address(shlib).0, seg.len()));
        }
        libs.push(LibraryInfo { name, segments });
    });
    libs
}

} // verus!

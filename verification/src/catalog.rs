//! The image catalog: the ordered list of browsable image paths found in
//! one directory, filtered from a raw directory listing by a fixed set of
//! recognized extensions, and the lookup of the starting image's position.
//!
//! Paths are byte strings, as the surrounding platform hands them over;
//! the extension match is ASCII case-insensitive.

use vstd::prelude::*;

verus! {

/// ASCII code points used by the extension match.
pub const ASCII_DOT: u8 = 46;

pub const ASCII_UPPER_A: u8 = 65;

pub const ASCII_UPPER_Z: u8 = 90;

pub const ASCII_E: u8 = 101;

pub const ASCII_G: u8 = 103;

pub const ASCII_J: u8 = 106;

pub const ASCII_N: u8 = 110;

pub const ASCII_P: u8 = 112;

/// One entry of a raw directory listing: the entry's path and whether it is
/// a regular file. The caller obtains these from the platform's directory
/// enumeration, in enumeration order.
pub struct ListingEntry {
    pub path: Vec<u8>,
    pub is_file: bool,
}

/// ASCII lower-casing of one byte; bytes outside `A`..=`Z` are unchanged.
pub open spec fn to_lower_byte(b: u8) -> u8 {
    if ASCII_UPPER_A <= b && b <= ASCII_UPPER_Z {
        (b + 32) as u8
    } else {
        b
    }
}

/// `s` ends with `suffix`, comparing bytes of `s` ASCII case-insensitively
/// against the (lower-case) suffix.
pub open spec fn suffix_matches_ci(s: Seq<u8>, suffix: Seq<u8>) -> bool {
    &&& s.len() >= suffix.len()
    &&& forall|k: int|
        0 <= k < suffix.len() ==> to_lower_byte(s[s.len() - suffix.len() + k]) == #[trigger] suffix[k]
}

pub open spec fn jpg_suffix() -> Seq<u8> {
    seq![ASCII_DOT, ASCII_J, ASCII_P, ASCII_G]
}

pub open spec fn jpeg_suffix() -> Seq<u8> {
    seq![ASCII_DOT, ASCII_J, ASCII_P, ASCII_E, ASCII_G]
}

pub open spec fn png_suffix() -> Seq<u8> {
    seq![ASCII_DOT, ASCII_P, ASCII_N, ASCII_G]
}

/// A path is browsable when its lower-cased name ends in `.jpg`, `.jpeg` or
/// `.png`.
pub open spec fn is_recognized_image_path(s: Seq<u8>) -> bool {
    ||| suffix_matches_ci(s, jpg_suffix())
    ||| suffix_matches_ci(s, jpeg_suffix())
    ||| suffix_matches_ci(s, png_suffix())
}

/// A listing entry belongs in the catalog when it is a regular file with a
/// recognized image extension.
pub open spec fn is_browsable(e: ListingEntry) -> bool {
    e.is_file && is_recognized_image_path(e.path@)
}

/// The catalog a listing yields: the paths of its browsable entries, in
/// listing order.
pub open spec fn spec_catalog(listing: Seq<ListingEntry>) -> Seq<Seq<u8>>
    decreases listing.len(),
{
    if listing.len() == 0 {
        Seq::empty()
    } else if is_browsable(listing.last()) {
        spec_catalog(listing.drop_last()).push(listing.last().path@)
    } else {
        spec_catalog(listing.drop_last())
    }
}

/// The ordered list of browsable image paths of one directory. Built once;
/// read-only afterwards.
pub struct Catalog {
    entries: Vec<Vec<u8>>,
}

impl View for Catalog {
    type V = Seq<Seq<u8>>;

    closed spec fn view(&self) -> Seq<Seq<u8>> {
        self.entries@.map_values(|p: Vec<u8>| p@)
    }
}

/// ASCII lower-casing of one byte.
pub fn byte_to_lower(b: u8) -> (r: u8)
    ensures
        r == to_lower_byte(b),
{
    if b >= ASCII_UPPER_A && b <= ASCII_UPPER_Z {
        b + 32
    } else {
        b
    }
}

/// Byte-string equality.
pub fn bytes_eq(a: &Vec<u8>, b: &Vec<u8>) -> (r: bool)
    ensures
        r == (a@ == b@),
{
    if a.len() != b.len() {
        return false;
    }
    let mut i: usize = 0;
    while i < a.len()
        invariant
            a@.len() == b@.len(),
            i <= a@.len(),
            forall|j: int| 0 <= j < i ==> a@[j] == b@[j],
        decreases a@.len() - i,
    {
        if a[i] != b[i] {
            return false;
        }
        i += 1;
    }
    proof {
        assert(a@ =~= b@);
    }
    true
}

/// An owned copy of a byte string.
pub fn copy_bytes(src: &Vec<u8>) -> (out: Vec<u8>)
    ensures
        out@ == src@,
{
    let mut out: Vec<u8> = Vec::new();
    let mut i: usize = 0;
    while i < src.len()
        invariant
            i <= src@.len(),
            out@ == src@.take(i as int),
        decreases src@.len() - i,
    {
        out.push(src[i]);
        i += 1;
        proof {
            assert(out@ =~= src@.take(i as int));
        }
    }
    proof {
        assert(src@.take(src@.len() as int) =~= src@);
    }
    out
}

/// Whether `s` ends with `suffix`, ASCII case-insensitively.
pub fn ends_with_ci(s: &Vec<u8>, suffix: &Vec<u8>) -> (r: bool)
    ensures
        r == suffix_matches_ci(s@, suffix@),
{
    if s.len() < suffix.len() {
        return false;
    }
    let off: usize = s.len() - suffix.len();
    let mut k: usize = 0;
    while k < suffix.len()
        invariant
            s@.len() >= suffix@.len(),
            s@.len() <= usize::MAX,
            off == s@.len() - suffix@.len(),
            k <= suffix@.len(),
            forall|j: int| 0 <= j < k ==> to_lower_byte(s@[off + j]) == #[trigger] suffix@[j],
        decreases suffix@.len() - k,
    {
        if byte_to_lower(s[off + k]) != suffix[k] {
            assert(to_lower_byte(s@[off + k as int]) != suffix@[k as int]);
            return false;
        }
        k += 1;
    }
    true
}

/// Whether a path has one of the recognized image extensions.
pub fn is_recognized_image(path: &Vec<u8>) -> (r: bool)
    ensures
        r == is_recognized_image_path(path@),
{
    let jpg: Vec<u8> = vec![ASCII_DOT, ASCII_J, ASCII_P, ASCII_G];
    let jpeg: Vec<u8> = vec![ASCII_DOT, ASCII_J, ASCII_P, ASCII_E, ASCII_G];
    let png: Vec<u8> = vec![ASCII_DOT, ASCII_P, ASCII_N, ASCII_G];
    proof {
        assert(jpg@ =~= jpg_suffix());
        assert(jpeg@ =~= jpeg_suffix());
        assert(png@ =~= png_suffix());
    }
    ends_with_ci(path, &jpg) || ends_with_ci(path, &jpeg) || ends_with_ci(path, &png)
}

impl Catalog {
    /// Builds the catalog from a directory listing: keeps, in listing
    /// order, the path of every regular file whose lower-cased name ends in
    /// a recognized image extension, and drops everything else.
    pub fn from_listing(listing: &Vec<ListingEntry>) -> (catalog: Catalog)
        ensures
            catalog@ == spec_catalog(listing@),
    {
        let mut entries: Vec<Vec<u8>> = Vec::new();
        let mut i: usize = 0;
        while i < listing.len()
            invariant
                i <= listing@.len(),
                entries@.map_values(|p: Vec<u8>| p@) == spec_catalog(listing@.take(i as int)),
            decreases listing@.len() - i,
        {
            let ghost pre = entries@;
            let e = &listing[i];
            if e.is_file && is_recognized_image(&e.path) {
                entries.push(copy_bytes(&e.path));
            }
            i += 1;
            proof {
                let taken = listing@.take(i as int);
                assert(taken.drop_last() =~= listing@.take(i - 1));
                assert(taken.last() == listing@[i - 1]);
                if is_browsable(listing@[i - 1]) {
                    assert(entries@.map_values(|p: Vec<u8>| p@) =~~= pre.map_values(
                        |p: Vec<u8>| p@,
                    ).push(listing@[i - 1].path@));
                } else {
                    assert(entries@ == pre);
                }
            }
        }
        proof {
            assert(listing@.take(listing@.len() as int) =~= listing@);
        }
        Catalog { entries }
    }

    /// Number of browsable images.
    pub fn len(&self) -> (n: usize)
        ensures
            n == self@.len(),
    {
        self.entries.len()
    }

    /// The path at position `i`.
    pub fn entry(&self, i: usize) -> (path: &Vec<u8>)
        requires
            i < self@.len(),
        ensures
            path@ == self@[i as int],
    {
        &self.entries[i]
    }

    /// Position of the first entry equal to the starting path; `0` as a
    /// best-effort fallback when no entry matches.
    pub fn resolve_start_index(&self, start: &Vec<u8>) -> (idx: usize)
        ensures
            forall|j: int| 0 <= j < idx ==> self@[j] != start@,
            (exists|j: int| 0 <= j < self@.len() && self@[j] == start@) ==> idx < self@.len()
                && self@[idx as int] == start@,
            !(exists|j: int| 0 <= j < self@.len() && self@[j] == start@) ==> idx == 0,
    {
        let n = self.entries.len();
        let mut i: usize = 0;
        while i < n
            invariant
                n == self@.len(),
                i <= n,
                forall|j: int| 0 <= j < i ==> self@[j] != start@,
            decreases n - i,
        {
            if bytes_eq(&self.entries[i], start) {
                proof {
                    assert(self@[i as int] == start@);
                }
                return i;
            }
            i += 1;
        }
        0
    }
}

/// Law: the catalog holds exactly the browsable paths of the listing — a
/// path is in the catalog if and only if some listing entry is a regular
/// file with a recognized image extension and that path.
pub proof fn lemma_catalog_membership(listing: Seq<ListingEntry>, path: Seq<u8>)
    ensures
        spec_catalog(listing).contains(path) <==> exists|i: int|
            0 <= i < listing.len() && #[trigger] is_browsable(listing[i]) && listing[i].path@
                == path,
    decreases listing.len(),
{
    if listing.len() == 0 {
    } else {
        let prefix = listing.drop_last();
        lemma_catalog_membership(prefix, path);
        let rec = spec_catalog(prefix);
        if is_browsable(listing.last()) {
            assert(spec_catalog(listing) == rec.push(listing.last().path@));
            if rec.push(listing.last().path@).contains(path) {
                let j = choose|j: int|
                    0 <= j < rec.len() + 1 && rec.push(listing.last().path@)[j] == path;
                if j < rec.len() {
                    assert(rec[j] == path);
                    let i = choose|i: int|
                        0 <= i < prefix.len() && #[trigger] is_browsable(prefix[i]) && prefix[
                            i
                        ].path@ == path;
                    assert(listing[i] == prefix[i]);
                } else {
                    assert(listing.last().path@ == path);
                    assert(is_browsable(listing[listing.len() - 1]));
                }
            }
            if exists|i: int|
                0 <= i < listing.len() && #[trigger] is_browsable(listing[i]) && listing[i].path@
                    == path {
                let i = choose|i: int|
                    0 <= i < listing.len() && #[trigger] is_browsable(listing[i]) && listing[
                        i
                    ].path@ == path;
                if i < listing.len() - 1 {
                    assert(prefix[i] == listing[i]);
                    assert(rec.contains(path));
                    let j = choose|j: int| 0 <= j < rec.len() && rec[j] == path;
                    assert(rec.push(listing.last().path@)[j] == path);
                } else {
                    assert(rec.push(listing.last().path@).last() == path);
                }
            }
        } else {
            assert(spec_catalog(listing) == rec);
            if rec.contains(path) {
                let i = choose|i: int|
                    0 <= i < prefix.len() && #[trigger] is_browsable(prefix[i]) && prefix[i].path@
                        == path;
                assert(listing[i] == prefix[i]);
            }
            if exists|i: int|
                0 <= i < listing.len() && #[trigger] is_browsable(listing[i]) && listing[i].path@
                    == path {
                let i = choose|i: int|
                    0 <= i < listing.len() && #[trigger] is_browsable(listing[i]) && listing[
                        i
                    ].path@ == path;
                assert(i < listing.len() - 1);
                assert(prefix[i] == listing[i]);
            }
        }
    }
}

} // verus!

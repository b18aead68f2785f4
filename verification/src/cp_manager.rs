//! The class-path resolver.
//!
//! The resolver holds an ordered list of sources: directory roots and archive
//! bundles held in memory. A lookup mangles the class name into an entry
//! path, then consults each source in order; the first hit wins. Archive
//! entries are decoded here through the `zip` crate; a directory probe is a
//! path the host must read, so the search is driven step by step.

use vstd::prelude::*;

use crate::native_loader::{dots_to_slashes, replace_dots};

verus! {

/// A resolved class: the path of the source that supplied it, and its bytes.
#[derive(Debug)]
pub struct ClassPathResult(pub String, pub Vec<u8>);

/// One class-path element: a directory root, or an archive bundle as its
/// bytes plus the path it was read from.
pub enum ClassSource {
    Dir(Vec<u8>),
    Jar(Vec<u8>, Vec<u8>),
}

/// What one search step asks of the host: read a candidate file, accept a
/// hit, or move on.
pub enum SearchStep {
    TryFile(Vec<u8>),
    Found(ClassPathResult),
    Miss,
}

/// What looking an entry up in a zip archive yields: a function of the
/// archive bytes and the entry name alone.
pub uninterp spec fn zip_entry_of(archive: Seq<u8>, name: Seq<u8>) -> Option<Seq<u8>>;

/// Relies on `zip::ZipArchive::new` and `by_name` over an in-memory cursor,
/// and `std::io::Read::read_to_end`: decodes the named entry of the archive,
/// or nothing when the archive or the entry is absent or malformed.
#[verifier::external_body]
fn zip_entry(archive: &Vec<u8>, name: &Vec<u8>) -> (r: Option<Vec<u8>>)
    ensures
        match r {
            Some(v) => zip_entry_of(archive@, name@) == Some(v@),
            None => zip_entry_of(archive@, name@) is None,
        },
{
    let name = String::from_utf8_lossy(name.as_slice()).into_owned();
    let cur = std::io::Cursor::new(archive.clone());
    let mut za = match zip::ZipArchive::new(cur) { Ok(z) => z, Err(_) => return None };
    let mut f = match za.by_name(&name) { Ok(f) => f, Err(_) => return None };
    let mut v = Vec::new();
    match std::io::Read::read_to_end(&mut f, &mut v) { Ok(_) => Some(v), Err(_) => None }
}

/// What `String::from_utf8_lossy` returns: a function of the bytes alone.
pub uninterp spec fn utf8_lossy_of(bytes: Seq<u8>) -> Seq<char>;

/// Relies on `String::from_utf8_lossy`: decodes UTF-8, replacing invalid
/// sequences; an empty input gives an empty string.
#[verifier::external_body]
fn bytes_to_string(bytes: &Vec<u8>) -> (r: String)
    ensures
        r@ == utf8_lossy_of(bytes@),
        bytes@.len() == 0 ==> r@.len() == 0,
{
    String::from_utf8_lossy(bytes.as_slice()).into_owned()
}

/// The bytes of the `.class` suffix.
pub open spec fn class_suffix() -> Seq<u8> {
    seq![0x2eu8, 0x63u8, 0x6cu8, 0x61u8, 0x73u8, 0x73u8]
}

/// The entry name a class name mangles to: package separators and dots both
/// become the file separator, and the `.class` suffix is appended.
pub open spec fn mangled_entry(name: Seq<u8>) -> Seq<u8> {
    dots_to_slashes(name) + class_suffix()
}

/// Mangles a class name into its entry name.
pub fn mangle_entry_name(name: &Vec<u8>) -> (r: Vec<u8>)
    ensures
        r@ == mangled_entry(name@),
{
    let mut r = replace_dots(name);
    r.push(0x2e);
    r.push(0x63);
    r.push(0x6c);
    r.push(0x61);
    r.push(0x73);
    r.push(0x73);
    proof {
        assert(r@ =~= mangled_entry(name@));
    }
    r
}

/// The candidate path of a class under a directory root.
pub open spec fn dir_candidate(dir: Seq<u8>, name: Seq<u8>) -> Seq<u8> {
    dir + seq![0x2fu8] + mangled_entry(name)
}

pub struct ClassPathManager {
    runtime_class_path: Vec<ClassSource>,
}

/// The source list as shapes: a directory path, or an archive's bytes and
/// path.
pub enum SourceV {
    Dir(Seq<u8>),
    Jar(Seq<u8>, Seq<u8>),
}

pub open spec fn source_v(s: ClassSource) -> SourceV {
    match s {
        ClassSource::Dir(d) => SourceV::Dir(d@),
        ClassSource::Jar(a, p) => SourceV::Jar(a@, p@),
    }
}

impl ClassPathManager {
    pub closed spec fn sources(self) -> Seq<SourceV> {
        self.runtime_class_path@.map_values(|s: ClassSource| source_v(s))
    }

    pub fn new() -> (r: Self)
        ensures
            r.sources().len() == 0,
    {
        let r = Self { runtime_class_path: Vec::new() };
        proof {
            assert(r.sources() =~= Seq::<SourceV>::empty());
        }
        r
    }

    /// Appends one source; the host decides beforehand whether a path names
    /// a directory or an archive, and reads an archive's bytes.
    pub fn add_class_path(&mut self, source: ClassSource)
        ensures
            final(self).sources() == old(self).sources().push(source_v(source)),
    {
        self.runtime_class_path.push(source);
        proof {
            assert(final(self).sources() =~= old(self).sources().push(source_v(source)));
        }
    }

    pub fn size(&self) -> (n: usize)
        ensures
            n == self.sources().len(),
    {
        self.runtime_class_path.len()
    }

    /// One step of the ordered search: a directory source yields the
    /// candidate path for the host to try; an archive source is decided here,
    /// a hit carrying the archive's path and the entry bytes.
    pub fn search_step(&self, name: &Vec<u8>, idx: usize) -> (r: SearchStep)
        requires
            idx < self.sources().len(),
        ensures
            match self.sources()[idx as int] {
                SourceV::Dir(d) => r matches SearchStep::TryFile(p) && p@ == dir_candidate(
                    d,
                    name@,
                ),
                SourceV::Jar(a, p) => match zip_entry_of(a, mangled_entry(name@)) {
                    Some(bytes) => r matches SearchStep::Found(res) && res.0@ == utf8_lossy_of(p)
                        && res.1@ == bytes,
                    None => r is Miss,
                },
            },
    {
        let entry = mangle_entry_name(name);
        match &self.runtime_class_path[idx] {
            ClassSource::Dir(d) => {
                let mut path = crate::classfile::copy_bytes(d);
                path.push(0x2f);
                crate::field::append_bytes(&mut path, &entry);
                proof {
                    assert(path@ =~= dir_candidate(
                        self.sources()[idx as int]->Dir_0,
                        name@,
                    ));
                }
                SearchStep::TryFile(path)
            },
            ClassSource::Jar(archive, p) => {
                match zip_entry(archive, &entry) {
                    Some(bytes) => SearchStep::Found(
                        ClassPathResult(bytes_to_string(p), bytes),
                    ),
                    None => SearchStep::Miss,
                }
            },
        }
    }
}

/// The segments of a byte string split on a separator: splitting keeps empty
/// segments, and an empty input is one empty segment.
pub open spec fn split_on(s: Seq<u8>, sep: u8) -> Seq<Seq<u8>>
    decreases s.len(),
{
    if s.len() == 0 {
        seq![Seq::<u8>::empty()]
    } else if s.last() == sep {
        split_on(s.drop_last(), sep).push(Seq::<u8>::empty())
    } else {
        let rest = split_on(s.drop_last(), sep);
        rest.update(rest.len() - 1, rest.last().push(s.last()))
    }
}

/// Splits a class-path string on the path separator into its elements.
pub fn split_class_path(path: &Vec<u8>, sep: u8) -> (r: Vec<Vec<u8>>)
    ensures
        r@.map_values(|v: Vec<u8>| v@) == split_on(path@, sep),
{
    let n = path.len();
    let mut done: Vec<Vec<u8>> = Vec::new();
    let mut cur: Vec<u8> = Vec::new();
    let mut i: usize = 0;
    while i < n
        invariant
            i <= n,
            n == path@.len(),
            done@.map_values(|v: Vec<u8>| v@).push(cur@) == split_on(path@.take(i as int), sep),
        decreases n - i,
    {
        let b = path[i];
        proof {
            assert(path@.take(i + 1 as int).drop_last() =~= path@.take(i as int));
            assert(path@.take(i + 1 as int).last() == path@[i as int]);
        }
        if b == sep {
            let finished = cur;
            cur = Vec::new();
            done.push(finished);
            proof {
                assert(done@.map_values(|v: Vec<u8>| v@).push(cur@) =~= split_on(
                    path@.take(i + 1 as int),
                    sep,
                ));
            }
        } else {
            cur.push(b);
            proof {
                let prev = split_on(path@.take(i as int), sep);
                assert(split_on(path@.take(i + 1 as int), sep) =~= prev.update(
                    prev.len() - 1,
                    prev.last().push(b),
                ));
                assert(done@.map_values(|v: Vec<u8>| v@).push(cur@) =~= prev.update(
                    prev.len() - 1,
                    prev.last().push(b),
                ));
            }
        }
        i = i + 1;
    }
    done.push(cur);
    proof {
        assert(path@.take(n as int) =~= path@);
        assert(done@.map_values(|v: Vec<u8>| v@) =~= split_on(path@, sep));
    }
    done
}

} // verus!

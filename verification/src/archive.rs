//! ZIP archives: what an archive holds, read by the `zip` crate, and the
//! plan that extracts it into a directory.

use vstd::prelude::*;

use crate::config::{path_push, push_path};
use crate::error::CatoolsError;

verus! {

/// An entry of a ZIP archive: its name, whether it is a directory, and its
/// uncompressed content.
pub struct ZipEntry {
    pub name: String,
    pub is_dir: bool,
    pub data: Vec<u8>,
}

/// The name, kind and content of an entry.
pub open spec fn entry_view(e: ZipEntry) -> (Seq<char>, bool, Seq<u8>) {
    (e.name@, e.is_dir, e.data@)
}

/// The names, kinds and contents of entries.
pub open spec fn entries_view(es: Seq<ZipEntry>) -> Seq<(Seq<char>, bool, Seq<u8>)> {
    es.map_values(|e: ZipEntry| entry_view(e))
}

/// What the `zip` crate reads from the archive `archive`: its entries in
/// the order of its central directory, or the text of its error.
pub uninterp spec fn zip_listing(archive: Seq<u8>) -> Result<Seq<(Seq<char>, bool, Seq<u8>)>, Seq<char>>;

/// Reads the archive `bytes` with `zip::ZipArchive` (`new`, then `by_index`,
/// `name`, `is_dir` and the entry's content for each index). Trusted, not
/// proved: the contract claims only that the result is what the crate reads
/// from these bytes (`zip_listing`); how it reads them is left unsaid.
#[verifier::external_body]
pub(crate) fn read_zip(bytes: &Vec<u8>) -> (r: Result<Vec<ZipEntry>, String>)
    ensures
        match r {
            Ok(es) => zip_listing(bytes@) == Ok::<Seq<(Seq<char>, bool, Seq<u8>)>, Seq<char>>(entries_view(es@)),
            Err(m) => zip_listing(bytes@) == Err::<Seq<(Seq<char>, bool, Seq<u8>)>, Seq<char>>(m@),
        },
{
    let mut archive = zip::ZipArchive::new(std::io::Cursor::new(bytes.as_slice())).map_err(|e| e.to_string())?;
    let mut entries = Vec::new();
    for i in 0..archive.len() {
        let mut f = archive.by_index(i).map_err(|e| e.to_string())?;
        let name = f.name().map_err(|e| e.to_string())?.to_string();
        let is_dir = f.is_dir();
        let mut data = Vec::new();
        std::io::Read::read_to_end(&mut f, &mut data).map_err(|e| e.to_string())?;
        entries.push(ZipEntry { name, is_dir, data });
    }
    Ok(entries)
}

/// An I/O error of kind `InvalidData` with the message `m`
/// (`std::io::Error::new`). Nothing is claimed of it: the error is opaque.
#[verifier::external_body]
fn invalid_data(m: String) -> std::io::Error {
    std::io::Error::new(std::io::ErrorKind::InvalidData, m)
}

/// A step of an extraction.
pub enum ExtractStep {
    /// Create the directory at this path.
    MakeDir(String),
    /// Write this content to the file at this path (creating its parent).
    WriteFile { path: String, data: Vec<u8> },
}

/// The path, kind and content of a step (no content for a directory).
pub open spec fn step_view(s: ExtractStep) -> (Seq<char>, bool, Seq<u8>) {
    match s {
        ExtractStep::MakeDir(p) => (p@, true, Seq::empty()),
        ExtractStep::WriteFile { path, data } => (path@, false, data@),
    }
}

/// The paths, kinds and contents of steps.
pub open spec fn steps_view(ss: Seq<ExtractStep>) -> Seq<(Seq<char>, bool, Seq<u8>)> {
    ss.map_values(|s: ExtractStep| step_view(s))
}

/// Extracting `listing` into `dir`: each entry, in order, at `dir` joined
/// with its name as `Path::join` joins them; a directory is created, a file
/// written with its content.
pub open spec fn extraction(dir: Seq<char>, listing: Seq<(Seq<char>, bool, Seq<u8>)>) -> Seq<
    (Seq<char>, bool, Seq<u8>),
> {
    listing.map_values(
        |e: (Seq<char>, bool, Seq<u8>)|
            (
                path_push(dir, e.0),
                e.1,
                if e.1 {
                    Seq::<u8>::empty()
                } else {
                    e.2
                },
            ),
    )
}

/// The steps that extract `entries` into `dir`.
pub fn extraction_plan(dir: &str, entries: Vec<ZipEntry>) -> (r: Vec<ExtractStep>)
    ensures
        steps_view(r@) == extraction(dir@, entries_view(entries@)),
{
    let ghost all = entries_view(entries@);
    let mut rest = entries;
    let n = rest.len();
    let mut r: Vec<ExtractStep> = Vec::new();
    let mut k: usize = 0;
    assert(steps_view(r@) =~= extraction(dir@, all.take(0)));
    while k < n
        invariant
            n == all.len(),
            k <= n,
            rest@.len() == n - k,
            entries_view(rest@) == all.skip(k as int),
            steps_view(r@) == extraction(dir@, all.take(k as int)),
        decreases n - k,
    {
        let ghost before = rest@;
        assert(entries_view(before)[0] == all[k as int]);
        let e = rest.remove(0);
        assert(rest@ =~= before.skip(1));
        assert forall|j: int| 0 <= j < rest@.len() implies #[trigger] entries_view(rest@)[j] == all.skip(k + 1)[j] by {
            assert(entries_view(before)[j + 1] == all.skip(k as int)[j + 1]);
        }
        assert(entries_view(rest@) =~= all.skip(k + 1));
        let path = push_path(dir, e.name.as_str());
        let s = if e.is_dir {
            ExtractStep::MakeDir(path)
        } else {
            ExtractStep::WriteFile { path, data: e.data }
        };
        assert(step_view(s) == extraction(dir@, all).index(k as int));
        assert(extraction(dir@, all.take(k + 1)) =~= extraction(dir@, all.take(k as int)).push(
            step_view(s),
        ));
        r.push(s);
        assert(steps_view(r@) =~= steps_view(r@.drop_last()).push(step_view(s)));
        k = k + 1;
    }
    assert(all.take(n as int) =~= all);
    r
}

/// The extraction of the archive `archive` into `dir`: the steps for what the
/// `zip` crate reads from it, or an I/O error (of kind `InvalidData`, with
/// the crate's message) when it cannot be read.
pub fn archive_extraction(archive: &Vec<u8>, dir: &str) -> (r: Result<Vec<ExtractStep>, CatoolsError>)
    ensures
        match zip_listing(archive@) {
            Ok(listing) => r matches Ok(p) && steps_view(p@) == extraction(dir@, listing),
            Err(_) => r matches Err(CatoolsError::IoError(_)),
        },
{
    match read_zip(archive) {
        Ok(entries) => Ok(extraction_plan(dir, entries)),
        Err(m) => Err(CatoolsError::IoError(invalid_data(m))),
    }
}

} // verus!

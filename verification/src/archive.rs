//! Packages a build context into a gzip-compressed tar archive.
//!
//! The caller hands the context over as plain values: either the files of a
//! context directory, each with its archive name, contents and mode, or a
//! single Dockerfile's contents and mode. The archive and the compression
//! are produced by the `tar` and `flate2` crates through the trusted
//! wrappers below.

use vstd::prelude::*;

verus! {

/// One file of a directory build context: its name inside the archive, its
/// contents, and its permission bits.
pub struct ContextEntry {
    pub name: String,
    pub data: Vec<u8>,
    pub mode: u32,
}

/// A build context as plain values: the files of a context directory, in the
/// order they are to be archived, or a single Dockerfile's contents and
/// permission bits.
pub enum BuildContext {
    Directory(Vec<ContextEntry>),
    File { data: Vec<u8>, mode: u32 },
}

/// An archive could not be written; carries the underlying I/O error text.
#[derive(Debug)]
pub struct ArchiveError {
    pub message: String,
}

/// An in-memory tar archive being written; wraps `tar::Builder` over a byte
/// buffer, which Verus cannot see into.
#[verifier::external_body]
pub struct TarArchive {
    builder: tar::Builder<Vec<u8>>,
}

/// The entries a tar archive holds, as a reader of its buffer yields them:
/// each stored name with its contents and stored mode, in the order the
/// entries were appended.
pub uninterp spec fn tar_entries(b: TarArchive) -> Seq<(Seq<char>, Seq<u8>, u32)>;

/// The bytes of a tar archive holding exactly the given entries, as
/// `tar::Builder` writes them over an in-memory buffer on this target (the
/// crate's path handling differs between Unix and Windows).
pub uninterp spec fn tar_bytes_of(entries: Seq<(Seq<char>, Seq<u8>, u32)>) -> Seq<u8>;

/// Whether `tar::Builder` accepts the given entry name. Before writing
/// anything it refuses an empty or absolute name and one holding a NUL byte;
/// a name short enough for the header field is also refused when it holds a
/// `..` component, while a longer one is carried in a long-name extension
/// entry with only its truncated prefix re-checked. A function of the name
/// alone on a given target (path handling differs between Unix and Windows).
pub uninterp spec fn tar_name_ok(name: Seq<char>) -> bool;

/// The name tar stores for a given entry name: `tar::Builder` writes it
/// through the header's path setter, which drops `.` components and repeated
/// separators; a name too long for the header field is carried whole in a
/// long-name extension entry. A function of the given name alone on a given
/// target.
pub uninterp spec fn tar_stored_name(name: Seq<char>) -> Seq<char>;

/// The mode tar stores: the header's mode field holds seven octal digits, and
/// the crate silently drops the digits above them.
pub open spec fn tar_stored_mode(mode: u32) -> u32 {
    mode % 0o10000000u32
}

/// The gzip compression of the given bytes, as flate2's default-level
/// encoder writes it.
pub uninterp spec fn gzip_of(bytes: Seq<u8>) -> Seq<u8>;

/// Relies on `tar::Builder::new`: a fresh builder over an empty buffer has
/// had no entries appended.
#[verifier::external_body]
fn tar_builder_new() -> (b: TarArchive)
    ensures
        tar_entries(b) == Seq::<(Seq<char>, Seq<u8>, u32)>::empty(),
{
    TarArchive { builder: tar::Builder::new(Vec::new()) }
}

/// Relies on `tar::Builder::append_data`: it validates the name before
/// writing and fails exactly on the names it refuses (`tar_name_ok`) — a
/// function of the name alone, since writing to the in-memory buffer cannot
/// fail. On any other name it appends one entry after those already written,
/// under the name and mode in their stored forms and with the given
/// contents; the remaining header fields are fixed (timestamp zero), so the
/// entry is a function of the arguments.
#[verifier::external_body]
fn tar_append(b: &mut TarArchive, name: &str, data: &Vec<u8>, mode: u32) -> (r: Result<
    (),
    String,
>)
    ensures
        r is Ok <==> tar_name_ok(name@),
        r is Ok ==> tar_entries(*final(b)) == tar_entries(*old(b)).push(
            (tar_stored_name(name@), data@, tar_stored_mode(mode)),
        ),
{
    let mut header = tar::Header::new_gnu();
    header.set_size(data.len() as u64);
    header.set_mode(mode);
    match b.builder.append_data(&mut header, name, data.as_slice()) {
        Ok(()) => Ok(()),
        Err(e) => Err(e.to_string()),
    }
}

/// Relies on `tar::Builder::into_inner`: it writes the archive's fixed
/// terminating blocks and returns the buffer. Writing to the in-memory
/// buffer cannot fail, and the bytes are determined by the entries appended.
#[verifier::external_body]
fn tar_finish(b: TarArchive) -> (bytes: Vec<u8>)
    ensures
        bytes@ == tar_bytes_of(tar_entries(b)),
{
    b.builder.into_inner().expect("writing to an in-memory buffer cannot fail")
}

/// Relies on flate2's `write::GzEncoder` at the default compression level:
/// the output is the gzip stream for the input bytes, which the crate makes
/// reproducible (header timestamp zero, fixed OS byte), and compressing into
/// the in-memory buffer cannot fail. The stream always opens with the two
/// gzip magic bytes.
#[verifier::external_body]
fn gzip_compress(data: &Vec<u8>) -> (bytes: Vec<u8>)
    ensures
        bytes@ == gzip_of(data@),
        bytes@.len() >= 2 && bytes@[0] == 0x1fu8 && bytes@[1] == 0x8bu8,
{
    let mut enc = flate2::write::GzEncoder::new(Vec::new(), flate2::Compression::default());
    std::io::Write::write_all(&mut enc, data.as_slice()).expect(
        "writing to an in-memory buffer cannot fail",
    );
    enc.finish().expect("writing to an in-memory buffer cannot fail")
}

/// The archive entries a context stands for, names and modes in their stored
/// forms: a directory contributes its files in order; a single file is
/// archived once, renamed to the target Dockerfile name.
pub open spec fn context_archive_entries(
    context: BuildContext,
    dockerfile_name: Seq<char>,
) -> Seq<(Seq<char>, Seq<u8>, u32)> {
    match context {
        BuildContext::Directory(entries) => entries@.map_values(
            |e: ContextEntry| (tar_stored_name(e.name@), e.data@, tar_stored_mode(e.mode)),
        ),
        BuildContext::File { data, mode } => seq![
            (tar_stored_name(dockerfile_name), data@, tar_stored_mode(mode)),
        ],
    }
}

/// Whether the tar format can carry every entry's name.
pub open spec fn entry_names_ok(entries: Seq<ContextEntry>) -> bool {
    forall|i: int| 0 <= i < entries.len() ==> tar_name_ok(#[trigger] entries[i].name@)
}

/// Whether every name the context would be archived under is one the tar
/// format can carry: each file's own name for a directory, the target
/// Dockerfile name for a single file.
pub open spec fn context_names_ok(context: BuildContext, dockerfile_name: Seq<char>) -> bool {
    match context {
        BuildContext::Directory(entries) => entry_names_ok(entries@),
        BuildContext::File { .. } => tar_name_ok(dockerfile_name),
    }
}

/// Packages a build context as a gzip-compressed tar archive: a directory's
/// files are archived in order under their own names; a single file is
/// archived under the target Dockerfile name (names and modes in the stored
/// forms tar gives them). It succeeds exactly when tar accepts every
/// archived name, and fails on the first name it refuses.
pub fn tarball(context: &BuildContext, dockerfile_name: &str) -> (r: Result<
    Vec<u8>,
    ArchiveError,
>)
    ensures
        r is Ok <==> context_names_ok(*context, dockerfile_name@),
        r matches Ok(bytes) ==> bytes@ == gzip_of(
            tar_bytes_of(context_archive_entries(*context, dockerfile_name@)),
        ),
        r matches Ok(bytes) ==> bytes@.len() >= 2 && bytes@[0] == 0x1fu8 && bytes@[1] == 0x8bu8,
{
    let mut builder = tar_builder_new();
    match context {
        BuildContext::Directory(entries) => {
            let ghost goal = context_archive_entries(*context, dockerfile_name@);
            for i in 0..entries.len()
                invariant
                    *context == BuildContext::Directory(*entries),
                    goal == entries@.map_values(
                        |e: ContextEntry| (tar_stored_name(e.name@), e.data@, tar_stored_mode(
                            e.mode,
                        )),
                    ),
                    tar_entries(builder) == goal.subrange(0, i as int),
                    forall|j: int| 0 <= j < i ==> tar_name_ok(#[trigger] entries@[j].name@),
            {
                let entry = &entries[i];
                if let Err(message) = tar_append(
                    &mut builder,
                    entry.name.as_str(),
                    &entry.data,
                    entry.mode,
                ) {
                    proof {
                        assert(!entry_names_ok(entries@)) by {
                            assert(!tar_name_ok(entries@[i as int].name@));
                        }
                    }
                    return Err(ArchiveError { message });
                }
                proof {
                    assert(tar_entries(builder) =~= goal.subrange(0, i + 1 as int));
                }
            }
            proof {
                assert(tar_entries(builder) =~= goal);
            }
        },
        BuildContext::File { data, mode } => {
            if let Err(message) = tar_append(&mut builder, dockerfile_name, data, *mode) {
                return Err(ArchiveError { message });
            }
            proof {
                assert(tar_entries(builder) =~= context_archive_entries(
                    *context,
                    dockerfile_name@,
                ));
            }
        },
    }
    let tar_bytes = tar_finish(builder);
    Ok(gzip_compress(&tar_bytes))
}

} // verus!

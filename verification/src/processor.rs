//! Format identification and the per-format converters.

use vstd::prelude::*;
use vstd::string::*;

use crate::error::ProcessorError;
use crate::paths::extension_of;
use crate::paths::spec_extension_of;

verus! {

/// The format category of a source file, determined by its extension alone.
/// The set is closed: every extension outside it falls to `Unrecognized`.
#[derive(Clone, Copy, Debug, PartialEq, Eq, Structural)]
pub enum ProcessorKind {
    /// Catch-all for files of no registered format; handled by a lossless copy.
    Unrecognized,
    /// A stylesheet (`css`).
    Css,
    /// A markdown document (`md`).
    Md,
    /// An org-mode outline document (`org`).
    Org,
}

/// The extension-to-kind mapping: an exact, case-sensitive match against the
/// registered extensions, with everything else (the empty string included)
/// falling to `Unrecognized`. Total and deterministic by construction.
pub open spec fn kind_of(ext: Seq<char>) -> ProcessorKind {
    if ext == "css"@ {
        ProcessorKind::Css
    } else if ext == "md"@ {
        ProcessorKind::Md
    } else if ext == "org"@ {
        ProcessorKind::Org
    } else {
        ProcessorKind::Unrecognized
    }
}

/// Character-for-character equality of two string slices.
fn str_eq(a: &str, b: &str) -> (r: bool)
    ensures
        r == (a@ == b@),
{
    let a_len = a.unicode_len();
    let b_len = b.unicode_len();
    if a_len != b_len {
        return false;
    }
    let mut i: usize = 0;
    while i < a_len
        invariant
            i <= a_len,
            a_len == a@.len(),
            b_len == b@.len(),
            a_len == b_len,
            forall|j: int| 0 <= j < i ==> a@[j] == b@[j],
        decreases a_len - i,
    {
        if a.get_char(i) != b.get_char(i) {
            return false;
        }
        i += 1;
    }
    proof {
        assert(a@ =~= b@);
    }
    true
}

/// Maps a file extension to its content kind. Total: every string, the empty
/// one included, yields a kind, never an error. The result is a function of
/// the extension's characters alone, so repeated calls agree.
pub fn identify(extension: &str) -> (kind: ProcessorKind)
    ensures
        kind == kind_of(extension@),
{
    if str_eq(extension, "css") {
        ProcessorKind::Css
    } else if str_eq(extension, "md") {
        ProcessorKind::Md
    } else if str_eq(extension, "org") {
        ProcessorKind::Org
    } else {
        ProcessorKind::Unrecognized
    }
}

/// Each registered extension reaches its own kind: the mapping sends `css`,
/// `md` and `org` to three distinct kinds, none of them the catch-all.
pub proof fn lemma_registered_extensions()
    ensures
        kind_of("css"@) == ProcessorKind::Css,
        kind_of("md"@) == ProcessorKind::Md,
        kind_of("org"@) == ProcessorKind::Org,
{
    reveal_strlit("css");
    reveal_strlit("md");
    reveal_strlit("org");
    assert("css"@.len() == 3);
    assert("md"@.len() == 2);
    assert("org"@.len() == 3);
    assert("org"@[0] == 'o');
    assert("css"@[0] == 'c');
    assert("md"@ != "css"@);
    assert("org"@ != "css"@);
    assert("org"@ != "md"@);
}

/// Every extension outside the registered set falls to `Unrecognized`; no
/// input is rejected.
pub proof fn lemma_unregistered_extension(ext: Seq<char>)
    requires
        ext != "css"@,
        ext != "md"@,
        ext != "org"@,
    ensures
        kind_of(ext) == ProcessorKind::Unrecognized,
{
}

/// The fixed marker text that a kind's converter puts before the source
/// contents. The catch-all kind copies losslessly and so has none.
pub open spec fn marker_of(kind: ProcessorKind) -> Seq<char> {
    match kind {
        ProcessorKind::Unrecognized => Seq::empty(),
        ProcessorKind::Css => "/* CSS generated by Halogen */\n"@,
        ProcessorKind::Md => "<!-- Markdown HTML generated by Halogen -->\n"@,
        ProcessorKind::Org => "<!-- Org HTML generated by Halogen -->\n"@,
    }
}

/// What a kind's converter makes of the source contents: the kind's marker,
/// then the contents unchanged.
pub open spec fn spec_render(kind: ProcessorKind, contents: Seq<char>) -> Seq<char> {
    marker_of(kind) + contents
}

/// The marker text of `kind`, as a string slice.
pub fn marker(kind: ProcessorKind) -> (m: &'static str)
    ensures
        m@ == marker_of(kind),
{
    match kind {
        ProcessorKind::Unrecognized => {
            let m = "";
            proof {
                reveal_strlit("");
                assert(m@ =~= Seq::<char>::empty());
            }
            m
        },
        ProcessorKind::Css => "/* CSS generated by Halogen */\n",
        ProcessorKind::Md => "<!-- Markdown HTML generated by Halogen -->\n",
        ProcessorKind::Org => "<!-- Org HTML generated by Halogen -->\n",
    }
}

/// One file's converter: the contents it took over from the source file and
/// the kind the factory determined for that file, fixed at construction.
/// It is built for exactly one file, rendered at most once into one
/// destination, then discarded.
#[derive(Debug)]
pub struct Processor {
    kind: ProcessorKind,
    contents: String,
}

impl Processor {
    /// The kind fixed at construction.
    pub closed spec fn kind_spec(&self) -> ProcessorKind {
        self.kind
    }

    /// The source contents this converter owns.
    pub closed spec fn contents_spec(&self) -> Seq<char> {
        self.contents@
    }

    /// A converter of the given kind over the given source contents. Does no
    /// conversion work eagerly: rendering happens only in `render`.
    pub fn new(kind: ProcessorKind, contents: String) -> (p: Processor)
        ensures
            p.kind_spec() == kind,
            p.contents_spec() == contents@,
    {
        Processor { kind, contents }
    }

    /// The kind this converter was built for. Pure; no I/O.
    pub fn kind(&self) -> (k: ProcessorKind)
        ensures
            k == self.kind_spec(),
    {
        self.kind
    }

    /// The source contents this converter owns.
    pub fn contents(&self) -> (c: &str)
        ensures
            c@ == self.contents_spec(),
    {
        self.contents.as_str()
    }

    /// The full text destined for the output file: the kind's marker, then
    /// the source contents unchanged. For the catch-all kind this is a
    /// byte-for-byte copy of the source.
    pub fn render(&self) -> (out: String)
        ensures
            out@ == spec_render(self.kind_spec(), self.contents_spec()),
    {
        let mut out = String::from_str(marker(self.kind));
        out.append(self.contents.as_str());
        out
    }
}

/// The dispatch point, and the only place where formats are registered.
pub struct ProcessorFactory {}

impl ProcessorFactory {
    /// A factory. It holds no state: dispatch depends on the path alone.
    pub fn new() -> (f: ProcessorFactory)
    {
        ProcessorFactory {}
    }

    /// Builds the converter for one source file. `source` carries the file's
    /// contents where the caller could open and read it, and nothing where it
    /// could not; opening the source is the caller's only I/O duty here.
    ///
    /// The converter's kind is exactly what `identify` says of the path's
    /// extension — the name decides, never the file's bytes — and the
    /// converter owns exactly the contents handed in, so a returned converter
    /// can never fail later for want of its source. An unopenable source
    /// yields a `SourceOpenError` naming the path, and no converter.
    pub fn make(&self, path: &str, source: Option<String>) -> (r: Result<
        Processor,
        ProcessorError,
    >)
        ensures
            source is Some ==> r is Ok && r->Ok_0.kind_spec() == kind_of(
                spec_extension_of(path@),
            ) && r->Ok_0.contents_spec() == source->0@,
            source is None ==> r is Err && r->Err_0.kind_spec()
                == crate::error::ProcessorErrorKind::SourceOpenError && r->Err_0.path_spec()
                == path@,
    {
        match source {
            Option::Some(contents) => {
                let ext = extension_of(path);
                let kind = identify(ext.as_str());
                Result::Ok(Processor::new(kind, contents))
            },
            Option::None => Result::Err(ProcessorError::source_open(path)),
        }
    }
}

/// Pass-through law: a converter of the catch-all kind reproduces its source
/// contents exactly, whatever they are.
pub proof fn lemma_pass_through(contents: Seq<char>)
    ensures
        spec_render(ProcessorKind::Unrecognized, contents) == contents,
{
    assert(marker_of(ProcessorKind::Unrecognized) + contents =~= contents);
}

/// Marker law: for every kind the rendered output carries the source
/// contents as a contiguous block at its end, immediately preceded by the
/// kind's fixed marker, whatever the contents are.
pub proof fn lemma_marker_layout(kind: ProcessorKind, contents: Seq<char>)
    ensures
        spec_render(kind, contents).len() == marker_of(kind).len() + contents.len(),
        spec_render(kind, contents).subrange(0, marker_of(kind).len() as int) == marker_of(kind),
        spec_render(kind, contents).subrange(
            marker_of(kind).len() as int,
            spec_render(kind, contents).len() as int,
        ) == contents,
{
    let out = spec_render(kind, contents);
    let m = marker_of(kind);
    assert(out.subrange(0, m.len() as int) =~= m);
    assert(out.subrange(m.len() as int, out.len() as int) =~= contents);
}

} // verus!

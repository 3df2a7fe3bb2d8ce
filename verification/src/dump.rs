//! Deriving the filesystem paths under which captured container output is
//! persisted for post-mortem debugging.
//!
//! All dump files of one process run live in one directory, named after the
//! moment it was first needed; each container's captured stream goes to a
//! file named after the container and the stream kind. Paths are modelled as
//! plain strings with `/` as the separator.

use vstd::prelude::*;

verus! {

/// The fixed root under which every dump directory is created.
pub open spec fn dump_root() -> Seq<char> {
    seq!['t', 'e', 's', 't', 'c', 'o', 'n', 't', 'a', 'i', 'n', 'e', 'r', 's', '/']
}

/// A dump directory path: the fixed root, then a run-scoped component (the
/// timestamp of first use, or empty when formatting it failed).
pub open spec fn is_dump_dir_path(p: Seq<char>) -> bool {
    p.len() >= dump_root().len() && p.subrange(0, dump_root().len() as int) == dump_root()
}

/// A container name with every path separator replaced by an underscore, so
/// that the name cannot smuggle in a subdirectory.
pub open spec fn sanitized(name: Seq<char>) -> Seq<char> {
    name.map_values(|c: char| if c == '/' { '_' } else { c })
}

/// The log file path for one container and one stream kind:
/// `<dir>/<sanitized name>_<stream type>.log`.
pub open spec fn log_file_path(dir: Seq<char>, name: Seq<char>, stdtype: Seq<char>) -> Seq<char> {
    dir + seq!['/'] + sanitized(name) + seq!['_'] + stdtype + seq!['.', 'l', 'o', 'g']
}

/// Replaces every `/` in a container name with `_`.
fn sanitize_name(name: &str) -> (r: String)
    ensures
        r@ == sanitized(name@),
{
    let len = name.unicode_len();
    let mut out = String::new();
    let mut i: usize = 0;
    proof {
        reveal_strlit("_");
        assert(out@ =~= sanitized(name@.subrange(0, 0)));
    }
    while i < len
        invariant
            len == name@.len(),
            0 <= i <= len,
            out@ == sanitized(name@.subrange(0, i as int)),
        decreases len - i,
    {
        if name.get_char(i) == '/' {
            out.append("_");
        } else {
            let piece = name.substring_char(i, i + 1);
            out.append(piece);
        }
        proof {
            reveal_strlit("_");
            assert(out@ =~= sanitized(name@.subrange(0, i + 1 as int)));
        }
        i = i + 1;
    }
    proof {
        assert(name@.subrange(0, len as int) =~= name@);
    }
    out
}

/// Derives the file under `log_dump_dir` that holds the captured output of
/// the named container for one stream type (such as standard output or
/// standard error). Pure: the same directory, container name and stream type
/// always yield the same path. Separators in the container name (as in
/// namespaced image names like `minio/minio`) become underscores.
pub fn get_log_dump_file_path(log_dump_dir: &str, container_name: &str, stdtype: &str) -> (r:
    String)
    ensures
        r@ == log_file_path(log_dump_dir@, container_name@, stdtype@),
{
    proof {
        reveal_strlit("/");
        reveal_strlit("_");
        reveal_strlit(".log");
    }
    let mut out = String::from_str(log_dump_dir);
    out.append("/");
    let safe = sanitize_name(container_name);
    out.append(safe.as_str());
    out.append("_");
    out.append(stdtype);
    out.append(".log");
    proof {
        assert(out@ =~= log_file_path(log_dump_dir@, container_name@, stdtype@));
    }
    out
}

/// Declares time::error::Format — what the timestamp formatter reports when
/// it fails — so that the resolver can substitute the empty run component
/// instead of propagating it. The error itself is never inspected.
#[verifier::external_type_specification]
#[verifier::external_body]
pub struct ExFormatError(time::error::Format);

/// Relies on time::OffsetDateTime::now_utc and time::OffsetDateTime::format
/// with the well-known ISO-8601 description (its default configuration
/// narrowed to two fractional-second digits, pre-encoded as the const
/// parameter): the current UTC wall-clock time as text, second precision, or
/// the formatter's error. The result depends on the clock, so nothing is
/// promised of it.
#[verifier::external_body]
fn now_iso8601() -> Result<String, time::error::Format> {
    time::OffsetDateTime::now_utc().format(
        &time::format_description::well_known::Iso8601::<
            0x05010000_02020100_00000000_00000000_u128,
        >,
    )
}

/// The run component of a dump directory: the formatter's rendering of the
/// run timestamp when it succeeded, the empty component when it failed.
pub open spec fn run_component(ts: Result<String, time::error::Format>) -> Seq<char> {
    match ts {
        Ok(s) => s@,
        Err(_) => Seq::<char>::empty(),
    }
}

/// Builds the dump directory path from the outcome of formatting the run
/// timestamp: the fixed root joined with the rendering, or with an empty
/// component when formatting failed — the error is swallowed, never
/// propagated, so resolution always returns normally.
pub fn dump_dir_from_timestamp(ts: Result<String, time::error::Format>) -> (r: String)
    ensures
        r@ == dump_root() + run_component(ts),
{
    let component = match ts {
        Ok(s) => s,
        Err(_) => String::new(),
    };
    proof {
        reveal_strlit("testcontainers/");
    }
    let mut dir = String::from_str("testcontainers/");
    dir.append(component.as_str());
    proof {
        assert("testcontainers/"@ =~= dump_root());
    }
    dir
}

/// Holds the dump directory path once it has been computed, so that every
/// later resolution within the same run observes the same directory. One
/// such cache is shared per process, behind whatever initialize-once
/// primitive the embedding chooses.
pub struct DumpDirCache {
    cached: Option<String>,
}

impl DumpDirCache {
    /// A cached value, when present, is a dump directory path.
    #[verifier::type_invariant]
    spec fn inv(self) -> bool {
        self.cached matches Some(p) ==> is_dump_dir_path(p@)
    }

    /// The path this cache holds, if one has been computed yet.
    pub closed spec fn cached_path(self) -> Option<Seq<char>> {
        match self.cached {
            Some(p) => Some(p@),
            None => None,
        }
    }

    /// A fresh cache, holding no path yet.
    pub fn new() -> (c: DumpDirCache)
        ensures
            c.cached_path() is None,
    {
        DumpDirCache { cached: None }
    }
}

/// Resolves the run-scoped dump directory: `testcontainers/<timestamp>`,
/// where the timestamp is the moment of first resolution, ISO-8601 at second
/// precision. The first call computes the path and stores it in the cache;
/// every later call through the same cache returns the identical path. When
/// the timestamp cannot be formatted, the run component is left empty rather
/// than failing the resolution.
pub fn get_log_dump_dir_path(cache: &mut DumpDirCache) -> (r: String)
    ensures
        is_dump_dir_path(r@),
        final (cache).cached_path() == Some(r@),
        (old(cache).cached_path() matches Some(p) ==> r@ == p),
{
    proof {
        use_type_invariant(&*cache);
    }
    match &cache.cached {
        Some(p) => p.clone(),
        None => {
            let dir = dump_dir_from_timestamp(now_iso8601());
            proof {
                assert(dir@.subrange(0, dump_root().len() as int) =~= dump_root());
            }
            *cache = DumpDirCache { cached: Some(dir.clone()) };
            dir
        },
    }
}

/// The same inputs always resolve to the same log file path.
pub proof fn lemma_log_file_path_deterministic(
    dir: Seq<char>,
    name: Seq<char>,
    stdtype: Seq<char>,
    r1: Seq<char>,
    r2: Seq<char>,
)
    requires
        r1 == log_file_path(dir, name, stdtype),
        r2 == log_file_path(dir, name, stdtype),
    ensures
        r1 == r2,
{
}

} // verus!

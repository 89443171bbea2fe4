use vstd::prelude::*;
use vstd::string::StringSliceAdditionalSpecFns;
use crate::domain::DomainState;
use crate::error::Error;

verus! {

/// Whether a byte sequence is free of embedded terminator bytes and can
/// therefore cross the native call's string convention unchanged.
pub open spec fn nul_free(bytes: Seq<u8>) -> bool {
    forall|i: int| 0 <= i < bytes.len() ==> bytes[i] != 0
}

/// A domain's wisdom after a file's contents are imported into it: the
/// engine augments what it has accumulated with the file's heuristics.
/// Importing into a fresh domain — no accumulated wisdom — installs the
/// file's heuristics exactly.
pub open spec fn imported_wisdom(prior: Seq<u8>, file: Seq<u8>) -> Seq<u8> {
    prior + file
}

/// The bytes an export of this domain writes: its current wisdom.
pub open spec fn exported_wisdom(s: DomainState) -> Seq<u8> {
    s.wisdom@
}

/// The byte index of the first terminator byte in `bytes`, if any.
fn find_nul(bytes: &[u8]) -> (r: Option<usize>)
    ensures
        match r {
            None => nul_free(bytes@),
            Some(i) => i < bytes@.len() && bytes@[i as int] == 0 && nul_free(
                bytes@.take(i as int),
            ),
        },
{
    let n = bytes.len();
    let mut i: usize = 0;
    while i < n
        invariant
            n == bytes@.len(),
            i <= n,
            nul_free(bytes@.take(i as int)),
        decreases n - i,
    {
        if bytes[i] == 0 {
            return Some(i);
        }
        proof {
            assert(forall|j: int| 0 <= j < i + 1 ==> bytes@.take(i + 1)[j] == bytes@[j]);
        }
        i = i + 1;
    }
    proof {
        assert(bytes@.take(n as int) =~= bytes@);
    }
    None
}

/// Validate that a path string can be handed to the native engine's
/// filename convention: it must hold no embedded terminator byte.
/// Returns `Ok` exactly on terminator-free paths; otherwise the error
/// names the path and the byte index of the first offending byte.
pub fn validate_wisdom_path(path: &str) -> (r: Result<(), Error>)
    ensures
        r is Ok <==> nul_free(path.spec_bytes()),
        r matches Err(e) ==> (e matches Error::PathToCStringConversionError {
            path: p,
            nul_position,
        } && p@ == path@ && nul_position < path.spec_bytes().len() && path.spec_bytes()[
            nul_position as int
        ] == 0 && nul_free(path.spec_bytes().take(nul_position as int))),
{
    let bytes = path.as_bytes();
    match find_nul(bytes) {
        None => Ok(()),
        Some(i) => Err(
            Error::PathToCStringConversionError { path: path.to_owned(), nul_position: i },
        ),
    }
}

/// Append `src`'s bytes to `dst`.
fn append_bytes(dst: &mut Vec<u8>, src: &Vec<u8>)
    ensures
        final(dst)@ == old(dst)@ + src@,
{
    let n = src.len();
    let mut k: usize = 0;
    while k < n
        invariant
            n == src@.len(),
            k <= n,
            dst@ == old(dst)@ + src@.take(k as int),
        decreases n - k,
    {
        dst.push(src[k]);
        proof {
            assert(old(dst)@ + src@.take(k + 1) =~= (old(dst)@ + src@.take(k as int)).push(
                src@[k as int],
            ));
        }
        k = k + 1;
    }
    proof {
        assert(old(dst)@ + src@.take(n as int) =~= old(dst)@ + src@);
    }
}

/// Import a wisdom file into one domain's accumulated heuristics.
///
/// The path is validated first: a path with an embedded terminator byte
/// is rejected with `PathToCStringConversionError` before any native
/// call, and the domain is untouched. Otherwise the native import runs;
/// `file` is what it found at the path — `None` when the file could not
/// be opened or parsed, in which case the caller gets
/// `ImportWisdomError` and the domain is again untouched. On success the
/// file's heuristics augment the domain's wisdom; threading state and
/// thread count are never affected.
pub fn import_wisdom_file(s: &mut DomainState, path: &str, file: Option<&Vec<u8>>) -> (r: Result<
    (),
    Error,
>)
    requires
        old(s).wf(),
    ensures
        final(s).wf(),
        final(s).precision == old(s).precision,
        final(s).threading == old(s).threading,
        final(s).nthreads == old(s).nthreads,
        r is Ok <==> (nul_free(path.spec_bytes()) && file is Some),
        !nul_free(path.spec_bytes()) ==> (r matches Err(e) && e matches Error::PathToCStringConversionError {
            path: p,
            nul_position,
        } && p@ == path@ && path.spec_bytes()[nul_position as int] == 0) && final(s).wisdom@ == old(
            s,
        ).wisdom@,
        nul_free(path.spec_bytes()) && file is None ==> (r matches Err(
            Error::ImportWisdomError { path: p },
        ) && p@ == path@) && final(s).wisdom@ == old(s).wisdom@,
        file matches Some(f) ==> (nul_free(path.spec_bytes()) ==> final(s).wisdom@
            == imported_wisdom(old(s).wisdom@, f@)),
{
    match validate_wisdom_path(path) {
        Err(e) => Err(e),
        Ok(()) => match file {
            None => Err(Error::ImportWisdomError { path: path.to_owned() }),
            Some(f) => {
                append_bytes(&mut s.wisdom, f);
                Ok(())
            },
        },
    }
}

/// Export one domain's accumulated wisdom to a file.
///
/// The same path validation as for import runs first and rejects a path
/// with an embedded terminator byte before any native call. Otherwise
/// the native export runs; `io_ok` is its report. On success the bytes
/// returned are exactly what the file now holds — the domain's current
/// wisdom; on failure the caller gets `ExportWisdomError`. Export never
/// changes the domain, so it borrows the state immutably.
pub fn export_wisdom_file(s: &DomainState, path: &str, io_ok: bool) -> (r: Result<Vec<u8>, Error>)
    requires
        s.wf(),
    ensures
        r is Ok <==> (nul_free(path.spec_bytes()) && io_ok),
        !nul_free(path.spec_bytes()) ==> (r matches Err(e) && e matches Error::PathToCStringConversionError {
            path: p,
            nul_position,
        } && p@ == path@ && path.spec_bytes()[nul_position as int] == 0),
        nul_free(path.spec_bytes()) && !io_ok ==> (r matches Err(
            Error::ExportWisdomError { path: p },
        ) && p@ == path@),
        (nul_free(path.spec_bytes()) && io_ok) ==> (r matches Ok(blob) && blob@ == exported_wisdom(
            *s,
        )),
{
    match validate_wisdom_path(path) {
        Err(e) => Err(e),
        Ok(()) => {
            if !io_ok {
                return Err(Error::ExportWisdomError { path: path.to_owned() });
            }
            let mut blob: Vec<u8> = Vec::new();
            append_bytes(&mut blob, &s.wisdom);
            proof {
                assert(blob@ =~= s.wisdom@);
            }
            Ok(blob)
        },
    }
}

/// Wisdom round-trip: exporting a domain's wisdom and importing the
/// written file into a fresh domain — one with no accumulated wisdom —
/// leaves that domain holding exactly the exported heuristics, so plans
/// created there behave as they would have in the exporting domain.
pub proof fn lemma_wisdom_round_trip(s: DomainState, fresh: DomainState)
    requires
        fresh.wisdom@.len() == 0,
    ensures
        imported_wisdom(fresh.wisdom@, exported_wisdom(s)) == exported_wisdom(s),
{
    assert(fresh.wisdom@ + s.wisdom@ =~= s.wisdom@);
}

} // verus!

//! Page-cache residency probing.
//!
//! Given the metadata of an open file and the process page size, this crate
//! plans a residency probe (validating that the target is a regular file and
//! sizing the per-page output), translates the kernel's raw per-page status
//! bytes into a boolean residency vector, and applies the error-priority
//! policy for the release of the temporary mapping. The unverifiable parts of
//! a probe (the `mmap`/`mincore`/`munmap` system calls themselves) are left to
//! the caller, which feeds their raw outcomes into the functions here.

use vstd::arithmetic::div_mod::lemma_fundamental_div_mod;
use vstd::arithmetic::div_mod::lemma_fundamental_div_mod_converse;
use vstd::prelude::*;

verus! {

/// The `S_IFMT` bits of a POSIX `st_mode`: the file-type field.
pub const FILE_TYPE_MASK: u32 = 0o170000;

/// The `S_IFREG` file-type value: a regular file.
pub const REGULAR_FILE_BITS: u32 = 0o100000;

/// The `EACCES` error number: permission denied.
pub const ACCESS_DENIED: i32 = 13;

/// An OS-level failure, carrying the platform error number (`errno`) exactly
/// as the failing system call reported it.
#[derive(Clone, Copy, Debug, PartialEq, Eq)]
pub struct ProbeError {
    pub code: i32,
}

impl ProbeError {
    /// Wraps a raw platform error number.
    pub fn from_code(code: i32) -> (e: ProbeError)
        ensures
            e.code == code,
    {
        ProbeError { code }
    }
}

/// Whether a raw `st_mode` value denotes a regular file: its `S_IFMT` bits
/// equal `S_IFREG`.
pub open spec fn is_regular_mode(mode: u32) -> bool {
    mode & FILE_TYPE_MASK == REGULAR_FILE_BITS
}

/// Tests whether a raw `st_mode` value denotes a regular file.
pub fn is_regular_file(mode: u32) -> (r: bool)
    ensures
        r == is_regular_mode(mode),
{
    mode & FILE_TYPE_MASK == REGULAR_FILE_BITS
}

/// The number of pages spanned by `size` bytes at page size `page`:
/// `ceil(size / page)`.
pub open spec fn page_count_spec(size: nat, page: nat) -> nat
    recommends
        0 < page,
{
    if size % page == 0 {
        size / page
    } else {
        size / page + 1
    }
}

/// Computes how many pages of size `page_size` are needed to cover
/// `file_size` bytes.
pub fn page_count(file_size: usize, page_size: usize) -> (n: usize)
    requires
        0 < page_size,
    ensures
        n == page_count_spec(file_size as nat, page_size as nat),
{
    let q: usize = file_size / page_size;
    let r: usize = file_size % page_size;
    if r == 0 {
        q
    } else {
        proof {
            assert(q < file_size) by (nonlinear_arith)
                requires
                    q == file_size as int / page_size as int,
                    r == file_size as int % page_size as int,
                    0 < page_size,
                    r != 0,
            ;
        }
        q + 1
    }
}

/// The sizing of one residency probe: how many bytes the temporary mapping
/// must span and how many per-page entries the output holds.
#[derive(Clone, Copy, Debug, PartialEq, Eq)]
pub struct ProbePlan {
    /// The byte length of the mapping: the file's size at planning time.
    pub map_len: usize,
    /// The number of pages the file spans, one output entry per page.
    pub vec_len: usize,
}

/// Validates a probe target from its raw metadata and sizes the probe.
///
/// A target whose `st_mode` is not a regular file is rejected with the
/// access-denied error number, mirroring what the mapping call itself would
/// report for a non-mappable target. For a regular file the plan maps the
/// whole file and reserves one output entry per page, `ceil(size / page_size)`
/// entries in all; a zero-length file yields a zero-length plan.
pub fn plan_probe(mode: u32, size: i64, page_size: usize) -> (r: Result<ProbePlan, ProbeError>)
    requires
        0 < page_size,
        is_regular_mode(mode) ==> 0 <= size <= usize::MAX,
    ensures
        !is_regular_mode(mode) ==> (r matches Err(e) && e.code == ACCESS_DENIED),
        is_regular_mode(mode) ==> (r matches Ok(p) && p.map_len == size
            && p.vec_len == page_count_spec(size as nat, page_size as nat)),
{
    if !is_regular_file(mode) {
        return Err(ProbeError { code: ACCESS_DENIED });
    }
    let map_len: usize = size as usize;
    let vec_len: usize = page_count(map_len, page_size);
    Ok(ProbePlan { map_len, vec_len })
}

/// Whether one raw per-page status byte reports the page as resident: its
/// low bit is set. Higher bits carry platform-specific metadata and are
/// ignored.
pub open spec fn resident_spec(b: u8) -> bool {
    b & 1 == 1
}

/// Translates the kernel's raw per-page status bytes into the boolean
/// residency vector, one entry per page in file-offset order.
pub fn residency_from_bytes(bytes: &Vec<u8>) -> (r: Vec<bool>)
    ensures
        r@.len() == bytes@.len(),
        forall|i: int| 0 <= i < bytes@.len() ==> #[trigger] r@[i] == resident_spec(bytes@[i]),
{
    let mut out: Vec<bool> = Vec::new();
    let mut idx: usize = 0;
    while idx < bytes.len()
        invariant
            idx <= bytes@.len(),
            out@.len() == idx,
            forall|i: int| 0 <= i < idx ==> #[trigger] out@[i] == resident_spec(bytes@[i]),
        decreases bytes@.len() - idx,
    {
        let b: u8 = bytes[idx];
        out.push(b & 1 == 1);
        idx = idx + 1;
    }
    out
}

/// Builds the zero-filled per-page status buffer for a probe: one byte per
/// page, which the residency query then overwrites in place.
pub fn make_status_buffer(len: usize) -> (v: Vec<u8>)
    ensures
        v@.len() == len,
        forall|i: int| 0 <= i < len ==> #[trigger] v@[i] == 0,
{
    let mut v: Vec<u8> = Vec::new();
    let mut idx: usize = 0;
    while idx < len
        invariant
            idx <= len,
            v@.len() == idx,
            forall|i: int| 0 <= i < idx ==> #[trigger] v@[i] == 0,
        decreases len - idx,
    {
        v.push(0);
        idx = idx + 1;
    }
    v
}

/// Combines the outcome of the residency query with the outcome of the
/// mapping's release into the probe's result.
///
/// A query failure wins: its error number is returned and the release
/// outcome is discarded, since the query's error is the informative one. When
/// the query succeeded, a release failure is the probe's error; when both
/// succeeded, the raw status bytes become the residency vector.
pub fn finish_probe(query: Result<Vec<u8>, i32>, release: Result<(), i32>) -> (r: Result<
    Vec<bool>,
    ProbeError,
>)
    ensures
        query matches Err(c) ==> (r matches Err(e) && e.code == c),
        query matches Ok(bytes) ==> match release {
            Err(c) => r matches Err(e) && e.code == c,
            Ok(()) => r matches Ok(v) && v@.len() == bytes@.len() && (forall|i: int|
                0 <= i < bytes@.len() ==> #[trigger] v@[i] == resident_spec(bytes@[i])),
        },
{
    match query {
        Err(c) => Err(ProbeError { code: c }),
        Ok(bytes) => match release {
            Err(c) => Err(ProbeError { code: c }),
            Ok(()) => Ok(residency_from_bytes(&bytes)),
        },
    }
}

/// The number of `true` entries in a residency vector.
pub open spec fn count_true(s: Seq<bool>) -> nat
    decreases s.len(),
{
    if s.len() == 0 {
        0
    } else {
        count_true(s.drop_last()) + if s.last() {
            1nat
        } else {
            0nat
        }
    }
}

/// Counts the pages a residency vector reports as resident.
pub fn count_resident(v: &Vec<bool>) -> (n: usize)
    ensures
        n == count_true(v@),
        n <= v@.len(),
{
    let mut n: usize = 0;
    let mut idx: usize = 0;
    while idx < v.len()
        invariant
            idx <= v@.len(),
            n <= idx,
            n == count_true(v@.take(idx as int)),
        decreases v@.len() - idx,
    {
        if v[idx] {
            n = n + 1;
        }
        idx = idx + 1;
        proof {
            assert(v@.take(idx as int).drop_last() =~= v@.take(idx as int - 1));
        }
    }
    proof {
        assert(v@.take(v@.len() as int) =~= v@);
    }
    n
}

/// Relies on `rustix::param::page_size` (`sysconf(_SC_PAGESIZE)`): the
/// process-wide memory page size, which POSIX requires to be at least 1.
#[verifier::external_body]
pub fn page_size() -> (p: usize)
    ensures
        0 < p,
{
    rustix::param::page_size()
}

/// A zero-length file spans no pages: its residency vector is empty.
pub proof fn lemma_empty_file_page_count(page: nat)
    requires
        0 < page,
    ensures
        page_count_spec(0, page) == 0,
{
    lemma_fundamental_div_mod_converse(0, page as int, 0, 0);
}

/// A file whose size is an exact multiple of the page size spans exactly
/// `size / page` pages: there is no partial trailing page.
pub proof fn lemma_exact_multiple_page_count(size: nat, page: nat)
    requires
        0 < page,
        size % page == 0,
    ensures
        page_count_spec(size, page) == size / page,
{
}

/// The page count is the familiar rounding-up formula
/// `(size + page - 1) / page`.
pub proof fn lemma_page_count_formula(size: nat, page: nat)
    requires
        0 < page,
    ensures
        page_count_spec(size, page) == (size + page - 1) / (page as int),
{
    let q = size as int / page as int;
    let r = size as int % page as int;
    lemma_fundamental_div_mod(size as int, page as int);
    if r == 0 {
        assert(size + page - 1 == q * (page as int) + (page - 1)) by (nonlinear_arith)
            requires
                size as int == (page as int) * q + r,
                r == 0,
        ;
        lemma_fundamental_div_mod_converse(size + page - 1, page as int, q, page - 1);
    } else {
        assert(size + page - 1 == (q + 1) * (page as int) + (r - 1)) by (nonlinear_arith)
            requires
                size as int == (page as int) * q + r,
        ;
        lemma_fundamental_div_mod_converse(size + page - 1, page as int, q + 1, r - 1);
    }
}

} // verus!

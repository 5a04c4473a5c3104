//! The packed asset container: a flat tape of named byte blobs.
//!
//! The tape is the classic tar layout the asset packer emits: 512-byte
//! header blocks carrying a name of up to 100 bytes and an octal length,
//! each followed by the blob padded to whole blocks, with an optional
//! all-zero terminator block. Every lookup scans the tape from the front;
//! the container is read-only, so the scan is the whole access story.

use vstd::prelude::*;

verus! {

use vstd::string::StringSliceAdditionalSpecFns;

/// How an archive lookup can fail.
#[derive(Clone, Copy, Debug, PartialEq, Eq, Structural)]
pub enum ArchiveError {
    /// No entry of the requested path exists.
    NotFound,
    /// The container is not a well-formed archive tape.
    Malformed,
}

/// A byte is an octal digit.
pub open spec fn is_octal_digit(b: u8) -> bool {
    48 <= b <= 55
}

/// The first index at or after `i` that is out of range or not an octal
/// digit.
pub open spec fn spec_octal_end(s: Seq<u8>, i: nat) -> nat
    decreases s.len() - i,
{
    if i >= s.len() || !is_octal_digit(s[i as int]) {
        i
    } else {
        spec_octal_end(s, i + 1)
    }
}

/// The value of the first `n` bytes of `s` read as octal digits.
pub open spec fn spec_octal_value(s: Seq<u8>, n: int) -> nat
    decreases n,
{
    if n <= 0 {
        0
    } else {
        (spec_octal_value(s, n - 1) * 8 + (s[n - 1] - 48)) as nat
    }
}

/// The size field of a header: leading octal digits terminated by NUL or
/// space (or the end of the field); anything else is malformed.
pub open spec fn spec_parse_size(s: Seq<u8>) -> Option<nat> {
    let n = spec_octal_end(s, 0);
    if n == 0 {
        None
    } else if n == s.len() || s[n as int] == 0 || s[n as int] == 32 {
        Some(spec_octal_value(s, n as int))
    } else {
        None
    }
}

/// The first index at or after `i` that is out of range or holds a NUL.
pub open spec fn spec_nul_end(s: Seq<u8>, i: nat) -> nat
    decreases s.len() - i,
{
    if i >= s.len() || s[i as int] == 0 {
        i
    } else {
        spec_nul_end(s, i + 1)
    }
}

/// The name of the entry whose header starts at `off`: the 100-byte name
/// field up to its first NUL.
pub open spec fn spec_entry_name(data: Seq<u8>, off: int) -> Seq<u8> {
    let field = data.subrange(off, off + 100);
    field.take(spec_nul_end(field, 0) as int)
}

/// All 512 bytes of the block at `off` are zero.
pub open spec fn spec_block_zero(data: Seq<u8>, off: int) -> bool {
    forall|i: int| off <= i < off + 512 ==> data[i] == 0
}

/// The header byte that distinguishes blob entries from other entry kinds
/// (directories and the like): NUL or ASCII zero marks a blob.
pub open spec fn spec_is_blob_entry(flag: u8) -> bool {
    flag == 0 || flag == 48
}

/// What a scan of the tape from `off` for `name` yields: the blob of the
/// first matching entry, a not-found failure at a clean end of the tape,
/// or a malformed failure on a truncated or unreadable tape.
pub open spec fn spec_tar_lookup(data: Seq<u8>, name: Seq<u8>, off: int) -> Result<
    Seq<u8>,
    ArchiveError,
>
    decreases data.len() - off,
{
    if off + 512 > data.len() {
        if off == data.len() {
            Err(ArchiveError::NotFound)
        } else {
            Err(ArchiveError::Malformed)
        }
    } else if spec_block_zero(data, off as int) {
        Err(ArchiveError::NotFound)
    } else {
        match spec_parse_size(data.subrange(off + 124, off + 136)) {
            Option::None => Err(ArchiveError::Malformed),
            Option::Some(size) => {
                if off + 512 + size > data.len() {
                    Err(ArchiveError::Malformed)
                } else if spec_is_blob_entry(data[off + 156]) && spec_entry_name(data, off as int)
                    == name {
                    Ok(data.subrange(off + 512, off + 512 + size))
                } else {
                    let next = off + 512 + ((size + 511) / 512) * 512;
                    if next > data.len() {
                        Err(ArchiveError::Malformed)
                    } else {
                        spec_tar_lookup(data, name, next)
                    }
                }
            },
        }
    }
}

/// Powers of eight, for bounding octal values.
pub open spec fn spec_pow8(n: nat) -> nat
    decreases n,
{
    if n == 0 {
        1
    } else {
        8 * spec_pow8((n - 1) as nat)
    }
}

proof fn lemma_octal_value_bound(s: Seq<u8>, n: int)
    requires
        0 <= n <= s.len(),
        forall|k: int| 0 <= k < n ==> is_octal_digit(#[trigger] s[k]),
    ensures
        spec_octal_value(s, n) < spec_pow8(n as nat),
    decreases n,
{
    if n <= 0 {
    } else {
        lemma_octal_value_bound(s, n - 1);
        let v = spec_octal_value(s, n - 1);
        let p = spec_pow8((n - 1) as nat);
        let d = s[n - 1] - 48;
        assert(0 <= d <= 7);
        assert(v * 8 + 7 < 8 * p) by (nonlinear_arith)
            requires
                v < p,
        ;
        assert(spec_pow8(n as nat) == 8 * p);
    }
}

/// Parse the 12-byte size field at `off`.
fn parse_size_field(data: &[u8], off: usize) -> (r: Option<u64>)
    requires
        off + 12 <= data@.len(),
    ensures
        match r {
            Option::Some(v) => spec_parse_size(data@.subrange(off as int, off + 12)) == Some(
                v as nat,
            ) && v < 0x10_0000_0000,
            Option::None => spec_parse_size(data@.subrange(off as int, off + 12)) is None,
        },
{
    let dlen: usize = data.len();
    let ghost field = data@.subrange(off as int, off + 12);
    let mut i: usize = 0;
    let mut acc: u64 = 0;
    while i < 12 && 48 <= *vstd::slice::slice_index_get(data, off + i) && *vstd::slice::slice_index_get(
        data,
        off + i,
    ) <= 55
        invariant
            off + 12 <= data@.len() <= usize::MAX,
            0 <= i <= 12,
            field == data@.subrange(off as int, off + 12),
            spec_octal_end(field, 0) == spec_octal_end(field, i as nat),
            forall|k: int| 0 <= k < i ==> is_octal_digit(#[trigger] field[k]),
            acc == spec_octal_value(field, i as int),
            acc < 0x10_0000_0000,
        decreases 12 - i,
    {
        let b: u8 = *vstd::slice::slice_index_get(data, off + i);
        proof {
            assert(field[i as int] == data@[off + i]);
            assert(is_octal_digit(field[i as int]));
            lemma_octal_value_bound(field, (i + 1) as int);
            lemma_pow8_le((i + 1) as nat, 12);
            lemma_pow8_12();
            assert(spec_octal_end(field, i as nat) == spec_octal_end(field, (i + 1) as nat));
        }
        acc = acc * 8 + ((b - 48) as u64);
        i = i + 1;
    }
    proof {
        if i < 12 {
            assert(field[i as int] == data@[off + i]);
        }
        assert(spec_octal_end(field, i as nat) == i);
    }
    if i == 0 {
        return Option::None;
    }
    if i == 12 {
        return Option::Some(acc);
    }
    let t: u8 = *vstd::slice::slice_index_get(data, off + i);
    proof {
        assert(field[i as int] == data@[off + i]);
    }
    if t == 0 || t == 32 {
        Option::Some(acc)
    } else {
        Option::None
    }
}

proof fn lemma_pow8_12()
    ensures
        spec_pow8(12) == 0x10_0000_0000,
{
    assert(spec_pow8(0) == 1);
    assert(spec_pow8(1) == 8);
    assert(spec_pow8(2) == 64);
    assert(spec_pow8(3) == 512);
    assert(spec_pow8(4) == 0x1000);
    assert(spec_pow8(5) == 0x8000);
    assert(spec_pow8(6) == 0x4_0000);
    assert(spec_pow8(7) == 0x20_0000);
    assert(spec_pow8(8) == 0x100_0000);
    assert(spec_pow8(9) == 0x800_0000);
    assert(spec_pow8(10) == 0x4000_0000);
    assert(spec_pow8(11) == 0x2_0000_0000);
    assert(spec_pow8(12) == 0x10_0000_0000);
}

proof fn lemma_pow8_le(a: nat, b: nat)
    requires
        a <= b,
    ensures
        spec_pow8(a) <= spec_pow8(b),
    decreases b,
{
    if a < b {
        lemma_pow8_le(a, (b - 1) as nat);
        let p = spec_pow8((b - 1) as nat);
        assert(p <= 8 * p) by (nonlinear_arith)
            requires
                p >= 0,
        ;
    }
}

/// Whether the 512-byte block at `off` is all zero.
fn is_zero_block(data: &[u8], off: usize) -> (r: bool)
    requires
        off + 512 <= data@.len(),
    ensures
        r == spec_block_zero(data@, off as int),
{
    let dlen: usize = data.len();
    let mut i: usize = 0;
    while i < 512
        invariant
            off + 512 <= data@.len() <= usize::MAX,
            0 <= i <= 512,
            forall|j: int| off <= j < off + i ==> data@[j] == 0,
        decreases 512 - i,
    {
        if *vstd::slice::slice_index_get(data, off + i) != 0 {
            return false;
        }
        i = i + 1;
    }
    true
}

/// Whether the entry name at `off` equals the query.
fn name_matches(data: &[u8], off: usize, query: &[u8]) -> (r: bool)
    requires
        off + 100 <= data@.len(),
    ensures
        r == (spec_entry_name(data@, off as int) == query@),
{
    let dlen: usize = data.len();
    let ghost field = data@.subrange(off as int, off + 100);
    let mut n: usize = 0;
    while n < 100 && *vstd::slice::slice_index_get(data, off + n) != 0u8
        invariant
            off + 100 <= data@.len() <= usize::MAX,
            0 <= n <= 100,
            field == data@.subrange(off as int, off + 100),
            spec_nul_end(field, 0) == spec_nul_end(field, n as nat),
            forall|j: int| 0 <= j < n ==> field[j] != 0,
        decreases 100 - n,
    {
        proof {
            assert(field[n as int] == data@[off + n]);
        }
        n = n + 1;
    }
    proof {
        if n < 100 {
            assert(field[n as int] == data@[off + n]);
        }
        assert(spec_nul_end(field, n as nat) == n);
    }
    let ghost ename = spec_entry_name(data@, off as int);
    proof {
        assert(ename == field.take(n as int));
        assert(ename.len() == n);
    }
    if n != query.len() {
        proof {
            assert(ename.len() != query@.len());
        }
        return false;
    }
    let mut i: usize = 0;
    while i < n
        invariant
            off + 100 <= data@.len() <= usize::MAX,
            0 <= i <= n <= 100,
            n == query@.len(),
            field == data@.subrange(off as int, off + 100),
            ename == field.take(n as int),
            ename == spec_entry_name(data@, off as int),
            forall|j: int| 0 <= j < i ==> field[j] == query@[j],
        decreases n - i,
    {
        let a: u8 = *vstd::slice::slice_index_get(data, off + i);
        let b: u8 = *vstd::slice::slice_index_get(query, i);
        proof {
            assert(field[i as int] == data@[off + i]);
        }
        if a != b {
            proof {
                assert(field.take(n as int)[i as int] == field[i as int]);
                assert(ename[i as int] == field[i as int]);
                assert(ename[i as int] != query@[i as int]);
                assert(ename != query@);
            }
            return false;
        }
        i = i + 1;
    }
    proof {
        assert(ename =~= query@);
    }
    true
}

/// Copy `len` bytes starting at `start` out of the tape.
fn copy_blob(data: &[u8], start: usize, len: usize) -> (r: Vec<u8>)
    requires
        start + len <= data@.len(),
    ensures
        r@ == data@.subrange(start as int, start + len),
{
    let dlen: usize = data.len();
    let mut v: Vec<u8> = Vec::new();
    let mut i: usize = 0;
    while i < len
        invariant
            start + len <= data@.len() <= usize::MAX,
            0 <= i <= len,
            v@ == data@.subrange(start as int, start + i),
        decreases len - i,
    {
        let b: u8 = *vstd::slice::slice_index_get(data, start + i);
        v.push(b);
        proof {
            assert(v@ =~= data@.subrange(start as int, start + i + 1));
        }
        i = i + 1;
    }
    v
}

/// Scan the tape for the entry named by `query` and hand back a copy of its
/// blob, or say how the lookup failed.
pub fn tar_find_entry(data: &[u8], query: &[u8]) -> (r: Result<Vec<u8>, ArchiveError>)
    requires
        data@.len() <= 0x1000_0000_0000_0000,
    ensures
        match r {
            Result::Ok(v) => spec_tar_lookup(data@, query@, 0) == Ok::<Seq<u8>, ArchiveError>(v@),
            Result::Err(e) => spec_tar_lookup(data@, query@, 0) == Err::<Seq<u8>, ArchiveError>(e),
        },
{
    let n: usize = data.len();
    let mut off: usize = 0;
    loop
        invariant
            data@.len() <= 0x1000_0000_0000_0000,
            n == data@.len(),
            0 <= off <= n,
            spec_tar_lookup(data@, query@, off as int) == spec_tar_lookup(data@, query@, 0),
        decreases n - off,
    {
        if n - off < 512 {
            if off == n {
                return Result::Err(ArchiveError::NotFound);
            } else {
                return Result::Err(ArchiveError::Malformed);
            }
        }
        if is_zero_block(data, off) {
            return Result::Err(ArchiveError::NotFound);
        }
        let size_u64: Option<u64> = parse_size_field(data, off + 124);
        let size: u64 = match size_u64 {
            Option::Some(v) => v,
            Option::None => {
                return Result::Err(ArchiveError::Malformed);
            },
        };
        proof {
            assert(off + 124 + 12 == off + 136);
        }
        if (off as u64) + 512 + size > (n as u64) {
            return Result::Err(ArchiveError::Malformed);
        }
        let flag: u8 = *vstd::slice::slice_index_get(data, off + 156);
        let is_blob: bool = flag == 0 || flag == 48;
        if is_blob && name_matches(data, off, query) {
            let blob: Vec<u8> = copy_blob(data, off + 512, size as usize);
            return Result::Ok(blob);
        }
        let pad: u64 = ((size + 511) / 512) * 512;
        let next: u64 = (off as u64) + 512 + pad;
        if next > (n as u64) {
            return Result::Err(ArchiveError::Malformed);
        }
        off = next as usize;
    }
}

/// Pull the raw bytes of the named blob out of the packed asset tape; a
/// missing entry is a reported failure, never an empty success.
pub fn read_game_assets(data: &[u8], file_name: &str) -> (r: Result<Vec<u8>, ArchiveError>)
    requires
        data@.len() <= 0x1000_0000_0000_0000,
    ensures
        match r {
            Result::Ok(v) => spec_tar_lookup(data@, file_name.spec_bytes(), 0) == Ok::<
                Seq<u8>,
                ArchiveError,
            >(v@),
            Result::Err(e) => spec_tar_lookup(data@, file_name.spec_bytes(), 0) == Err::<
                Seq<u8>,
                ArchiveError,
            >(e),
        },
{
    let query: &[u8] = file_name.as_bytes();
    tar_find_entry(data, query)
}

} // verus!

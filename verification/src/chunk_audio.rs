//! The chunk engine: decides whether a file must be split before upload,
//! and plans the split into ordered, size-capped chunks whose filenames
//! embed a reversible sequence-number prefix.

use vstd::prelude::*;
use vstd::arithmetic::div_mod::lemma_fundamental_div_mod_converse;
use crate::text::{decimal_digits, lemma_decimal_digits_shape, push_char, u64_to_decimal};

verus! {

/// The target size for each chunk (49MB, kept below the upload ceiling to
/// leave protocol overhead margin).
pub const CHUNK_SIZE: u64 = 49 * 1024 * 1024;

/// The upload size ceiling enforced by the messaging endpoint (50MB).
pub const UPLOAD_LIMIT: u64 = 50 * 1024 * 1024;

/// Metadata about a single chunk
pub struct ChunkInfo {
    pub path: String,
    pub index: u32,
    pub size: u64,
}

/// Custom error type for chunking operations
pub enum ChunkError {
    Io(String),
    Message(String),
}

impl ChunkError {
    /// The human-readable description of the error.
    pub fn message(&self) -> (r: String)
        ensures
            (self matches ChunkError::Io(m) ==> r@ == "IO error: "@ + m@),
            (self matches ChunkError::Message(m) ==> r@ == m@),
    {
        match self {
            ChunkError::Io(m) => {
                let mut s = String::from_str("IO error: ");
                s.append(m.as_str());
                s
            },
            ChunkError::Message(m) => m.clone(),
        }
    }
}

impl From<String> for ChunkError {
    fn from(msg: String) -> (r: Self) {
        ChunkError::Message(msg)
    }
}

impl vstd::std_specs::convert::FromSpecImpl<String> for ChunkError {
    open spec fn obeys_from_spec() -> bool {
        true
    }

    open spec fn from_spec(msg: String) -> Self {
        ChunkError::Message(msg)
    }
}

/// True exactly when a file of the given size must be split before upload.
pub open spec fn needs_split(file_size: u64) -> bool {
    file_size > UPLOAD_LIMIT
}

/// Check if a file needs to be split
pub fn needs_chunking(file_size: u64) -> (r: bool)
    ensures
        r == needs_split(file_size),
{
    file_size > 50 * 1024 * 1024
}

/// Length of the leading run of ASCII digits in `s`.
pub open spec fn digit_prefix_len(s: Seq<char>) -> int
    decreases s.len(),
{
    if s.len() == 0 {
        0
    } else if '0' <= s[0] <= '9' {
        1 + digit_prefix_len(s.subrange(1, s.len() as int))
    } else {
        0
    }
}

pub proof fn lemma_digit_prefix_len(s: Seq<char>)
    ensures
        0 <= digit_prefix_len(s) <= s.len(),
        forall|j: int| 0 <= j < digit_prefix_len(s) ==> ('0' <= #[trigger] s[j] <= '9'),
        digit_prefix_len(s) < s.len() ==> !('0' <= s[digit_prefix_len(s)] <= '9'),
    decreases s.len(),
{
    if s.len() > 0 && '0' <= s[0] <= '9' {
        let tail = s.subrange(1, s.len() as int);
        lemma_digit_prefix_len(tail);
        assert forall|j: int| 0 <= j < digit_prefix_len(s) implies ('0' <= #[trigger] s[j]
            <= '9') by {
            if j > 0 {
                assert(s[j] == tail[j - 1]);
            }
        }
        if digit_prefix_len(s) < s.len() {
            assert(s[digit_prefix_len(s)] == tail[digit_prefix_len(tail)]);
        }
    }
}

/// True when a filename carries a chunk-number prefix: one or more ASCII
/// digits followed by an underscore.
pub open spec fn has_chunk_prefix(s: Seq<char>) -> bool {
    let d = digit_prefix_len(s);
    1 <= d < s.len() && s[d] == '_'
}

/// What stripping the chunk-number prefix leaves of a filename: everything
/// after the underscore that ends a leading digit run, or the whole name
/// unchanged when it has no such prefix.
pub open spec fn original_name_of(name: Seq<char>) -> Seq<char> {
    if has_chunk_prefix(name) {
        name.subrange(digit_prefix_len(name) + 1, name.len() as int)
    } else {
        name
    }
}

/// Extract the original filename from a chunked filename; a name without
/// a leading digits-underscore prefix comes back unchanged.
/// Example: "1_artist - title.mp3" -> "artist - title.mp3"
pub fn extract_original_filename(chunked_name: &str) -> (r: String)
    ensures
        r@ == original_name_of(chunked_name@),
{
    let n = chunked_name.unicode_len();
    let mut i: usize = 0;
    while i < n
        invariant
            i <= n,
            n == chunked_name@.len(),
            forall|j: int| 0 <= j < i ==> ('0' <= #[trigger] chunked_name@[j] <= '9'),
        ensures
            i <= n,
            forall|j: int| 0 <= j < i ==> ('0' <= #[trigger] chunked_name@[j] <= '9'),
            i == n || !('0' <= chunked_name@[i as int] <= '9'),
        decreases n - i,
    {
        let c = chunked_name.get_char(i);
        if !('0' <= c && c <= '9') {
            break;
        }
        i = i + 1;
    }
    proof {
        lemma_digit_prefix_len(chunked_name@);
        let d = digit_prefix_len(chunked_name@);
        assert(d == i) by {
            if d < i {
                assert('0' <= chunked_name@[d] <= '9');
            }
            if d > i {
                assert('0' <= chunked_name@[i as int] <= '9');
            }
        }
    }
    if 1 <= i && i < n {
        let c = chunked_name.get_char(i);
        if c == '_' {
            let tail = chunked_name.substring_char(i + 1, n);
            return tail.to_owned();
        }
    }
    chunked_name.to_owned()
}

/// The filename given to chunk number `index` of a source file whose own
/// filename is `base`: the decimal index, an underscore, then `base`.
pub open spec fn chunk_name_spec(index: nat, base: Seq<char>) -> Seq<char> {
    decimal_digits(index) + seq!['_'] + base
}

/// Builds the chunk filename that `chunk_name_spec` describes.
pub fn chunk_file_name(index: u64, base: &str) -> (r: String)
    ensures
        r@ == chunk_name_spec(index as nat, base@),
{
    let mut s = u64_to_decimal(index);
    push_char(&mut s, '_');
    let r = s.concat(base);
    proof {
        assert(r@ =~= chunk_name_spec(index as nat, base@));
    }
    r
}

/// The full path of a chunk file: it sits in the same directory as its
/// source, under the name `chunk_name_spec` gives it.
pub open spec fn chunk_path_spec(dir: Seq<char>, index: nat, base: Seq<char>) -> Seq<char> {
    dir + seq!['/'] + chunk_name_spec(index, base)
}

fn chunk_path(dir: &str, index: u64, base: &str) -> (r: String)
    ensures
        r@ == chunk_path_spec(dir@, index as nat, base@),
{
    let mut s = String::from_str(dir);
    push_char(&mut s, '/');
    let name = chunk_file_name(index, base);
    let r = s.concat(name.as_str());
    proof {
        assert(r@ =~= chunk_path_spec(dir@, index as nat, base@));
    }
    r
}

/// How many chunks a split of a file of the given size produces: none when
/// no split is needed, otherwise the size divided by `CHUNK_SIZE`, rounded
/// up.
pub open spec fn chunk_count(total_size: u64) -> int {
    if needs_split(total_size) {
        (total_size + CHUNK_SIZE - 1) / (CHUNK_SIZE as int)
    } else {
        0
    }
}

/// Total number of bytes covered by a sequence of chunk descriptors.
pub open spec fn sum_sizes(chunks: Seq<ChunkInfo>) -> int
    decreases chunks.len(),
{
    if chunks.len() == 0 {
        0
    } else {
        sum_sizes(chunks.drop_last()) + chunks.last().size
    }
}

proof fn lemma_sum_sizes_push(s: Seq<ChunkInfo>, c: ChunkInfo)
    ensures
        sum_sizes(s.push(c)) == sum_sizes(s) + c.size,
{
    assert(s.push(c).drop_last() =~= s);
}

/// Plans the split of a source file of `total_size` bytes that lies in
/// directory `dir` under the filename `base`: the ordered descriptors of
/// the chunk files to produce, with their exact sizes and paths. A file
/// that does not exceed the upload limit yields no chunks. Otherwise the
/// descriptors carry sequence numbers 1, 2, ... in order, every chunk but
/// the last is exactly `CHUNK_SIZE` bytes, the last holds the nonempty
/// remainder, and together they cover the source byte for byte.
pub fn plan_chunks(total_size: u64, dir: &str, base: &str) -> (chunks: Vec<ChunkInfo>)
    requires
        total_size <= CHUNK_SIZE * 0xffff_ffff,
    ensures
        !needs_split(total_size) ==> chunks@.len() == 0,
        needs_split(total_size) ==> {
            &&& chunks@.len() == chunk_count(total_size)
            &&& sum_sizes(chunks@) == total_size
            &&& forall|i: int| 0 <= i < chunks@.len() ==> (#[trigger] chunks@[i]).index == i + 1
            &&& forall|i: int|
                0 <= i < chunks@.len() - 1 ==> (#[trigger] chunks@[i]).size == CHUNK_SIZE
            &&& chunks@.last().size == total_size - (chunks@.len() - 1) * CHUNK_SIZE
            &&& 0 < chunks@.last().size <= CHUNK_SIZE
            &&& forall|i: int|
                0 <= i < chunks@.len() ==> (#[trigger] chunks@[i]).path@ == chunk_path_spec(
                    dir@,
                    (i + 1) as nat,
                    base@,
                )
        },
{
    let mut chunks: Vec<ChunkInfo> = Vec::new();
    if !needs_chunking(total_size) {
        return chunks;
    }
    let mut remaining: u64 = total_size;
    while remaining > 0
        invariant
            needs_split(total_size),
            total_size <= CHUNK_SIZE * 0xffff_ffff,
            remaining <= total_size,
            sum_sizes(chunks@) == total_size - remaining,
            forall|i: int| 0 <= i < chunks@.len() ==> (#[trigger] chunks@[i]).index == i + 1,
            forall|i: int|
                0 <= i < chunks@.len() ==> (#[trigger] chunks@[i]).path@ == chunk_path_spec(
                    dir@,
                    (i + 1) as nat,
                    base@,
                ),
            remaining > 0 ==> forall|i: int|
                0 <= i < chunks@.len() ==> (#[trigger] chunks@[i]).size == CHUNK_SIZE,
            remaining > 0 ==> chunks@.len() * CHUNK_SIZE == total_size - remaining,
            remaining == 0 ==> {
                &&& chunks@.len() == chunk_count(total_size)
                &&& chunks@.len() >= 1
                &&& forall|i: int|
                    0 <= i < chunks@.len() - 1 ==> (#[trigger] chunks@[i]).size == CHUNK_SIZE
                &&& chunks@.last().size == total_size - (chunks@.len() - 1) * CHUNK_SIZE
                &&& 0 < chunks@.last().size <= CHUNK_SIZE
            },
        decreases remaining,
    {
        let ghost pre = chunks@;
        let ghost pre_remaining = remaining;
        let k: usize = chunks.len();
        proof {
            assert(k * CHUNK_SIZE == total_size - remaining);
            assert(k < 0xffff_ffff) by {
                if k >= 0xffff_ffff {
                    vstd::arithmetic::mul::lemma_mul_inequality(
                        0xffff_ffff as int,
                        k as int,
                        CHUNK_SIZE as int,
                    );
                }
            }
        }
        let index: u32 = (k + 1) as u32;
        let c: u64 = if remaining <= CHUNK_SIZE {
            remaining
        } else {
            CHUNK_SIZE
        };
        let path = chunk_path(dir, index as u64, base);
        let info = ChunkInfo { path, index, size: c };
        let ghost ginfo = info;
        chunks.push(info);
        remaining = remaining - c;
        proof {
            lemma_sum_sizes_push(pre, ginfo);
            assert((k + 1) * (CHUNK_SIZE as int) == k * (CHUNK_SIZE as int) + CHUNK_SIZE) by (nonlinear_arith);
            if remaining == 0 {
                let n = k + 1;
                let r = c as int;
                assert(0 < r <= CHUNK_SIZE);
                assert(total_size + CHUNK_SIZE - 1 == n * CHUNK_SIZE + (r - 1));
                lemma_fundamental_div_mod_converse(
                    total_size + CHUNK_SIZE - 1,
                    CHUNK_SIZE as int,
                    n as int,
                    r - 1,
                );
                assert(chunks@.len() == chunk_count(total_size));
            }
        }
    }
    chunks
}

/// Stripping the prefix recovers the base name: `extract_original_filename`
/// is a left inverse of the chunk naming function, for every index and
/// every base name.
pub proof fn lemma_extract_inverts_chunk_name(index: nat, base: Seq<char>)
    ensures
        original_name_of(chunk_name_spec(index, base)) == base,
{
    let full = chunk_name_spec(index, base);
    let dec = decimal_digits(index);
    let d = dec.len() as int;
    lemma_decimal_digits_shape(index);
    lemma_digit_prefix_len(full);
    assert(full[d] == '_');
    assert forall|j: int| 0 <= j < d implies ('0' <= #[trigger] full[j] <= '9') by {
        assert(full[j] == dec[j]);
    }
    let p = digit_prefix_len(full);
    assert(p == d) by {
        if p < d {
            assert('0' <= full[p] <= '9');
        }
        if p > d {
            assert('0' <= full[d] <= '9');
        }
    }
    assert(has_chunk_prefix(full));
    assert(full.subrange(d + 1, full.len() as int) =~= base);
}

/// Two chunks of the same source never collide in name: distinct sequence
/// numbers give distinct filenames.
pub proof fn lemma_chunk_names_distinct(i: nat, j: nat, base: Seq<char>)
    requires
        i != j,
    ensures
        chunk_name_spec(i, base) != chunk_name_spec(j, base),
{
    let fi = chunk_name_spec(i, base);
    let fj = chunk_name_spec(j, base);
    let di = decimal_digits(i);
    let dj = decimal_digits(j);
    if fi == fj {
        assert(fi.len() == di.len() + 1 + base.len());
        assert(fj.len() == dj.len() + 1 + base.len());
        assert(di.len() == dj.len());
        assert forall|k: int| 0 <= k < di.len() implies di[k] == dj[k] by {
            assert(fi[k] == (di + seq!['_'])[k]);
            assert(fj[k] == (dj + seq!['_'])[k]);
        }
        assert(di =~= dj);
        crate::text::lemma_decimal_digits_injective(i, j);
    }
}

/// The same holds of the full paths the planner hands out: two chunks of
/// one split never point at the same file.
pub proof fn lemma_chunk_paths_distinct(dir: Seq<char>, i: nat, j: nat, base: Seq<char>)
    requires
        i != j,
    ensures
        chunk_path_spec(dir, i, base) != chunk_path_spec(dir, j, base),
{
    lemma_chunk_names_distinct(i, j, base);
    let pi = chunk_path_spec(dir, i, base);
    let pj = chunk_path_spec(dir, j, base);
    let ni = chunk_name_spec(i, base);
    let nj = chunk_name_spec(j, base);
    if pi == pj {
        assert(pi.len() == dir.len() + 1 + ni.len());
        assert(pj.len() == dir.len() + 1 + nj.len());
        assert forall|k: int| 0 <= k < ni.len() implies ni[k] == nj[k] by {
            assert(pi[dir.len() + 1 + k] == ni[k]);
            assert(pj[dir.len() + 1 + k] == nj[k]);
        }
        assert(ni =~= nj);
    }
}

} // verus!

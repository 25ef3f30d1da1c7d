//! Product quantization helpers: splitting vectors into sub-vectors and
//! addressing the centroids of one sub-vector inside a flat codebook.

use vstd::prelude::*;
use vstd::arithmetic::div_mod::{lemma_fundamental_div_mod, lemma_fundamental_div_mod_converse};
use vstd::arithmetic::power2::{pow2, lemma_pow2_pos, lemma_pow2_unfold, lemma_pow2_strictly_increases};
use vstd::layout::unsigned_int_max_values;
use vstd::slice::slice_subrange;
use crate::error::Error;

verus! {

/// Whether a flat buffer of `len` values consists of whole vectors of
/// `dimension` values each.
pub open spec fn is_flat_matrix(len: nat, dimension: nat) -> bool {
    if dimension == 0 {
        len == 0
    } else {
        len % dimension == 0
    }
}

/// The number of vectors in a flat buffer of `len` values.
pub open spec fn num_vectors(len: nat, dimension: nat) -> nat {
    if dimension == 0 {
        0
    } else {
        len / dimension
    }
}

/// Buffer `j` of the split of `vectors` into `m` sub-vectors: for each vector
/// in turn, its `j`-th slice of `dimension / m` values.
pub open spec fn sub_vector_buffer<T>(vectors: Seq<T>, dimension: nat, m: nat, j: int) -> Seq<T> {
    let w = (dimension / m) as int;
    Seq::new(
        num_vectors(vectors.len(), dimension) * (dimension / m),
        |k: int| vectors[(k / w) * dimension + j * w + k % w],
    )
}

/// The split of `vectors` into `m` buffers, one per sub-vector.
pub open spec fn divided<T>(vectors: Seq<T>, dimension: nat, m: nat) -> Seq<Seq<T>> {
    Seq::new(m, |j: int| sub_vector_buffer(vectors, dimension, m, j))
}

/// Puts `n` vectors of `dimension` values back together from their
/// sub-vector buffers.
pub open spec fn interleaved<T>(buffers: Seq<Seq<T>>, dimension: nat, n: nat) -> Seq<T> {
    let w = (dimension / buffers.len()) as int;
    Seq::new(
        n * dimension,
        |p: int| buffers[(p % (dimension as int)) / w][(p / (dimension as int)) * w + (p % (dimension as int)) % w],
    )
}

/// The contents of each buffer of a vector of buffers.
pub open spec fn buffer_views<T>(buffers: Seq<Vec<T>>) -> Seq<Seq<T>> {
    Seq::new(buffers.len(), |j: int| buffers[j]@)
}

/// Position `c` of slice `j` of vector `i` lies inside the flat buffer.
proof fn lemma_flat_index(i: int, n: int, d: int, j: int, m: int, w: int, c: int)
    requires
        0 <= i < n,
        0 <= j < m,
        0 <= c < w,
        m * w == d,
    ensures
        0 <= i * d,
        i * d + d <= n * d,
        0 <= j * w,
        j * w + c < d,
        0 <= i * d + j * w + c < n * d,
{
    assert(0 <= i * d && i * d + d <= n * d) by (nonlinear_arith)
        requires
            0 <= i < n,
            0 <= d,
            m * w == d,
            0 < m,
            0 < w,
    {
    }
    assert(0 <= j * w && j * w + w <= m * w) by (nonlinear_arith)
        requires
            0 <= j < m,
            0 < w,
    {
    }
}

/// Position `i * w + c` of a sub-vector buffer belongs to vector `i`, offset `c`.
proof fn lemma_buffer_index(i: int, w: int, c: int)
    requires
        0 <= i,
        0 <= c < w,
    ensures
        (i * w + c) / w == i,
        (i * w + c) % w == c,
{
    lemma_fundamental_div_mod_converse(i * w + c, w, i, c);
}

/// What the exact division of `d` by `m` gives back when multiplied by `m`.
proof fn lemma_exact_division(d: int, m: int)
    requires
        0 <= d,
        0 < m,
        d % m == 0,
    ensures
        m * (d / m) == d,
        0 <= d / m,
        d > 0 ==> d / m > 0,
{
    lemma_fundamental_div_mod(d, m);
    assert(0 <= d / m && (d > 0 ==> d / m > 0)) by (nonlinear_arith)
        requires
            m * (d / m) == d,
            0 <= d,
            0 < m,
    {
    }
}

/// Splits `vectors`, a flat buffer of vectors of `dimension` values each,
/// into `m` buffers: buffer `j` holds slice `j` of every vector, in the order
/// of the vectors. Fails when `m` does not divide `dimension`.
pub fn divide_to_subvectors<T: Copy>(vectors: &[T], dimension: usize, m: usize) -> (res: Result<
    Vec<Vec<T>>,
    Error,
>)
    requires
        m > 0,
        is_flat_matrix(vectors@.len(), dimension as nat),
    ensures
        dimension % m != 0 ==> res == Err::<Vec<Vec<T>>, Error>(
            Error::InvalidInput { dimension, num_sub_vectors: m },
        ),
        dimension % m == 0 ==> res is Ok && buffer_views(res->Ok_0@) == divided(
            vectors@,
            dimension as nat,
            m as nat,
        ),
{
    if dimension % m != 0 {
        return Err(Error::InvalidInput { dimension, num_sub_vectors: m });
    }
    let w: usize = dimension / m;
    let n: usize = if dimension == 0 {
        0
    } else {
        vectors.len() / dimension
    };
    proof {
        lemma_exact_division(dimension as int, m as int);
        if dimension > 0 {
            lemma_fundamental_div_mod(vectors@.len() as int, dimension as int);
            assert(n * dimension == vectors@.len()) by (nonlinear_arith)
                requires
                    vectors@.len() == dimension * (vectors@.len() as int / dimension as int) + 0,
                    n == vectors@.len() as int / dimension as int,
            {
            }
        }
    }
    let total: usize = vectors.len();
    let mut subarrays: Vec<Vec<T>> = Vec::new();
    let mut j: usize = 0;
    while j < m
        invariant
            j <= m,
            total == vectors@.len(),
            m * w == dimension,
            n == num_vectors(vectors@.len(), dimension as nat),
            w == dimension as nat / m as nat,
            n * dimension == vectors@.len(),
            subarrays@.len() == j,
            forall|b: int|
                0 <= b < j ==> (#[trigger] subarrays@[b])@ == sub_vector_buffer(
                    vectors@,
                    dimension as nat,
                    m as nat,
                    b,
                ),
        decreases m - j,
    {
        let mut buffer: Vec<T> = Vec::new();
        let mut i: usize = 0;
        while i < n
            invariant
                i <= n,
                j < m,
                m * w == dimension,
                n * dimension == vectors@.len(),
                total == vectors@.len(),
                buffer@.len() == i * w,
                forall|k: int|
                    0 <= k < buffer@.len() ==> #[trigger] buffer@[k] == vectors@[(k / (w as int))
                        * dimension + j * w + k % (w as int)],
            decreases n - i,
        {
            let mut c: usize = 0;
            while c < w
                invariant
                    c <= w,
                    i < n,
                    j < m,
                    m * w == dimension,
                    n * dimension == vectors@.len(),
                    total == vectors@.len(),
                    buffer@.len() == i * w + c,
                    forall|k: int|
                        0 <= k < buffer@.len() ==> #[trigger] buffer@[k] == vectors@[(k / (
                        w as int)) * dimension + j * w + k % (w as int)],
                decreases w - c,
            {
                proof {
                    lemma_flat_index(
                        i as int,
                        n as int,
                        dimension as int,
                        j as int,
                        m as int,
                        w as int,
                        c as int,
                    );
                    lemma_buffer_index(i as int, w as int, c as int);
                }
                let at: usize = i * dimension + j * w + c;
                buffer.push(vectors[at]);
                c = c + 1;
            }
            proof {
                assert(i * w + w == (i + 1) * w) by (nonlinear_arith);
            }
            i = i + 1;
        }
        proof {
            assert(buffer@ =~= sub_vector_buffer(vectors@, dimension as nat, m as nat, j as int));
        }
        subarrays.push(buffer);
        j = j + 1;
    }
    proof {
        assert(buffer_views(subarrays@) =~= divided(vectors@, dimension as nat, m as nat));
    }
    Ok(subarrays)
}

/// Putting the buffers of a split back together gives the vectors that were
/// split, and every buffer holds one slice of `dimension / m` values per vector.
pub proof fn lemma_interleave_recovers<T>(vectors: Seq<T>, dimension: nat, m: nat)
    requires
        m > 0,
        dimension % m == 0,
        is_flat_matrix(vectors.len(), dimension),
    ensures
        divided(vectors, dimension, m).len() == m,
        forall|j: int|
            0 <= j < m ==> (#[trigger] divided(vectors, dimension, m)[j]).len() == num_vectors(
                vectors.len(),
                dimension,
            ) * (dimension / m),
        interleaved(divided(vectors, dimension, m), dimension, num_vectors(vectors.len(), dimension))
            == vectors,
{
    let n = num_vectors(vectors.len(), dimension) as int;
    let d = dimension as int;
    let w = (dimension / m) as int;
    let parts = divided(vectors, dimension, m);
    let back = interleaved(parts, dimension, n as nat);
    lemma_exact_division(d, m as int);
    if dimension > 0 {
        lemma_fundamental_div_mod(vectors.len() as int, d);
        assert(n * d == vectors.len()) by (nonlinear_arith)
            requires
                vectors.len() == d * (vectors.len() as int / d) + 0,
                n == vectors.len() as int / d,
        {
        }
    } else {
        assert(n * d == 0) by (nonlinear_arith)
            requires
                d == 0,
        {
        }
    }
    assert(back.len() == vectors.len());
    assert forall|p: int| 0 <= p < back.len() implies back[p] == vectors[p] by {
        let i = p / d;
        let r = p % d;
        let j = r / w;
        let c = r % w;
        lemma_fundamental_div_mod(p, d);
        lemma_fundamental_div_mod(r, w);
        assert(0 <= i < n && 0 <= j < m) by (nonlinear_arith)
            requires
                0 <= p < n * d,
                p == d * i + r,
                0 <= r < d,
                r == w * j + c,
                0 <= c < w,
                m * w == d,
                0 < w,
                0 < d,
        {
        }
        lemma_buffer_index(i, w, c);
        assert(0 <= i * w + c < n * w) by (nonlinear_arith)
            requires
                0 <= i < n,
                0 <= c < w,
        {
        }
        assert(parts[j][i * w + c] == vectors[i * d + j * w + c]);
        assert(i * d + j * w + c == p) by (nonlinear_arith)
            requires
                p == d * i + r,
                r == w * j + c,
        {
        }
    }
    assert(back =~= vectors);
}

/// Doubles of one: `pow2(bits)` fits wherever a larger power of two fits.
proof fn lemma_pow2_monotonic(a: nat, b: nat)
    requires
        a <= b,
    ensures
        pow2(a) <= pow2(b),
{
    if a < b {
        lemma_pow2_strictly_increases(a, b);
    }
}

/// The number of centroids that `num_bits` bits can address: two to the
/// power of `num_bits`.
pub fn num_centroids(num_bits: u32) -> (n: usize)
    requires
        num_bits < usize::BITS,
    ensures
        n == pow2(num_bits as nat),
{
    let mut n: usize = 1;
    let mut done: u32 = 0;
    proof {
        unsigned_int_max_values();
        lemma_pow2_strictly_increases(num_bits as nat, usize::BITS as nat);
        lemma_pow2_unfold(1);
        assert(pow2(0) == 1) by {
            vstd::arithmetic::power2::lemma2_to64();
        }
    }
    while done < num_bits
        invariant
            done <= num_bits,
            n == pow2(done as nat),
            pow2(num_bits as nat) <= usize::MAX,
        decreases num_bits - done,
    {
        proof {
            lemma_pow2_unfold((done + 1) as nat);
            lemma_pow2_monotonic((done + 1) as nat, num_bits as nat);
        }
        n = n * 2;
        done = done + 1;
    }
    n
}

/// How many values of a codebook belong to one sub-vector: one centroid of
/// `dimension / num_sub_vectors` values for each of the `2^num_bits` codes.
pub open spec fn centroid_stride(num_bits: nat, dimension: nat, num_sub_vectors: nat) -> int {
    pow2(num_bits) * (dimension as int / num_sub_vectors as int)
}

/// Where the centroids of sub-vector `idx` start in a flat codebook.
pub open spec fn centroids_start(
    num_bits: nat,
    dimension: nat,
    num_sub_vectors: nat,
    idx: nat,
) -> int {
    idx * pow2(num_bits) * (dimension as int / num_sub_vectors as int)
}

/// Where the centroids of sub-vector `idx` end in a flat codebook.
pub open spec fn centroids_end(
    num_bits: nat,
    dimension: nat,
    num_sub_vectors: nat,
    idx: nat,
) -> int {
    (idx + 1) * pow2(num_bits) * (dimension as int / num_sub_vectors as int)
}

/// The length of a whole codebook, laid out as
/// `[sub_vector][centroid][value]`.
pub open spec fn codebook_len(num_bits: nat, dimension: nat, num_sub_vectors: nat) -> int {
    num_sub_vectors * pow2(num_bits) * (dimension as int / num_sub_vectors as int)
}

/// The part of a flat codebook that holds the centroids of sub-vector
/// `sub_vector_idx`: a slice of the codebook, never a copy.
pub fn get_sub_vector_centroids<const NUM_BITS: u32, T>(
    codebook: &[T],
    dimension: usize,
    num_sub_vectors: usize,
    sub_vector_idx: usize,
) -> (centroids: &[T])
    requires
        sub_vector_idx < num_sub_vectors,
        centroids_end(
            NUM_BITS as nat,
            dimension as nat,
            num_sub_vectors as nat,
            sub_vector_idx as nat,
        ) <= codebook@.len(),
    ensures
        centroids@ == codebook@.subrange(
            centroids_start(
                NUM_BITS as nat,
                dimension as nat,
                num_sub_vectors as nat,
                sub_vector_idx as nat,
            ),
            centroids_end(
                NUM_BITS as nat,
                dimension as nat,
                num_sub_vectors as nat,
                sub_vector_idx as nat,
            ),
        ),
{
    let sub_vector_width: usize = dimension / num_sub_vectors;
    let total: usize = codebook.len();
    let ghost p = pow2(NUM_BITS as nat) as int;
    let ghost w = sub_vector_width as int;
    let ghost idx = sub_vector_idx as int;
    proof {
        lemma_pow2_pos(NUM_BITS as nat);
    }
    if sub_vector_width == 0 {
        proof {
            assert(idx * p * w == 0 && (idx + 1) * p * w == 0) by (nonlinear_arith)
                requires
                    w == 0,
            {
            }
        }
        return slice_subrange(codebook, 0, 0);
    }
    proof {
        assert(p <= (idx + 1) * p * w && p * w <= (idx + 1) * p * w && idx * p * w == idx * (p * w)
            && (idx + 1) * p * w == idx * (p * w) + p * w && 0 <= idx * (p * w)) by (nonlinear_arith)
            requires
                0 <= idx,
                1 <= p,
                1 <= w,
        {
        }
    }
    proof {
        unsigned_int_max_values();
        if NUM_BITS >= usize::BITS {
            lemma_pow2_monotonic(usize::BITS as nat, NUM_BITS as nat);
        }
    }
    let stride: usize = num_centroids(NUM_BITS) * sub_vector_width;
    let start: usize = sub_vector_idx * stride;
    slice_subrange(codebook, start, start + stride)
}

/// The centroid ranges of the sub-vectors `0 .. num_sub_vectors` tile the
/// codebook: the first starts at zero, each ends where the next starts, the
/// last ends at the codebook's end, and every position of the codebook lies
/// in the range of exactly one sub-vector.
pub proof fn lemma_centroids_tile_codebook(num_bits: nat, dimension: nat, num_sub_vectors: nat)
    requires
        num_sub_vectors > 0,
    ensures
        centroids_start(num_bits, dimension, num_sub_vectors, 0) == 0,
        centroids_end(num_bits, dimension, num_sub_vectors, (num_sub_vectors - 1) as nat)
            == codebook_len(num_bits, dimension, num_sub_vectors),
        forall|i: nat| #[trigger]
            centroids_end(num_bits, dimension, num_sub_vectors, i) == centroids_start(
                num_bits,
                dimension,
                num_sub_vectors,
                i + 1,
            ),
        forall|i: nat| #[trigger]
            centroids_end(num_bits, dimension, num_sub_vectors, i) - centroids_start(
                num_bits,
                dimension,
                num_sub_vectors,
                i,
            ) == centroid_stride(num_bits, dimension, num_sub_vectors),
        forall|i: nat, position: int|
            i < num_sub_vectors && 0 <= position < codebook_len(
                num_bits,
                dimension,
                num_sub_vectors,
            ) ==> ((#[trigger] centroids_start(num_bits, dimension, num_sub_vectors, i) <= position
                < centroids_end(num_bits, dimension, num_sub_vectors, i)) <==> i == #[trigger] (
            position / centroid_stride(num_bits, dimension, num_sub_vectors))),
{
    let p = pow2(num_bits) as int;
    let w = dimension as int / num_sub_vectors as int;
    let stride = p * w;
    let total = codebook_len(num_bits, dimension, num_sub_vectors);
    lemma_pow2_pos(num_bits);
    assert(0 * p * w == 0) by (nonlinear_arith);
    assert(total == num_sub_vectors * stride) by (nonlinear_arith)
        requires
            total == num_sub_vectors * p * w,
            stride == p * w,
    {
    }
    assert forall|i: nat| #[trigger]
        centroids_end(num_bits, dimension, num_sub_vectors, i) - centroids_start(
            num_bits,
            dimension,
            num_sub_vectors,
            i,
        ) == stride by {
        assert((i + 1) * p * w - i * p * w == p * w) by (nonlinear_arith);
    }
    assert forall|i: nat, position: int|
        i < num_sub_vectors && 0 <= position < total implies ((#[trigger] centroids_start(
        num_bits,
        dimension,
        num_sub_vectors,
        i,
    ) <= position < centroids_end(num_bits, dimension, num_sub_vectors, i)) <==> i == #[trigger] (
    position / stride)) by {
        assert(stride > 0) by (nonlinear_arith)
            requires
                0 <= position < num_sub_vectors * stride,
        {
        }
        let q = position / stride;
        lemma_fundamental_div_mod(position, stride);
        assert(i * p * w == i * stride && (i + 1) * p * w == i * stride + stride)
            by (nonlinear_arith)
            requires
                stride == p * w,
        {
        }
        assert((i * stride <= position < i * stride + stride) <==> i == q) by (nonlinear_arith)
            requires
                position == stride * q + position % stride,
                0 <= position % stride < stride,
        {
        }
    }
}

} // verus!

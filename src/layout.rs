use vstd::prelude::*;

verus! {

/// The divisors of `n` among `1..=k`, in increasing order.
pub open spec fn divisors_upto(n: int, k: int) -> Seq<int>
    decreases k,
{
    if k <= 0 {
        Seq::empty()
    } else if n % k == 0 {
        divisors_upto(n, k - 1).push(k)
    } else {
        divisors_upto(n, k - 1)
    }
}

/// The number of rows for a grid of `n` graphs: the middle divisor of `n`,
/// the smaller of the two middle ones when there is an even number of
/// divisors; zero for no graph.
pub open spec fn rows_for(n: int) -> int {
    let f = divisors_upto(n, n);
    let c = f.len() as int;
    if c == 0 {
        0
    } else if c % 2 == 0 {
        if f[c / 2] < f[c / 2 - 1] {
            f[c / 2]
        } else {
            f[c / 2 - 1]
        }
    } else {
        f[c / 2]
    }
}

proof fn lemma_divisors_bounded(n: int, k: int)
    ensures
        forall|i: int|
            0 <= i < divisors_upto(n, k).len() ==> 1 <= #[trigger] divisors_upto(n, k)[i] <= k,
        divisors_upto(n, k).len() <= if k < 0 {
            0
        } else {
            k
        },
    decreases k,
{
    if k > 0 {
        lemma_divisors_bounded(n, k - 1);
    }
}

/// Chooses the number of rows for a grid of `thread_count` graphs.
pub fn calculate_rows(thread_count: usize) -> (r: usize)
    ensures
        r == rows_for(thread_count as int),
{
    let n = thread_count;
    let mut factors: Vec<usize> = Vec::new();
    let mut k: usize = 0;
    while k < n
        invariant
            k <= n,
            factors@.len() == divisors_upto(n as int, k as int).len(),
            forall|i: int|
                0 <= i < factors@.len() ==> factors@[i] as int == #[trigger] divisors_upto(
                    n as int,
                    k as int,
                )[i],
        decreases n - k,
    {
        let x = k + 1;
        if n % x == 0 {
            factors.push(x);
        }
        k = x;
    }
    proof {
        lemma_divisors_bounded(n as int, n as int);
    }
    let count = factors.len();
    if count == 0 {
        return 0;
    }
    if count % 2 == 0 {
        let a = factors[count / 2];
        let b = factors[count / 2 - 1];
        if a < b {
            a
        } else {
            b
        }
    } else {
        factors[count / 2]
    }
}

pub struct ChunkedView<T> {
    pub items: Seq<T>,
    pub chunk_size: usize,
}

/// Hands out the items of a vector in chunks of a fixed size, the last chunk
/// holding what is left.
pub struct ChunkedVec<T> {
    vec: Vec<T>,
    chunk_size: usize,
}

impl<T> View for ChunkedVec<T> {
    type V = ChunkedView<T>;

    closed spec fn view(&self) -> ChunkedView<T> {
        ChunkedView { items: self.vec@, chunk_size: self.chunk_size }
    }
}

impl<T> ChunkedVec<T> {
    pub fn new(vec: Vec<T>, chunk_size: usize) -> (r: ChunkedVec<T>)
        ensures
            r@.items == vec@,
            r@.chunk_size == chunk_size,
    {
        ChunkedVec { vec, chunk_size }
    }

    /// The next chunk: the first `chunk_size` items that are left, or all of
    /// them when fewer are left; `None` once none is left.
    pub fn next(&mut self) -> (r: Option<Vec<T>>)
        ensures
            final(self)@.chunk_size == old(self)@.chunk_size,
            old(self)@.items.len() == 0 ==> r is None && final(self)@.items == old(self)@.items,
            old(self)@.items.len() > 0 ==> {
                let k = if old(self)@.chunk_size <= old(self)@.items.len() {
                    old(self)@.chunk_size as int
                } else {
                    old(self)@.items.len() as int
                };
                &&& r is Some
                &&& r->0@ == old(self)@.items.subrange(0, k)
                &&& final(self)@.items == old(self)@.items.subrange(k, old(self)@.items.len() as int)
            },
    {
        let n = self.vec.len();
        if n == 0 {
            return None;
        }
        let k = if self.chunk_size <= n {
            self.chunk_size
        } else {
            n
        };
        let mut rest = self.vec.split_off(k);
        std::mem::swap(&mut self.vec, &mut rest);
        Some(rest)
    }
}

} // verus!

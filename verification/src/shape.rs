use vstd::prelude::*;

use crate::errors::PipelineError;

verus! {

/// Product of the per-dimension extents: how many elements a volume of this
/// shape holds.
pub open spec fn spec_numel(extents: Seq<usize>) -> nat
    decreases extents.len(),
{
    if extents.len() == 0 {
        1
    } else {
        (extents[0] as nat) * spec_numel(extents.drop_first())
    }
}

/// Unfolding one dimension off the front of a suffix.
proof fn lemma_numel_skip(s: Seq<usize>, i: int)
    requires
        0 <= i < s.len(),
    ensures
        spec_numel(s.skip(i)) == s[i] * spec_numel(s.skip(i + 1)),
{
    assert(s.skip(i).drop_first() =~= s.skip(i + 1));
    assert(s.skip(i)[0] == s[i]);
}

/// With no zero extent, dropping leading dimensions never grows the product.
proof fn lemma_numel_suffix_bound(s: Seq<usize>, i: int)
    requires
        0 <= i <= s.len(),
        forall|k: int| 0 <= k < s.len() ==> s[k] >= 1,
    ensures
        spec_numel(s) >= spec_numel(s.skip(i)),
    decreases i,
{
    if i == 0 {
        assert(s.skip(0) =~= s);
    } else {
        lemma_numel_suffix_bound(s, i - 1);
        lemma_numel_skip(s, i - 1);
        assert(s[i - 1] * spec_numel(s.skip(i)) >= spec_numel(s.skip(i))) by (nonlinear_arith)
            requires
                s[i - 1] >= 1,
                spec_numel(s.skip(i)) >= 0,
        ;
    }
}

/// A zero extent anywhere makes the whole product zero.
proof fn lemma_numel_zero(s: Seq<usize>, i: int)
    requires
        0 <= i < s.len(),
        s[i] == 0,
    ensures
        spec_numel(s) == 0,
    decreases s.len(),
{
    if i == 0 {
        assert(spec_numel(s) == s[0] * spec_numel(s.drop_first()));
    } else {
        lemma_numel_zero(s.drop_first(), i - 1);
        assert(spec_numel(s) == s[0] * spec_numel(s.drop_first()));
    }
}

/// How long the compute collaborator's results buffer is: one contiguous
/// block of `numel` values per requested feature, in the declaration order
/// of the requested set. `None` when that does not fit the machine.
pub fn results_len(feature_count: usize, numel: usize) -> (r: Option<usize>)
    ensures
        match r {
            Some(n) => n == feature_count * numel,
            None => feature_count * numel > usize::MAX,
        },
{
    feature_count.checked_mul(numel)
}

/// Bounds of the `k`-th feature's block in a results buffer of `blocks`
/// blocks of `numel` values each: the half-open range starting at
/// `k * numel`.
pub fn feature_block_bounds(k: usize, numel: usize, blocks: usize) -> (r: (usize, usize))
    requires
        k < blocks,
        blocks * numel <= usize::MAX,
    ensures
        r.0 == k * numel,
        r.1 == k * numel + numel,
        r.1 <= blocks * numel,
{
    proof {
        assert((k + 1) * numel <= blocks * numel && k * numel >= 0 && (k + 1) * numel == k * numel
            + numel) by (nonlinear_arith)
            requires
                0 <= k,
                k + 1 <= blocks,
                numel >= 0,
        ;
    }
    let lo = k * numel;
    (lo, lo + numel)
}

/// The spatial shape of a dense volume, with its element count cached.
///
/// A shape can only be built when its element count fits the machine, which
/// is no loss: a loaded volume's samples are held one per element in memory.
pub struct VolumeShape {
    extents: Vec<usize>,
    numel: usize,
}

impl VolumeShape {
    /// The per-dimension extents.
    pub closed spec fn extents(self) -> Seq<usize> {
        self.extents@
    }

    /// The cached element count is the true product.
    pub closed spec fn wf(self) -> bool {
        self.numel == spec_numel(self.extents@)
    }

    /// Build a shape, refusing one whose element count does not fit.
    pub fn new(extents: Vec<usize>) -> (r: Result<VolumeShape, PipelineError>)
        ensures
            match r {
                Ok(s) => {
                    &&& s.wf()
                    &&& s.extents() == extents@
                    &&& spec_numel(extents@) <= usize::MAX
                },
                Err(e) => {
                    &&& e is InvalidInput
                    &&& spec_numel(extents@) > usize::MAX
                },
            },
    {
        let n = extents.len();
        let mut has_zero = false;
        let mut z: usize = 0;
        while z < n
            invariant
                0 <= z <= n,
                n == extents@.len(),
                has_zero ==> exists|k: int| 0 <= k < n && extents@[k] == 0,
                !has_zero ==> forall|k: int| 0 <= k < z ==> extents@[k] >= 1,
            decreases n - z,
        {
            if extents[z] == 0 {
                has_zero = true;
            }
            z = z + 1;
        }
        if has_zero {
            proof {
                let k = choose|k: int| 0 <= k < n && extents@[k] == 0;
                lemma_numel_zero(extents@, k);
            }
            return Ok(VolumeShape { extents, numel: 0 });
        }
        let mut i = n;
        let mut acc: usize = 1;
        while i > 0
            invariant
                0 <= i <= n,
                n == extents@.len(),
                forall|k: int| 0 <= k < n ==> extents@[k] >= 1,
                acc == spec_numel(extents@.skip(i as int)),
            decreases i,
        {
            i = i - 1;
            let e = extents[i];
            proof {
                lemma_numel_skip(extents@, i as int);
            }
            match e.checked_mul(acc) {
                Some(p) => {
                    acc = p;
                }
                None => {
                    proof {
                        lemma_numel_suffix_bound(extents@, i as int);
                    }
                    return Err(
                        PipelineError::InvalidInput("volume shape overflows the machine".to_owned()),
                    );
                }
            }
        }
        proof {
            assert(extents@.skip(0) =~= extents@);
        }
        Ok(VolumeShape { extents, numel: acc })
    }

    /// The element count.
    pub fn numel(&self) -> (n: usize)
        requires
            self.wf(),
        ensures
            n == spec_numel(self.extents()),
    {
        self.numel
    }

    /// How many dimensions the shape has.
    pub fn dim_count(&self) -> (n: usize)
        ensures
            n == self.extents().len(),
    {
        self.extents.len()
    }

    /// The extent of one dimension.
    pub fn extent(&self, d: usize) -> (e: usize)
        requires
            d < self.extents().len(),
        ensures
            e == self.extents()[d as int],
    {
        self.extents[d]
    }

    /// Do two shapes agree dimension for dimension? The volume and the mask
    /// must, before compute may start.
    pub fn same_shape(&self, other: &VolumeShape) -> (b: bool)
        ensures
            b == (self.extents() == other.extents()),
    {
        let n = self.extents.len();
        if n != other.extents.len() {
            proof {
                assert(self.extents() != other.extents());
            }
            return false;
        }
        let mut i: usize = 0;
        while i < n
            invariant
                0 <= i <= n,
                n == self.extents@.len(),
                n == other.extents@.len(),
                forall|k: int| 0 <= k < i ==> self.extents@[k] == other.extents@[k],
            decreases n - i,
        {
            if self.extents[i] != other.extents[i] {
                return false;
            }
            i = i + 1;
        }
        proof {
            assert(self.extents@ =~= other.extents@);
        }
        true
    }
}

} // verus!

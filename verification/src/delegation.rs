//! The observable delegation and stake-pool state a converged certificate
//! must produce: what the harness queries from a node after convergence
//! and compares structurally against these expectations.

use vstd::prelude::*;

use crate::fragment::Digest;
use crate::wallet::Certificate;

verus! {

/// The sum of the declared weights.
pub open spec fn sum_weights(pools: Seq<(Digest, u8)>) -> int
    decreases pools.len(),
{
    if pools.len() == 0 {
        0
    } else {
        sum_weights(pools.drop_last()) + pools.last().1
    }
}

/// A well-formed split delegation: one to eight pools, every weight
/// positive, and the weights summing to the declared total of parts.
pub open spec fn ratio_valid(parts: u8, pools: Seq<(Digest, u8)>) -> bool {
    &&& 1 <= pools.len() <= 8
    &&& forall|i: int| 0 <= i < pools.len() ==> (#[trigger] pools[i]).1 >= 1
    &&& sum_weights(pools) == parts
}

/// A stake split over several pools: each pool's weight out of a total
/// number of parts.
#[derive(Debug, Clone, PartialEq, Eq)]
pub struct DelegationRatio {
    pub parts: u8,
    pub pools: Vec<(Digest, u8)>,
}

impl DelegationRatio {
    /// A ratio, exactly when the declared total matches the weights.
    pub fn new(parts: u8, pools: Vec<(Digest, u8)>) -> (r: Option<DelegationRatio>)
        ensures
            match r {
                Some(d) => ratio_valid(parts, pools@) && d.parts == parts && d.pools == pools,
                None => !ratio_valid(parts, pools@),
            },
    {
        let n = pools.len();
        if n < 1 || n > 8 {
            return None;
        }
        let mut sum: u32 = 0;
        let mut i: usize = 0;
        while i < n
            invariant
                0 <= i <= n,
                n == pools@.len(),
                n <= 8,
                sum == sum_weights(pools@.subrange(0, i as int)),
                sum <= i * 255,
                forall|k: int| 0 <= k < i ==> (#[trigger] pools@[k]).1 >= 1,
            decreases n - i,
        {
            proof {
                assert(pools@.subrange(0, i + 1).drop_last() =~= pools@.subrange(0, i as int));
                assert(pools@.subrange(0, i + 1).last() == pools@[i as int]);
            }
            let weight = pools[i].1;
            if weight == 0 {
                return None;
            }
            sum = sum + weight as u32;
            i = i + 1;
        }
        proof {
            assert(pools@.subrange(0, n as int) =~= pools@);
        }
        if sum == parts as u32 {
            Some(DelegationRatio { parts, pools })
        } else {
            None
        }
    }
}

/// How an account's stake is delegated, as a node reports it.
#[derive(Debug, Clone, PartialEq, Eq)]
pub enum DelegationType {
    NonDelegated,
    Full(Digest),
    Ratio(DelegationRatio),
}

/// Copies a weight list (needed because certificates are only borrowed).
fn copy_pairs(pools: &Vec<(Digest, u8)>) -> (r: Vec<(Digest, u8)>)
    ensures
        r@ == pools@,
{
    let n = pools.len();
    let mut out: Vec<(Digest, u8)> = Vec::new();
    let mut i: usize = 0;
    while i < n
        invariant
            0 <= i <= n,
            n == pools@.len(),
            out@ == pools@.subrange(0, i as int),
        decreases n - i,
    {
        out.push(pools[i]);
        proof {
            assert(out@ =~= pools@.subrange(0, i + 1));
        }
        i = i + 1;
    }
    proof {
        assert(pools@.subrange(0, n as int) =~= pools@);
    }
    out
}

/// The delegation state an account must report once the certificate is in
/// a block: full delegation for owner and full certificates, the exact
/// ratio for a split, and no delegation effect for the pool-lifecycle
/// certificates.
pub fn expected_delegation(cert: &Certificate) -> (r: Option<DelegationType>)
    ensures
        cert matches Certificate::OwnerDelegation { pool_id } ==> r == Some(
            DelegationType::Full(*pool_id),
        ),
        cert matches Certificate::FullDelegation { pool_id } ==> r == Some(
            DelegationType::Full(*pool_id),
        ),
        cert matches Certificate::SplitDelegation { parts } ==> (match r {
            Some(d) => {
                &&& sum_weights(parts@) <= u8::MAX
                &&& ratio_valid(sum_weights(parts@) as u8, parts@)
                &&& d matches DelegationType::Ratio(ratio) && ratio.parts == sum_weights(parts@)
                    && ratio.pools@ == parts@
            },
            None => !(sum_weights(parts@) <= u8::MAX && ratio_valid(
                sum_weights(parts@) as u8,
                parts@,
            )),
        }),
        cert matches Certificate::PoolRegistration { pool_id } ==> r is None,
        cert matches Certificate::PoolRetirement { pool_id } ==> r is None,
{
    match cert {
        Certificate::OwnerDelegation { pool_id } => Some(DelegationType::Full(*pool_id)),
        Certificate::FullDelegation { pool_id } => Some(DelegationType::Full(*pool_id)),
        Certificate::SplitDelegation { parts } => {
            let n = parts.len();
            if n < 1 || n > 8 {
                return None;
            }
            let mut sum: u32 = 0;
            let mut i: usize = 0;
            while i < n
                invariant
                    0 <= i <= n,
                    n == parts@.len(),
                    n <= 8,
                    sum == sum_weights(parts@.subrange(0, i as int)),
                    sum <= i * 255,
                decreases n - i,
            {
                proof {
                    assert(parts@.subrange(0, i + 1).drop_last() =~= parts@.subrange(
                        0,
                        i as int,
                    ));
                    assert(parts@.subrange(0, i + 1).last() == parts@[i as int]);
                }
                sum = sum + parts[i].1 as u32;
                i = i + 1;
            }
            proof {
                assert(parts@.subrange(0, n as int) =~= parts@);
            }
            if sum > 255 {
                return None;
            }
            match DelegationRatio::new(sum as u8, copy_pairs(parts)) {
                Some(ratio) => Some(DelegationType::Ratio(ratio)),
                None => None,
            }
        },
        Certificate::PoolRegistration { .. } => None,
        Certificate::PoolRetirement { .. } => None,
    }
}

/// The id is listed.
pub open spec fn contains_id(pools: Seq<Digest>, id: Digest) -> bool {
    exists|i: int| 0 <= i < pools.len() && pools[i] == id
}

/// The list without every occurrence of the id, order otherwise kept.
pub open spec fn remove_id(pools: Seq<Digest>, id: Digest) -> Seq<Digest>
    decreases pools.len(),
{
    if pools.len() == 0 {
        Seq::empty()
    } else {
        let rest = remove_id(pools.drop_first(), id);
        if pools[0] == id {
            rest
        } else {
            seq![pools[0]] + rest
        }
    }
}

/// Removing an id removes exactly it: the id is gone, every other id is
/// listed afterwards exactly when it was listed before.
pub proof fn lemma_remove_id(pools: Seq<Digest>, id: Digest)
    ensures
        !contains_id(remove_id(pools, id), id),
        forall|x: Digest| x != id ==> contains_id(remove_id(pools, id), x) == contains_id(
            pools,
            x,
        ),
    decreases pools.len(),
{
    if pools.len() > 0 {
        lemma_remove_id(pools.drop_first(), id);
        let rest = remove_id(pools.drop_first(), id);
        assert forall|x: Digest| x != id implies contains_id(remove_id(pools, id), x)
            == contains_id(pools, x) by {
            if pools[0] == id {
                assert(contains_id(pools, x) == contains_id(pools.drop_first(), x)) by {
                    if contains_id(pools, x) {
                        let i = choose|i: int| 0 <= i < pools.len() && pools[i] == x;
                        assert(i != 0);
                        assert(pools.drop_first()[i - 1] == x);
                    }
                    if contains_id(pools.drop_first(), x) {
                        let i = choose|i: int|
                            0 <= i < pools.drop_first().len() && pools.drop_first()[i] == x;
                        assert(pools[i + 1] == x);
                    }
                }
            } else {
                let whole = seq![pools[0]] + rest;
                if contains_id(pools, x) {
                    let i = choose|i: int| 0 <= i < pools.len() && pools[i] == x;
                    if i == 0 {
                        assert(whole[0] == x);
                    } else {
                        assert(pools.drop_first()[i - 1] == x);
                        assert(contains_id(pools.drop_first(), x));
                        assert(contains_id(rest, x));
                        let j = choose|j: int| 0 <= j < rest.len() && rest[j] == x;
                        assert(whole[j + 1] == rest[j]);
                        assert(contains_id(whole, x));
                    }
                }
                if contains_id(whole, x) {
                    let i = choose|i: int| 0 <= i < whole.len() && whole[i] == x;
                    if i == 0 {
                        assert(pools[0] == x);
                        assert(contains_id(pools, x));
                    } else {
                        assert(rest[i - 1] == whole[i]);
                        assert(contains_id(rest, x));
                        assert(contains_id(pools.drop_first(), x));
                        let j = choose|j: int|
                            0 <= j < pools.drop_first().len() && pools.drop_first()[j] == x;
                        assert(pools[j + 1] == pools.drop_first()[j]);
                        assert(contains_id(pools, x));
                    }
                }
            }
        }
        if pools[0] != id {
            let whole = seq![pools[0]] + rest;
            if contains_id(whole, id) {
                let i = choose|i: int| 0 <= i < whole.len() && whole[i] == id;
                assert(i != 0);
                assert(rest[i - 1] == id);
            }
        }
    }
}

/// The pool list a node must report after the certificate is in a block:
/// a registered pool appears (once), a retired pool disappears, and no
/// other certificate changes the list.
#[verifier::loop_isolation(false)]
pub fn apply_certificate_to_pools(pools: &Vec<Digest>, cert: &Certificate) -> (r: Vec<Digest>)
    ensures
        (*cert) matches Certificate::PoolRegistration { pool_id } ==> (if contains_id(
            pools@,
            pool_id,
        ) {
            r@ == pools@
        } else {
            r@ == pools@.push(pool_id)
        }) && contains_id(r@, pool_id),
        (*cert) matches Certificate::PoolRetirement { pool_id } ==> r@ == remove_id(
            pools@,
            pool_id,
        ) && !contains_id(r@, pool_id),
        !((*cert) matches Certificate::PoolRegistration { .. }) && !((*cert)
            matches Certificate::PoolRetirement { .. }) ==> r@ == pools@,
{
    match cert {
        Certificate::PoolRegistration { pool_id } => {
            let mut out = copy_ids(pools);
            let n = pools.len();
            let mut i: usize = 0;
            while i < n
                invariant
                    0 <= i <= n,
                    n == pools@.len(),
                    out@ == pools@,
                    forall|k: int| 0 <= k < i ==> pools@[k] != pool_id,
                decreases n - i,
            {
                if pools[i].lo == pool_id.lo && pools[i].hi == pool_id.hi {
                    proof {
                        assert(pools@[i as int] == *pool_id);
                        assert(contains_id(pools@, *pool_id));
                    }
                    return out;
                }
                i = i + 1;
            }
            out.push(*pool_id);
            assert(contains_id(out@, *pool_id)) by {
                assert(out@[pools@.len() as int] == *pool_id);
            }
            out
        },
        Certificate::PoolRetirement { pool_id } => {
            let n = pools.len();
            let mut out: Vec<Digest> = Vec::new();
            let mut i: usize = 0;
            proof {
                assert(pools@.skip(0) =~= pools@);
            }
            while i < n
                invariant
                    0 <= i <= n,
                    n == pools@.len(),
                    remove_id(pools@, *pool_id) == out@ + remove_id(
                        pools@.skip(i as int),
                        *pool_id,
                    ),
                decreases n - i,
            {
                proof {
                    assert(pools@.skip(i as int)[0] == pools@[i as int]);
                    assert(pools@.skip(i as int).drop_first() =~= pools@.skip(i + 1));
                }
                let ghost before = out@;
                if !(pools[i].lo == pool_id.lo && pools[i].hi == pool_id.hi) {
                    out.push(pools[i]);
                    proof {
                        assert(out@ =~= before + seq![pools@[i as int]]);
                    }
                }
                proof {
                    assert(out@ + remove_id(pools@.skip(i + 1), *pool_id) =~= remove_id(
                        pools@,
                        *pool_id,
                    ));
                }
                i = i + 1;
            }
            proof {
                assert(pools@.skip(n as int) =~= Seq::<Digest>::empty());
                assert(out@ + Seq::<Digest>::empty() =~= out@);
                lemma_remove_id(pools@, *pool_id);
            }
            out
        },
        _ => copy_ids(pools),
    }
}

/// Copies a pool-id list.
fn copy_ids(pools: &Vec<Digest>) -> (r: Vec<Digest>)
    ensures
        r@ == pools@,
{
    let n = pools.len();
    let mut out: Vec<Digest> = Vec::new();
    let mut i: usize = 0;
    while i < n
        invariant
            0 <= i <= n,
            n == pools@.len(),
            out@ == pools@.subrange(0, i as int),
        decreases n - i,
    {
        out.push(pools[i]);
        proof {
            assert(out@ =~= pools@.subrange(0, i + 1));
        }
        i = i + 1;
    }
    proof {
        assert(pools@.subrange(0, n as int) =~= pools@);
    }
    out
}

} // verus!

//! The ascending order of a set of keys, as a sequence.
use vstd::prelude::*;

verus! {

/// One past the largest key.
pub open spec fn key_limit() -> nat {
    0x1_0000_0000_0000_0000
}

/// Each key is smaller than every key after it.
pub open spec fn ascending(keys: Seq<u64>) -> bool {
    forall|i: int, j: int| 0 <= i < j < keys.len() ==> keys[i] < keys[j]
}

/// `keys` holds exactly the keys of `s` that are smaller than `n`.
pub open spec fn holds_keys_below(keys: Seq<u64>, s: Set<u64>, n: nat) -> bool {
    &&& forall|k: u64| #[trigger] keys.contains(k) ==> s.contains(k) && k < n
    &&& forall|k: u64| #[trigger] s.contains(k) && k < n ==> keys.contains(k)
}

/// The keys of `s` that are smaller than `n`, smallest first.
pub open spec fn keys_below(s: Set<u64>, n: nat) -> Seq<u64>
    decreases n,
{
    if n == 0 {
        Seq::empty()
    } else {
        let rest = keys_below(s, (n - 1) as nat);
        if n <= key_limit() && s.contains((n - 1) as u64) {
            rest.push((n - 1) as u64)
        } else {
            rest
        }
    }
}

/// All keys of `s`, smallest first.
pub open spec fn key_order(s: Set<u64>) -> Seq<u64> {
    keys_below(s, key_limit())
}

/// `keys_below(s, n)` is ascending and holds exactly the keys of `s` under `n`.
pub proof fn lemma_keys_below(s: Set<u64>, n: nat)
    ensures
        ascending(keys_below(s, n)),
        holds_keys_below(keys_below(s, n), s, n),
    decreases n,
{
    if n > 0 {
        let m = (n - 1) as nat;
        lemma_keys_below(s, m);
        let rest = keys_below(s, m);
        let all = keys_below(s, n);
        if n <= key_limit() && s.contains(m as u64) {
            let top = m as u64;
            assert(all == rest.push(top));
            assert forall|i: int, j: int| 0 <= i < j < all.len() implies all[i] < all[j] by {
                if j < rest.len() {
                    assert(rest[i] < rest[j]);
                } else {
                    assert(rest.contains(rest[i]));
                    assert(rest[i] < m);
                    assert(all[j] == top);
                }
            }
            assert forall|k: u64| all.contains(k) <==> s.contains(k) && k < n by {
                if all.contains(k) {
                    let i = choose|i: int| 0 <= i < all.len() && all[i] == k;
                    if i < rest.len() {
                        assert(rest.contains(rest[i]));
                    }
                }
                if s.contains(k) && k < n {
                    if k == top {
                        assert(all[rest.len() as int] == k);
                    } else {
                        assert(rest.contains(k));
                        let i = choose|i: int| 0 <= i < rest.len() && rest[i] == k;
                        assert(all[i] == k);
                    }
                }
            }
        } else {
            assert(all == rest);
            assert forall|k: u64| all.contains(k) <==> s.contains(k) && k < n by {
                if s.contains(k) && k < n {
                    assert(k != m);
                }
            }
        }
    } else {
        assert forall|k: u64| !keys_below(s, n).contains(k) by {}
    }
}

/// An ascending sequence that holds exactly the keys of `s` under `n` is
/// `keys_below(s, n)`: the ascending order of a set is unique.
pub proof fn lemma_ascending_is_keys_below(s: Set<u64>, keys: Seq<u64>, n: nat)
    requires
        ascending(keys),
        holds_keys_below(keys, s, n),
    ensures
        keys == keys_below(s, n),
    decreases n,
{
    if n == 0 {
        if keys.len() > 0 {
            assert(keys.contains(keys[0]));
        }
        assert(keys =~= Seq::empty());
    } else {
        let m = (n - 1) as nat;
        if n <= key_limit() && s.contains(m as u64) {
            let top = m as u64;
            assert(keys.contains(top));
            let at = choose|i: int| 0 <= i < keys.len() && keys[i] == top;
            if at + 1 < keys.len() {
                assert(keys.contains(keys[at + 1]));
            }
            assert(at == keys.len() - 1);
            let front = keys.drop_last();
            assert forall|k: u64| front.contains(k) <==> s.contains(k) && k < m by {
                if front.contains(k) {
                    let i = choose|i: int| 0 <= i < front.len() && front[i] == k;
                    assert(keys[i] == k);
                    assert(keys.contains(k));
                }
                if s.contains(k) && k < m {
                    assert(keys.contains(k));
                    let i = choose|i: int| 0 <= i < keys.len() && keys[i] == k;
                    assert(front[i] == k);
                }
            }
            lemma_ascending_is_keys_below(s, front, m);
            assert(keys =~= front.push(top));
        } else {
            assert forall|k: u64| keys.contains(k) <==> s.contains(k) && k < m by {
                if keys.contains(k) {
                    assert(k != m);
                }
            }
            lemma_ascending_is_keys_below(s, keys, m);
        }
    }
}

/// The ascending order of `s` is ascending and holds exactly the keys of `s`.
pub proof fn lemma_key_order(s: Set<u64>)
    ensures
        ascending(key_order(s)),
        holds_keys_below(key_order(s), s, key_limit()),
{
    lemma_keys_below(s, key_limit());
}

/// Whatever ascending sequence holds exactly the keys of `s` is the ascending
/// order of `s`.
pub proof fn lemma_key_order_unique(s: Set<u64>, keys: Seq<u64>)
    requires
        ascending(keys),
        holds_keys_below(keys, s, key_limit()),
    ensures
        keys == key_order(s),
{
    lemma_ascending_is_keys_below(s, keys, key_limit());
}

} // verus!

//! Dealing the users out to the browser sessions, round robin: user number
//! `j` goes to session `j % n`.
use vstd::prelude::*;
use vstd::arithmetic::div_mod::{
    lemma_div_is_ordered, lemma_fundamental_div_mod, lemma_fundamental_div_mod_converse,
};
use vstd::arithmetic::mul::lemma_mul_inequality;

verus! {

/// How many browser sessions share the users.
pub const SESSION_COUNT: u32 = 8;

/// How many of `len` items land in group `g` of `n`: those at `g`, `g + n`,
/// `g + 2n`, ... below `len`.
pub open spec fn group_size(len: int, n: int, g: int) -> int {
    if g < len {
        (len - 1 - g) / n + 1
    } else {
        0
    }
}

/// The `n` groups of a round-robin deal of `s`: group `g` holds
/// `s[g], s[g + n], s[g + 2n], ...`, in that order.
pub open spec fn round_robin<T>(s: Seq<T>, n: nat) -> Seq<Seq<T>> {
    Seq::new(
        n,
        |g: int| Seq::new(group_size(s.len() as int, n as int, g) as nat, |k: int| s[g + k * n]),
    )
}

/// The groups held in a vector of vectors.
pub open spec fn groups_view<T>(v: Seq<Vec<T>>) -> Seq<Seq<T>> {
    v.map_values(|g: Vec<T>| g@)
}

/// Slot `k` of group `g` is a real index of the input.
pub proof fn lemma_slot_in_range(len: int, n: int, g: int, k: int)
    requires
        0 <= g < n,
        0 <= k < group_size(len, n, g),
    ensures
        0 <= g + k * n < len,
{
    let x = len - 1 - g;
    let q = x / n;
    lemma_fundamental_div_mod(x, n);
    assert(x % n >= 0) by {
        vstd::arithmetic::div_mod::lemma_mod_bound(x, n);
    }
    lemma_mul_inequality(k, q, n);
    assert(n * q == q * n) by (nonlinear_arith);
    assert(k * n >= 0) by (nonlinear_arith)
        requires
            k >= 0,
            n > 0,
    ;
}

/// Law: a round-robin deal places input item `j` in group `j % n`, at
/// position `j / n`, and nowhere else can a slot come from item `j`.
pub proof fn lemma_round_robin_placement<T>(s: Seq<T>, n: nat, j: int)
    requires
        n > 0,
        0 <= j < s.len(),
    ensures
        0 <= j % (n as int) < n,
        0 <= j / (n as int) < round_robin(s, n)[j % (n as int)].len(),
        round_robin(s, n)[j % (n as int)][j / (n as int)] == s[j],
{
    let ni = n as int;
    let g = j % ni;
    let k = j / ni;
    lemma_fundamental_div_mod(j, ni);
    vstd::arithmetic::div_mod::lemma_mod_bound(j, ni);
    assert(k >= 0) by {
        vstd::arithmetic::div_mod::lemma_div_pos_is_pos(j, ni);
    }
    assert(ni * k == k * ni) by (nonlinear_arith);
    // j - g == k * n, and len - 1 - g >= j - g
    lemma_div_is_ordered(j - g, s.len() - 1 - g, ni);
    lemma_fundamental_div_mod_converse(j - g, ni, k, 0);
    assert(group_size(s.len() as int, ni, g) > k);
    assert(g + k * ni == j);
}

/// Law: every slot of every group holds exactly the input item whose
/// placement is that slot, so the deal loses and duplicates nothing.
pub proof fn lemma_round_robin_origin<T>(s: Seq<T>, n: nat, g: int, k: int)
    requires
        0 <= g < n,
        0 <= k < round_robin(s, n)[g].len(),
    ensures
        0 <= g + k * n < s.len(),
        (g + k * n) % (n as int) == g,
        (g + k * n) / (n as int) == k,
        round_robin(s, n)[g][k] == s[g + k * n],
{
    lemma_slot_in_range(s.len() as int, n as int, g, k);
    lemma_fundamental_div_mod_converse(g + k * n, n as int, k, g);
}

/// Law: the groups are balanced: earlier groups are never smaller than later
/// ones and never more than one larger.
pub proof fn lemma_round_robin_balanced<T>(s: Seq<T>, n: nat, g1: int, g2: int)
    requires
        0 <= g1 <= g2 < n,
    ensures
        round_robin(s, n)[g2].len() <= round_robin(s, n)[g1].len() <= round_robin(s, n)[g2].len() + 1,
{
    let len = s.len() as int;
    let ni = n as int;
    if g2 < len {
        let x1 = len - 1 - g1;
        let x2 = len - 1 - g2;
        lemma_div_is_ordered(x2, x1, ni);
        lemma_fundamental_div_mod(x1, ni);
        lemma_fundamental_div_mod(x2, ni);
        vstd::arithmetic::div_mod::lemma_mod_bound(x1, ni);
        vstd::arithmetic::div_mod::lemma_mod_bound(x2, ni);
        // x1 - x2 < n, so the quotients differ by at most one
        let q1 = x1 / ni;
        let q2 = x2 / ni;
        assert(q1 <= q2 + 1) by (nonlinear_arith)
            requires
                x1 == ni * q1 + x1 % ni,
                x2 == ni * q2 + x2 % ni,
                0 <= x1 % ni < ni,
                0 <= x2 % ni < ni,
                0 <= x1 - x2 < ni,
        ;
    } else if g1 < len {
        let x1 = len - 1 - g1;
        // x1 < n, so the group holds one item
        assert(0 <= x1 < ni);
        vstd::arithmetic::div_mod::lemma_small_div_converse(x1, ni);
        assert(x1 / ni == 0) by {
            vstd::arithmetic::div_mod::lemma_basic_div(x1, ni);
        }
    }
}

/// Deals `input` out to `split_to` groups round robin: item number `j` goes
/// to group `j % split_to`, and each group keeps the input order.
pub fn split_vec_4_vec(input: Vec<(u32, String)>, split_to: u32) -> (res: Vec<Vec<(u32, String)>>)
    requires
        split_to > 0 || input@.len() == 0,
    ensures
        groups_view(res@) == round_robin(input@, split_to as nat),
{
    let n = split_to as usize;
    let len = input.len();
    let mut res: Vec<Vec<(u32, String)>> = Vec::new();
    let ghost spec_groups = round_robin(input@, split_to as nat);
    let mut g: usize = 0;
    while g < n
        invariant
            n == split_to,
            len == input@.len(),
            g <= n,
            n > 0 || len == 0,
            spec_groups == round_robin(input@, split_to as nat),
            res@.len() == g,
            forall|h: int| 0 <= h < g ==> (#[trigger] res@[h])@ == spec_groups[h],
        decreases n - g,
    {
        let count: usize = if g < len {
            (len - 1 - g) / n + 1
        } else {
            0
        };
        assert(count == group_size(len as int, n as int, g as int));
        let mut group: Vec<(u32, String)> = Vec::new();
        let mut k: usize = 0;
        while k < count
            invariant
                n == split_to,
                n > 0,
                len == input@.len(),
                g < n,
                count == group_size(len as int, n as int, g as int),
                k <= count,
                group@.len() == k,
                forall|t: int| 0 <= t < k ==> #[trigger] group@[t] == input@[g + t * n],
            decreases count - k,
        {
            proof {
                lemma_slot_in_range(len as int, n as int, g as int, k as int);
            }
            let idx = g + k * n;
            let item = (input[idx].0, input[idx].1.clone());
            group.push(item);
            k += 1;
        }
        assert(group@ =~= spec_groups[g as int]);
        res.push(group);
        g += 1;
    }
    assert(groups_view(res@) =~= spec_groups);
    res
}

} // verus!

use vstd::prelude::*;

verus! {

pub open spec fn min_nat(x: nat, y: nat) -> nat {
    if x <= y {
        x
    } else {
        y
    }
}

/// The Levenshtein distance between two character sequences: the least
/// number of single-character insertions, deletions and substitutions that
/// turn `a` into `b`.
pub open spec fn levenshtein(a: Seq<char>, b: Seq<char>) -> nat
    decreases a.len() + b.len(),
{
    if a.len() == 0 {
        b.len()
    } else if b.len() == 0 {
        a.len()
    } else {
        min_nat(
            min_nat(levenshtein(a.drop_last(), b) + 1, levenshtein(a, b.drop_last()) + 1),
            levenshtein(a.drop_last(), b.drop_last()) + (if a.last() == b.last() {
                0nat
            } else {
                1nat
            }),
        )
    }
}

/// The distance never exceeds the longer of the two lengths.
pub proof fn lemma_levenshtein_bounded(a: Seq<char>, b: Seq<char>)
    ensures
        levenshtein(a, b) <= if a.len() >= b.len() {
            a.len()
        } else {
            b.len()
        },
    decreases a.len() + b.len(),
{
    if a.len() > 0 && b.len() > 0 {
        lemma_levenshtein_bounded(a.drop_last(), b.drop_last());
    }
}

/// The distance is zero exactly between equal sequences.
pub proof fn lemma_levenshtein_zero(a: Seq<char>, b: Seq<char>)
    ensures
        levenshtein(a, b) == 0 <==> a == b,
    decreases a.len() + b.len(),
{
    if a.len() > 0 && b.len() > 0 {
        lemma_levenshtein_zero(a.drop_last(), b.drop_last());
        if levenshtein(a, b) == 0 {
            assert(a =~= a.drop_last().push(a.last()));
            assert(b =~= b.drop_last().push(b.last()));
        }
        if a == b {
            assert(a.drop_last() =~= b.drop_last());
        }
    } else if a.len() == 0 && b.len() == 0 {
        assert(a =~= b);
    }
}

/// The distance does not depend on which of the two sequences comes first.
pub proof fn lemma_levenshtein_symmetric(a: Seq<char>, b: Seq<char>)
    ensures
        levenshtein(a, b) == levenshtein(b, a),
    decreases a.len() + b.len(),
{
    if a.len() > 0 && b.len() > 0 {
        lemma_levenshtein_symmetric(a.drop_last(), b);
        lemma_levenshtein_symmetric(a, b.drop_last());
        lemma_levenshtein_symmetric(a.drop_last(), b.drop_last());
    }
}

/// The distance of two prefixes, unfolded one step.
proof fn lemma_prefix_step(a: Seq<char>, b: Seq<char>, i: int, j: int)
    requires
        0 < i <= a.len(),
        0 < j <= b.len(),
    ensures
        levenshtein(a.take(i), b.take(j)) == min_nat(
            min_nat(
                levenshtein(a.take(i - 1), b.take(j)) + 1,
                levenshtein(a.take(i), b.take(j - 1)) + 1,
            ),
            levenshtein(a.take(i - 1), b.take(j - 1)) + (if a[i - 1] == b[j - 1] {
                0nat
            } else {
                1nat
            }),
        ),
{
    assert(a.take(i).drop_last() =~= a.take(i - 1));
    assert(b.take(j).drop_last() =~= b.take(j - 1));
}

/// Levenshtein distance between two character sequences, computed row by row.
pub fn char_edit_distance(left: &[char], right: &[char]) -> (r: usize)
    ensures
        r == levenshtein(left@, right@),
{
    let n = right.len();
    let mut previous: Vec<usize> = Vec::new();
    let mut j: usize = 0;
    loop
        invariant_except_break
            j <= n,
            n == right@.len(),
            previous@.len() == j,
            forall|k: int| 0 <= k < j ==> previous@[k] == levenshtein(left@.take(0), right@.take(k)),
        ensures
            n < usize::MAX,
            n == right@.len(),
            previous@.len() == n + 1,
            forall|k: int| 0 <= k <= n ==> previous@[k] == levenshtein(left@.take(0), right@.take(k)),
        decreases n - j,
    {
        assert(left@.take(0) =~= Seq::<char>::empty());
        previous.push(j);
        let _ = previous.len();
        if j == n {
            break;
        }
        j = j + 1;
    }
    let mut current: Vec<usize> = previous.clone();
    let len = left.len();
    let mut i: usize = 0;
    while i < len
        invariant
            len == left@.len(),
            i <= left@.len(),
            n < usize::MAX,
            n == right@.len(),
            previous@.len() == n + 1,
            current@.len() == n + 1,
            forall|k: int| 0 <= k <= n ==> previous@[k] == levenshtein(left@.take(i as int), right@.take(k)),
        decreases left@.len() - i,
    {
        let c = left[i];
        current.set(0, i + 1);
        proof {
            assert(right@.take(0) =~= Seq::<char>::empty());
        }
        let mut k: usize = 0;
        while k < n
            invariant
                len == left@.len(),
                i < left@.len(),
                n < usize::MAX,
                c == left@[i as int],
                k <= n,
                n == right@.len(),
                previous@.len() == n + 1,
                current@.len() == n + 1,
                forall|t: int| 0 <= t <= n ==> previous@[t] == levenshtein(left@.take(i as int), right@.take(t)),
                forall|t: int| 0 <= t <= k ==> current@[t] == levenshtein(left@.take(i + 1), right@.take(t)),
            decreases n - k,
        {
            proof {
                lemma_prefix_step(left@, right@, i + 1, k + 1);
                lemma_levenshtein_bounded(left@.take(i as int), right@.take(k as int));
                lemma_levenshtein_bounded(left@.take(i as int), right@.take(k + 1));
            }
            let diff: usize = if c == right[k] { 0 } else { 1 };
            let substitution = previous[k] + diff;
            let deletion = previous[k + 1] + 1;
            let m = if substitution <= deletion { substitution } else { deletion };
            let value = if current[k] < m { current[k] + 1 } else { m };
            current.set(k + 1, value);
            k = k + 1;
        }
        let tmp = previous;
        previous = current;
        current = tmp;
        i = i + 1;
    }
    assert(left@.take(left@.len() as int) =~= left@);
    assert(right@.take(n as int) =~= right@);
    previous[n]
}

} // verus!

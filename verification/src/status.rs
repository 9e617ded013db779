//! Parsing of the status command's textual output. The cluster is taken to
//! be healthy iff at least one output line does not say `not` — the check
//! that filtering the output through `grep -v not` would perform.

use vstd::prelude::*;

verus! {

/// Whether the line contains the byte sequence `not`.
pub open spec fn says_not(line: Seq<u8>) -> bool {
    exists|k: int|
        0 <= k && k + 3 <= line.len() && #[trigger] line[k] == 110 && line[k + 1] == 111 && line[k
            + 2] == 116
}

/// `[i, j)` delimits one line of `s`: it abuts a line feed or an end of the
/// text on either side and holds no line feed itself. The empty tail after
/// a final line feed delimits no line.
pub open spec fn is_line_at(s: Seq<u8>, i: int, j: int) -> bool {
    &&& 0 <= i <= j <= s.len()
    &&& (i == 0 || s[i - 1] == 10)
    &&& (j == s.len() || s[j] == 10)
    &&& (j == s.len() ==> i < j)
    &&& forall|k: int| i <= k < j ==> s[k] != 10
}

/// The status output reports a healthy cluster: some line does not say `not`.
pub open spec fn spec_status_healthy(s: Seq<u8>) -> bool {
    exists|i: int, j: int| #[trigger] is_line_at(s, i, j) && !says_not(s.subrange(i, j))
}

/// Extending a line by one byte finds `not` exactly where the shorter line
/// already said it, or where the new byte completes the sequence.
proof fn lemma_says_not_push(l: Seq<u8>, b: u8)
    ensures
        says_not(l.push(b)) <==> (says_not(l) || (l.len() >= 2 && l[l.len() - 2] == 110
            && l[l.len() - 1] == 111 && b == 116)),
{
    let l2 = l.push(b);
    if says_not(l) {
        let k = choose|k: int|
            0 <= k && k + 3 <= l.len() && #[trigger] l[k] == 110 && l[k + 1] == 111 && l[k + 2]
                == 116;
        assert(l2[k] == 110 && l2[k + 1] == 111 && l2[k + 2] == 116);
        assert(says_not(l2));
    }
    if l.len() >= 2 && l[l.len() - 2] == 110 && l[l.len() - 1] == 111 && b == 116 {
        let k = l.len() - 2;
        assert(l2[k] == 110 && l2[k + 1] == 111 && l2[k + 2] == 116);
        assert(says_not(l2));
    }
    if says_not(l2) {
        let k = choose|k: int|
            0 <= k && k + 3 <= l2.len() && #[trigger] l2[k] == 110 && l2[k + 1] == 111 && l2[k
                + 2] == 116;
        if k + 3 <= l.len() {
            assert(l[k] == 110 && l[k + 1] == 111 && l[k + 2] == 116);
            assert(says_not(l));
        } else {
            assert(k == l.len() - 2);
            assert(l[k] == 110 && l[k + 1] == 111 && b == 116);
        }
    }
}

/// Decide from the status command's captured output whether the cluster is
/// healthy: scan each line for the byte sequence `not`, and report healthy
/// as soon as one complete line lacks it.
pub fn status_reports_healthy(output: &[u8]) -> (r: bool)
    ensures
        r == spec_status_healthy(output@),
{
    let n: usize = output.len();
    let mut idx: usize = 0;
    let mut line_start: usize = 0;
    let mut line_says_not: bool = false;
    proof {
        assert(output@.subrange(0, 0) =~= Seq::<u8>::empty());
    }
    while idx < n
        invariant
            line_start <= idx <= n,
            n == output@.len(),
            line_start == 0 || output@[line_start - 1] == 10,
            forall|k: int| line_start <= k < idx ==> output@[k] != 10,
            line_says_not == says_not(output@.subrange(line_start as int, idx as int)),
            forall|i: int, j: int|
                #[trigger] is_line_at(output@, i, j) && i < line_start ==> says_not(
                    output@.subrange(i, j),
                ),
        decreases n - idx,
    {
        let b = output[idx];
        if b == 10 {
            if !line_says_not {
                proof {
                    assert(is_line_at(output@, line_start as int, idx as int));
                }
                return true;
            }
            proof {
                assert forall|i: int, j: int|
                    #[trigger] is_line_at(output@, i, j) && i < idx + 1 implies says_not(
                    output@.subrange(i, j),
                ) by {
                    if i >= line_start {
                        if i > line_start {
                            assert(output@[i - 1] != 10);
                            assert(false);
                        }
                        if j < idx {
                            assert(output@[j] != 10);
                            assert(false);
                        }
                        if j > idx {
                            assert(output@[idx as int] != 10);
                            assert(false);
                        }
                    }
                }
            }
            line_start = idx + 1;
            line_says_not = false;
            proof {
                assert(output@.subrange(idx + 1, idx + 1) =~= Seq::<u8>::empty());
            }
        } else {
            let triple_here: bool = idx >= 2 && idx - 2 >= line_start && output[idx - 2] == 110
                && output[idx - 1] == 111 && b == 116;
            proof {
                let l = output@.subrange(line_start as int, idx as int);
                lemma_says_not_push(l, b);
                assert(output@.subrange(line_start as int, idx + 1) =~= l.push(b));
                if idx >= 2 && idx - 2 >= line_start {
                    assert(l[l.len() - 2] == output@[idx - 2]);
                    assert(l[l.len() - 1] == output@[idx - 1]);
                }
            }
            line_says_not = line_says_not || triple_here;
        }
        idx = idx + 1;
    }
    if line_start < n && !line_says_not {
        proof {
            assert(is_line_at(output@, line_start as int, n as int));
        }
        return true;
    }
    proof {
        assert forall|i: int, j: int| #[trigger] is_line_at(output@, i, j) implies says_not(
            output@.subrange(i, j),
        ) by {
            if i >= line_start {
                if line_start == n {
                    assert(false);
                } else {
                    if i > line_start {
                        assert(output@[i - 1] != 10);
                        assert(false);
                    }
                    if j < n {
                        assert(output@[j] != 10);
                        assert(false);
                    }
                }
            }
        }
    }
    false
}

} // verus!

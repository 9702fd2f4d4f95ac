use vstd::prelude::*;

verus! {

/// One pass of placeholder substitution: every occurrence of `pat` in `s`,
/// found left to right without overlap, is replaced by `rep`. An empty
/// pattern leaves the text unchanged.
pub open spec fn replace_spec(s: Seq<char>, pat: Seq<char>, rep: Seq<char>) -> Seq<char>
    decreases s.len(),
{
    if pat.len() == 0 || s.len() < pat.len() {
        s
    } else if s.subrange(0, pat.len() as int) == pat {
        rep + replace_spec(s.skip(pat.len() as int), pat, rep)
    } else {
        seq![s[0]] + replace_spec(s.skip(1), pat, rep)
    }
}

/// Whether the characters of `pat` occur in `s` starting at position `i`.
fn matches_at(s: &str, n: usize, pat: &str, m: usize, i: usize) -> (b: bool)
    requires
        n == s@.len(),
        m == pat@.len(),
        i + m <= n,
    ensures
        b == (s@.subrange(i as int, (i + m) as int) == pat@),
{
    let mut j: usize = 0;
    let mut same = true;
    while j < m
        invariant
            n == s@.len(),
            m == pat@.len(),
            i + m <= n,
            j <= m,
            !same ==> j == m,
            same == (forall|k: int| 0 <= k < j ==> s@[i + k] == pat@[k]),
        decreases m - j,
    {
        if s.get_char(i + j) != pat.get_char(j) {
            same = false;
            j = m;
        } else {
            proof {
                assert(s@[i as int + j as int] == pat@[j as int]);
                assert forall|k: int| 0 <= k < j + 1 implies s@[i + k] == pat@[k] by {
                    if k == j {
                        assert(s@[i + k] == pat@[k]);
                    }
                }
            }
            j = j + 1;
        }
    }
    proof {
        if same {
            assert(s@.subrange(i as int, (i + m) as int) =~= pat@);
        } else {
            let k = choose|k: int| 0 <= k < m && s@[i + k] != pat@[k];
            assert(s@.subrange(i as int, (i + m) as int)[k] == s@[i + k]);
        }
    }
    same
}

/// Replaces every occurrence of `pat` in `s` by `rep`, scanning left to
/// right without overlap, exactly as `replace_spec` describes.
pub fn replace_all(s: &str, pat: &str, rep: &str) -> (r: String)
    ensures
        r@ == replace_spec(s@, pat@, rep@),
{
    let n = s.unicode_len();
    let m = pat.unicode_len();
    let mut out = String::new();
    if m == 0 {
        out.append(s);
        proof {
            assert(out@ =~= s@);
        }
    } else {
        proof {
            assert(s@.skip(0) =~= s@);
            assert(out@ + replace_spec(s@.skip(0), pat@, rep@) =~= replace_spec(s@, pat@, rep@));
        }
        let mut i: usize = 0;
        while i < n
            invariant
                n == s@.len(),
                m == pat@.len(),
                m > 0,
                i <= n,
                replace_spec(s@, pat@, rep@) == out@ + replace_spec(
                    s@.skip(i as int),
                    pat@,
                    rep@,
                ),
            decreases n - i,
        {
            let ghost prev = out@;
            let ghost si = s@.skip(i as int);
            if m <= n - i && matches_at(s, n, pat, m, i) {
                out.append(rep);
                proof {
                    assert(si.subrange(0, m as int) =~= s@.subrange(i as int, (i + m) as int));
                    assert(si.skip(m as int) =~= s@.skip(i + m));
                    assert(replace_spec(si, pat@, rep@) == rep@ + replace_spec(
                        s@.skip(i + m),
                        pat@,
                        rep@,
                    ));
                    assert(prev + (rep@ + replace_spec(s@.skip(i + m), pat@, rep@)) =~= out@
                        + replace_spec(s@.skip(i + m), pat@, rep@));
                }
                i = i + m;
            } else {
                let c = s.substring_char(i, i + 1);
                out.append(c);
                proof {
                    if i + m <= n {
                        assert(si.subrange(0, m as int) =~= s@.subrange(
                            i as int,
                            (i + m) as int,
                        ));
                    }
                    assert(si.len() >= m ==> si.subrange(0, m as int) != pat@);
                    assert(seq![si[0]] =~= s@.subrange(i as int, i + 1));
                    assert(si.skip(1) =~= s@.skip(i + 1));
                    assert(replace_spec(si, pat@, rep@) == seq![si[0]] + replace_spec(
                        s@.skip(i + 1),
                        pat@,
                        rep@,
                    ));
                    assert(prev + (seq![si[0]] + replace_spec(s@.skip(i + 1), pat@, rep@)) =~= out@
                        + replace_spec(s@.skip(i + 1), pat@, rep@));
                }
                i = i + 1;
            }
        }
        proof {
            assert(s@.skip(n as int) =~= Seq::<char>::empty());
            assert(out@ + replace_spec(s@.skip(n as int), pat@, rep@) =~= out@);
        }
    }
    out
}

} // verus!

use vstd::prelude::*;

verus! {

/// The views of a list of names, in order.
pub open spec fn names_view(v: Seq<String>) -> Seq<Seq<char>> {
    v.map_values(|s: String| s@)
}

/// The set of names a denylist holds; order and duplicates in the list do
/// not matter.
pub open spec fn name_set(deny: Seq<String>) -> Set<Seq<char>> {
    Set::new(|n: Seq<char>| exists|i: int| 0 <= i < deny.len() && deny[i]@ == n)
}

/// The denylisted names present in a name stream, in first-seen stream
/// order, each recorded once: a found name is removed from the remaining
/// denylist before the rest of the stream is scanned.
pub open spec fn spec_scan(names: Seq<Seq<char>>, deny: Set<Seq<char>>) -> Seq<Seq<char>>
    decreases names.len(),
{
    if names.len() == 0 {
        Seq::empty()
    } else if deny.contains(names[0]) {
        seq![names[0]] + spec_scan(names.drop_first(), deny.remove(names[0]))
    } else {
        spec_scan(names.drop_first(), deny)
    }
}

proof fn lemma_cons_contains(h: Seq<char>, r: Seq<Seq<char>>, x: Seq<char>)
    ensures
        (seq![h] + r).contains(x) <==> (x == h || r.contains(x)),
{
    let s = seq![h] + r;
    if s.contains(x) {
        let i = choose|i: int| 0 <= i < s.len() && s[i] == x;
        if i > 0 {
            assert(r[i - 1] == x);
        }
    }
    if x == h {
        assert(s[0] == x);
    }
    if r.contains(x) {
        let i = choose|i: int| 0 <= i < r.len() && r[i] == x;
        assert(s[i + 1] == x);
    }
}

/// Appending one name to the stream appends it to the scan result exactly
/// when it is denylisted and not yet recorded.
proof fn lemma_scan_push(names: Seq<Seq<char>>, deny: Set<Seq<char>>, x: Seq<char>)
    ensures
        spec_scan(names.push(x), deny) == (if deny.contains(x) && !spec_scan(
            names,
            deny,
        ).contains(x) {
            spec_scan(names, deny).push(x)
        } else {
            spec_scan(names, deny)
        }),
    decreases names.len(),
{
    reveal_with_fuel(spec_scan, 3);
    if names.len() == 0 {
        assert(names.push(x) =~= seq![x]);
        if deny.contains(x) {
            assert(seq![x].drop_first() =~= Seq::<Seq<char>>::empty());
            assert(spec_scan(names.push(x), deny) =~= Seq::<Seq<char>>::empty().push(x));
            assert(spec_scan(names, deny).push(x) =~= Seq::<Seq<char>>::empty().push(x));
        }
    } else {
        let h = names[0];
        let t = names.drop_first();
        assert(names.push(x)[0] == h);
        assert(names.push(x).drop_first() =~= t.push(x));
        if deny.contains(h) {
            let rem = deny.remove(h);
            lemma_scan_push(t, rem, x);
            lemma_cons_contains(h, spec_scan(t, rem), x);
            assert(spec_scan(names, deny) == seq![h] + spec_scan(t, rem));
            assert(spec_scan(names.push(x), deny) == seq![h] + spec_scan(t.push(x), rem));
            if x == h {
                assert(!rem.contains(x));
                assert(spec_scan(t.push(x), rem) == spec_scan(t, rem));
                assert(spec_scan(names, deny).contains(x));
            } else {
                assert(rem.contains(x) == deny.contains(x));
                assert(spec_scan(names, deny).contains(x) == spec_scan(t, rem).contains(x));
                if deny.contains(x) && !spec_scan(t, rem).contains(x) {
                    assert(spec_scan(t.push(x), rem) == spec_scan(t, rem).push(x));
                    assert(seq![h] + spec_scan(t, rem).push(x) =~= (seq![h] + spec_scan(
                        t,
                        rem,
                    )).push(x));
                }
            }
        } else {
            lemma_scan_push(t, deny, x);
            assert(spec_scan(names, deny) == spec_scan(t, deny));
            assert(spec_scan(names.push(x), deny) == spec_scan(t.push(x), deny));
        }
    }
}

/// What a scan yields is sound: it holds no duplicates, and every recorded
/// name is both denylisted and present in the scanned stream.
pub proof fn lemma_scan_sound(names: Seq<Seq<char>>, deny: Set<Seq<char>>)
    ensures
        spec_scan(names, deny).no_duplicates(),
        forall|x: Seq<char>| #[trigger]
            spec_scan(names, deny).contains(x) ==> deny.contains(x) && names.contains(x),
    decreases names.len(),
{
    if names.len() == 0 {
    } else {
        let h = names[0];
        let t = names.drop_first();
        assert(forall|x: Seq<char>| #[trigger] t.contains(x) ==> names.contains(x)) by {
            assert forall|x: Seq<char>| #[trigger] t.contains(x) implies names.contains(x) by {
                let i = choose|i: int| 0 <= i < t.len() && t[i] == x;
                assert(names[i + 1] == x);
            }
        }
        if deny.contains(h) {
            let rem = deny.remove(h);
            let r = spec_scan(t, rem);
            lemma_scan_sound(t, rem);
            let s = seq![h] + r;
            assert(spec_scan(names, deny) == s);
            assert(names[0] == h);
            assert(!r.contains(h));
            assert forall|i: int, j: int|
                0 <= i < s.len() && 0 <= j < s.len() && i != j implies s[i] != s[j] by {
                if i > 0 && j > 0 {
                    assert(s[i] == r[i - 1] && s[j] == r[j - 1]);
                } else if i == 0 && j > 0 {
                    assert(s[j] == r[j - 1]);
                    assert(r.contains(r[j - 1]));
                } else if j == 0 && i > 0 {
                    assert(s[i] == r[i - 1]);
                    assert(r.contains(r[i - 1]));
                }
            }
            assert forall|x: Seq<char>| #[trigger]
                s.contains(x) implies deny.contains(x) && names.contains(x) by {
                lemma_cons_contains(h, r, x);
            }
        } else {
            lemma_scan_sound(t, deny);
        }
    }
}

/// Position of the first occurrence of a name in a stream; the stream's
/// length when it is absent.
pub open spec fn first_index_of(names: Seq<Seq<char>>, x: Seq<char>) -> int
    decreases names.len(),
{
    if names.len() == 0 {
        0
    } else if names[0] == x {
        0
    } else {
        1 + first_index_of(names.drop_first(), x)
    }
}

/// The scan result is order-preserving: recorded names stand in the order
/// of their first occurrence in the scanned stream.
pub proof fn lemma_scan_order_preserving(names: Seq<Seq<char>>, deny: Set<Seq<char>>)
    ensures
        forall|i: int, j: int|
            0 <= i < j < spec_scan(names, deny).len() ==> first_index_of(
                names,
                spec_scan(names, deny)[i],
            ) < first_index_of(names, spec_scan(names, deny)[j]),
    decreases names.len(),
{
    if names.len() == 0 {
    } else {
        let h = names[0];
        let t = names.drop_first();
        let r = spec_scan(names, deny);
        if deny.contains(h) {
            let rem = deny.remove(h);
            let rt = spec_scan(t, rem);
            lemma_scan_order_preserving(t, rem);
            lemma_scan_sound(t, rem);
            assert(r == seq![h] + rt);
            assert(first_index_of(names, h) == 0);
            assert forall|i: int, j: int|
                0 <= i < j < r.len() implies first_index_of(names, r[i]) < first_index_of(
                names,
                r[j],
            ) by {
                if i == 0 {
                    assert(r[j] == rt[j - 1]);
                    assert(rt.contains(rt[j - 1]));
                    assert(rem.contains(r[j]));
                    assert(r[j] != h);
                    assert(first_index_of(names, r[j]) == 1 + first_index_of(t, r[j]));
                    assert(first_index_of(t, r[j]) >= 0) by {
                        lemma_first_index_nonneg(t, r[j]);
                    }
                } else {
                    assert(r[i] == rt[i - 1] && r[j] == rt[j - 1]);
                    assert(rt.contains(rt[i - 1]) && rt.contains(rt[j - 1]));
                    assert(rem.contains(r[i]) && rem.contains(r[j]));
                    assert(r[i] != h && r[j] != h);
                    assert(first_index_of(names, r[i]) == 1 + first_index_of(t, r[i]));
                    assert(first_index_of(names, r[j]) == 1 + first_index_of(t, r[j]));
                }
            }
        } else {
            let rt = spec_scan(t, deny);
            lemma_scan_order_preserving(t, deny);
            lemma_scan_sound(t, deny);
            assert(r == rt);
            assert forall|i: int, j: int|
                0 <= i < j < r.len() implies first_index_of(names, r[i]) < first_index_of(
                names,
                r[j],
            ) by {
                assert(rt.contains(rt[i]) && rt.contains(rt[j]));
                assert(deny.contains(r[i]) && deny.contains(r[j]));
                assert(r[i] != h && r[j] != h);
                assert(first_index_of(names, r[i]) == 1 + first_index_of(t, r[i]));
                assert(first_index_of(names, r[j]) == 1 + first_index_of(t, r[j]));
            }
        }
    }
}

proof fn lemma_first_index_nonneg(names: Seq<Seq<char>>, x: Seq<char>)
    ensures
        first_index_of(names, x) >= 0,
    decreases names.len(),
{
    if names.len() > 0 && names[0] != x {
        lemma_first_index_nonneg(names.drop_first(), x);
    }
}

fn has_name(v: &Vec<String>, name: &String) -> (b: bool)
    ensures
        b == (exists|i: int| 0 <= i < v@.len() && v@[i]@ == name@),
{
    let n = v.len();
    let mut j: usize = 0;
    while j < n
        invariant
            j <= n,
            n == v@.len(),
            forall|t: int| 0 <= t < j ==> v@[t]@ != name@,
        decreases n - j,
    {
        if v[j] == *name {
            assert(v@[j as int]@ == name@);
            return true;
        }
        j = j + 1;
    }
    false
}

/// Scan a stream of instruction names against a denylist: the denylisted
/// names actually present, in first-seen stream order, each at most once.
/// An empty result is the clean verdict.
pub fn scan(names: &Vec<String>, denylist: &Vec<String>) -> (r: Vec<String>)
    ensures
        names_view(r@) == spec_scan(names_view(names@), name_set(denylist@)),
{
    let ghost dset = name_set(denylist@);
    let n = names.len();
    let mut out: Vec<String> = Vec::new();
    let mut i: usize = 0;
    proof {
        assert(names_view(names@.take(0)) =~= Seq::<Seq<char>>::empty());
    }
    while i < n
        invariant
            i <= n,
            n == names@.len(),
            dset == name_set(denylist@),
            names_view(out@) == spec_scan(names_view(names@.take(i as int)), dset),
        decreases n - i,
    {
        let ghost prefix = names_view(names@.take(i as int));
        let name = &names[i];
        let denied = has_name(denylist, name);
        let recorded = has_name(&out, name);
        proof {
            assert(dset.contains(name@) == denied);
            assert(names_view(out@).contains(name@) == recorded) by {
                if recorded {
                    let k = choose|k: int| 0 <= k < out@.len() && out@[k]@ == name@;
                    assert(names_view(out@)[k] == name@);
                }
                if names_view(out@).contains(name@) {
                    let k = choose|k: int|
                        0 <= k < names_view(out@).len() && names_view(out@)[k] == name@;
                    assert(out@[k]@ == name@);
                }
            }
            lemma_scan_push(prefix, dset, name@);
            assert(names_view(names@.take(i + 1)) =~= prefix.push(name@));
        }
        if denied && !recorded {
            let ghost old_out = out@;
            out.push(name.clone());
            proof {
                assert(names_view(out@) =~= names_view(old_out).push(name@));
            }
        }
        i = i + 1;
    }
    proof {
        assert(names@.take(i as int) =~= names@);
    }
    out
}

} // verus!

use crate::chars::chars_of;
use vstd::prelude::*;

verus! {

/// Lexicographic order of texts by character code, which is the order of `String`
/// (byte-wise order of UTF-8 agrees with code point order).
pub open spec fn text_lt(a: Seq<char>, b: Seq<char>) -> bool
    decreases a.len(),
{
    if a.len() == 0 {
        b.len() > 0
    } else if b.len() == 0 {
        false
    } else if a[0] != b[0] {
        a[0] < b[0]
    } else {
        text_lt(a.drop_first(), b.drop_first())
    }
}

pub proof fn lemma_text_lt_irrefl(a: Seq<char>)
    ensures
        !text_lt(a, a),
    decreases a.len(),
{
    if a.len() > 0 {
        lemma_text_lt_irrefl(a.drop_first());
    }
}

pub proof fn lemma_text_lt_trans(a: Seq<char>, b: Seq<char>, c: Seq<char>)
    requires
        text_lt(a, b),
        text_lt(b, c),
    ensures
        text_lt(a, c),
    decreases a.len(),
{
    if a.len() > 0 && b.len() > 0 && c.len() > 0 && a[0] == b[0] && b[0] == c[0] {
        lemma_text_lt_trans(a.drop_first(), b.drop_first(), c.drop_first());
    }
}

pub proof fn lemma_text_lt_total(a: Seq<char>, b: Seq<char>)
    ensures
        a == b || text_lt(a, b) || text_lt(b, a),
    decreases a.len(),
{
    if a.len() > 0 && b.len() > 0 {
        if a[0] == b[0] {
            lemma_text_lt_total(a.drop_first(), b.drop_first());
            if a.drop_first() == b.drop_first() {
                assert(a =~= seq![a[0]] + a.drop_first());
                assert(b =~= seq![b[0]] + b.drop_first());
            }
        }
    } else if a.len() == 0 && b.len() == 0 {
        assert(a =~= b);
    }
}

pub proof fn lemma_text_lt_asym(a: Seq<char>, b: Seq<char>)
    requires
        text_lt(a, b),
    ensures
        !text_lt(b, a),
{
    if text_lt(b, a) {
        lemma_text_lt_trans(a, b, a);
        lemma_text_lt_irrefl(a);
    }
}

/// Whether `a` orders before `b` (see `text_lt`).
pub fn text_less(a: &Vec<char>, b: &Vec<char>) -> (r: bool)
    ensures
        r == text_lt(a@, b@),
{
    let mut i: usize = 0;
    assert(a@.skip(0) == a@);
    assert(b@.skip(0) == b@);
    while i < a.len() && i < b.len()
        invariant
            i <= a.len(),
            i <= b.len(),
            text_lt(a@, b@) == text_lt(a@.skip(i as int), b@.skip(i as int)),
        decreases a.len() - i,
    {
        if a[i] != b[i] {
            assert(a@.skip(i as int)[0] == a@[i as int]);
            assert(b@.skip(i as int)[0] == b@[i as int]);
            return a[i] < b[i];
        }
        assert(a@.skip(i as int).drop_first() =~= a@.skip(i as int + 1));
        assert(b@.skip(i as int).drop_first() =~= b@.skip(i as int + 1));
        i = i + 1;
    }
    i < b.len()
}

pub proof fn lemma_push_contains(s: Seq<Seq<char>>, x: Seq<char>, y: Seq<char>)
    ensures
        s.push(x).contains(y) <==> (s.contains(y) || y == x),
{
    if s.push(x).contains(y) {
        let k = choose|k: int| 0 <= k < s.push(x).len() && s.push(x)[k] == y;
        if k < s.len() {
            assert(s[k] == y);
        }
    }
    if s.contains(y) {
        let k = choose|k: int| 0 <= k < s.len() && s[k] == y;
        assert(s.push(x)[k] == y);
    }
    if y == x {
        assert(s.push(x)[s.len() as int] == y);
    }
}

/// A sequence of texts in strictly increasing order (so without repetition).
pub open spec fn strictly_sorted(s: Seq<Seq<char>>) -> bool {
    forall|i: int, j: int| 0 <= i < j < s.len() ==> text_lt(#[trigger] s[i], #[trigger] s[j])
}

/// The position where `x` belongs in a strictly sorted sequence: the number of texts
/// before it.
fn lower_bound(out: &Vec<Vec<char>>, x: &Vec<char>) -> (p: usize)
    requires
        strictly_sorted(out@.map_values(|w: Vec<char>| w@)),
    ensures
        p <= out.len(),
        forall|q: int| 0 <= q < p ==> text_lt(#[trigger] out@[q]@, x@),
        p < out.len() ==> !text_lt(out@[p as int]@, x@),
{
    let mut p: usize = 0;
    while p < out.len() && text_less(&out[p], x)
        invariant
            p <= out.len(),
            forall|q: int| 0 <= q < p ==> text_lt(#[trigger] out@[q]@, x@),
        decreases out.len() - p,
    {
        p = p + 1;
    }
    p
}

/// The texts of `v` in increasing order, each once (what sorting then deduplicating gives).
pub fn sort_dedup(v: &Vec<String>) -> (r: Vec<String>)
    ensures
        strictly_sorted(r.deep_view()),
        forall|x: Seq<char>| r.deep_view().contains(x) <==> v.deep_view().contains(x),
        r.deep_view() == sorted_set(v.deep_view()),
{
    let mut out: Vec<Vec<char>> = Vec::new();
    let mut i: usize = 0;
    while i < v.len()
        invariant
            i <= v.len(),
            strictly_sorted(out@.map_values(|w: Vec<char>| w@)),
            forall|x: Seq<char>| out@.map_values(|w: Vec<char>| w@).contains(x) <==> v.deep_view().take(i as int).contains(x),
        decreases v.len() - i,
    {
        let x = chars_of(v[i].as_str());
        let ghost ov = out@.map_values(|w: Vec<char>| w@);
        let p = lower_bound(&out, &x);
        let dup = p < out.len() && crate::chars::chars_eq(&out[p], &x);
        proof {
            assert(v.deep_view().take(i as int + 1) =~= v.deep_view().take(i as int).push(x@));
        }
        if !dup {
            out.insert(p, x);
            proof {
                let nv = out@.map_values(|w: Vec<char>| w@);
                assert(nv =~= ov.insert(p as int, x@));
                assert forall|a: int, b: int| 0 <= a < b < nv.len() implies text_lt(#[trigger] nv[a], #[trigger] nv[b]) by {
                    if p < ov.len() {
                        lemma_text_lt_total(ov[p as int], x@);
                    }
                    if a < p && b < p {
                    } else if a < p && b == p {
                    } else if a < p && b > p {
                        assert(nv[b] == ov[b - 1]);
                        if b - 1 > p {
                            assert(text_lt(ov[p as int], ov[b - 1]));
                            lemma_text_lt_trans(x@, ov[p as int], ov[b - 1]);
                        }
                        lemma_text_lt_trans(nv[a], x@, nv[b]);
                    } else if a == p {
                        assert(nv[b] == ov[b - 1]);
                        if b - 1 > p {
                            assert(text_lt(ov[p as int], ov[b - 1]));
                            lemma_text_lt_trans(x@, ov[p as int], ov[b - 1]);
                        }
                    } else {
                        assert(nv[a] == ov[a - 1]);
                        assert(nv[b] == ov[b - 1]);
                    }
                }
                assert forall|y: Seq<char>| nv.contains(y) <==> v.deep_view().take(i as int + 1).contains(y) by {
                    if nv.contains(y) {
                        let k = choose|k: int| 0 <= k < nv.len() && nv[k] == y;
                        if k < p {
                            assert(ov[k] == y);
                        } else if k > p {
                            assert(ov[k - 1] == y);
                        }
                    }
                    if ov.contains(y) {
                        let k = choose|k: int| 0 <= k < ov.len() && ov[k] == y;
                        if k < p {
                            assert(nv[k] == y);
                        } else {
                            assert(nv[k + 1] == y);
                        }
                    }
                    if y == x@ {
                        assert(nv[p as int] == y);
                    }
                    lemma_push_contains(v.deep_view().take(i as int), x@, y);
                }
            }
        } else {
            proof {
                assert(ov[p as int] == x@);
                assert forall|y: Seq<char>| ov.contains(y) <==> v.deep_view().take(i as int + 1).contains(y) by {
                    if y == x@ {
                        assert(ov.contains(y));
                    }
                    lemma_push_contains(v.deep_view().take(i as int), x@, y);
                }
            }
        }
        i = i + 1;
    }
    let mut r: Vec<String> = Vec::new();
    let mut k: usize = 0;
    let ghost ov = out@.map_values(|w: Vec<char>| w@);
    while k < out.len()
        invariant
            k <= out.len(),
            ov == out@.map_values(|w: Vec<char>| w@),
            r.deep_view() == ov.take(k as int),
        decreases out.len() - k,
    {
        let ghost rd = r.deep_view();
        r.push(crate::chars::string_of(&out[k]));
        assert(r.deep_view() =~= rd.push(ov[k as int]));
        assert(ov.take(k as int + 1) =~= ov.take(k as int).push(ov[k as int]));
        k = k + 1;
    }
    assert(ov.take(out.len() as int) =~= ov);
    assert(v.deep_view().take(v.len() as int) =~= v.deep_view());
    proof {
        lemma_sorted_set(r.deep_view(), v.deep_view());
    }
    r
}


/// `r` lists the texts of `s` in increasing order, each once.
pub open spec fn sorted_set_of(r: Seq<Seq<char>>, s: Seq<Seq<char>>) -> bool {
    &&& strictly_sorted(r)
    &&& forall|x: Seq<char>| r.contains(x) <==> s.contains(x)
}

/// The texts of `s` in increasing order, each once.
pub open spec fn sorted_set(s: Seq<Seq<char>>) -> Seq<Seq<char>> {
    choose|r: Seq<Seq<char>>| sorted_set_of(r, s)
}

/// Two strictly sorted sequences with the same elements are the same sequence.
pub proof fn lemma_strictly_sorted_unique(a: Seq<Seq<char>>, b: Seq<Seq<char>>)
    requires
        strictly_sorted(a),
        strictly_sorted(b),
        forall|x: Seq<char>| a.contains(x) <==> b.contains(x),
    ensures
        a == b,
    decreases a.len(),
{
    if a.len() == 0 {
        if b.len() > 0 {
            assert(b.contains(b[0]));
        }
        assert(a =~= b);
    } else {
        assert(a.contains(a[0]));
        assert(b.len() > 0);
        assert(b.contains(b[0]));
        let ka = choose|k: int| 0 <= k < a.len() && a[k] == b[0];
        let kb = choose|k: int| 0 <= k < b.len() && b[k] == a[0];
        if a[0] != b[0] {
            assert(ka > 0);
            assert(kb > 0);
            assert(text_lt(a[0], a[ka]));
            assert(text_lt(b[0], b[kb]));
            lemma_text_lt_asym(a[0], b[0]);
        }
        let a1 = a.drop_first();
        let b1 = b.drop_first();
        assert forall|i: int, j: int| 0 <= i < j < a1.len() implies text_lt(#[trigger] a1[i], #[trigger] a1[j]) by {
            assert(a1[i] == a[i + 1] && a1[j] == a[j + 1]);
        }
        assert forall|i: int, j: int| 0 <= i < j < b1.len() implies text_lt(#[trigger] b1[i], #[trigger] b1[j]) by {
            assert(b1[i] == b[i + 1] && b1[j] == b[j + 1]);
        }
        assert forall|x: Seq<char>| a1.contains(x) <==> b1.contains(x) by {
            if a1.contains(x) {
                let k = choose|k: int| 0 <= k < a1.len() && a1[k] == x;
                assert(a[k + 1] == x);
                assert(a.contains(x));
                assert(text_lt(a[0], a[k + 1]));
                let m = choose|m: int| 0 <= m < b.len() && b[m] == x;
                if m == 0 {
                    lemma_text_lt_irrefl(x);
                }
                assert(b1[m - 1] == x);
            }
            if b1.contains(x) {
                let k = choose|k: int| 0 <= k < b1.len() && b1[k] == x;
                assert(b[k + 1] == x);
                assert(b.contains(x));
                assert(text_lt(b[0], b[k + 1]));
                let m = choose|m: int| 0 <= m < a.len() && a[m] == x;
                if m == 0 {
                    lemma_text_lt_irrefl(x);
                }
                assert(a1[m - 1] == x);
            }
        }
        lemma_strictly_sorted_unique(a1, b1);
        assert(a =~= seq![a[0]] + a1);
        assert(b =~= seq![b[0]] + b1);
    }
}

pub proof fn lemma_sorted_set(r: Seq<Seq<char>>, s: Seq<Seq<char>>)
    requires
        sorted_set_of(r, s),
    ensures
        sorted_set(s) == r,
{
    let c = sorted_set(s);
    assert(sorted_set_of(c, s));
    lemma_strictly_sorted_unique(c, r);
}


/// The first index from `k` on whose text is not less than `x` (the length when there is none).
spec fn scan_lt(r: Seq<Seq<char>>, x: Seq<char>, k: nat) -> nat
    decreases r.len() - k,
{
    if k >= r.len() || !text_lt(r[k as int], x) {
        k
    } else {
        scan_lt(r, x, k + 1)
    }
}

proof fn lemma_scan_lt(r: Seq<Seq<char>>, x: Seq<char>, k: nat)
    requires
        k <= r.len(),
    ensures
        k <= scan_lt(r, x, k) <= r.len(),
        forall|q: int| k <= q < scan_lt(r, x, k) ==> text_lt(#[trigger] r[q], x),
        scan_lt(r, x, k) < r.len() ==> !text_lt(r[scan_lt(r, x, k) as int], x),
    decreases r.len() - k,
{
    if k < r.len() && text_lt(r[k as int], x) {
        lemma_scan_lt(r, x, k + 1);
    }
}

/// Every sequence of texts has its increasing list of distinct texts.
pub proof fn lemma_sorted_set_exists(s: Seq<Seq<char>>)
    ensures
        sorted_set_of(sorted_set(s), s),
    decreases s.len(),
{
    if s.len() == 0 {
        let r = Seq::<Seq<char>>::empty();
        assert(sorted_set_of(r, s));
        lemma_sorted_set(r, s);
    } else {
        let t = s.drop_last();
        let x = s.last();
        lemma_sorted_set_exists(t);
        let r = sorted_set(t);
        assert(s =~= t.push(x));
        if r.contains(x) {
            assert forall|y: Seq<char>| r.contains(y) <==> s.contains(y) by {
                lemma_push_contains(t, x, y);
            }
            assert(sorted_set_of(r, s));
            lemma_sorted_set(r, s);
        } else {
            lemma_scan_lt(r, x, 0);
            let p = scan_lt(r, x, 0) as int;
            let nv = r.insert(p, x);
            assert forall|a: int, b: int| 0 <= a < b < nv.len() implies text_lt(#[trigger] nv[a], #[trigger] nv[b]) by {
                if p < r.len() {
                    lemma_text_lt_total(r[p], x);
                    assert(r[p] != x) by {
                        assert(r.contains(r[p]));
                    }
                }
                if a < p && b < p {
                } else if a < p && b == p {
                } else if a < p && b > p {
                    assert(nv[b] == r[b - 1]);
                    if b - 1 > p {
                        assert(text_lt(r[p], r[b - 1]));
                        lemma_text_lt_trans(x, r[p], r[b - 1]);
                    }
                    lemma_text_lt_trans(nv[a], x, nv[b]);
                } else if a == p {
                    assert(nv[b] == r[b - 1]);
                    if b - 1 > p {
                        assert(text_lt(r[p], r[b - 1]));
                        lemma_text_lt_trans(x, r[p], r[b - 1]);
                    }
                } else {
                    assert(nv[a] == r[a - 1]);
                    assert(nv[b] == r[b - 1]);
                }
            }
            assert forall|y: Seq<char>| nv.contains(y) <==> s.contains(y) by {
                if nv.contains(y) {
                    let k = choose|k: int| 0 <= k < nv.len() && nv[k] == y;
                    if k < p {
                        assert(r[k] == y);
                    } else if k > p {
                        assert(r[k - 1] == y);
                    }
                }
                if r.contains(y) {
                    let k = choose|k: int| 0 <= k < r.len() && r[k] == y;
                    if k < p {
                        assert(nv[k] == y);
                    } else {
                        assert(nv[k + 1] == y);
                    }
                }
                if y == x {
                    assert(nv[p] == y);
                }
                lemma_push_contains(t, x, y);
            }
            assert(sorted_set_of(nv, s));
            lemma_sorted_set(nv, s);
        }
    }
}

/// A context variable that an action of a model accepts: its key, its description, and
/// whether the call must give it.
pub struct CtxVar {
    pub key: String,
    pub desc: String,
    pub required: bool,
}

impl CtxVar {
    pub fn copy(&self) -> (r: CtxVar)
        ensures
            r.key@ == self.key@,
            r.desc@ == self.desc@,
            r.required == self.required,
    {
        CtxVar { key: crate::chars::string_from(self.key.as_str()), desc: crate::chars::string_from(self.desc.as_str()), required: self.required }
    }
}

/// The view of a context variable: key, description, required flag.
pub open spec fn ctx_view(c: CtxVar) -> (Seq<char>, Seq<char>, bool) {
    (c.key@, c.desc@, c.required)
}

pub open spec fn ctx_views(s: Seq<CtxVar>) -> Seq<(Seq<char>, Seq<char>, bool)> {
    s.map_values(|c: CtxVar| ctx_view(c))
}

/// Index of the first entry with key `k`, or -1.
pub open spec fn first_key(s: Seq<(Seq<char>, Seq<char>, bool)>, k: Seq<char>) -> int
    decreases s.len(),
{
    if s.len() == 0 {
        -1
    } else {
        let r = first_key(s.drop_last(), k);
        if r >= 0 {
            r
        } else if s.last().0 == k {
            s.len() - 1
        } else {
            -1
        }
    }
}

pub proof fn lemma_first_key(s: Seq<(Seq<char>, Seq<char>, bool)>, k: Seq<char>)
    ensures
        -1 <= first_key(s, k) < s.len(),
        first_key(s, k) >= 0 ==> s[first_key(s, k)].0 == k,
        first_key(s, k) < 0 ==> forall|j: int| 0 <= j < s.len() ==> s[j].0 != k,
    decreases s.len(),
{
    if s.len() > 0 {
        lemma_first_key(s.drop_last(), k);
        if first_key(s.drop_last(), k) < 0 && s.last().0 != k {
            assert forall|j: int| 0 <= j < s.len() implies s[j].0 != k by {
                if j < s.len() - 1 {
                    assert(s[j] == s.drop_last()[j]);
                }
            }
        }
    }
}

/// The keys of a list of context variables.
pub open spec fn keys_of(s: Seq<(Seq<char>, Seq<char>, bool)>) -> Seq<Seq<char>> {
    s.map_values(|c: (Seq<char>, Seq<char>, bool)| c.0)
}

/// One entry per key, taken from the key's first occurrence, ordered by key (what a stable
/// sort by key followed by removing consecutive entries with equal keys gives).
pub open spec fn first_per_key_sorted(input: Seq<(Seq<char>, Seq<char>, bool)>, out: Seq<(Seq<char>, Seq<char>, bool)>) -> bool {
    &&& strictly_sorted(keys_of(out))
    &&& forall|k: Seq<char>| keys_of(out).contains(k) <==> keys_of(input).contains(k)
    &&& forall|j: int| 0 <= j < out.len() ==> out[j] == input[first_key(input, #[trigger] out[j].0)]
}

/// The entries that `first_per_key_sorted` describes.
pub open spec fn first_per_key(input: Seq<(Seq<char>, Seq<char>, bool)>) -> Seq<(Seq<char>, Seq<char>, bool)> {
    choose|out: Seq<(Seq<char>, Seq<char>, bool)>| first_per_key_sorted(input, out)
}

pub proof fn lemma_first_per_key(input: Seq<(Seq<char>, Seq<char>, bool)>, out: Seq<(Seq<char>, Seq<char>, bool)>)
    requires
        first_per_key_sorted(input, out),
    ensures
        first_per_key(input) == out,
{
    let c = first_per_key(input);
    assert(first_per_key_sorted(input, c));
    assert forall|k: Seq<char>| keys_of(c).contains(k) <==> keys_of(out).contains(k) by {}
    lemma_strictly_sorted_unique(keys_of(c), keys_of(out));
    assert(c.len() == keys_of(c).len());
    assert forall|j: int| 0 <= j < c.len() implies c[j] == out[j] by {
        assert(keys_of(c)[j] == keys_of(out)[j]);
    }
    assert(c =~= out);
}

/// Keeps the first context variable of each key, ordered by key.
pub fn dedup_by_key_sorted(items: &Vec<CtxVar>) -> (r: Vec<CtxVar>)
    ensures
        first_per_key_sorted(ctx_views(items@), ctx_views(r@)),
        ctx_views(r@) == first_per_key(ctx_views(items@)),
{
    let ghost iv = ctx_views(items@);
    let mut keys: Vec<Vec<char>> = Vec::new();
    let mut out: Vec<CtxVar> = Vec::new();
    let mut i: usize = 0;
    while i < items.len()
        invariant
            i <= items.len(),
            iv == ctx_views(items@),
            keys.len() == out.len(),
            forall|j: int| 0 <= j < keys.len() ==> #[trigger] keys@[j]@ == out@[j].key@,
            first_per_key_sorted(iv.take(i as int), ctx_views(out@)),
        decreases items.len() - i,
    {
        let x = chars_of(items[i].key.as_str());
        let ghost ov = ctx_views(out@);
        let ghost pre = iv.take(i as int);
        let ghost post = iv.take(i as int + 1);
        proof {
            assert(post =~= pre.push(iv[i as int]));
            assert(post.drop_last() == pre);
            assert(keys@.map_values(|w: Vec<char>| w@) =~= keys_of(ov));
            lemma_first_key(pre, x@);
            lemma_first_key(post, x@);
        }
        let p = lower_bound(&keys, &x);
        let dup = p < keys.len() && crate::chars::chars_eq(&keys[p], &x);
        if !dup {
            let ghost old_keys = keys@;
            let ghost old_out = out@;
            let item = items[i].copy();
            keys.insert(p, x);
            out.insert(p, item);
            proof {
                let nv = ctx_views(out@);
                assert(nv =~= ov.insert(p as int, iv[i as int]));
                let nk = keys_of(nv);
                let ok = keys_of(ov);
                assert(nk =~= ok.insert(p as int, x@));
                assert forall|j: int| 0 <= j < keys.len() implies #[trigger] keys@[j]@ == out@[j].key@ by {
                    if j < p {
                        assert(keys@[j] == old_keys[j]);
                        assert(out@[j] == old_out[j]);
                    } else if j > p {
                        assert(keys@[j] == old_keys[j - 1]);
                        assert(out@[j] == old_out[j - 1]);
                    }
                }
                // x is a key not seen before
                assert(!ok.contains(x@)) by {
                    if ok.contains(x@) {
                        let k = choose|k: int| 0 <= k < ok.len() && ok[k] == x@;
                        if k < p {
                            assert(text_lt(ok[k], x@));
                            lemma_text_lt_irrefl(x@);
                        } else if k > p {
                            lemma_text_lt_total(ok[p as int], x@);
                            assert(text_lt(ok[p as int], ok[k]));
                            lemma_text_lt_asym(ok[p as int], ok[k]);
                        }
                    }
                }
                assert(!keys_of(pre).contains(x@));
                assert(first_key(pre, x@) < 0) by {
                    if first_key(pre, x@) >= 0 {
                        assert(keys_of(pre)[first_key(pre, x@)] == x@);
                    }
                }
                assert(first_key(post, x@) == i as int);
                assert forall|a: int, b: int| 0 <= a < b < nk.len() implies text_lt(#[trigger] nk[a], #[trigger] nk[b]) by {
                    if p < ok.len() {
                        lemma_text_lt_total(ok[p as int], x@);
                    }
                    if a < p && b == p {
                    } else if a < p && b > p {
                        if b - 1 > p {
                            assert(text_lt(ok[p as int], ok[b - 1]));
                            lemma_text_lt_trans(x@, ok[p as int], ok[b - 1]);
                        }
                        lemma_text_lt_trans(nk[a], x@, nk[b]);
                    } else if a == p {
                        if b - 1 > p {
                            assert(text_lt(ok[p as int], ok[b - 1]));
                            lemma_text_lt_trans(x@, ok[p as int], ok[b - 1]);
                        }
                    } else if a > p {
                        assert(nk[a] == ok[a - 1]);
                        assert(nk[b] == ok[b - 1]);
                    }
                }
                assert forall|y: Seq<char>| nk.contains(y) <==> keys_of(post).contains(y) by {
                    assert(keys_of(post) =~= keys_of(pre).push(x@));
                    lemma_push_contains(keys_of(pre), x@, y);
                    if nk.contains(y) {
                        let k = choose|k: int| 0 <= k < nk.len() && nk[k] == y;
                        if k < p {
                            assert(ok[k] == y);
                        } else if k > p {
                            assert(ok[k - 1] == y);
                        }
                    }
                    if ok.contains(y) {
                        let k = choose|k: int| 0 <= k < ok.len() && ok[k] == y;
                        if k < p {
                            assert(nk[k] == y);
                        } else {
                            assert(nk[k + 1] == y);
                        }
                    }
                    if y == x@ {
                        assert(nk[p as int] == y);
                    }
                }
                assert forall|j: int| 0 <= j < nv.len() implies nv[j] == post[first_key(post, #[trigger] nv[j].0)] by {
                    if j == p {
                    } else {
                        let jj = if j < p { j } else { j - 1 };
                        assert(nv[j] == ov[jj]);
                        assert(ov[jj] == pre[first_key(pre, ov[jj].0)]);
                        lemma_first_key(pre, ov[jj].0);
                        assert(keys_of(ov).contains(ov[jj].0)) by {
                            assert(keys_of(ov)[jj] == ov[jj].0);
                        }
                        assert(first_key(pre, ov[jj].0) >= 0) by {
                            if first_key(pre, ov[jj].0) < 0 {
                                assert(keys_of(pre).contains(ov[jj].0));
                                let k = choose|k: int| 0 <= k < keys_of(pre).len() && keys_of(pre)[k] == ov[jj].0;
                                assert(pre[k].0 == ov[jj].0);
                            }
                        }
                        assert(first_key(post, ov[jj].0) == first_key(pre, ov[jj].0));
                    }
                }
            }
        } else {
            proof {
                let ok = keys_of(ov);
                assert(ok[p as int] == x@);
                assert(keys_of(post) =~= keys_of(pre).push(x@));
                assert forall|y: Seq<char>| ok.contains(y) <==> keys_of(post).contains(y) by {
                    lemma_push_contains(keys_of(pre), x@, y);
                    if y == x@ {
                        assert(ok.contains(y));
                    }
                }
                assert forall|j: int| 0 <= j < ov.len() implies ov[j] == post[first_key(post, #[trigger] ov[j].0)] by {
                    assert(ov[j] == pre[first_key(pre, ov[j].0)]);
                    lemma_first_key(pre, ov[j].0);
                    assert(keys_of(ov)[j] == ov[j].0);
                    assert(first_key(pre, ov[j].0) >= 0) by {
                        if first_key(pre, ov[j].0) < 0 {
                            assert(keys_of(pre).contains(ov[j].0));
                            let k = choose|k: int| 0 <= k < keys_of(pre).len() && keys_of(pre)[k] == ov[j].0;
                            assert(pre[k].0 == ov[j].0);
                        }
                    }
                }
            }
        }
        i = i + 1;
    }
    proof {
        assert(iv.take(items.len() as int) =~= iv);
        lemma_first_per_key(iv, ctx_views(out@));
    }
    out
}

} // verus!


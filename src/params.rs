use vstd::prelude::*;

verus! {

/// Strict lexicographic order on text, comparing characters by code point.
/// This is the order of `str`'s `Ord` (UTF-8 keeps code-point order).
pub open spec fn text_lt(a: Seq<char>, b: Seq<char>) -> bool
    decreases a.len(),
{
    if b.len() == 0 {
        false
    } else if a.len() == 0 {
        true
    } else if (a[0] as int) < (b[0] as int) {
        true
    } else if a[0] == b[0] {
        text_lt(a.drop_first(), b.drop_first())
    } else {
        false
    }
}

/// One request parameter as text: a name and a value.
pub type Pair = (Seq<char>, Seq<char>);

/// Names strictly ascending: no name twice, in canonical order.
pub open spec fn sorted_names(s: Seq<Pair>) -> bool {
    forall|i: int, j: int| 0 <= i < j < s.len() ==> text_lt(#[trigger] s[i].0, #[trigger] s[j].0)
}

/// The pairs after setting `name` to `value`: a pair with that name is
/// replaced in place, otherwise one is added before the first larger name.
pub open spec fn set_pair(s: Seq<Pair>, name: Seq<char>, value: Seq<char>) -> Seq<Pair>
    decreases s.len(),
{
    if s.len() == 0 {
        seq![(name, value)]
    } else if s[0].0 == name {
        seq![(name, value)] + s.drop_first()
    } else if text_lt(name, s[0].0) {
        seq![(name, value)] + s
    } else {
        seq![s[0]] + set_pair(s.drop_first(), name, value)
    }
}

pub proof fn lemma_text_lt_irreflexive(a: Seq<char>)
    ensures
        !text_lt(a, a),
    decreases a.len(),
{
    if a.len() > 0 {
        lemma_text_lt_irreflexive(a.drop_first());
    }
}

pub proof fn lemma_text_lt_transitive(a: Seq<char>, b: Seq<char>, c: Seq<char>)
    requires
        text_lt(a, b),
        text_lt(b, c),
    ensures
        text_lt(a, c),
    decreases a.len(),
{
    if a.len() > 0 && b.len() > 0 && c.len() > 0 {
        if a[0] == b[0] && b[0] == c[0] {
            lemma_text_lt_transitive(a.drop_first(), b.drop_first(), c.drop_first());
        }
    }
}

pub proof fn lemma_text_lt_total(a: Seq<char>, b: Seq<char>)
    ensures
        a == b || text_lt(a, b) || text_lt(b, a),
    decreases a.len(),
{
    if a.len() > 0 && b.len() > 0 {
        if a[0] == b[0] {
            lemma_text_lt_total(a.drop_first(), b.drop_first());
            if a.drop_first() == b.drop_first() {
                assert(a == seq![a[0]] + a.drop_first());
                assert(b == seq![b[0]] + b.drop_first());
            }
        } else {
            assert((a[0] as int) != (b[0] as int));
        }
    } else if a.len() == 0 && b.len() == 0 {
        assert(a =~= b);
    }
}

/// Strict comparison of two texts, by code point.
pub fn text_less(a: &str, b: &str) -> (r: bool)
    ensures
        r == text_lt(a@, b@),
{
    let la = a.unicode_len();
    let lb = b.unicode_len();
    let mut i: usize = 0;
    assert(a@.subrange(0, la as int) =~= a@);
    assert(b@.subrange(0, lb as int) =~= b@);
    while i < la && i < lb
        invariant
            la == a@.len(),
            lb == b@.len(),
            i <= la,
            i <= lb,
            forall|j: int| 0 <= j < i ==> a@[j] == b@[j],
            text_lt(a@, b@) == text_lt(a@.subrange(i as int, la as int), b@.subrange(i as int, lb as int)),
        decreases la - i,
    {
        let ca = a.get_char(i);
        let cb = b.get_char(i);
        let ghost sa = a@.subrange(i as int, la as int);
        let ghost sb = b@.subrange(i as int, lb as int);
        if (ca as u32) < (cb as u32) {
            return true;
        }
        if ca != cb {
            return false;
        }
        assert(sa.drop_first() =~= a@.subrange(i + 1, la as int));
        assert(sb.drop_first() =~= b@.subrange(i + 1, lb as int));
        i = i + 1;
    }
    i == la && i < lb
}

/// Whether two texts are equal.
pub fn text_eq(a: &str, b: &str) -> (r: bool)
    ensures
        r == (a@ == b@),
{
    proof {
        lemma_text_lt_total(a@, b@);
        lemma_text_lt_irreflexive(a@);
    }
    !text_less(a, b) && !text_less(b, a)
}

/// Request parameters, kept sorted by name with each name once.
#[derive(Debug)]
pub struct Params {
    pub entries: Vec<(String, String)>,
}

impl View for Params {
    type V = Seq<Pair>;

    open spec fn view(&self) -> Seq<Pair> {
        self.entries@.map_values(|e: (String, String)| (e.0@, e.1@))
    }
}

proof fn lemma_set_pair_at(s: Seq<Pair>, name: Seq<char>, value: Seq<char>, i: int)
    requires
        sorted_names(s),
        0 <= i <= s.len(),
        forall|j: int| 0 <= j < i ==> text_lt(#[trigger] s[j].0, name),
        i < s.len() ==> !text_lt(s[i].0, name),
    ensures
        i < s.len() && s[i].0 == name ==> set_pair(s, name, value) == s.update(i, (name, value)),
        !(i < s.len() && s[i].0 == name) ==> set_pair(s, name, value) == s.insert(i, (name, value)),
    decreases s.len(),
{
    if s.len() == 0 {
        assert(s.insert(i, (name, value)) =~= seq![(name, value)]);
    } else if i == 0 {
        lemma_text_lt_total(s[0].0, name);
        if s[0].0 == name {
            assert(s.update(0, (name, value)) =~= seq![(name, value)] + s.drop_first());
        } else {
            assert(s.insert(0, (name, value)) =~= seq![(name, value)] + s);
        }
    } else {
        let t = s.drop_first();
        assert(sorted_names(t)) by {
            assert forall|a: int, b: int| 0 <= a < b < t.len() implies text_lt(#[trigger] t[a].0, #[trigger] t[b].0) by {
                assert(t[a] == s[a + 1] && t[b] == s[b + 1]);
            }
        }
        assert forall|j: int| 0 <= j < i - 1 implies text_lt(#[trigger] t[j].0, name) by {
            assert(t[j] == s[j + 1]);
        }
        lemma_set_pair_at(t, name, value, i - 1);
        assert(text_lt(s[0].0, name));
        lemma_text_lt_irreflexive(name);
        assert(s[0].0 != name);
        assert(!text_lt(name, s[0].0)) by {
            if text_lt(name, s[0].0) {
                lemma_text_lt_transitive(name, s[0].0, name);
            }
        }
        if i < s.len() && s[i].0 == name {
            assert(s.update(i, (name, value)) =~= seq![s[0]] + t.update(i - 1, (name, value)));
        } else {
            assert(s.insert(i, (name, value)) =~= seq![s[0]] + t.insert(i - 1, (name, value)));
        }
    }
}

proof fn lemma_set_pair_above(t: Seq<Pair>, name: Seq<char>, value: Seq<char>, x: Seq<char>)
    requires
        forall|j: int| 0 <= j < t.len() ==> text_lt(x, #[trigger] t[j].0),
        text_lt(x, name),
    ensures
        forall|k: int| 0 <= k < set_pair(t, name, value).len()
            ==> text_lt(x, #[trigger] set_pair(t, name, value)[k].0),
    decreases t.len(),
{
    if t.len() > 0 && t[0].0 != name && !text_lt(name, t[0].0) {
        lemma_set_pair_above(t.drop_first(), name, value, x);
        let r = set_pair(t, name, value);
        let q = set_pair(t.drop_first(), name, value);
        assert forall|k: int| 0 <= k < r.len() implies text_lt(x, #[trigger] r[k].0) by {
            if k > 0 {
                assert(r[k] == q[k - 1]);
            }
        }
    } else if t.len() > 0 && t[0].0 == name {
        let r = set_pair(t, name, value);
        assert forall|k: int| 0 <= k < r.len() implies text_lt(x, #[trigger] r[k].0) by {
            if k > 0 {
                assert(r[k] == t[k]);
            }
        }
    } else if t.len() > 0 {
        let r = set_pair(t, name, value);
        assert forall|k: int| 0 <= k < r.len() implies text_lt(x, #[trigger] r[k].0) by {
            if k > 0 {
                assert(r[k] == t[k - 1]);
            }
        }
    }
}

proof fn lemma_set_pair_sorted(s: Seq<Pair>, name: Seq<char>, value: Seq<char>)
    requires
        sorted_names(s),
    ensures
        sorted_names(set_pair(s, name, value)),
    decreases s.len(),
{
    let r = set_pair(s, name, value);
    if s.len() == 0 {
    } else if s[0].0 == name {
        assert forall|i: int, j: int| 0 <= i < j < r.len() implies text_lt(#[trigger] r[i].0, #[trigger] r[j].0) by {
            assert(r[j] == s[j]);
            if i > 0 {
                assert(r[i] == s[i]);
            }
        }
    } else if text_lt(name, s[0].0) {
        assert forall|i: int, j: int| 0 <= i < j < r.len() implies text_lt(#[trigger] r[i].0, #[trigger] r[j].0) by {
            assert(r[j] == s[j - 1]);
            if i > 0 {
                assert(r[i] == s[i - 1]);
            } else if j > 1 {
                lemma_text_lt_transitive(name, s[0].0, s[j - 1].0);
            }
        }
    } else {
        let t = s.drop_first();
        assert(sorted_names(t)) by {
            assert forall|a: int, b: int| 0 <= a < b < t.len() implies text_lt(#[trigger] t[a].0, #[trigger] t[b].0) by {
                assert(t[a] == s[a + 1] && t[b] == s[b + 1]);
            }
        }
        lemma_set_pair_sorted(t, name, value);
        lemma_text_lt_total(s[0].0, name);
        assert forall|j: int| 0 <= j < t.len() implies text_lt(s[0].0, #[trigger] t[j].0) by {
            assert(t[j] == s[j + 1]);
        }
        lemma_set_pair_above(t, name, value, s[0].0);
        let q = set_pair(t, name, value);
        assert forall|i: int, j: int| 0 <= i < j < r.len() implies text_lt(#[trigger] r[i].0, #[trigger] r[j].0) by {
            assert(r[j] == q[j - 1]);
            if i > 0 {
                assert(r[i] == q[i - 1]);
            }
        }
    }
}

impl Params {
    pub open spec fn wf(&self) -> bool {
        sorted_names(self@)
    }

    /// No parameters.
    pub fn new() -> (r: Params)
        ensures
            r@ == Seq::<Pair>::empty(),
            r.wf(),
    {
        Params { entries: Vec::new() }
    }

    /// Sets `name` to `value`, replacing an earlier value of that name.
    pub fn insert(&mut self, name: String, value: String)
        requires
            old(self).wf(),
        ensures
            final(self).wf(),
            final(self)@ == set_pair(old(self)@, name@, value@),
    {
        let ghost s = self@;
        let n = self.entries.len();
        let mut i: usize = 0;
        while i < n
            invariant
                n == self.entries.len(),
                s == self@,
                i <= n,
                forall|j: int| 0 <= j < i ==> text_lt(#[trigger] s[j].0, name@),
            ensures
                i <= n,
                forall|j: int| 0 <= j < i ==> text_lt(#[trigger] s[j].0, name@),
                i < n ==> !text_lt(s[i as int].0, name@),
            decreases n - i,
        {
            if !text_less(self.entries[i].0.as_str(), name.as_str()) {
                break;
            }
            i = i + 1;
        }
        proof {
            lemma_set_pair_at(s, name@, value@, i as int);
        }
        if i < n && self.entries[i].0 == name {
            let ghost e = (name@, value@);
            self.entries.set(i, (name, value));
            assert(self@ =~= s.update(i as int, e));
        } else {
            let ghost e = (name@, value@);
            self.entries.insert(i, (name, value));
            assert(self@ =~= s.insert(i as int, e));
        }
        proof {
            lemma_set_pair_sorted(s, name@, value@);
        }
    }
}

} // verus!

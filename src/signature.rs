use vstd::prelude::*;

use crate::params::{Pair, Params, set_pair, text_eq, text_lt};
use vstd::utf8::encode_utf8;

verus! {

/// The one parameter name that never takes part in a signature.
pub open spec fn reserved_name() -> Seq<char> {
    seq!['f', 'o', 'r', 'm', 'a', 't']
}

/// Each pair in order as its name followed by its value, with no separators,
/// leaving out the pair named `format`.
pub open spec fn pairs_text(s: Seq<Pair>) -> Seq<char>
    decreases s.len(),
{
    if s.len() == 0 {
        Seq::empty()
    } else if s[0].0 == reserved_name() {
        pairs_text(s.drop_first())
    } else {
        s[0].0 + s[0].1 + pairs_text(s.drop_first())
    }
}

/// The text that a signature digests: the pairs, then the shared secret.
pub open spec fn signing_input(s: Seq<Pair>, secret: Seq<char>) -> Seq<char> {
    pairs_text(s) + secret
}

pub open spec fn is_lower_hex_digit(c: char) -> bool {
    ('0' <= c && c <= '9') || ('a' <= c && c <= 'f')
}

/// The MD5 digest of `data`, written as lowercase hexadecimal.
pub uninterp spec fn md5_hex_of(data: Seq<u8>) -> Seq<char>;

/// Relies on `md5::compute` and its `LowerHex` rendering: two lowercase hex
/// digits for each of the digest's 16 bytes.
#[verifier::external_body]
fn md5_hex(data: &str) -> (r: String)
    ensures
        r@ == md5_hex_of(encode_utf8(data@)),
        r@.len() == 32,
        forall|i: int| 0 <= i < r@.len() ==> is_lower_hex_digit(#[trigger] r@[i]),
{
    format!("{:x}", md5::compute(data.as_bytes()))
}

/// The text that is digested for `params` and `secret`.
pub fn signature_base(params: &Params, secret: &str) -> (r: String)
    ensures
        r@ == signing_input(params@, secret@),
{
    let reserved = String::from_str("format");
    proof {
        reveal_strlit("format");
    }
    assert(reserved@ == reserved_name());
    let n = params.entries.len();
    let mut text = String::new();
    let mut i: usize = n;
    let ghost s = params@;
    let mut tail = String::new();
    while i > 0
        invariant
            n == params.entries.len(),
            s == params@,
            i <= n,
            tail@ == pairs_text(s.subrange(i as int, n as int)),
            reserved@ == reserved_name(),
        decreases i,
    {
        i = i - 1;
        let ghost rest = s.subrange(i + 1, n as int);
        assert(s.subrange(i as int, n as int).drop_first() =~= rest);
        let name = &params.entries[i].0;
        if text_eq(name.as_str(), reserved.as_str()) {
        } else {
            let mut piece = name.clone();
            piece.append(params.entries[i].1.as_str());
            piece.append(tail.as_str());
            tail = piece;
            assert(tail@ =~= s[i as int].0 + s[i as int].1 + pairs_text(rest));
        }
    }
    assert(s.subrange(0, n as int) =~= s);
    text.append(tail.as_str());
    text.append(secret);
    assert(text@ =~= signing_input(s, secret@));
    text
}

/// The request signature: the lowercase hex MD5 digest of every parameter
/// but `format`, in name order, as name and value, followed by `secret`.
pub fn generate(params: &Params, secret: &str) -> (r: String)
    ensures
        r@ == md5_hex_of(encode_utf8(signing_input(params@, secret@))),
        r@.len() == 32,
        forall|i: int| 0 <= i < r@.len() ==> is_lower_hex_digit(#[trigger] r@[i]),
{
    let base = signature_base(params, secret);
    md5_hex(base.as_str())
}

/// A signature depends on nothing but the parameters and the secret: equal
/// parameters and an equal secret give an equal 32-digit hex signature.
pub proof fn lemma_signature_deterministic(p: Params, q: Params, s1: Seq<char>, s2: Seq<char>)
    requires
        p@ == q@,
        s1 == s2,
    ensures
        md5_hex_of(encode_utf8(signing_input(p@, s1))) == md5_hex_of(
            encode_utf8(signing_input(q@, s2)),
        ),
{
}

/// Setting `format` to any value, whether or not it was there before,
/// leaves the signed text unchanged.
pub proof fn lemma_format_not_signed(s: Seq<Pair>, value: Seq<char>, secret: Seq<char>)
    ensures
        signing_input(set_pair(s, reserved_name(), value), secret) == signing_input(s, secret),
{
    lemma_format_not_in_pairs_text(s, value);
}

proof fn lemma_format_not_in_pairs_text(s: Seq<Pair>, value: Seq<char>)
    ensures
        pairs_text(set_pair(s, reserved_name(), value)) == pairs_text(s),
    decreases s.len(),
{
    let f = reserved_name();
    let r = set_pair(s, f, value);
    if s.len() == 0 {
        assert(r[0].0 == f);
        assert(r.drop_first() =~= Seq::<Pair>::empty());
        assert(pairs_text(r) == pairs_text(r.drop_first()));
    } else if s[0].0 == f {
        assert(r[0].0 == f);
        assert(r.drop_first() =~= s.drop_first());
        assert(pairs_text(r) == pairs_text(r.drop_first()));
    } else if text_lt(f, s[0].0) {
        assert(r[0].0 == f);
        assert(r.drop_first() =~= s);
        assert(pairs_text(r) == pairs_text(r.drop_first()));
    } else {
        assert(r[0] == s[0]);
        lemma_format_not_in_pairs_text(s.drop_first(), value);
        assert(r.drop_first() =~= set_pair(s.drop_first(), f, value));
    }
}

/// Giving a signed parameter another value changes the text that the
/// signature digests.
pub proof fn lemma_value_change_changes_input(
    s: Seq<Pair>,
    i: int,
    value: Seq<char>,
    secret: Seq<char>,
)
    requires
        0 <= i < s.len(),
        s[i].0 != reserved_name(),
        value != s[i].1,
    ensures
        signing_input(s.update(i, (s[i].0, value)), secret) != signing_input(s, secret),
{
    let t = s.update(i, (s[i].0, value));
    lemma_value_change_changes_pairs_text(s, i, value);
    let a = pairs_text(t);
    let b = pairs_text(s);
    if a + secret == b + secret {
        assert((a + secret).subrange(0, a.len() as int) =~= a);
        assert((b + secret).subrange(0, b.len() as int) =~= b);
    }
}

proof fn lemma_prefix_cancels(h: Seq<char>, x: Seq<char>, y: Seq<char>)
    requires
        x != y,
    ensures
        h + x != h + y,
{
    if h + x == h + y {
        assert((h + x).subrange(h.len() as int, (h + x).len() as int) =~= x);
        assert((h + y).subrange(h.len() as int, (h + y).len() as int) =~= y);
    }
}

proof fn lemma_value_change_changes_pairs_text(s: Seq<Pair>, i: int, value: Seq<char>)
    requires
        0 <= i < s.len(),
        s[i].0 != reserved_name(),
        value != s[i].1,
    ensures
        pairs_text(s.update(i, (s[i].0, value))) != pairs_text(s),
    decreases s.len(),
{
    let t = s.update(i, (s[i].0, value));
    if i == 0 {
        assert(t.drop_first() =~= s.drop_first());
        let n = s[0].0;
        let r = pairs_text(s.drop_first());
        assert(pairs_text(t) == n + value + r);
        assert(pairs_text(s) == n + s[0].1 + r);
        if n + value + r == n + s[0].1 + r {
            let total = (n + value + r).len() as int;
            assert((n + value + r).subrange(0, total - r.len()) =~= n + value);
            assert((n + s[0].1 + r).subrange(0, total - r.len()) =~= n + s[0].1);
            lemma_prefix_cancels(n, value, s[0].1);
        }
    } else {
        let rest = s.drop_first();
        assert(t.drop_first() =~= rest.update(i - 1, (rest[i - 1].0, value)));
        lemma_value_change_changes_pairs_text(rest, i - 1, value);
        assert(t[0] == s[0]);
        let h = if s[0].0 == reserved_name() {
            Seq::<char>::empty()
        } else {
            s[0].0 + s[0].1
        };
        assert(pairs_text(t) == h + pairs_text(t.drop_first()));
        assert(pairs_text(s) == h + pairs_text(rest));
        lemma_prefix_cancels(h, pairs_text(t.drop_first()), pairs_text(rest));
    }
}

} // verus!

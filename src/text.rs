use vstd::prelude::*;

verus! {

/// The lower-case hexadecimal digits, in order of value.
pub open spec fn hex_digits() -> Seq<char> {
    "0123456789abcdef"@
}

/// Lower-case hexadecimal text of a byte string: two digits per byte, high
/// nibble first.
pub open spec fn hex_of(b: Seq<u8>) -> Seq<char>
    decreases b.len(),
{
    if b.len() == 0 {
        Seq::empty()
    } else {
        hex_of(b.drop_last()) + seq![
            hex_digits()[(b.last() / 16) as int],
            hex_digits()[(b.last() % 16) as int],
        ]
    }
}

/// Decimal text of a natural number, without sign or leading zeros.
pub open spec fn decimal_of(n: nat) -> Seq<char>
    decreases n,
{
    if n < 10 {
        seq![hex_digits()[n as int]]
    } else {
        decimal_of(n / 10) + seq![hex_digits()[(n % 10) as int]]
    }
}

/// The digit of value `d` as a one-character string.
fn digit(d: u8) -> (r: &'static str)
    requires
        d < 16,
    ensures
        r@ == seq![hex_digits()[d as int]],
{
    let digits = "0123456789abcdef";
    proof {
        reveal_strlit("0123456789abcdef");
    }
    let r = digits.substring_char(d as usize, d as usize + 1);
    assert(r@ =~= seq![hex_digits()[d as int]]);
    r
}

/// Lower-case hexadecimal text of `b`.
pub fn hex_string(b: &Vec<u8>) -> (r: String)
    ensures
        r@ == hex_of(b@),
{
    let mut r = String::new();
    let mut i: usize = 0;
    while i < b.len()
        invariant
            i <= b@.len(),
            r@ == hex_of(b@.subrange(0, i as int)),
        decreases b@.len() - i,
    {
        let byte = b[i];
        let hi = digit(byte / 16);
        let lo = digit(byte % 16);
        r.append(hi);
        r.append(lo);
        proof {
            let next = b@.subrange(0, i + 1);
            assert(next.drop_last() =~= b@.subrange(0, i as int));
            assert(next.last() == byte);
        }
        i = i + 1;
    }
    assert(b@.subrange(0, b@.len() as int) =~= b@);
    r
}

/// Decimal text of `n`.
pub fn decimal_string(n: u64) -> (r: String)
    ensures
        r@ == decimal_of(n as nat),
    decreases n,
{
    if n < 10 {
        String::from_str(digit(n as u8))
    } else {
        let head = decimal_string(n / 10);
        head.concat(digit((n % 10) as u8))
    }
}

} // verus!

verus! {

/// `base` extended by one path component, the way a path buffer pushes a
/// relative component: a `/` goes between them unless `base` is empty or
/// already ends with one.
pub open spec fn path_join(base: Seq<char>, part: Seq<char>) -> Seq<char> {
    if base.len() == 0 || base.last() == '/' {
        base + part
    } else {
        base + "/"@ + part
    }
}

/// Appends the relative component `part` to the path `base`.
pub fn join_path(base: &str, part: &str) -> (r: String)
    ensures
        r@ == path_join(base@, part@),
{
    let n = base.unicode_len();
    if n == 0 || base.get_char(n - 1) == '/' {
        String::from_str(base).concat(part)
    } else {
        String::from_str(base).concat("/").concat(part)
    }
}

} // verus!

verus! {

proof fn lemma_hex_len(b: Seq<u8>)
    ensures
        hex_of(b).len() == 2 * b.len(),
    decreases b.len(),
{
    if b.len() > 0 {
        lemma_hex_len(b.drop_last());
    }
}

proof fn lemma_hex_digits_distinct(i: int, j: int)
    requires
        0 <= i < 16,
        0 <= j < 16,
        hex_digits()[i] == hex_digits()[j],
    ensures
        i == j,
{
    reveal_strlit("0123456789abcdef");
    assert(hex_digits() =~= seq![
        '0', '1', '2', '3', '4', '5', '6', '7', '8', '9', 'a', 'b', 'c', 'd', 'e', 'f',
    ]);
}

/// Different byte strings have different hexadecimal texts.
pub proof fn lemma_hex_injective(a: Seq<u8>, b: Seq<u8>)
    requires
        hex_of(a) == hex_of(b),
    ensures
        a == b,
    decreases a.len(),
{
    lemma_hex_len(a);
    lemma_hex_len(b);
    if a.len() > 0 {
        let ha = hex_of(a.drop_last());
        let hb = hex_of(b.drop_last());
        lemma_hex_len(a.drop_last());
        lemma_hex_len(b.drop_last());
        let n = ha.len();
        assert(ha =~= hex_of(a).subrange(0, n as int));
        assert(hb =~= hex_of(b).subrange(0, n as int));
        let ta = seq![hex_digits()[(a.last() / 16) as int], hex_digits()[(a.last() % 16) as int]];
        let tb = seq![hex_digits()[(b.last() / 16) as int], hex_digits()[(b.last() % 16) as int]];
        assert(hex_of(a) == ha + ta);
        assert(hex_of(b) == hb + tb);
        assert((ha + ta)[n as int] == ta[0]);
        assert((hb + tb)[n as int] == tb[0]);
        assert((ha + ta)[n + 1int] == ta[1]);
        assert((hb + tb)[n + 1int] == tb[1]);
        lemma_hex_digits_distinct((a.last() / 16) as int, (b.last() / 16) as int);
        lemma_hex_digits_distinct((a.last() % 16) as int, (b.last() % 16) as int);
        assert(a.last() == b.last());
        lemma_hex_injective(a.drop_last(), b.drop_last());
        assert(a =~= a.drop_last().push(a.last()));
        assert(b =~= b.drop_last().push(b.last()));
    } else {
        assert(a =~= b);
    }
}

} // verus!

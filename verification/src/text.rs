//! Text building blocks: decimal rendering and appending to strings.
use vstd::prelude::*;
use vstd::string::StringExecFns;

verus! {

/// The decimal digit for `d` (0 to 9).
pub open spec fn digit_char(d: nat) -> char {
    if d == 0 {
        '0'
    } else if d == 1 {
        '1'
    } else if d == 2 {
        '2'
    } else if d == 3 {
        '3'
    } else if d == 4 {
        '4'
    } else if d == 5 {
        '5'
    } else if d == 6 {
        '6'
    } else if d == 7 {
        '7'
    } else if d == 8 {
        '8'
    } else {
        '9'
    }
}

/// The decimal rendering of a natural number, most significant digit first, no leading zeros.
pub open spec fn decimal_nat(n: nat) -> Seq<char>
    decreases n,
{
    if n < 10 {
        seq![digit_char(n)]
    } else {
        decimal_nat(n / 10).push(digit_char(n % 10))
    }
}

/// The decimal rendering of an integer, with a leading `-` when negative.
pub open spec fn decimal_int(i: int) -> Seq<char> {
    if i < 0 {
        seq!['-'] + decimal_nat((-i) as nat)
    } else {
        decimal_nat(i as nat)
    }
}

/// Appends one character to a string (std's `String::push`).
#[verifier::external_body]
pub(crate) fn push_char(s: &mut String, c: char)
    ensures
        final(s)@ == old(s)@.push(c),
{
    s.push(c);
}

/// Appends `other` to `s`.
pub fn push_str(s: &mut String, other: &str)
    ensures
        final(s)@ == old(s)@ + other@,
{
    s.append(other);
}

/// An empty string.
pub fn empty_string() -> (s: String)
    ensures
        s@ == Seq::<char>::empty(),
{
    String::new()
}

/// An owned copy of `s`.
pub fn to_owned(s: &str) -> (r: String)
    ensures
        r@ == s@,
{
    String::from_str(s)
}

fn digit(d: u64) -> (c: char)
    requires
        d < 10,
    ensures
        c == digit_char(d as nat),
{
    if d == 0 {
        '0'
    } else if d == 1 {
        '1'
    } else if d == 2 {
        '2'
    } else if d == 3 {
        '3'
    } else if d == 4 {
        '4'
    } else if d == 5 {
        '5'
    } else if d == 6 {
        '6'
    } else if d == 7 {
        '7'
    } else if d == 8 {
        '8'
    } else {
        '9'
    }
}

/// Appends the decimal rendering of `n`.
pub fn push_u64(out: &mut String, n: u64)
    ensures
        final(out)@ == old(out)@ + decimal_nat(n as nat),
    decreases n,
{
    if n >= 10 {
        push_u64(out, n / 10);
    }
    push_char(out, digit(n % 10));
    assert(old(out)@ + decimal_nat(n as nat) =~= (if n >= 10 {
        old(out)@ + decimal_nat((n / 10) as nat)
    } else {
        old(out)@
    }).push(digit_char((n % 10) as nat)));
}

/// Appends the decimal rendering of `v`, with a leading `-` when negative.
pub fn push_i64(out: &mut String, v: i64)
    ensures
        final(out)@ == old(out)@ + decimal_int(v as int),
{
    if v < 0 {
        push_char(out, '-');
        let m: u64 = if v == i64::MIN {
            9223372036854775808u64
        } else {
            (-v) as u64
        };
        push_u64(out, m);
        assert(old(out)@ + decimal_int(v as int) =~= old(out)@.push('-') + decimal_nat(m as nat));
    } else {
        push_u64(out, v as u64);
    }
}

/// The decimal rendering of `v`.
pub fn fmt_i64(v: i64) -> (s: String)
    ensures
        s@ == decimal_int(v as int),
{
    let mut s = String::new();
    push_i64(&mut s, v);
    assert(s@ =~= decimal_int(v as int));
    s
}

/// The decimal rendering of `v`.
pub fn fmt_u64(v: u64) -> (s: String)
    ensures
        s@ == decimal_nat(v as nat),
{
    let mut s = String::new();
    push_u64(&mut s, v);
    assert(s@ =~= decimal_nat(v as nat));
    s
}

/// Whether two strings hold the same text.
pub fn same_text(a: &str, b: &str) -> (r: bool)
    ensures
        r == (a@ == b@),
{
    let x = String::from_str(a);
    let y = String::from_str(b);
    x == y
}

/// Mapping a sequence with one more item gives one more mapped item.
pub proof fn lemma_map_push<A, B>(s: Seq<A>, x: A, f: spec_fn(A) -> B)
    ensures
        s.push(x).map_values(f) == s.map_values(f).push(f(x)),
{
    assert(s.push(x).map_values(f) =~= s.map_values(f).push(f(x)));
}

/// A prefix one longer is the prefix with the next item pushed.
pub proof fn lemma_prefix_push<A>(s: Seq<A>, i: int)
    requires
        0 <= i < s.len(),
    ensures
        s.subrange(0, i + 1) == s.subrange(0, i).push(s[i]),
{
    assert(s.subrange(0, i + 1) =~= s.subrange(0, i).push(s[i]));
}

/// The texts of a sequence of strings.
pub open spec fn texts(v: Seq<String>) -> Seq<Seq<char>> {
    v.map_values(|s: String| s@)
}

/// The items joined with `sep` between neighbours.
pub open spec fn join(items: Seq<Seq<char>>, sep: Seq<char>) -> Seq<char>
    decreases items.len(),
{
    if items.len() == 0 {
        Seq::empty()
    } else if items.len() == 1 {
        items[0]
    } else {
        join(items.drop_last(), sep) + sep + items.last()
    }
}

/// The items cut into consecutive pieces of `n` (the last one may be shorter).
pub open spec fn chunks<A>(s: Seq<A>, n: nat) -> Seq<Seq<A>>
    decreases s.len(),
{
    if s.len() == 0 {
        Seq::empty()
    } else if n == 0 || s.len() <= n {
        seq![s]
    } else {
        seq![s.take(n as int)] + chunks(s.skip(n as int), n)
    }
}

/// Appends the text of `other`.
pub fn push_string(s: &mut String, other: &String)
    ensures
        final(s)@ == old(s)@ + other@,
{
    s.append(other.as_str());
}

/// The strings `items[lo..hi]` joined with `sep` between neighbours.
pub fn join_range(items: &Vec<String>, lo: usize, hi: usize, sep: &str) -> (r: String)
    requires
        lo <= hi <= items.len(),
    ensures
        r@ == join(texts(items@.subrange(lo as int, hi as int)), sep@),
{
    let mut r = String::new();
    let mut i = lo;
    assert(texts(items@.subrange(lo as int, lo as int)) =~= Seq::<Seq<char>>::empty());
    while i < hi
        invariant
            lo <= i <= hi <= items.len(),
            r@ == join(texts(items@.subrange(lo as int, i as int)), sep@),
        decreases hi - i,
    {
        let ghost prev = texts(items@.subrange(lo as int, i as int));
        if i > lo {
            push_str(&mut r, sep);
        }
        push_string(&mut r, &items[i]);
        i = i + 1;
        let ghost next = texts(items@.subrange(lo as int, i as int));
        assert(next.drop_last() =~= prev);
        assert(next.last() == items@[i - 1]@);
        if i - 1 == lo {
            assert(r@ =~= join(next, sep@));
        } else {
            assert(r@ =~= join(next, sep@));
        }
    }
    r
}

/// Cuts `items` into consecutive pieces of `n` and renders each piece as
/// `prefix`, the piece joined with `sep`, then `suffix`.
pub fn chunked_join(items: &Vec<String>, n: usize, sep: &str, prefix: &str, suffix: &str) -> (r: Vec<
    String,
>)
    requires
        n > 0,
    ensures
        texts(r@) == chunks(texts(items@), n as nat).map_values(
            |c: Seq<Seq<char>>| prefix@ + join(c, sep@) + suffix@,
        ),
{
    let ghost all = texts(items@);
    let ghost wrap = |c: Seq<Seq<char>>| prefix@ + join(c, sep@) + suffix@;
    let mut r: Vec<String> = Vec::new();
    let mut i: usize = 0;
    assert(all.skip(0) =~= all);
    while i < items.len()
        invariant
            n > 0,
            i <= items.len(),
            all == texts(items@),
            wrap == (|c: Seq<Seq<char>>| prefix@ + join(c, sep@) + suffix@),
            texts(r@) + chunks(all.skip(i as int), n as nat).map_values(wrap) == chunks(
                all,
                n as nat,
            ).map_values(wrap),
        decreases items.len() - i,
    {
        let hi = if items.len() - i <= n {
            items.len()
        } else {
            i + n
        };
        let mut piece = String::new();
        push_str(&mut piece, prefix);
        let body = join_range(items, i, hi, sep);
        push_string(&mut piece, &body);
        push_str(&mut piece, suffix);
        let ghost rest = all.skip(i as int);
        let ghost prev = r@;
        assert(texts(items@.subrange(i as int, hi as int)) =~= rest.take((hi - i) as int));
        r.push(piece);
        assert(rest.skip((hi - i) as int) =~= all.skip(hi as int));
        if items.len() - i <= n {
            assert(rest.take((hi - i) as int) =~= rest);
            assert(chunks(rest, n as nat) =~= seq![rest]);
            assert(chunks(all.skip(hi as int), n as nat) =~= Seq::<Seq<Seq<char>>>::empty());
        } else {
            assert(chunks(rest, n as nat) == seq![rest.take(n as int)] + chunks(
                rest.skip(n as int),
                n as nat,
            ));
        }
        assert(texts(r@) =~= texts(prev).push(wrap(rest.take((hi - i) as int))));
        assert(chunks(rest, n as nat).map_values(wrap) =~= seq![wrap(rest.take((hi - i) as int))]
            + chunks(all.skip(hi as int), n as nat).map_values(wrap));
        assert(texts(r@) + chunks(all.skip(hi as int), n as nat).map_values(wrap) =~= texts(prev)
            + chunks(rest, n as nat).map_values(wrap));
        i = hi;
    }
    assert(all.skip(i as int) =~= Seq::<Seq<char>>::empty());
    assert(chunks(all.skip(i as int), n as nat).map_values(wrap) =~= Seq::<Seq<char>>::empty());
    assert(texts(r@) =~= chunks(all, n as nat).map_values(wrap));
    r
}

} // verus!

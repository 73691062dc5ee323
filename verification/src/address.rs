//! Addresses of the metrics endpoints, as sequences of characters.

use vstd::prelude::*;
use vstd::string::*;

verus! {

/// The character that writes the digit `d` (`d < 10`).
pub open spec fn digit(d: nat) -> char {
    if d == 0 {
        '0'
    } else if d == 1 {
        '1'
    } else if d == 2 {
        '2'
    } else if d == 3 {
        '3'
    } else if d == 4 {
        '4'
    } else if d == 5 {
        '5'
    } else if d == 6 {
        '6'
    } else if d == 7 {
        '7'
    } else if d == 8 {
        '8'
    } else {
        '9'
    }
}

/// The decimal numeral of `n`: no sign, no leading zero, `"0"` for zero.
pub open spec fn decimal(n: nat) -> Seq<char>
    decreases n,
{
    if n < 10 {
        seq![digit(n)]
    } else {
        decimal(n / 10).push(digit(n % 10))
    }
}

/// `{root}/{id}/ts/`: what every query address of one resource starts with.
pub open spec fn stats_prefix(root: Seq<char>, id: Seq<char>) -> Seq<char> {
    root + seq!['/'] + id + seq!['/', 't', 's', '/']
}

/// `{root}/{id}/ts/{start}`: everything recorded since `start`.
pub open spec fn stats_from_address(root: Seq<char>, id: Seq<char>, start: nat) -> Seq<char> {
    stats_prefix(root, id) + decimal(start)
}

/// `{root}/{id}/ts/h`: the most recent window the provider keeps.
pub open spec fn stats_window_address(root: Seq<char>, id: Seq<char>) -> Seq<char> {
    stats_prefix(root, id) + seq!['h']
}

/// `{root}/{id}/ts/h/limit/{max}`: at most `max` entries of that window.
pub open spec fn stats_limited_address(root: Seq<char>, id: Seq<char>, max: nat) -> Seq<char> {
    stats_window_address(root, id) + seq!['/', 'l', 'i', 'm', 'i', 't', '/'] + decimal(max)
}

fn digit_text(d: u64) -> (text: &'static str)
    requires
        d < 10,
    ensures
        text@ == seq![digit(d as nat)],
{
    proof {
        reveal_strlit("0");
        reveal_strlit("1");
        reveal_strlit("2");
        reveal_strlit("3");
        reveal_strlit("4");
        reveal_strlit("5");
        reveal_strlit("6");
        reveal_strlit("7");
        reveal_strlit("8");
        reveal_strlit("9");
    }
    let text: &'static str = if d == 0 {
        "0"
    } else if d == 1 {
        "1"
    } else if d == 2 {
        "2"
    } else if d == 3 {
        "3"
    } else if d == 4 {
        "4"
    } else if d == 5 {
        "5"
    } else if d == 6 {
        "6"
    } else if d == 7 {
        "7"
    } else if d == 8 {
        "8"
    } else {
        "9"
    };
    assert(text@ =~= seq![digit(d as nat)]);
    text
}

/// Writes `n` at the end of `out`, in decimal.
pub fn append_decimal(out: &mut String, n: u64)
    ensures
        final(out)@ == old(out)@ + decimal(n as nat),
    decreases n,
{
    if n >= 10 {
        append_decimal(out, n / 10);
    }
    let d: u64 = n % 10;
    out.append(digit_text(d));
    assert(out@ =~= old(out)@ + decimal(n as nat));
}

fn stats_prefix_text(root: &str, id: &str) -> (url: String)
    ensures
        url@ == stats_prefix(root@, id@),
{
    proof {
        reveal_strlit("/");
        reveal_strlit("/ts/");
    }
    let mut url = String::from_str(root);
    url.append("/");
    url.append(id);
    url.append("/ts/");
    assert(url@ =~= stats_prefix(root@, id@));
    url
}

/// The address that asks resource `id` under `root` for everything since `start`.
pub fn stats_from_url(root: &str, id: &str, start: u64) -> (url: String)
    ensures
        url@ == stats_from_address(root@, id@, start as nat),
{
    let mut url = stats_prefix_text(root, id);
    append_decimal(&mut url, start);
    url
}

/// The address that asks resource `id` under `root` for its most recent window.
pub fn stats_window_url(root: &str, id: &str) -> (url: String)
    ensures
        url@ == stats_window_address(root@, id@),
{
    proof {
        reveal_strlit("h");
    }
    let mut url = stats_prefix_text(root, id);
    url.append("h");
    assert(url@ =~= stats_window_address(root@, id@));
    url
}

/// The address that asks resource `id` under `root` for at most `max` entries
/// of its most recent window.
pub fn stats_limited_url(root: &str, id: &str, max: u64) -> (url: String)
    ensures
        url@ == stats_limited_address(root@, id@, max as nat),
{
    proof {
        reveal_strlit("/limit/");
    }
    let mut url = stats_window_url(root, id);
    url.append("/limit/");
    assert(url@ =~= stats_window_address(root@, id@) + seq!['/', 'l', 'i', 'm', 'i', 't', '/']);
    append_decimal(&mut url, max);
    url
}

/// The digit that `c` writes; 0 for a character that writes none.
pub open spec fn digit_value(c: char) -> nat {
    if c == '1' {
        1
    } else if c == '2' {
        2
    } else if c == '3' {
        3
    } else if c == '4' {
        4
    } else if c == '5' {
        5
    } else if c == '6' {
        6
    } else if c == '7' {
        7
    } else if c == '8' {
        8
    } else if c == '9' {
        9
    } else {
        0
    }
}

/// The number that a decimal numeral stands for.
pub open spec fn numeral_value(numeral: Seq<char>) -> nat
    decreases numeral.len(),
{
    if numeral.len() == 0 {
        0
    } else {
        10 * numeral_value(numeral.drop_last()) + digit_value(numeral.last())
    }
}

/// A numeral is made of digits, has at least one, and starts with `0` only
/// where it is `0`.
pub proof fn lemma_decimal_shape(n: nat)
    ensures
        decimal(n).len() >= 1,
        forall|i: int|
            0 <= i < decimal(n).len() ==> #[trigger] decimal(n)[i] == digit(
                digit_value(decimal(n)[i]),
            ),
        n > 0 ==> decimal(n)[0] != '0',
    decreases n,
{
    if n >= 10 {
        lemma_decimal_shape(n / 10);
    }
}

/// Read as a decimal numeral, the numeral of `n` stands for `n`.
pub proof fn lemma_decimal_reads_back(n: nat)
    ensures
        numeral_value(decimal(n)) == n,
    decreases n,
{
    let numeral = decimal(n);
    assert(digit_value(digit(n % 10)) == n % 10);
    assert(numeral.last() == digit(n % 10));
    if n < 10 {
        assert(numeral.drop_last() =~= Seq::<char>::empty());
        assert(numeral_value(numeral.drop_last()) == 0);
    } else {
        lemma_decimal_reads_back(n / 10);
        assert(numeral.drop_last() =~= decimal(n / 10));
    }
}

/// Two numbers with the same numeral are the same number.
pub proof fn lemma_decimal_is_injective(a: nat, b: nat)
    requires
        decimal(a) == decimal(b),
    ensures
        a == b,
{
    lemma_decimal_reads_back(a);
    lemma_decimal_reads_back(b);
}

/// The address of a query for everything since a timestamp names that
/// timestamp and no other.
pub proof fn lemma_from_address_names_its_start(root: Seq<char>, id: Seq<char>, a: nat, b: nat)
    requires
        stats_from_address(root, id, a) == stats_from_address(root, id, b),
    ensures
        a == b,
{
    let prefix = stats_prefix(root, id);
    let n = prefix.len() as int;
    assert((prefix + decimal(a)).subrange(n, n + decimal(a).len()) =~= decimal(a));
    assert((prefix + decimal(b)).subrange(n, n + decimal(b).len()) =~= decimal(b));
    assert((prefix + decimal(a)).len() == (prefix + decimal(b)).len());
    lemma_decimal_is_injective(a, b);
}

/// The address of a query for a limited window names the limit and no other.
pub proof fn lemma_limited_address_names_its_limit(
    root: Seq<char>,
    id: Seq<char>,
    a: nat,
    b: nat,
)
    requires
        stats_limited_address(root, id, a) == stats_limited_address(root, id, b),
    ensures
        a == b,
{
    let prefix = stats_window_address(root, id) + seq!['/', 'l', 'i', 'm', 'i', 't', '/'];
    let n = prefix.len() as int;
    assert((prefix + decimal(a)).subrange(n, n + decimal(a).len()) =~= decimal(a));
    assert((prefix + decimal(b)).subrange(n, n + decimal(b).len()) =~= decimal(b));
    assert((prefix + decimal(a)).len() == (prefix + decimal(b)).len());
    lemma_decimal_is_injective(a, b);
}

} // verus!

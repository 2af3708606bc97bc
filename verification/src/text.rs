//! Text building blocks: decimal rendering of integers and string comparison.
use vstd::prelude::*;
use vstd::string::StringExecFns;

verus! {

/// The decimal digit character for `d` (`d < 10`).
pub open spec fn digit_char(d: nat) -> char {
    if d == 0 { '0' }
    else if d == 1 { '1' }
    else if d == 2 { '2' }
    else if d == 3 { '3' }
    else if d == 4 { '4' }
    else if d == 5 { '5' }
    else if d == 6 { '6' }
    else if d == 7 { '7' }
    else if d == 8 { '8' }
    else { '9' }
}

/// Decimal digits of a natural number, most significant first, no leading zeros.
pub open spec fn nat_text(n: nat) -> Seq<char>
    decreases n,
{
    if n < 10 {
        seq![digit_char(n)]
    } else {
        nat_text(n / 10).push(digit_char(n % 10))
    }
}

/// How an integer is displayed: an optional minus sign, then its decimal digits.
pub open spec fn int_text(n: int) -> Seq<char> {
    if n < 0 {
        seq!['-'] + nat_text((-n) as nat)
    } else {
        nat_text(n as nat)
    }
}

/// The decimal digits of a natural number are digits only: the text is never empty and
/// holds no minus sign.
pub proof fn lemma_nat_text_has_no_sign(n: nat)
    ensures
        nat_text(n).len() > 0,
        !nat_text(n).contains('-'),
    decreases n,
{
    if n >= 10 {
        lemma_nat_text_has_no_sign(n / 10);
        assert(nat_text(n) == nat_text(n / 10).push(digit_char(n % 10)));
        assert forall|i: int| 0 <= i < nat_text(n).len() implies nat_text(n)[i] != '-' by {
            if i < nat_text(n / 10).len() {
                assert(nat_text(n)[i] == nat_text(n / 10)[i]);
            }
        }
    } else {
        assert(nat_text(n) == seq![digit_char(n)]);
        assert forall|i: int| 0 <= i < nat_text(n).len() implies nat_text(n)[i] != '-' by {
            assert(nat_text(n)[i] == digit_char(n));
        }
    }
}

fn digit_str(d: u128) -> (s: &'static str)
    requires
        d < 10,
    ensures
        s@ == seq![digit_char(d as nat)],
{
    if d == 0 {
        proof { reveal_strlit("0"); }
        "0"
    } else if d == 1 {
        proof { reveal_strlit("1"); }
        "1"
    } else if d == 2 {
        proof { reveal_strlit("2"); }
        "2"
    } else if d == 3 {
        proof { reveal_strlit("3"); }
        "3"
    } else if d == 4 {
        proof { reveal_strlit("4"); }
        "4"
    } else if d == 5 {
        proof { reveal_strlit("5"); }
        "5"
    } else if d == 6 {
        proof { reveal_strlit("6"); }
        "6"
    } else if d == 7 {
        proof { reveal_strlit("7"); }
        "7"
    } else if d == 8 {
        proof { reveal_strlit("8"); }
        "8"
    } else {
        proof { reveal_strlit("9"); }
        "9"
    }
}

/// Appends the decimal digits of `n` to `out`.
fn append_nat(out: &mut String, n: u128)
    ensures
        final(out)@ == old(out)@ + nat_text(n as nat),
    decreases n,
{
    if n >= 10 {
        append_nat(out, n / 10);
    }
    out.append(digit_str(n % 10));
}

/// Appends the decimal rendering of `n` (with a leading `-` when negative) to `out`.
pub fn append_int(out: &mut String, n: i128)
    ensures
        final(out)@ == old(out)@ + int_text(n as int),
{
    if n < 0 {
        proof { reveal_strlit("-"); }
        out.append("-");
        let magnitude: u128 = ((-(n + 1)) as u128) + 1;
        append_nat(out, magnitude);
    } else {
        append_nat(out, n as u128);
    }
}

/// The decimal rendering of `n`, as `n.to_string()` gives it.
pub fn int_to_text(n: i128) -> (s: String)
    ensures
        s@ == int_text(n as int),
{
    let mut s = String::new();
    append_int(&mut s, n);
    s
}

/// Whether two strings hold the same characters.
pub fn str_equals(a: &str, b: &str) -> (r: bool)
    ensures
        r == (a@ == b@),
{
    let n = a.unicode_len();
    if n != b.unicode_len() {
        return false;
    }
    let mut i: usize = 0;
    while i < n
        invariant
            n == a@.len(),
            n == b@.len(),
            i <= n,
            forall|j: int| 0 <= j < i ==> a@[j] == b@[j],
        decreases n - i,
    {
        if a.get_char(i) != b.get_char(i) {
            return false;
        }
        i = i + 1;
    }
    assert(a@ =~= b@);
    true
}

/// How `{:?}` renders a string: quoted, with the characters that std's `Debug`
/// for `str` escapes written as escape sequences.
pub uninterp spec fn debug_text(s: Seq<char>) -> Seq<char>;

/// `format!("{:?}", s)`: std's `Debug` rendering of a string. The escaping rules
/// (quotes, backslashes, control and non-printable characters) are not written out;
/// the contract names the result as a function of the string alone.
#[verifier::external_body]
pub(crate) fn debug_str(s: &str) -> (r: String)
    ensures
        r@ == debug_text(s@),
{
    format!("{:?}", s)
}

/// The entries of a `Debug` list rendering, separated by `", "`.
pub open spec fn debug_items(items: Seq<Seq<char>>) -> Seq<char>
    decreases items.len(),
{
    if items.len() == 0 {
        seq![]
    } else if items.len() == 1 {
        debug_text(items[0])
    } else {
        debug_items(items.drop_last()) + ", "@ + debug_text(items.last())
    }
}

/// How `{:?}` renders a list of strings: `[` entries `]`.
pub open spec fn debug_list_text(items: Seq<Seq<char>>) -> Seq<char> {
    "["@ + debug_items(items) + "]"@
}

/// The texts held by a vector of strings.
pub open spec fn texts(v: Seq<String>) -> Seq<Seq<char>> {
    v.map_values(|s: String| s@)
}

/// `format!("{:?}", items)` for a vector of strings.
pub fn debug_list(items: &Vec<String>) -> (r: String)
    ensures
        r@ == debug_list_text(texts(items@)),
{
    let ghost v = texts(items@);
    let mut r = String::from_str("[");
    let n = items.len();
    let mut i: usize = 0;
    while i < n
        invariant
            n == items@.len(),
            v == texts(items@),
            i <= n,
            r@ == "["@ + debug_items(v.take(i as int)),
        decreases n - i,
    {
        let d = debug_str(items[i].as_str());
        if i > 0 {
            r.append(", ");
        }
        r.append(d.as_str());
        assert(v.take(i + 1).drop_last() =~= v.take(i as int));
        assert(v.take(i + 1).last() == v[i as int]);
        proof {
            if i == 0 {
                assert(v.take(0) =~= Seq::<Seq<char>>::empty());
            }
        }
        i = i + 1;
    }
    r.append("]");
    assert(v.take(n as int) =~= v);
    r
}

} // verus!

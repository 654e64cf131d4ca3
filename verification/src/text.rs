//! Writing values as text: decimal numbers, lists joined by a separator, and the small
//! predicates that the request parameters and the stream reader use.

use vstd::prelude::*;

verus! {

/// The character of a decimal digit.
pub open spec fn digit_char(d: nat) -> char {
    (48 + d) as char
}

/// The decimal text of a natural number, without leading zeros.
pub open spec fn dec_nat(n: nat) -> Seq<char>
    decreases n,
{
    if n < 10 {
        seq![digit_char(n)]
    } else {
        dec_nat(n / 10).push(digit_char(n % 10))
    }
}

/// The decimal text of an integer, with a leading `-` when it is negative.
pub open spec fn dec_int(i: int) -> Seq<char> {
    if i < 0 {
        seq!['-'] + dec_nat((-i) as nat)
    } else {
        dec_nat(i as nat)
    }
}

/// The texts joined, with `sep` between each two neighbours.
pub open spec fn join(parts: Seq<Seq<char>>, sep: Seq<char>) -> Seq<char>
    decreases parts.len(),
{
    if parts.len() == 0 {
        Seq::empty()
    } else if parts.len() == 1 {
        parts[0]
    } else {
        join(parts.drop_last(), sep) + sep + parts.last()
    }
}

/// A value that can be written as text.
pub trait Text {
    /// The text of the value.
    spec fn text(&self) -> Seq<char>;

    /// Appends the text of the value to `out`.
    fn write_text(&self, out: &mut String)
        ensures
            final(out)@ == old(out)@ + self.text(),
    ;
}

/// The text of each value.
pub open spec fn texts<T: Text>(items: Seq<T>) -> Seq<Seq<char>> {
    items.map_values(|t: T| t.text())
}

/// The text of a decimal digit.
fn digit_str(d: u64) -> (r: &'static str)
    requires
        d < 10,
    ensures
        r@ == seq![digit_char(d as nat)],
{
    proof {
        reveal_strlit("0");
        reveal_strlit("1");
        reveal_strlit("2");
        reveal_strlit("3");
        reveal_strlit("4");
        reveal_strlit("5");
        reveal_strlit("6");
        reveal_strlit("7");
        reveal_strlit("8");
        reveal_strlit("9");
    }
    if d == 0 {
        "0"
    } else if d == 1 {
        "1"
    } else if d == 2 {
        "2"
    } else if d == 3 {
        "3"
    } else if d == 4 {
        "4"
    } else if d == 5 {
        "5"
    } else if d == 6 {
        "6"
    } else if d == 7 {
        "7"
    } else if d == 8 {
        "8"
    } else {
        "9"
    }
}

/// Appends the decimal text of `n`.
pub fn write_u64(n: u64, out: &mut String)
    ensures
        final(out)@ == old(out)@ + dec_nat(n as nat),
    decreases n,
{
    if n >= 10 {
        write_u64(n / 10, out);
    }
    out.append(digit_str(n % 10));
    proof {
        if n >= 10 {
            assert(old(out)@ + dec_nat(n as nat) =~= old(out)@ + dec_nat((n / 10) as nat) + seq![
                digit_char((n % 10) as nat),
            ]);
        } else {
            assert(dec_nat(n as nat) == seq![digit_char(n as nat)]);
        }
    }
}

/// Appends the decimal text of `n`, with a leading `-` when it is negative.
pub fn write_i32(n: i32, out: &mut String)
    ensures
        final(out)@ == old(out)@ + dec_int(n as int),
{
    if n < 0 {
        proof {
            reveal_strlit("-");
        }
        out.append("-");
        let m: i64 = n as i64;
        let abs: u64 = (-m) as u64;
        let ghost mid = out@;
        write_u64(abs, out);
        proof {
            assert(out@ =~= old(out)@ + (seq!['-'] + dec_nat(abs as nat)));
        }
    } else {
        write_u64(n as u64, out);
    }
}

impl Text for u64 {
    open spec fn text(&self) -> Seq<char> {
        dec_nat(*self as nat)
    }

    fn write_text(&self, out: &mut String) {
        write_u64(*self, out);
    }
}

impl Text for i32 {
    open spec fn text(&self) -> Seq<char> {
        dec_int(*self as int)
    }

    fn write_text(&self, out: &mut String) {
        write_i32(*self, out);
    }
}

impl Text for String {
    open spec fn text(&self) -> Seq<char> {
        self@
    }

    fn write_text(&self, out: &mut String) {
        out.append(self.as_str());
    }
}

/// Appends the texts of `items`, separated by `sep`.
pub fn fmt_join<T: Text>(items: &[T], sep: &str, out: &mut String)
    ensures
        final(out)@ == old(out)@ + join(texts(items@), sep@),
{
    let ghost start = out@;
    let mut i: usize = 0;
    while i < items.len()
        invariant
            i <= items@.len(),
            out@ == start + join(texts(items@.take(i as int)), sep@),
        decreases items@.len() - i,
    {
        let ghost before = out@;
        if i > 0 {
            out.append(sep);
        }
        items[i].write_text(out);
        proof {
            let prev = texts(items@.take(i as int));
            let next = texts(items@.take(i + 1));
            assert(next.drop_last() =~= prev);
            assert(next.last() == items@[i as int].text());
            if i == 0 {
                assert(next =~= seq![items@[0].text()]);
                assert(prev =~= Seq::<Seq<char>>::empty());
            }
            assert(out@ =~= start + join(next, sep@));
        }
        i = i + 1;
    }
    proof {
        assert(items@.take(i as int) =~= items@);
    }
}

/// A list to be written with a separator between its items.
pub struct JoinDisplay<'a, D>(pub &'a [D], pub &'a str);

impl<'a, D: Text> JoinDisplay<'a, D> {
    /// The items' texts joined by the separator.
    pub fn to_string(&self) -> (r: String)
        ensures
            r@ == join(texts(self.0@), self.1@),
    {
        let mut out = String::new();
        fmt_join(self.0, self.1, &mut out);
        proof {
            assert(out@ =~= join(texts(self.0@), self.1@));
        }
        out
    }
}

/// The error of an operation that cannot fail: no value of this type can be made, as its
/// invariant is `false`.
#[derive(Clone, Copy, Debug, Eq, PartialEq, Hash, Ord, PartialOrd)]
pub struct Never {
    unconstructible: (),
}

impl Never {
    #[verifier::type_invariant]
    spec fn never_exists(self) -> bool {
        false
    }
}

/// Negation, as a predicate on a reference (for skipping parameters that are `false`).
pub fn not(p: &bool) -> (r: bool)
    ensures
        r == !*p,
{
    !*p
}

/// Whether a byte is JSON whitespace (space, tab, line feed or carriage return).
pub open spec fn spec_json_whitespace(c: u8) -> bool {
    c == 0x20 || c == 0x09 || c == 0x0A || c == 0x0D
}

/// Whether a byte is JSON whitespace (RFC 7159, section 2).
pub fn is_json_whitespace(c: u8) -> (r: bool)
    ensures
        r == spec_json_whitespace(c),
{
    c == 0x20 || c == 0x09 || c == 0x0A || c == 0x0D
}

} // verus!

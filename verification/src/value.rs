//! GraphQL values as the status API answers with them, and the text forms
//! of numbers and hashes that go into them.

use vstd::prelude::*;

verus! {

/// A GraphQL value. An object lists its fields by name, in the order they
/// were added.
#[derive(Debug, PartialEq, Eq)]
pub enum Value {
    Null,
    Boolean(bool),
    Int(i64),
    String(String),
    Enum(String),
    List(Vec<Value>),
    Object(Vec<(String, Value)>),
}

/// What a `Value` holds, with text as sequences of characters.
pub enum ValueView {
    Null,
    Boolean(bool),
    Int(int),
    String(Seq<char>),
    Enum(Seq<char>),
    List(Seq<ValueView>),
    Object(Seq<(Seq<char>, ValueView)>),
}

/// The view of a value.
pub open spec fn view_value(v: Value) -> ValueView
    decreases v,
{
    match v {
        Value::Null => ValueView::Null,
        Value::Boolean(b) => ValueView::Boolean(b),
        Value::Int(n) => ValueView::Int(n as int),
        Value::String(s) => ValueView::String(s@),
        Value::Enum(s) => ValueView::Enum(s@),
        Value::List(vs) => ValueView::List(
            Seq::new(
                vs@.len(),
                |i: int|
                    {
                        if 0 <= i < vs@.len() {
                            proof {
                                assert(decreases_to!(v => vs@[i]));
                            }
                            view_value(vs@[i])
                        } else {
                            ValueView::Null
                        }
                    },
            ),
        ),
        Value::Object(fs) => ValueView::Object(
            Seq::new(
                fs@.len(),
                |i: int|
                    {
                        if 0 <= i < fs@.len() {
                            proof {
                                assert(decreases_to!(v => fs@[i].1));
                            }
                            (fs@[i].0@, view_value(fs@[i].1))
                        } else {
                            (Seq::empty(), ValueView::Null)
                        }
                    },
            ),
        ),
    }
}

/// The views of a list of values.
pub open spec fn view_values(vs: Seq<Value>) -> Seq<ValueView> {
    Seq::new(vs.len(), |i: int| view_value(vs[i]))
}

/// The views of the fields of an object.
pub open spec fn view_fields(fs: Seq<(String, Value)>) -> Seq<(Seq<char>, ValueView)> {
    Seq::new(fs.len(), |i: int| (fs[i].0@, view_value(fs[i].1)))
}

/// A list value views as the list of the views of its items.
pub proof fn lemma_view_list(vs: Vec<Value>)
    ensures
        view_value(Value::List(vs)) == ValueView::List(view_values(vs@)),
{
    let v = view_value(Value::List(vs));
    assert(v matches ValueView::List(items) && items =~= view_values(vs@));
}

/// An object value views as the list of the views of its fields.
pub proof fn lemma_view_object(fs: Vec<(String, Value)>)
    ensures
        view_value(Value::Object(fs)) == ValueView::Object(view_fields(fs@)),
{
    let v = view_value(Value::Object(fs));
    assert(v matches ValueView::Object(items) && items =~= view_fields(fs@));
}

/// The digit for `d` in base 16, lower case.
pub open spec fn hex_digit(d: u8) -> char {
    if d == 0 {
        '0'
    } else if d == 1 {
        '1'
    } else if d == 2 {
        '2'
    } else if d == 3 {
        '3'
    } else if d == 4 {
        '4'
    } else if d == 5 {
        '5'
    } else if d == 6 {
        '6'
    } else if d == 7 {
        '7'
    } else if d == 8 {
        '8'
    } else if d == 9 {
        '9'
    } else if d == 10 {
        'a'
    } else if d == 11 {
        'b'
    } else if d == 12 {
        'c'
    } else if d == 13 {
        'd'
    } else if d == 14 {
        'e'
    } else {
        'f'
    }
}

/// The bytes in base 16, two lower-case digits per byte, high half first.
pub open spec fn hex(bytes: Seq<u8>) -> Seq<char>
    decreases bytes.len(),
{
    if bytes.len() == 0 {
        Seq::empty()
    } else {
        let b = bytes.last();
        hex(bytes.drop_last()) + seq![hex_digit(b >> 4), hex_digit(b & 15)]
    }
}

/// `n` in decimal, without leading zeros.
pub open spec fn decimal(n: nat) -> Seq<char>
    decreases n,
{
    if n < 10 {
        seq![hex_digit(n as u8)]
    } else {
        decimal(n / 10).push(hex_digit((n % 10) as u8))
    }
}

/// `n` in decimal, with a minus sign when it is negative.
pub open spec fn signed_decimal(n: int) -> Seq<char> {
    if n < 0 {
        seq!['-'] + decimal((-n) as nat)
    } else {
        decimal(n as nat)
    }
}

/// The one-character text of the digit `d`.
fn digit_str(d: u8) -> (s: &'static str)
    requires
        d < 16,
    ensures
        s@ == seq![hex_digit(d)],
{
    proof {
        reveal_strlit("0");
        reveal_strlit("1");
        reveal_strlit("2");
        reveal_strlit("3");
        reveal_strlit("4");
        reveal_strlit("5");
        reveal_strlit("6");
        reveal_strlit("7");
        reveal_strlit("8");
        reveal_strlit("9");
        reveal_strlit("a");
        reveal_strlit("b");
        reveal_strlit("c");
        reveal_strlit("d");
        reveal_strlit("e");
        reveal_strlit("f");
    }
    if d == 0 {
        "0"
    } else if d == 1 {
        "1"
    } else if d == 2 {
        "2"
    } else if d == 3 {
        "3"
    } else if d == 4 {
        "4"
    } else if d == 5 {
        "5"
    } else if d == 6 {
        "6"
    } else if d == 7 {
        "7"
    } else if d == 8 {
        "8"
    } else if d == 9 {
        "9"
    } else if d == 10 {
        "a"
    } else if d == 11 {
        "b"
    } else if d == 12 {
        "c"
    } else if d == 13 {
        "d"
    } else if d == 14 {
        "e"
    } else {
        "f"
    }
}

/// Append `n` in decimal to `out`.
pub fn push_decimal(out: &mut String, n: u64)
    ensures
        final(out)@ == old(out)@ + decimal(n as nat),
    decreases n,
{
    if n >= 10 {
        push_decimal(out, n / 10);
    }
    let d = (n % 10) as u8;
    out.append(digit_str(d));
    proof {
        if n >= 10 {
            assert(decimal(n as nat) == decimal((n / 10) as nat).push(hex_digit(d)));
        } else {
            assert(decimal(n as nat) == seq![hex_digit(d)]);
        }
    }
}

/// `n` in decimal, as `format!("{}", n)` writes it.
pub fn u64_to_decimal(n: u64) -> (s: String)
    ensures
        s@ == decimal(n as nat),
{
    let mut s = String::new();
    push_decimal(&mut s, n);
    s
}

/// `n` in decimal with a minus sign when negative, as `format!("{}", n)`
/// writes it.
pub fn i32_to_decimal(n: i32) -> (s: String)
    ensures
        s@ == signed_decimal(n as int),
{
    let mut s = String::new();
    if n < 0 {
        proof {
            reveal_strlit("-");
        }
        s.append("-");
        let m: i64 = -(n as i64);
        push_decimal(&mut s, m as u64);
    } else {
        push_decimal(&mut s, n as u64);
    }
    s
}

/// Append `bytes` in base 16 to `out`.
pub fn push_hex(out: &mut String, bytes: &[u8; 32])
    ensures
        final(out)@ == old(out)@ + hex(bytes@),
{
    let ghost start = out@;
    let mut i: usize = 0;
    while i < 32
        invariant
            i <= 32,
            bytes@.len() == 32,
            out@ == start + hex(bytes@.take(i as int)),
        decreases 32 - i,
    {
        let b = bytes[i];
        let hi = b >> 4;
        let lo = b & 15;
        assert(hi < 16 && lo < 16) by (bit_vector)
            requires
                hi == b >> 4,
                lo == b & 15,
        ;
        out.append(digit_str(hi));
        out.append(digit_str(lo));
        proof {
            let t = bytes@.take(i + 1);
            assert(t.drop_last() =~= bytes@.take(i as int));
            assert(t.last() == b);
        }
        i = i + 1;
    }
    proof {
        assert(bytes@.take(32) =~= bytes@);
    }
}

} // verus!

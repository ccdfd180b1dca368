use crate::text::push_char;
use vstd::prelude::*;
use vstd::string::StrSliceExecFns;
use vstd::string::StringExecFns;

verus! {

/// The library's model of a JSON document: a tree of plain values.
///
/// Provider wire bodies are built from and read back into this shape, so the
/// translation logic of every adapter works on values the verifier can see.
/// A number outside the `i64` range keeps its raw text in `Num`.
#[derive(Debug)]
pub enum Json {
    Null,
    Bool(bool),
    Int(i64),
    Num(String),
    Str(String),
    Arr(Vec<Json>),
    Obj(Vec<(String, Json)>),
}

/// The mathematical shape of a JSON document, used by contracts.
pub enum JsonV {
    Null,
    Bool(bool),
    Int(int),
    Num(Seq<char>),
    Str(Seq<char>),
    Arr(Seq<JsonV>),
    Obj(Seq<(Seq<char>, JsonV)>),
}

/// The abstraction of a JSON value.
pub open spec fn json_view(j: Json) -> JsonV
    decreases j,
{
    match j {
        Json::Null => JsonV::Null,
        Json::Bool(b) => JsonV::Bool(b),
        Json::Int(n) => JsonV::Int(n as int),
        Json::Num(s) => JsonV::Num(s@),
        Json::Str(s) => JsonV::Str(s@),
        Json::Arr(v) => JsonV::Arr(json_view_seq(v@)),
        Json::Obj(v) => JsonV::Obj(json_view_members(v@)),
    }
}

/// The abstraction of a sequence of JSON values.
pub open spec fn json_view_seq(s: Seq<Json>) -> Seq<JsonV>
    decreases s,
{
    if s.len() == 0 {
        Seq::empty()
    } else {
        json_view_seq(s.drop_last()).push(json_view(s.last()))
    }
}

/// The abstraction of a sequence of JSON object members.
pub open spec fn json_view_members(s: Seq<(String, Json)>) -> Seq<(Seq<char>, JsonV)>
    decreases s,
{
    if s.len() == 0 {
        Seq::empty()
    } else {
        json_view_members(s.drop_last()).push((s.last().0@, json_view(s.last().1)))
    }
}

impl View for Json {
    type V = JsonV;

    open spec fn view(&self) -> JsonV {
        json_view(*self)
    }
}

pub proof fn lemma_json_view_seq(s: Seq<Json>)
    ensures
        json_view_seq(s).len() == s.len(),
        forall|i: int| 0 <= i < s.len() ==> json_view_seq(s)[i] == json_view(s[i]),
    decreases s.len(),
{
    if s.len() > 0 {
        lemma_json_view_seq(s.drop_last());
        assert forall|i: int| 0 <= i < s.len() implies json_view_seq(s)[i] == json_view(
            s[i],
        ) by {
            if i < s.len() - 1 {
                assert(json_view_seq(s)[i] == json_view_seq(s.drop_last())[i]);
                assert(s.drop_last()[i] == s[i]);
            } else {
                assert(json_view_seq(s)[i] == json_view(s.last()));
            }
        }
    }
}

pub proof fn lemma_json_view_members(s: Seq<(String, Json)>)
    ensures
        json_view_members(s).len() == s.len(),
        forall|i: int| 0 <= i < s.len() ==> json_view_members(s)[i] == (
            s[i].0@,
            json_view(s[i].1),
        ),
    decreases s.len(),
{
    if s.len() > 0 {
        lemma_json_view_members(s.drop_last());
        assert forall|i: int| 0 <= i < s.len() implies json_view_members(s)[i] == (
            s[i].0@,
            json_view(s[i].1),
        ) by {
            if i < s.len() - 1 {
                assert(json_view_members(s)[i] == json_view_members(s.drop_last())[i]);
                assert(s.drop_last()[i] == s[i]);
            } else {
                assert(json_view_members(s)[i] == (s.last().0@, json_view(s.last().1)));
            }
        }
    }
}

/// The decimal digit for one value below ten.
pub open spec fn dec_digit(n: int) -> char {
    if n == 0 {
        '0'
    } else if n == 1 {
        '1'
    } else if n == 2 {
        '2'
    } else if n == 3 {
        '3'
    } else if n == 4 {
        '4'
    } else if n == 5 {
        '5'
    } else if n == 6 {
        '6'
    } else if n == 7 {
        '7'
    } else if n == 8 {
        '8'
    } else {
        '9'
    }
}

/// The decimal text of a nonnegative integer, without leading zeros.
pub open spec fn dec_nat_text(n: int) -> Seq<char>
    decreases n,
{
    if n < 10 {
        seq![dec_digit(n)]
    } else {
        dec_nat_text(n / 10).push(dec_digit(n % 10))
    }
}

/// The decimal text of an integer: a minus sign for negative values,
/// then the digits.
pub open spec fn dec_int_text(n: int) -> Seq<char> {
    if n < 0 {
        seq!['-'] + dec_nat_text(-n)
    } else {
        dec_nat_text(n)
    }
}

/// The lowercase hexadecimal digit for one value below sixteen.
pub open spec fn hex_digit(n: int) -> char {
    if n < 10 {
        dec_digit(n)
    } else if n == 10 {
        'a'
    } else if n == 11 {
        'b'
    } else if n == 12 {
        'c'
    } else if n == 13 {
        'd'
    } else if n == 14 {
        'e'
    } else {
        'f'
    }
}

/// How one character appears inside a JSON string literal: quote and
/// backslash get a backslash escape, control characters get their short
/// escape or a `\u00XX` escape, and every other character stands as itself.
pub open spec fn esc_char(c: char) -> Seq<char> {
    if c == '"' {
        seq!['\\', '"']
    } else if c == '\\' {
        seq!['\\', '\\']
    } else if c == '\n' {
        seq!['\\', 'n']
    } else if c == '\r' {
        seq!['\\', 'r']
    } else if c == '\t' {
        seq!['\\', 't']
    } else if c == '\u{8}' {
        seq!['\\', 'b']
    } else if c == '\u{c}' {
        seq!['\\', 'f']
    } else if (c as int) < 0x20 {
        seq!['\\', 'u', '0', '0', hex_digit(c as int / 16), hex_digit(c as int % 16)]
    } else {
        seq![c]
    }
}

/// The escaped body of a JSON string literal.
pub open spec fn esc_text(s: Seq<char>) -> Seq<char>
    decreases s.len(),
{
    if s.len() == 0 {
        Seq::empty()
    } else {
        esc_text(s.drop_last()) + esc_char(s.last())
    }
}

/// The serialized text of a JSON value.
pub open spec fn json_text(j: JsonV) -> Seq<char>
    decreases j,
{
    match j {
        JsonV::Null => "null"@,
        JsonV::Bool(b) => if b {
            "true"@
        } else {
            "false"@
        },
        JsonV::Int(n) => dec_int_text(n),
        JsonV::Num(s) => s,
        JsonV::Str(s) => seq!['"'] + esc_text(s) + seq!['"'],
        JsonV::Arr(v) => seq!['['] + arr_text(v) + seq![']'],
        JsonV::Obj(v) => seq!['{'] + obj_text(v) + seq!['}'],
    }
}

/// The comma-separated text of an array's elements.
pub open spec fn arr_text(s: Seq<JsonV>) -> Seq<char>
    decreases s,
{
    if s.len() == 0 {
        Seq::empty()
    } else if s.len() == 1 {
        json_text(s.last())
    } else {
        arr_text(s.drop_last()) + seq![','] + json_text(s.last())
    }
}

/// The comma-separated text of an object's members.
pub open spec fn obj_text(s: Seq<(Seq<char>, JsonV)>) -> Seq<char>
    decreases s,
{
    if s.len() == 0 {
        Seq::empty()
    } else if s.len() == 1 {
        member_text(s.last())
    } else {
        obj_text(s.drop_last()) + seq![','] + member_text(s.last())
    }
}

/// The text of one object member: quoted key, colon, value.
pub open spec fn member_text(m: (Seq<char>, JsonV)) -> Seq<char>
    decreases m,
{
    seq!['"'] + esc_text(m.0) + seq!['"', ':'] + json_text(m.1)
}

/// The decimal digit character for a value below ten.
fn digit_char(d: u8) -> (c: char)
    requires
        d < 10,
    ensures
        c == dec_digit(d as int),
{
    match d {
        0 => '0',
        1 => '1',
        2 => '2',
        3 => '3',
        4 => '4',
        5 => '5',
        6 => '6',
        7 => '7',
        8 => '8',
        _ => '9',
    }
}

/// Appends the decimal digits of a nonnegative value, without leading
/// zeros.
fn push_dec_digits(n: u64, out: &mut String)
    ensures
        final(out)@ == old(out)@ + dec_nat_text(n as int),
    decreases n,
{
    if n < 10 {
        let c = digit_char(n as u8);
        push_char(out, c);
        proof {
            assert(out@ =~= old(out)@ + dec_nat_text(n as int));
        }
    } else {
        push_dec_digits(n / 10, out);
        let c = digit_char((n % 10) as u8);
        push_char(out, c);
        proof {
            assert((n / 10) as int == n as int / 10);
            assert((n % 10) as int == n as int % 10);
            assert(out@ =~= old(out)@ + dec_nat_text(n as int));
        }
    }
}

/// The decimal text of an integer: an optional minus sign followed by the
/// digits, without leading zeros.
fn int_to_string(n: i64) -> (r: String)
    ensures
        r@ == dec_int_text(n as int),
{
    let mut out = String::new();
    if n < 0 {
        out.append("-");
        let magnitude = (-(n as i128)) as u64;
        proof {
            reveal_strlit("-");
            assert("-"@ =~= seq!['-']);
            assert(magnitude as int == -(n as int));
        }
        push_dec_digits(magnitude, &mut out);
        proof {
            assert(out@ =~= dec_int_text(n as int));
        }
    } else {
        push_dec_digits(n as u64, &mut out);
        proof {
            assert(out@ =~= dec_int_text(n as int));
        }
    }
    out
}

/// Appends the escaped body of a JSON string literal.
fn write_escaped(s: &str, out: &mut String)
    ensures
        final(out)@ == old(out)@ + esc_text(s@),
{
    let len = s.unicode_len();
    proof {
        assert(s@.take(0) =~= Seq::<char>::empty());
        assert(out@ + esc_text(s@.take(0)) =~= out@);
    }
    for i in 0..len
        invariant
            len == s@.len(),
            out@ == old(out)@ + esc_text(s@.take(i as int)),
    {
        let c = s.get_char(i);
        proof {
            assert(s@.take(i + 1).drop_last() =~= s@.take(i as int));
            assert(s@.take(i + 1).last() == c);
        }
        if c == '"' {
            out.append("\\\"");
            proof {
                reveal_strlit("\\\"");
                assert("\\\""@ =~= esc_char(c));
            }
        } else if c == '\\' {
            out.append("\\\\");
            proof {
                reveal_strlit("\\\\");
                assert("\\\\"@ =~= esc_char(c));
            }
        } else if c == '\n' {
            out.append("\\n");
            proof {
                reveal_strlit("\\n");
                assert("\\n"@ =~= esc_char(c));
            }
        } else if c == '\r' {
            out.append("\\r");
            proof {
                reveal_strlit("\\r");
                assert("\\r"@ =~= esc_char(c));
            }
        } else if c == '\t' {
            out.append("\\t");
            proof {
                reveal_strlit("\\t");
                assert("\\t"@ =~= esc_char(c));
            }
        } else if c == '\u{8}' {
            out.append("\\b");
            proof {
                reveal_strlit("\\b");
                assert("\\b"@ =~= esc_char(c));
            }
        } else if c == '\u{c}' {
            out.append("\\f");
            proof {
                reveal_strlit("\\f");
                assert("\\f"@ =~= esc_char(c));
            }
        } else if (c as u32) < 0x20 {
            out.append("\\u00");
            let hi = hex_char(((c as u32) / 16) as u8);
            let lo = hex_char(((c as u32) % 16) as u8);
            push_char(out, hi);
            push_char(out, lo);
            proof {
                reveal_strlit("\\u00");
                assert("\\u00"@ =~= seq!['\\', 'u', '0', '0']);
                assert(seq!['\\', 'u', '0', '0'].push(hi).push(lo) =~= esc_char(c));
            }
        } else {
            push_char(out, c);
            proof {
                assert(seq![c] =~= esc_char(c));
            }
        }
        proof {
            assert(out@ =~= old(out)@ + esc_text(s@.take(i + 1)));
        }
    }
    proof {
        assert(s@.take(len as int) =~= s@);
    }
}

/// The lowercase hexadecimal digit character for a value below sixteen.
fn hex_char(n: u8) -> (c: char)
    requires
        n < 16,
    ensures
        c == hex_digit(n as int),
{
    match n {
        0 => '0',
        1 => '1',
        2 => '2',
        3 => '3',
        4 => '4',
        5 => '5',
        6 => '6',
        7 => '7',
        8 => '8',
        9 => '9',
        10 => 'a',
        11 => 'b',
        12 => 'c',
        13 => 'd',
        14 => 'e',
        _ => 'f',
    }
}

/// Appends the serialized text of a JSON value.
fn write_json(j: &Json, out: &mut String)
    ensures
        final(out)@ == old(out)@ + json_text(j@),
    decreases *j,
{
    match j {
        Json::Null => {
            out.append("null");
        },
        Json::Bool(b) => {
            if *b {
                out.append("true");
            } else {
                out.append("false");
            }
        },
        Json::Int(n) => {
            let t = int_to_string(*n);
            out.append(t.as_str());
        },
        Json::Num(s) => {
            out.append(s.as_str());
        },
        Json::Str(s) => {
            out.append("\"");
            write_escaped(s.as_str(), out);
            out.append("\"");
            proof {
                reveal_strlit("\"");
                assert("\""@ =~= seq!['"']);
                assert(out@ =~= old(out)@ + json_text(j@));
            }
        },
        Json::Arr(v) => {
            out.append("[");
            proof {
                lemma_json_view_seq(v@);
                reveal_strlit("[");
                assert("["@ =~= seq!['[']);
                assert(json_view_seq(v@).take(0) =~= Seq::<JsonV>::empty());
                assert(out@ + arr_text(json_view_seq(v@).take(0)) =~= out@);
            }
            let n = v.len();
            for i in 0..n
                invariant
                    *j == Json::Arr(*v),
                    n == v@.len(),
                    json_view_seq(v@).len() == n,
                    forall|k: int|
                        0 <= k < n ==> json_view_seq(v@)[k] == json_view(v@[k]),
                    out@ == old(out)@ + seq!['['] + arr_text(json_view_seq(v@).take(i as int)),
            {
                if i > 0 {
                    out.append(",");
                    proof {
                        reveal_strlit(",");
                        assert(","@ =~= seq![',']);
                    }
                }
                proof {
                    broadcast use vstd::std_specs::vec::axiom_vec_decreases_to_view;
                    broadcast use vstd::seq::axiom_seq_index_decreases;

                    assert(decreases_to!(*j => j->Arr_0));
                    assert(j->Arr_0 == *v);
                    assert(decreases_to!(*v => v@));
                    assert(decreases_to!(v@ => v@[i as int]));
                }
                write_json(&v[i], out);
                proof {
                    assert(json_view_seq(v@).take(i + 1).drop_last() =~= json_view_seq(
                        v@,
                    ).take(i as int));
                    assert(json_view_seq(v@).take(i + 1).last() == json_view(v@[i as int]));
                    assert(out@ =~= old(out)@ + seq!['['] + arr_text(
                        json_view_seq(v@).take(i + 1),
                    ));
                }
            }
            out.append("]");
            proof {
                reveal_strlit("]");
                assert("]"@ =~= seq![']']);
                assert(json_view_seq(v@).take(n as int) =~= json_view_seq(v@));
                assert(out@ =~= old(out)@ + json_text(j@));
            }
        },
        Json::Obj(v) => {
            out.append("{");
            proof {
                lemma_json_view_members(v@);
                reveal_strlit("{");
                assert("{"@ =~= seq!['{']);
                assert(json_view_members(v@).take(0) =~= Seq::<(Seq<char>, JsonV)>::empty());
                assert(out@ + obj_text(json_view_members(v@).take(0)) =~= out@);
            }
            let n = v.len();
            for i in 0..n
                invariant
                    *j == Json::Obj(*v),
                    n == v@.len(),
                    json_view_members(v@).len() == n,
                    forall|k: int|
                        0 <= k < n ==> json_view_members(v@)[k] == (
                            v@[k].0@,
                            json_view(v@[k].1),
                        ),
                    out@ == old(out)@ + seq!['{'] + obj_text(
                        json_view_members(v@).take(i as int),
                    ),
            {
                if i > 0 {
                    out.append(",");
                    proof {
                        reveal_strlit(",");
                        assert(","@ =~= seq![',']);
                    }
                }
                out.append("\"");
                write_escaped(v[i].0.as_str(), out);
                out.append("\":");
                proof {
                    broadcast use vstd::std_specs::vec::axiom_vec_decreases_to_view;
                    broadcast use vstd::seq::axiom_seq_index_decreases;

                    assert(decreases_to!(*j => j->Obj_0));
                    assert(j->Obj_0 == *v);
                    assert(decreases_to!(*v => v@));
                    assert(decreases_to!(v@ => v@[i as int]));
                    assert(decreases_to!(v@[i as int] => v@[i as int].1));
                }
                write_json(&v[i].1, out);
                proof {
                    reveal_strlit("\"");
                    reveal_strlit("\":");
                    assert("\""@ =~= seq!['"']);
                    assert("\":"@ =~= seq!['"', ':']);
                    let m = json_view_members(v@)[i as int];
                    assert(json_view_members(v@).take(i + 1).drop_last() =~= json_view_members(
                        v@,
                    ).take(i as int));
                    assert(json_view_members(v@).take(i + 1).last() == m);
                    assert(member_text(m) =~= seq!['"'] + esc_text(v@[i as int].0@) + seq![
                        '"',
                        ':',
                    ] + json_text(json_view(v@[i as int].1)));
                    if i > 0 {
                        assert(obj_text(json_view_members(v@).take(i + 1)) =~= obj_text(
                            json_view_members(v@).take(i as int),
                        ) + seq![','] + member_text(m));
                    } else {
                        assert(obj_text(json_view_members(v@).take(i + 1)) =~= member_text(m));
                    }
                    assert(out@ =~= old(out)@ + seq!['{'] + obj_text(
                        json_view_members(v@).take(i + 1),
                    ));
                }
            }
            out.append("}");
            proof {
                reveal_strlit("}");
                assert("}"@ =~= seq!['}']);
                assert(json_view_members(v@).take(n as int) =~= json_view_members(v@));
                assert(out@ =~= old(out)@ + json_text(j@));
            }
        },
    }
}

/// Serializes a JSON value into its wire text.
pub fn json_to_string(j: &Json) -> (r: String)
    ensures
        r@ == json_text(j@),
{
    let mut out = String::new();
    write_json(j, &mut out);
    proof {
        assert(out@ =~= json_text(j@));
    }
    out
}

} // verus!

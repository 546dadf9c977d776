//! A JSON value model, the text that each value is written as, and the
//! object-building conventions that recur throughout the ElasticSearch API.

use vstd::prelude::*;

verus! {

/// A decimal number `mantissa * 10^-scale`, used wherever the API takes a
/// fractional amount (a boost, a percentage, a coordinate).
///
/// A well-formed value has `scale <= 18` and, when `scale > 0`, a mantissa
/// that is not a multiple of ten, so that each number has one form.
#[derive(Clone, Copy, Debug, PartialEq, Eq)]
pub struct Decimal {
    pub(crate) mantissa: i64,
    pub(crate) scale: u8,
}

pub open spec fn pow10(n: nat) -> nat
    decreases n,
{
    if n == 0 {
        1
    } else {
        10 * pow10((n - 1) as nat)
    }
}

impl Decimal {
    #[verifier::type_invariant]
    pub(crate) closed spec fn wf(self) -> bool {
        &&& self.scale <= 18
        &&& (self.scale == 0 || self.mantissa % 10 != 0)
    }

    /// The digits, as an integer.
    pub closed spec fn mantissa_of(self) -> int {
        self.mantissa as int
    }

    /// The number of digits after the point.
    pub closed spec fn scale_of(self) -> nat {
        self.scale as nat
    }

    /// Builds `mantissa * 10^-scale` in its normal form: trailing zeros of the
    /// mantissa are folded into the scale.
    pub fn new(mantissa: i64, scale: u8) -> (r: Decimal)
        requires
            scale <= 18,
        ensures
            r.mantissa_of() * pow10(scale as nat) == mantissa * pow10(r.scale_of()),
            r.scale_of() <= scale,
            r.scale_of() == 0 || r.mantissa_of() % 10 != 0,
    {
        let mut m: i64 = mantissa;
        let mut s: u8 = scale;
        proof {
            assert(m * pow10(scale as nat) == mantissa * pow10(s as nat));
        }
        while s > 0 && m % 10 == 0
            invariant
                s <= scale <= 18,
                m * pow10(scale as nat) == mantissa * pow10(s as nat),
            decreases s,
        {
            let m2: i64 = m / 10;
            proof {
                assert(m == m2 * 10);
                lemma_pow10_step((s - 1) as nat);
                assert(pow10(s as nat) == 10 * pow10((s - 1) as nat));
                assert(m2 * 10 * pow10(scale as nat) == mantissa * (10 * pow10((s - 1) as nat)));
                assert(m2 * pow10(scale as nat) == mantissa * pow10((s - 1) as nat)) by (nonlinear_arith)
                    requires
                        m2 * 10 * pow10(scale as nat) == mantissa * (10 * pow10((s - 1) as nat)),
                ;
            }
            m = m2;
            s = s - 1;
        }
        Decimal { mantissa: m, scale: s }
    }

    /// A whole number.
    pub fn whole(n: i64) -> (r: Decimal)
        ensures
            r.mantissa_of() == n,
            r.scale_of() == 0,
    {
        Decimal { mantissa: n, scale: 0 }
    }
}

pub proof fn lemma_pow10_step(n: nat)
    ensures
        pow10(n + 1) == 10 * pow10(n),
        pow10(n) >= 1,
    decreases n,
{
    if n > 0 {
        lemma_pow10_step((n - 1) as nat);
    }
}

/// A JSON value.
#[derive(Debug)]
pub enum Json {
    Null,
    Bool(bool),
    Int(i64),
    UInt(u64),
    Num(Decimal),
    Str(String),
    Array(Vec<Json>),
    Object(Vec<(String, Json)>),
}

/// The mathematical form of a JSON value: what the contracts speak of.
pub enum JsonV {
    Null,
    Bool(bool),
    Int(int),
    Num(int, nat),
    Str(Seq<char>),
    Array(Seq<JsonV>),
    Object(Seq<(Seq<char>, JsonV)>),
}

/// The view of a JSON value.
pub open spec fn jv(j: Json) -> JsonV
    decreases j,
{
    match j {
        Json::Null => JsonV::Null,
        Json::Bool(b) => JsonV::Bool(b),
        Json::Int(i) => JsonV::Int(i as int),
        Json::UInt(u) => JsonV::Int(u as int),
        Json::Num(d) => JsonV::Num(d.mantissa_of(), d.scale_of()),
        Json::Str(s) => JsonV::Str(s@),
        Json::Array(v) => JsonV::Array(
            Seq::new(
                v@.len(),
                |i: int|
                    {
                        if 0 <= i < v@.len() {
                            proof {
                                assert(decreases_to!(v => v@));
                                assert(decreases_to!(v@ => v@[i]));
                            }
                            jv(v@[i])
                        } else {
                            JsonV::Null
                        }
                    },
            ),
        ),
        Json::Object(v) => JsonV::Object(entries_view_rec(v)),
    }
}

/// The view of the entries of an object (written so that `jv` can recurse).
pub open spec fn entries_view_rec(v: Vec<(String, Json)>) -> Seq<(Seq<char>, JsonV)>
    decreases v,
{
    Seq::new(
        v@.len(),
        |i: int|
            {
                if 0 <= i < v@.len() {
                    proof {
                        assert(decreases_to!(v => v@));
                        assert(decreases_to!(v@ => v@[i]));
                        assert(decreases_to!(v@[i] => v@[i].1));
                    }
                    (v@[i].0@, jv(v@[i].1))
                } else {
                    (Seq::<char>::empty(), JsonV::Null)
                }
            },
    )
}

/// The view of a sequence of object entries.
pub open spec fn entries_view(v: Seq<(String, Json)>) -> Seq<(Seq<char>, JsonV)> {
    Seq::new(v.len(), |i: int| (v[i].0@, jv(v[i].1)))
}

/// The view of a sequence of array elements.
pub open spec fn elems_view(v: Seq<Json>) -> Seq<JsonV> {
    Seq::new(v.len(), |i: int| jv(v[i]))
}

pub proof fn lemma_jv_object(v: Vec<(String, Json)>)
    ensures
        jv(Json::Object(v)) == JsonV::Object(entries_view(v@)),
{
    assert(entries_view_rec(v) =~= entries_view(v@));
}

pub proof fn lemma_jv_array(v: Vec<Json>)
    ensures
        jv(Json::Array(v)) == JsonV::Array(elems_view(v@)),
{
    assert(jv(Json::Array(v))->Array_0 =~= elems_view(v@));
}

// ---------------------------------------------------------------------------
// The text of a JSON value
// ---------------------------------------------------------------------------

pub open spec fn digit_char(d: int) -> char {
    seq!['0', '1', '2', '3', '4', '5', '6', '7', '8', '9'][d]
}

/// Decimal digits of a natural number.
pub open spec fn nat_text(n: nat) -> Seq<char>
    decreases n,
{
    if n < 10 {
        seq![digit_char(n as int)]
    } else {
        nat_text(n / 10).push(digit_char((n % 10) as int))
    }
}

/// Decimal text of an integer, with a leading minus sign when negative.
pub open spec fn int_text(i: int) -> Seq<char> {
    if i < 0 {
        seq!['-'] + nat_text((-i) as nat)
    } else {
        nat_text(i as nat)
    }
}

pub open spec fn zeros(n: nat) -> Seq<char> {
    Seq::new(n, |i: int| '0')
}

/// Text of a decimal `m * 10^-s`: integer part, a point, and the fraction
/// written with exactly `s` digits (a single `0` when `s == 0`).
pub open spec fn dec_text(m: int, s: nat) -> Seq<char> {
    let a: nat = if m < 0 { (-m) as nat } else { m as nat };
    let sign: Seq<char> = if m < 0 { seq!['-'] } else { Seq::empty() };
    let frac: Seq<char> = if s == 0 {
        seq!['0']
    } else {
        zeros((s - nat_text(a % pow10(s)).len()) as nat) + nat_text(a % pow10(s))
    };
    sign + nat_text(a / pow10(s)) + seq!['.'] + frac
}

/// A lowercase hexadecimal digit.
pub open spec fn hex_digit(n: int) -> char {
    if n < 10 {
        (('0' as int) + n) as char
    } else {
        (('a' as int) + n - 10) as char
    }
}

/// A character as it stands inside a JSON string: `"` and `\` and the
/// control characters below U+0020 escaped (`\b \t \n \f \r`, the others
/// as `\u00xx` in lowercase hexadecimal), every other character as it is.
pub open spec fn escaped_char(c: char) -> Seq<char> {
    if c == '"' {
        seq!['\\', '"']
    } else if c == '\\' {
        seq!['\\', '\\']
    } else if c == '\u{08}' {
        seq!['\\', 'b']
    } else if c == '\t' {
        seq!['\\', 't']
    } else if c == '\n' {
        seq!['\\', 'n']
    } else if c == '\u{0C}' {
        seq!['\\', 'f']
    } else if c == '\r' {
        seq!['\\', 'r']
    } else if (c as int) < 0x20 {
        seq!['\\', 'u', '0', '0', hex_digit((c as int) / 16), hex_digit((c as int) % 16)]
    } else {
        seq![c]
    }
}

/// The characters of a string, each as it stands inside a JSON string.
pub open spec fn escaped_text(s: Seq<char>) -> Seq<char>
    decreases s.len(),
{
    if s.len() == 0 {
        Seq::empty()
    } else {
        escaped_text(s.drop_last()) + escaped_char(s.last())
    }
}

/// The quoted and escaped form of a string in JSON text, as serde_json writes
/// it.
pub open spec fn json_quoted(s: Seq<char>) -> Seq<char> {
    seq!['"'] + escaped_text(s) + seq!['"']
}

/// Joins the parts, putting `sep` between each two neighbours.
pub open spec fn seq_join(parts: Seq<Seq<char>>, sep: Seq<char>) -> Seq<char>
    decreases parts.len(),
{
    if parts.len() == 0 {
        Seq::empty()
    } else if parts.len() == 1 {
        parts[0]
    } else {
        seq_join(parts.drop_last(), sep) + sep + parts.last()
    }
}

pub open spec fn null_text() -> Seq<char> {
    seq!['n', 'u', 'l', 'l']
}

pub open spec fn bool_text(b: bool) -> Seq<char> {
    if b {
        seq!['t', 'r', 'u', 'e']
    } else {
        seq!['f', 'a', 'l', 's', 'e']
    }
}

/// The compact JSON text of a value: no whitespace, entries in the order given.
pub open spec fn json_text(j: JsonV) -> Seq<char>
    decreases j, 1nat,
{
    match j {
        JsonV::Null => null_text(),
        JsonV::Bool(b) => bool_text(b),
        JsonV::Int(i) => int_text(i),
        JsonV::Num(m, s) => json_number_text(dec_text(m, s)),
        JsonV::Str(s) => json_quoted(s),
        JsonV::Array(a) => seq!['['] + seq_join(elem_texts(a), seq![',']) + seq![']'],
        JsonV::Object(o) => seq!['{'] + seq_join(entry_texts(o), seq![',']) + seq!['}'],
    }
}

/// The texts of the elements of an array.
pub open spec fn elem_texts(a: Seq<JsonV>) -> Seq<Seq<char>>
    decreases a, 0nat,
{
    Seq::new(
        a.len(),
        |i: int|
            {
                if 0 <= i < a.len() {
                    proof {
                        assert(decreases_to!(a => a[i]));
                    }
                    json_text(a[i])
                } else {
                    Seq::empty()
                }
            },
    )
}

/// The texts `"key":value` of the entries of an object.
pub open spec fn entry_texts(o: Seq<(Seq<char>, JsonV)>) -> Seq<Seq<char>>
    decreases o, 0nat,
{
    Seq::new(
        o.len(),
        |i: int|
            {
                if 0 <= i < o.len() {
                    proof {
                        assert(decreases_to!(o => o[i]));
                        assert(decreases_to!(o[i] => o[i].1));
                    }
                    entry_text(o[i].0, json_text(o[i].1))
                } else {
                    Seq::empty()
                }
            },
    )
}

pub open spec fn entry_text(k: Seq<char>, v: Seq<char>) -> Seq<char> {
    json_quoted(k) + seq![':'] + v
}

/// Joining one more part extends the joined text by the separator and the part.
pub proof fn lemma_seq_join_push(parts: Seq<Seq<char>>, sep: Seq<char>, p: Seq<char>)
    ensures
        parts.len() == 0 ==> seq_join(parts.push(p), sep) == p,
        parts.len() > 0 ==> seq_join(parts.push(p), sep) == seq_join(parts, sep) + sep + p,
{
    assert(parts.push(p).drop_last() =~= parts);
}

// ---------------------------------------------------------------------------
// Writing the text
// ---------------------------------------------------------------------------

/// Appends one character (std's `String::push`).
#[verifier::external_body]
pub(crate) fn push_char(s: &mut String, c: char)
    ensures
        final(s)@ == old(s)@.push(c),
{
    s.push(c);
}

/// The JSON string literal for `s`, from `serde_json::to_string` on a `str`:
/// the quoted text with serde_json's escapes (`json_quoted`).  Writing a `str` into serde_json's
/// in-memory buffer does not fail, so the result is always that text.
#[verifier::external_body]
pub(crate) fn quote_str(s: &str) -> (r: String)
    ensures
        r@ == json_quoted(s@),
{
    match serde_json::to_string(s) {
        Ok(t) => t,
        Err(_) => String::new(),
    }
}

/// The text serde_json writes for the number whose plain decimal text
/// (`-12.5`, `0.0000001`, `100.0`) is given: that text read as a
/// `serde_json::Number` (a binary floating-point number, as it has a point) and
/// written back, in shortest form and, outside the exponents -5 to 15, in
/// exponent form (`1e-7`, `1e+16`).
pub uninterp spec fn json_number_text(plain: Seq<char>) -> Seq<char>;

/// The JSON text of a number, from `serde_json::Number`'s `FromStr` and
/// `Display`: the plain decimal text read as a number and written as serde_json
/// writes it.  The result depends on the text alone.
#[verifier::external_body]
pub(crate) fn number_text(plain: &str) -> (r: String)
    ensures
        r@ == json_number_text(plain@),
{
    match plain.parse::<serde_json::Number>() {
        Ok(n) => n.to_string(),
        Err(_) => plain.to_owned(),
    }
}

/// The text that `{:?}` gives for the `serde_json::Value` that the JSON text
/// reads as: serde_json's `Debug` form (`Null`, `Bool(true)`, `Number(1.5)`,
/// `String("a")`, `Array [..]`, `Object {..}`).
pub uninterp spec fn json_debug_text(text: Seq<char>) -> Seq<char>;

/// The `Debug` form of a JSON value, from `serde_json::from_str` into a
/// `serde_json::Value` and that value's `Debug`.  The result depends on the
/// text alone.
#[verifier::external_body]
pub(crate) fn debug_text(text: &str) -> (r: String)
    ensures
        r@ == json_debug_text(text@),
{
    match serde_json::from_str::<serde_json::Value>(text) {
        Ok(v) => format!("{:?}", v),
        Err(_) => text.to_owned(),
    }
}

pub fn digit(d: u64) -> (c: char)
    requires
        d < 10,
    ensures
        c == digit_char(d as int),
{
    match d {
        0 => '0',
        1 => '1',
        2 => '2',
        3 => '3',
        4 => '4',
        5 => '5',
        6 => '6',
        7 => '7',
        8 => '8',
        _ => '9',
    }
}

/// Appends the decimal digits of `n`.
pub fn write_nat(n: u64, out: &mut String)
    ensures
        final(out)@ == old(out)@ + nat_text(n as nat),
    decreases n,
{
    if n < 10 {
        push_char(out, digit(n));
        assert(out@ =~= old(out)@ + nat_text(n as nat));
    } else {
        write_nat(n / 10, out);
        push_char(out, digit(n % 10));
        assert(out@ =~= old(out)@ + nat_text(n as nat));
    }
}

/// Appends the decimal text of `i`.
pub fn write_int(i: i64, out: &mut String)
    ensures
        final(out)@ == old(out)@ + int_text(i as int),
{
    if i < 0 {
        push_char(out, '-');
        let mag: u64 = if i == i64::MIN {
            9223372036854775808u64
        } else {
            (-i) as u64
        };
        write_nat(mag, out);
        assert(out@ =~= old(out)@ + int_text(i as int));
    } else {
        write_nat(i as u64, out);
    }
}

pub proof fn lemma_pow10_mono(i: nat, j: nat)
    requires
        i <= j,
    ensures
        pow10(i) <= pow10(j),
    decreases j,
{
    lemma_pow10_step(j);
    if i < j {
        lemma_pow10_mono(i, (j - 1) as nat);
        lemma_pow10_step((j - 1) as nat);
    }
}

pub proof fn lemma_pow10_18()
    ensures
        pow10(18) == 1000000000000000000nat,
{
    reveal_with_fuel(pow10, 19);
}

/// `10^s` for a scale that fits a `u64`.
pub fn pow10_u64(s: u8) -> (r: u64)
    requires
        s <= 18,
    ensures
        r == pow10(s as nat),
{
    let mut r: u64 = 1;
    let mut i: u8 = 0;
    while i < s
        invariant
            i <= s <= 18,
            r == pow10(i as nat),
        decreases s - i,
    {
        proof {
            lemma_pow10_step(i as nat);
            lemma_pow10_mono((i + 1) as nat, 18);
            lemma_pow10_18();
        }
        r = r * 10;
        i = i + 1;
    }
    r
}

/// Numbers below `10^k` have at most `k` digits.
pub proof fn lemma_nat_text_len(n: nat, k: nat)
    requires
        k >= 1,
        n < pow10(k),
    ensures
        nat_text(n).len() <= k,
    decreases n,
{
    if n >= 10 {
        lemma_pow10_step((k - 1) as nat);
        if k == 1 {
            assert(pow10(1) == 10) by {
                reveal_with_fuel(pow10, 2);
            }
        } else {
            assert(n / 10 < pow10((k - 1) as nat));
            lemma_nat_text_len(n / 10, (k - 1) as nat);
        }
    }
}

/// Display text of a decimal `m * 10^-s`: the integer part and, when `s > 0`,
/// a point and the fraction written with exactly `s` digits.
pub open spec fn dec_display(m: int, s: nat) -> Seq<char> {
    let a: nat = if m < 0 { (-m) as nat } else { m as nat };
    let sign: Seq<char> = if m < 0 { seq!['-'] } else { Seq::empty() };
    if s == 0 {
        sign + nat_text(a)
    } else {
        sign + nat_text(a / pow10(s)) + seq!['.'] + zeros((s - nat_text(a % pow10(s)).len()) as nat)
            + nat_text(a % pow10(s))
    }
}

#[verifier::rlimit(40)]
/// Appends the text of a decimal: its display text, followed by `.0` when it is
/// a whole number and `json_form` is set (as JSON writes fractional numbers).
pub fn write_decimal(d: Decimal, json_form: bool, out: &mut String)
    ensures
        json_form ==> final(out)@ == old(out)@ + dec_text(d.mantissa_of(), d.scale_of()),
        !json_form ==> final(out)@ == old(out)@ + dec_display(d.mantissa_of(), d.scale_of()),
{
    proof {
        use_type_invariant(&d);
    }
    let m: i64 = d.mantissa;
    let a: u64 = if m == i64::MIN {
        9223372036854775808u64
    } else if m < 0 {
        (-m) as u64
    } else {
        m as u64
    };
    let p: u64 = pow10_u64(d.scale);
    proof {
        lemma_pow10_step(d.scale as nat);
    }
    if m < 0 {
        push_char(out, '-');
    }
    write_nat(a / p, out);
    if d.scale == 0 {
        if json_form {
            push_char(out, '.');
            push_char(out, '0');
        }
    } else {
        push_char(out, '.');
        let ghost before_frac = out@;
        let r: u64 = a % p;
        let mut digits = String::new();
        write_nat(r, &mut digits);
        proof {
            lemma_nat_text_len(r as nat, d.scale as nat);
        }
        let n: usize = digits.as_str().unicode_len();
        let width: usize = d.scale as usize;
        let mut k: usize = n;
        while k < width
            invariant
                n <= k <= width,
                n == nat_text(r as nat).len(),
                out@ == before_frac + zeros((k - n) as nat),
            decreases width - k,
        {
            push_char(out, '0');
            k = k + 1;
            assert(out@ =~= before_frac + zeros((k - n) as nat));
        }
        out.append(digits.as_str());
    }
    assert(json_form ==> out@ =~= old(out)@ + dec_text(d.mantissa_of(), d.scale_of()));
    assert(!json_form ==> out@ =~= old(out)@ + dec_display(d.mantissa_of(), d.scale_of()));
}

/// The display text of a decimal, as `{}` formats the number it stands for.
pub fn decimal_to_string(d: Decimal) -> (r: String)
    ensures
        r@ == dec_display(d.mantissa_of(), d.scale_of()),
{
    let mut s = String::new();
    write_decimal(d, false, &mut s);
    assert(s@ =~= dec_display(d.mantissa_of(), d.scale_of()));
    s
}

/// The decimal text of an integer.
pub fn int_to_string(i: i64) -> (r: String)
    ensures
        r@ == int_text(i as int),
{
    let mut s = String::new();
    write_int(i, &mut s);
    assert(s@ =~= int_text(i as int));
    s
}

/// The decimal text of an unsigned integer.
pub fn nat_to_string(n: u64) -> (r: String)
    ensures
        r@ == nat_text(n as nat),
{
    let mut s = String::new();
    write_nat(n, &mut s);
    assert(s@ =~= nat_text(n as nat));
    s
}

/// The text of a boolean.
pub fn bool_to_string(b: bool) -> (r: String)
    ensures
        r@ == bool_text(b),
{
    proof {
        reveal_strlit("true");
        reveal_strlit("false");
    }
    if b {
        "true".to_owned()
    } else {
        "false".to_owned()
    }
}

/// Appends the JSON text of a value.
pub fn write_json(j: &Json, out: &mut String)
    ensures
        final(out)@ == old(out)@ + json_text(jv(*j)),
    decreases j, 1nat,
{
    match j {
        Json::Null => {
            out.append("null");
            proof { reveal_strlit("null"); }
            assert(out@ =~= old(out)@ + json_text(jv(*j)));
        },
        Json::Bool(b) => {
            if *b {
                out.append("true");
                proof { reveal_strlit("true"); }
            } else {
                out.append("false");
                proof { reveal_strlit("false"); }
            }
            assert(out@ =~= old(out)@ + json_text(jv(*j)));
        },
        Json::Int(i) => {
            write_int(*i, out);
        },
        Json::UInt(u) => {
            write_nat(*u, out);
        },
        Json::Num(d) => {
            let mut plain = String::new();
            write_decimal(*d, true, &mut plain);
            let t = number_text(plain.as_str());
            out.append(t.as_str());
        },
        Json::Str(s) => {
            let q = quote_str(s.as_str());
            out.append(q.as_str());
        },
        Json::Array(v) => {
            proof {
                lemma_jv_array(*v);
            }
            write_array(v, out);
        },
        Json::Object(v) => {
            proof {
                lemma_jv_object(*v);
            }
            write_object(v, out);
        },
    }
}

/// Appends the text of an array with the given elements.
pub fn write_array(v: &Vec<Json>, out: &mut String)
    ensures
        final(out)@ == old(out)@ + json_text(JsonV::Array(elems_view(v@))),
    decreases v, 0nat,
{
    let ghost texts = elem_texts(elems_view(v@));
    push_char(out, '[');
    let ghost start = out@;
    let mut i: usize = 0;
    while i < v.len()
        invariant
            i <= v.len(),
            texts == elem_texts(elems_view(v@)),
            texts.len() == v@.len(),
            forall|k: int| 0 <= k < v@.len() ==> (#[trigger] texts[k]) == json_text(jv(v@[k])),
            out@ == start + seq_join(texts.take(i as int), seq![',']),
        decreases v.len() - i,
    {
        if i > 0 {
            push_char(out, ',');
        }
        proof {
            assert(decreases_to!(*v => v@));
            assert(decreases_to!(v@ => v@[i as int]));
        }
        write_json(&v[i], out);
        proof {
            assert(texts.take(i + 1) =~= texts.take(i as int).push(texts[i as int]));
            lemma_seq_join_push(texts.take(i as int), seq![','], texts[i as int]);
        }
        i = i + 1;
    }
    push_char(out, ']');
    assert(texts.take(v.len() as int) =~= texts);
    assert(out@ =~= old(out)@ + json_text(JsonV::Array(elems_view(v@))));
}

/// Appends the text of an object with the given entries.
pub fn write_object(v: &Vec<(String, Json)>, out: &mut String)
    ensures
        final(out)@ == old(out)@ + json_text(JsonV::Object(entries_view(v@))),
    decreases v, 0nat,
{
    let ghost texts = entry_texts(entries_view(v@));
    push_char(out, '{');
    let ghost start = out@;
    let mut i: usize = 0;
    while i < v.len()
        invariant
            i <= v.len(),
            texts == entry_texts(entries_view(v@)),
            texts.len() == v@.len(),
            forall|k: int|
                0 <= k < v@.len() ==> (#[trigger] texts[k]) == entry_text(
                    v@[k].0@,
                    json_text(jv(v@[k].1)),
                ),
            out@ == start + seq_join(texts.take(i as int), seq![',']),
        decreases v.len() - i,
    {
        if i > 0 {
            push_char(out, ',');
        }
        let ghost before = out@;
        let q = quote_str(v[i].0.as_str());
        out.append(q.as_str());
        push_char(out, ':');
        proof {
            assert(decreases_to!(*v => v@));
            assert(decreases_to!(v@ => v@[i as int]));
            assert(decreases_to!(v@[i as int] => v@[i as int].1));
        }
        write_json(&v[i].1, out);
        proof {
            assert(out@ =~= before + texts[i as int]);
            assert(texts.take(i + 1) =~= texts.take(i as int).push(texts[i as int]));
            lemma_seq_join_push(texts.take(i as int), seq![','], texts[i as int]);
        }
        i = i + 1;
    }
    push_char(out, '}');
    assert(texts.take(v.len() as int) =~= texts);
    assert(out@ =~= old(out)@ + json_text(JsonV::Object(entries_view(v@))));
}

/// The compact JSON text of a value.
pub fn to_json_string(j: &Json) -> (r: String)
    ensures
        r@ == json_text(jv(*j)),
{
    let mut out = String::new();
    write_json(j, &mut out);
    assert(out@ =~= json_text(jv(*j)));
    out
}

// ---------------------------------------------------------------------------
// Building values
// ---------------------------------------------------------------------------

/// Wraps entries as an object.
pub fn object(e: Vec<(String, Json)>) -> (r: Json)
    ensures
        jv(r) == JsonV::Object(entries_view(e@)),
{
    proof {
        lemma_jv_object(e);
    }
    Json::Object(e)
}

/// Wraps elements as an array.
pub fn array(v: Vec<Json>) -> (r: Json)
    ensures
        jv(r) == JsonV::Array(elems_view(v@)),
{
    proof {
        lemma_jv_array(v);
    }
    Json::Array(v)
}

/// A string value.
pub fn str_json(s: &str) -> (r: Json)
    ensures
        jv(r) == JsonV::Str(s@),
{
    Json::Str(s.to_owned())
}

/// The entry for an optional value: none when the value is absent.
pub open spec fn opt_entry(k: Seq<char>, v: Option<JsonV>) -> Seq<(Seq<char>, JsonV)> {
    match v {
        Some(x) => seq![(k, x)],
        None => Seq::empty(),
    }
}

pub open spec fn one_entry(k: Seq<char>, v: JsonV) -> Seq<(Seq<char>, JsonV)> {
    seq![(k, v)]
}

/// Appends an entry.
pub fn push_entry(e: &mut Vec<(String, Json)>, key: &str, value: Json)
    ensures
        entries_view(final(e)@) == entries_view(old(e)@) + one_entry(key@, jv(value)),
{
    e.push((key.to_owned(), value));
    assert(entries_view(e@) =~= entries_view(old(e)@) + one_entry(key@, jv(value)));
}

/// Appends an entry whose key is computed.
pub fn push_entry_owned(e: &mut Vec<(String, Json)>, key: String, value: Json)
    ensures
        entries_view(final(e)@) == entries_view(old(e)@) + one_entry(key@, jv(value)),
{
    let ghost k = key@;
    e.push((key, value));
    assert(entries_view(e@) =~= entries_view(old(e)@) + one_entry(k, jv(value)));
}

/// Appends the entry of an optional value, when it is present.
pub fn push_opt(e: &mut Vec<(String, Json)>, key: &str, value: Option<Json>)
    ensures
        entries_view(final(e)@) == entries_view(old(e)@) + opt_entry(key@, opt_jv(value)),
{
    match value {
        Some(v) => {
            push_entry(e, key, v);
        },
        None => {
            assert(entries_view(e@) =~= entries_view(old(e)@) + opt_entry(key@, opt_jv(value)));
        },
    }
}

/// Appends all the given entries.
pub fn append_entries(e: &mut Vec<(String, Json)>, more: Vec<(String, Json)>)
    ensures
        entries_view(final(e)@) == entries_view(old(e)@) + entries_view(more@),
{
    let mut more = more;
    let ghost m = more@;
    let ghost start = e@;
    e.append(&mut more);
    assert(entries_view(e@) =~= entries_view(start) + entries_view(m));
}

pub open spec fn opt_jv(o: Option<Json>) -> Option<JsonV> {
    match o {
        Some(j) => Some(jv(j)),
        None => None,
    }
}

/// A value that has a JSON form.
pub trait ToJson {
    spec fn json_v(&self) -> JsonV;

    fn to_json(&self) -> (r: Json)
        ensures
            jv(r) == self.json_v(),
    ;
}

/// A value that can stand as the key of an object entry.
pub trait JsonKey {
    spec fn key_v(&self) -> Seq<char>;

    fn key(&self) -> (r: String)
        ensures
            r@ == self.key_v(),
    ;
}

impl JsonKey for String {
    open spec fn key_v(&self) -> Seq<char> {
        self@
    }

    fn key(&self) -> (r: String) {
        self.clone()
    }
}

impl ToJson for String {
    open spec fn json_v(&self) -> JsonV {
        JsonV::Str(self@)
    }

    fn to_json(&self) -> (r: Json) {
        Json::Str(self.clone())
    }
}

impl ToJson for i64 {
    open spec fn json_v(&self) -> JsonV {
        JsonV::Int(*self as int)
    }

    fn to_json(&self) -> (r: Json) {
        Json::Int(*self)
    }
}

impl ToJson for u64 {
    open spec fn json_v(&self) -> JsonV {
        JsonV::Int(*self as int)
    }

    fn to_json(&self) -> (r: Json) {
        Json::UInt(*self)
    }
}

impl ToJson for bool {
    open spec fn json_v(&self) -> JsonV {
        JsonV::Bool(*self)
    }

    fn to_json(&self) -> (r: Json) {
        Json::Bool(*self)
    }
}

impl ToJson for Decimal {
    open spec fn json_v(&self) -> JsonV {
        JsonV::Num(self.mantissa_of(), self.scale_of())
    }

    fn to_json(&self) -> (r: Json) {
        Json::Num(*self)
    }
}

/// The key under which a request names what it takes in: the letters
/// i, n, c, l, u, d, e.
pub open spec fn inclusion_key() -> Seq<char> {
    seq!['i', 'n', 'c', 'l', 'u', 'd', 'e']
}

/// Builds the key that `inclusion_key` names.
pub fn inclusion_key_string() -> (r: String)
    ensures
        r@ == inclusion_key(),
{
    let mut k = String::new();
    push_char(&mut k, 'i');
    push_char(&mut k, 'n');
    push_char(&mut k, 'c');
    push_char(&mut k, 'l');
    push_char(&mut k, 'u');
    push_char(&mut k, 'd');
    push_char(&mut k, 'e');
    assert(k@ =~= inclusion_key());
    k
}

/// A name is written as a JSON string.
impl<'a> ToJson for &'a str {
    open spec fn json_v(&self) -> JsonV {
        JsonV::Str((*self)@)
    }

    fn to_json(&self) -> (r: Json) {
        Json::Str((*self).to_owned())
    }
}

/// The JSON form of an optional value.
pub open spec fn opt_v<T: ToJson>(o: Option<T>) -> Option<JsonV> {
    match o {
        Some(t) => Some(t.json_v()),
        None => None,
    }
}

/// Appends the entry of an optional field, when it is set.
pub fn push_field<T: ToJson>(e: &mut Vec<(String, Json)>, key: &str, value: &Option<T>)
    ensures
        entries_view(final(e)@) == entries_view(old(e)@) + opt_entry(key@, opt_v(*value)),
{
    match value {
        Some(v) => {
            let j = v.to_json();
            push_entry(e, key, j);
        },
        None => {
            assert(entries_view(e@) =~= entries_view(old(e)@) + opt_entry(key@, opt_v(*value)));
        },
    }
}

/// The JSON form of a list of values.
pub open spec fn list_v<T: ToJson>(s: Seq<T>) -> JsonV {
    JsonV::Array(Seq::new(s.len(), |i: int| s[i].json_v()))
}

/// The JSON array of a list of values.
pub fn list_json<T: ToJson>(v: &Vec<T>) -> (r: Json)
    ensures
        jv(r) == list_v(v@),
{
    let mut out: Vec<Json> = Vec::new();
    let mut i: usize = 0;
    while i < v.len()
        invariant
            i <= v.len(),
            out@.len() == i,
            forall|k: int| 0 <= k < i ==> jv(#[trigger] out@[k]) == v@[k].json_v(),
        decreases v.len() - i,
    {
        out.push(v[i].to_json());
        i = i + 1;
    }
    let r = array(out);
    assert(elems_view(out@) =~= list_v(v@)->Array_0);
    r
}

/// The JSON array of a slice of values.
pub fn slice_json<T: ToJson>(v: &[T]) -> (r: Json)
    ensures
        jv(r) == list_v(v@),
{
    let mut out: Vec<Json> = Vec::new();
    let mut i: usize = 0;
    while i < v.len()
        invariant
            i <= v@.len(),
            out@.len() == i,
            forall|k: int| 0 <= k < i ==> jv(#[trigger] out@[k]) == v@[k].json_v(),
        decreases v.len() - i,
    {
        out.push(v[i].to_json());
        i = i + 1;
    }
    let r = array(out);
    assert(elems_view(out@) =~= list_v(v@)->Array_0);
    r
}

/// A list is written as an array.
impl<T: ToJson> ToJson for Vec<T> {
    open spec fn json_v(&self) -> JsonV {
        list_v(self@)
    }

    fn to_json(&self) -> (r: Json) {
        list_json(self)
    }
}

/// An absent value is written as `null`.
impl<T: ToJson> ToJson for Option<T> {
    open spec fn json_v(&self) -> JsonV {
        match self {
            Some(t) => t.json_v(),
            None => JsonV::Null,
        }
    }

    fn to_json(&self) -> (r: Json) {
        match self {
            Some(t) => t.to_json(),
            None => Json::Null,
        }
    }
}

/// A copy of a JSON value.
pub fn json_clone(j: &Json) -> (r: Json)
    ensures
        jv(r) == jv(*j),
    decreases j, 1nat,
{
    match j {
        Json::Null => Json::Null,
        Json::Bool(b) => Json::Bool(*b),
        Json::Int(i) => Json::Int(*i),
        Json::UInt(u) => Json::UInt(*u),
        Json::Num(d) => Json::Num(*d),
        Json::Str(s) => Json::Str(s.clone()),
        Json::Array(v) => {
            proof {
                lemma_jv_array(*v);
            }
            clone_elems(v)
        },
        Json::Object(v) => {
            proof {
                lemma_jv_object(*v);
            }
            clone_entries(v)
        },
    }
}

fn clone_elems(v: &Vec<Json>) -> (r: Json)
    ensures
        jv(r) == JsonV::Array(elems_view(v@)),
    decreases v, 0nat,
{
    let mut out: Vec<Json> = Vec::new();
    let mut i: usize = 0;
    while i < v.len()
        invariant
            i <= v.len(),
            out@.len() == i,
            forall|k: int| 0 <= k < i ==> jv(#[trigger] out@[k]) == jv(v@[k]),
        decreases v.len() - i,
    {
        proof {
            assert(decreases_to!(*v => v@));
            assert(decreases_to!(v@ => v@[i as int]));
        }
        out.push(json_clone(&v[i]));
        i = i + 1;
    }
    let r = array(out);
    assert(elems_view(out@) =~= elems_view(v@));
    r
}

fn clone_entries(v: &Vec<(String, Json)>) -> (r: Json)
    ensures
        jv(r) == JsonV::Object(entries_view(v@)),
    decreases v, 0nat,
{
    let mut out: Vec<(String, Json)> = Vec::new();
    let mut i: usize = 0;
    while i < v.len()
        invariant
            i <= v.len(),
            out@.len() == i,
            forall|k: int| 0 <= k < i ==> (#[trigger] out@[k]).0@ == v@[k].0@ && jv(out@[k].1) == jv(v@[k].1),
        decreases v.len() - i,
    {
        proof {
            assert(decreases_to!(*v => v@));
            assert(decreases_to!(v@ => v@[i as int]));
            assert(decreases_to!(v@[i as int] => v@[i as int].1));
        }
        let c = json_clone(&v[i].1);
        out.push((v[i].0.clone(), c));
        i = i + 1;
    }
    let r = object(out);
    assert(entries_view(out@) =~= entries_view(v@));
    r
}

/// A JSON value stands for itself.
impl ToJson for Json {
    open spec fn json_v(&self) -> JsonV {
        jv(*self)
    }

    fn to_json(&self) -> (r: Json) {
        json_clone(self)
    }
}

/// The index of the first entry with the given key, or -1 when there is none.
pub open spec fn key_index<V>(s: Seq<(Seq<char>, V)>, k: Seq<char>) -> int
    decreases s.len(),
{
    if s.len() == 0 {
        -1
    } else if s[0].0 == k {
        0
    } else {
        let r = key_index(s.drop_first(), k);
        if r >= 0 {
            r + 1
        } else {
            -1
        }
    }
}

/// No key occurs twice.
pub open spec fn keys_distinct<V>(s: Seq<(Seq<char>, V)>) -> bool {
    forall|i: int, j: int| 0 <= i < j < s.len() ==> s[i].0 != s[j].0
}

/// Inserting into a map: the entry with the key gets the new value, or the
/// entry is added at the end when the key is new.
pub open spec fn map_insert<V>(s: Seq<(Seq<char>, V)>, k: Seq<char>, v: V) -> Seq<(Seq<char>, V)> {
    if key_index(s, k) >= 0 {
        s.update(key_index(s, k), (k, v))
    } else {
        s.push((k, v))
    }
}

/// The value under a key.
pub open spec fn map_get<V>(s: Seq<(Seq<char>, V)>, k: Seq<char>) -> Option<V> {
    if key_index(s, k) >= 0 {
        Some(s[key_index(s, k)].1)
    } else {
        None
    }
}

/// `key_index` is the first position holding the key.
pub proof fn lemma_key_index<V>(s: Seq<(Seq<char>, V)>, k: Seq<char>)
    ensures
        -1 <= key_index(s, k) < s.len(),
        key_index(s, k) >= 0 ==> s[key_index(s, k)].0 == k,
        key_index(s, k) >= 0 ==> forall|i: int| 0 <= i < key_index(s, k) ==> s[i].0 != k,
        key_index(s, k) == -1 ==> forall|i: int| 0 <= i < s.len() ==> s[i].0 != k,
    decreases s.len(),
{
    if s.len() > 0 && s[0].0 != k {
        lemma_key_index(s.drop_first(), k);
        assert forall|i: int| 1 <= i < s.len() implies s[i] == s.drop_first()[i - 1] by {}
    }
}

/// The first position holding the key determines `key_index`.
pub proof fn lemma_key_index_at<V>(s: Seq<(Seq<char>, V)>, k: Seq<char>, i: int)
    requires
        0 <= i <= s.len(),
        forall|j: int| 0 <= j < i ==> s[j].0 != k,
        i < s.len() ==> s[i].0 == k,
    ensures
        key_index(s, k) == (if i < s.len() { i } else { -1 }),
{
    lemma_key_index(s, k);
}

/// Looking a key up in two lists of entries put together finds it in the
/// first when it is there, else in the second.
pub proof fn lemma_map_get_append<V>(a: Seq<(Seq<char>, V)>, b: Seq<(Seq<char>, V)>, k: Seq<char>)
    ensures
        map_get(a + b, k) == (if map_get(a, k) is Some {
            map_get(a, k)
        } else {
            map_get(b, k)
        }),
{
    let c = a + b;
    lemma_key_index(a, k);
    lemma_key_index(b, k);
    if key_index(a, k) >= 0 {
        let i = key_index(a, k);
        assert(c[i] == a[i]);
        assert forall|j: int| 0 <= j < i implies c[j].0 != k by {
            assert(c[j] == a[j]);
        }
        lemma_key_index_at(c, k, i);
    } else if key_index(b, k) >= 0 {
        let i = a.len() + key_index(b, k);
        assert(c[i] == b[key_index(b, k)]);
        assert forall|j: int| 0 <= j < i implies c[j].0 != k by {
            if j < a.len() {
                assert(c[j] == a[j]);
            } else {
                assert(c[j] == b[j - a.len()]);
            }
        }
        lemma_key_index_at(c, k, i);
    } else {
        assert forall|j: int| 0 <= j < c.len() implies c[j].0 != k by {
            if j < a.len() {
                assert(c[j] == a[j]);
            } else {
                assert(c[j] == b[j - a.len()]);
            }
        }
        lemma_key_index_at(c, k, c.len() as int);
    }
}

/// Looking a key up in an optional entry: its value when the key is the
/// entry's, else nothing.
pub proof fn lemma_map_get_opt_entry(k: Seq<char>, v: Option<JsonV>, k2: Seq<char>)
    ensures
        map_get(opt_entry(k, v), k2) == (if k2 == k {
            v
        } else {
            None
        }),
{
    let e = opt_entry(k, v);
    if v is Some && k2 == k {
        lemma_key_index_at(e, k2, 0);
    } else {
        assert forall|j: int| 0 <= j < e.len() implies e[j].0 != k2 by {}
        lemma_key_index_at(e, k2, e.len() as int);
    }
}

/// Law: after inserting `v` under `k`, the map gives `v` for `k` and what it
/// gave before for every other key; distinct keys stay distinct.
pub proof fn lemma_map_insert<V>(s: Seq<(Seq<char>, V)>, k: Seq<char>, v: V)
    ensures
        map_get(map_insert(s, k, v), k) == Some(v),
        forall|k2: Seq<char>| k2 != k ==> map_get(map_insert(s, k, v), k2) == map_get(s, k2),
        keys_distinct(s) ==> keys_distinct(map_insert(s, k, v)),
{
    lemma_key_index(s, k);
    let t = map_insert(s, k, v);
    if key_index(s, k) >= 0 {
        lemma_key_index_at(t, k, key_index(s, k));
    } else {
        lemma_key_index_at(t, k, s.len() as int);
    }
    assert forall|k2: Seq<char>| k2 != k implies map_get(t, k2) == map_get(s, k2) by {
        lemma_key_index(s, k2);
        if key_index(s, k2) >= 0 {
            lemma_key_index_at(t, k2, key_index(s, k2));
        } else {
            lemma_key_index_at(t, k2, if key_index(s, k) >= 0 { t.len() as int } else { t.len() as int });
        }
    }
}

/// The map after inserting each of the pairs in turn.
pub open spec fn inserted_all<V>(m: Seq<(Seq<char>, V)>, p: Seq<(Seq<char>, V)>) -> Seq<(Seq<char>, V)>
    decreases p.len(),
{
    if p.len() == 0 {
        m
    } else {
        map_insert(inserted_all(m, p.drop_last()), p.last().0, p.last().1)
    }
}

/// Inserting pairs one by one keeps the names distinct.
pub proof fn lemma_inserted_all_distinct<V>(m: Seq<(Seq<char>, V)>, p: Seq<(Seq<char>, V)>)
    ensures
        keys_distinct(m) ==> keys_distinct(inserted_all(m, p)),
    decreases p.len(),
{
    if p.len() > 0 {
        lemma_inserted_all_distinct(m, p.drop_last());
        lemma_map_insert(inserted_all(m, p.drop_last()), p.last().0, p.last().1);
    }
}

/// A map from names to values, kept in the order the names were first added;
/// written as a JSON object.
#[derive(Debug)]
pub struct KeyedMap<V>(pub Vec<(String, V)>);

impl<V> KeyedMap<V> {
    pub open spec fn view_v(&self) -> Seq<(Seq<char>, V)> {
        Seq::new(self.0@.len(), |i: int| (self.0@[i].0@, self.0@[i].1))
    }

    pub fn new() -> (r: Self)
        ensures
            r.view_v().len() == 0,
            keys_distinct(r.view_v()),
    {
        KeyedMap(Vec::new())
    }

    /// Sets the value under a name.
    pub fn insert(&mut self, key: String, value: V)
        ensures
            final(self).view_v() == map_insert(old(self).view_v(), key@, value),
            keys_distinct(old(self).view_v()) ==> keys_distinct(final(self).view_v()),
    {
        let ghost s = self.view_v();
        proof {
            lemma_map_insert(s, key@, value);
        }
        let ghost k = key@;
        let mut i: usize = 0;
        while i < self.0.len()
            invariant
                i <= self.0@.len(),
                s == self.view_v(),
                self.0@.len() == s.len(),
                k == key@,
                forall|j: int| 0 <= j < i ==> s[j].0 != k,
            ensures
                i <= self.0@.len(),
                i < self.0@.len() ==> s[i as int].0 == k,
            decreases self.0.len() - i,
        {
            if self.0[i].0 == key {
                break;
            }
            i = i + 1;
        }
        proof {
            lemma_key_index_at(s, k, i as int);
        }
        if i < self.0.len() {
            self.0.set(i, (key, value));
            assert(self.view_v() =~= map_insert(s, k, value));
        } else {
            self.0.push((key, value));
            assert(self.view_v() =~= map_insert(s, k, value));
        }
    }
}

impl<V> KeyedMap<V> {
    /// The views of a list of pairs.
    pub open spec fn pairs_v(p: Seq<(String, V)>) -> Seq<(Seq<char>, V)> {
        Seq::new(p.len(), |i: int| (p[i].0@, p[i].1))
    }

    /// Sets each of the pairs in turn.
    pub fn insert_all(&mut self, pairs: Vec<(String, V)>)
        ensures
            final(self).view_v() == inserted_all(old(self).view_v(), Self::pairs_v(pairs@)),
            keys_distinct(old(self).view_v()) ==> keys_distinct(final(self).view_v()),
    {
        proof {
            lemma_inserted_all_distinct(self.view_v(), Self::pairs_v(pairs@));
        }
        let mut pairs = pairs;
        let ghost all = pairs@;
        let ghost start = self.view_v();
        let mut rev: Vec<(String, V)> = Vec::new();
        while pairs.len() > 0
            invariant
                pairs@ == all.subrange(0, pairs@.len() as int),
                rev@.len() + pairs@.len() == all.len(),
                forall|j: int| 0 <= j < rev@.len() ==> #[trigger] rev@[j] == all[all.len() - 1 - j],
            decreases pairs.len(),
        {
            let p = pairs.pop().unwrap();
            rev.push(p);
        }
        let n: usize = rev.len();
        let mut i: usize = 0;
        while i < n
            invariant
                n == all.len(),
                i <= n,
                rev@.len() == n - i,
                forall|j: int| 0 <= j < rev@.len() ==> #[trigger] rev@[j] == all[all.len() - 1 - j],
                self.view_v() == inserted_all(start, Self::pairs_v(all.subrange(0, i as int))),
            decreases n - i,
        {
            let (k, v) = rev.pop().unwrap();
            proof {
                assert(Self::pairs_v(all.subrange(0, i + 1)).drop_last() =~= Self::pairs_v(all.subrange(0, i as int)));
            }
            self.insert(k, v);
            i = i + 1;
        }
        assert(all.subrange(0, n as int) =~= all);
    }
}

impl<V: ToJson> ToJson for KeyedMap<V> {
    open spec fn json_v(&self) -> JsonV {
        JsonV::Object(Seq::new(self.0@.len(), |i: int| (self.0@[i].0@, self.0@[i].1.json_v())))
    }

    fn to_json(&self) -> (r: Json) {
        let mut e: Vec<(String, Json)> = Vec::new();
        let mut i: usize = 0;
        while i < self.0.len()
            invariant
                i <= self.0@.len(),
                entries_view(e@) =~= Seq::new(i as nat, |j: int| (self.0@[j].0@, self.0@[j].1.json_v())),
            decreases self.0.len() - i,
        {
            let k = self.0[i].0.clone();
            let v = self.0[i].1.to_json();
            push_entry_owned(&mut e, k, v);
            i = i + 1;
        }
        object(e)
    }
}

/// To tell whether an optional field is to be left out of the JSON form.
pub trait ShouldSkip {
    spec fn skipped(&self) -> bool;

    fn should_skip(&self) -> (r: bool)
        ensures
            r == self.skipped(),
    ;
}

/// An optional field is left out when it is not set.
impl<T> ShouldSkip for Option<T> {
    open spec fn skipped(&self) -> bool {
        self is None
    }

    fn should_skip(&self) -> (r: bool) {
        self.is_none()
    }
}

/// Implemented by values that add entries to an object being built.
pub trait MergeSerialize {
    spec fn merge_entries(&self) -> Seq<(Seq<char>, JsonV)>;

    fn merge_serialize(&self, e: &mut Vec<(String, Json)>)
        ensures
            entries_view(final(e)@) == entries_view(old(e)@) + self.merge_entries(),
    ;
}

/// No outer options: adds nothing.
#[derive(Debug, Default)]
pub struct NoOuter;

impl MergeSerialize for NoOuter {
    open spec fn merge_entries(&self) -> Seq<(Seq<char>, JsonV)> {
        Seq::empty()
    }

    fn merge_serialize(&self, e: &mut Vec<(String, Json)>) {
        assert(entries_view(e@) =~= entries_view(old(e)@) + self.merge_entries());
    }
}

/// The JSON entries of a map: each name with its value's JSON form.
pub open spec fn map_json<V: ToJson>(s: Seq<(Seq<char>, V)>) -> Seq<(Seq<char>, JsonV)> {
    Seq::new(s.len(), |i: int| (s[i].0, s[i].1.json_v()))
}

/// A map and its JSON entries find a name at the same place.
pub proof fn lemma_map_json_key_index<V: ToJson>(s: Seq<(Seq<char>, V)>, k: Seq<char>)
    ensures
        key_index(map_json(s), k) == key_index(s, k),
        map_get(map_json(s), k) == (match map_get(s, k) {
            Some(v) => Some(v.json_v()),
            None => None,
        }),
{
    let t = map_json(s);
    lemma_key_index(s, k);
    let ki = key_index(s, k);
    if ki >= 0 {
        lemma_key_index_at(t, k, ki);
    } else {
        lemma_key_index_at(t, k, t.len() as int);
    }
}

/// Law: after a value is set under a name, the map's JSON object gives that
/// value's JSON form under the name and what it gave before under every other
/// name.
pub proof fn lemma_keyed_map_json_insert<V: ToJson>(m: KeyedMap<V>, k: Seq<char>, v: V, after: KeyedMap<V>)
    requires
        after.view_v() == map_insert(m.view_v(), k, v),
    ensures
        after.json_v() == JsonV::Object(map_json(after.view_v())),
        map_get(map_json(after.view_v()), k) == Some(v.json_v()),
        forall|k2: Seq<char>|
            k2 != k ==> #[trigger] map_get(map_json(after.view_v()), k2) == map_get(map_json(m.view_v()), k2),
{
    assert(after.json_v()->Object_0 =~= map_json(after.view_v()));
    lemma_map_insert(m.view_v(), k, v);
    lemma_map_json_key_index(after.view_v(), k);
    assert forall|k2: Seq<char>| k2 != k implies #[trigger] map_get(map_json(after.view_v()), k2) == map_get(
        map_json(m.view_v()),
        k2,
    ) by {
        lemma_map_json_key_index(after.view_v(), k2);
        lemma_map_json_key_index(m.view_v(), k2);
    }
}

/// Entries given as they are: added in their order.
impl MergeSerialize for Vec<(String, Json)> {
    open spec fn merge_entries(&self) -> Seq<(Seq<char>, JsonV)> {
        entries_view(self@)
    }

    fn merge_serialize(&self, e: &mut Vec<(String, Json)>) {
        let ghost start = entries_view(e@);
        let mut i: usize = 0;
        while i < self.len()
            invariant
                i <= self@.len(),
                entries_view(e@) =~= start + entries_view(self@).subrange(0, i as int),
            decreases self.len() - i,
        {
            let k = self[i].0.clone();
            let v = json_clone(&self[i].1);
            push_entry_owned(e, k, v);
            i = i + 1;
        }
        assert(entries_view(self@).subrange(0, self@.len() as int) =~= entries_view(self@));
    }
}

/// A recurring theme in ElasticSearch is for JSON to be
/// `{"variable": {..map of options..}, ..outer options..}`.
#[derive(Debug)]
pub struct FieldBased<F, I, O> {
    pub field: F,
    pub inner: I,
    pub outer: O,
}

impl<F, I, O> FieldBased<F, I, O> {
    pub fn new(field: F, inner: I, outer: O) -> (r: Self)
        ensures
            r.field == field,
            r.inner == inner,
            r.outer == outer,
    {
        FieldBased { field, inner, outer }
    }
}

impl<F: JsonKey, I: ToJson, O: MergeSerialize> ToJson for FieldBased<F, I, O> {
    open spec fn json_v(&self) -> JsonV {
        JsonV::Object(one_entry(self.field.key_v(), self.inner.json_v()) + self.outer.merge_entries())
    }

    fn to_json(&self) -> (r: Json) {
        let mut e: Vec<(String, Json)> = Vec::new();
        let k = self.field.key();
        let v = self.inner.to_json();
        push_entry_owned(&mut e, k, v);
        self.outer.merge_serialize(&mut e);
        assert(entries_view(e@) =~= one_entry(self.field.key_v(), self.inner.json_v()) + self.outer.merge_entries());
        object(e)
    }
}

// ---------------------------------------------------------------------------
// Reading JSON values
// ---------------------------------------------------------------------------

/// The value under a key of an object; nothing for other values.
pub open spec fn get_v(j: JsonV, k: Seq<char>) -> Option<JsonV> {
    match j {
        JsonV::Object(es) => map_get(es, k),
        _ => None,
    }
}

/// A number that is a whole number in the range of `u64`.
pub open spec fn u64_v(j: JsonV) -> Option<u64> {
    match j {
        JsonV::Int(i) => if 0 <= i <= u64::MAX {
            Some(i as u64)
        } else {
            None
        },
        _ => None,
    }
}

/// A number, as digits and scale (whole numbers in the range of `i64`, and
/// decimals).
pub open spec fn dec_v(j: JsonV) -> Option<(int, nat)> {
    match j {
        JsonV::Num(m, s) => Some((m, s)),
        JsonV::Int(i) => if i64::MIN <= i <= i64::MAX {
            Some((i, 0nat))
        } else {
            None
        },
        _ => None,
    }
}

/// A string.
pub open spec fn str_v(j: JsonV) -> Option<Seq<char>> {
    match j {
        JsonV::Str(s) => Some(s),
        _ => None,
    }
}

/// A value that is neither null, an array nor an object.
pub open spec fn scalar_v(j: JsonV) -> bool {
    !(j is Null || j is Array || j is Object)
}

/// The decimal as digits and scale.
pub open spec fn dec_pair(d: Decimal) -> (int, nat) {
    (d.mantissa_of(), d.scale_of())
}

/// The value under a key of an object value.
pub fn json_get<'a>(j: &'a Json, k: &str) -> (r: Option<&'a Json>)
    ensures
        r matches Some(v) ==> get_v(jv(*j), k@) == Some(jv(*v)),
        r is None ==> get_v(jv(*j), k@) is None,
{
    match j {
        Json::Object(v) => {
            proof {
                lemma_jv_object(*v);
            }
            let ghost es = entries_view(v@);
            let mut i: usize = 0;
            while i < v.len()
                invariant
                    i <= v@.len(),
                    es == entries_view(v@),
                    jv(*j) == JsonV::Object(es),
                    forall|x: int| 0 <= x < i ==> es[x].0 != k@,
                decreases v.len() - i,
            {
                if crate::util::str_eq(v[i].0.as_str(), k) {
                    proof {
                        assert(es[i as int] == (v@[i as int].0@, jv(v@[i as int].1)));
                        lemma_key_index_at(es, k@, i as int);
                        assert(map_get(es, k@) == Some(jv(v@[i as int].1)));
                    }
                    return Some(&v[i].1);
                }
                i = i + 1;
            }
            proof {
                lemma_key_index_at(es, k@, i as int);
            }
            None
        },
        _ => None,
    }
}

/// A whole number in the range of `u64`.
pub fn json_u64(j: &Json) -> (r: Option<u64>)
    ensures
        r == u64_v(jv(*j)),
{
    match j {
        Json::Int(i) => if *i >= 0 {
            Some(*i as u64)
        } else {
            None
        },
        Json::UInt(u) => Some(*u),
        _ => None,
    }
}

/// A number as a decimal.
pub fn json_decimal(j: &Json) -> (r: Option<Decimal>)
    ensures
        r matches Some(d) ==> dec_v(jv(*j)) == Some(dec_pair(d)),
        r is None ==> dec_v(jv(*j)) is None,
{
    match j {
        Json::Num(d) => Some(*d),
        Json::Int(i) => Some(Decimal::whole(*i)),
        Json::UInt(u) => if *u <= 0x7fff_ffff_ffff_ffffu64 {
            Some(Decimal::whole(*u as i64))
        } else {
            None
        },
        _ => None,
    }
}

/// A string.
pub fn json_str(j: &Json) -> (r: Option<String>)
    ensures
        r matches Some(s) ==> str_v(jv(*j)) == Some(s@),
        r is None ==> str_v(jv(*j)) is None,
{
    match j {
        Json::Str(s) => Some(s.clone()),
        _ => None,
    }
}

/// The entries of an object.
pub fn json_object(j: &Json) -> (r: Option<&Vec<(String, Json)>>)
    ensures
        r matches Some(v) ==> jv(*j) == JsonV::Object(entries_view(v@)),
        r is None ==> !(jv(*j) is Object),
{
    match j {
        Json::Object(v) => {
            proof {
                lemma_jv_object(*v);
            }
            Some(v)
        },
        _ => None,
    }
}

/// The elements of an array.
pub fn json_array(j: &Json) -> (r: Option<&Vec<Json>>)
    ensures
        r matches Some(v) ==> jv(*j) == JsonV::Array(elems_view(v@)),
        r is None ==> !(jv(*j) is Array),
{
    match j {
        Json::Array(v) => {
            proof {
                lemma_jv_array(*v);
            }
            Some(v)
        },
        _ => None,
    }
}

} // verus!

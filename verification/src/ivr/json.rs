//! JSON values as the IVR topology configuration carries them.
//!
//! Objects keep their members in the order the document map yields them
//! (ascending keys).  A floating-point number is held as its IEEE-754 bit
//! pattern together with its JSON text.
use vstd::prelude::*;

verus! {

#[derive(Clone, Debug)]
pub enum JsonNumber {
    PosInt(u64),
    NegInt(i64),
    Float { bits: u64, text: String },
}

#[derive(Debug)]
pub enum JsonValue {
    Null,
    Bool(bool),
    Number(JsonNumber),
    String(String),
    Array(Vec<JsonValue>),
    Object(Vec<(String, JsonValue)>),
}

/// Mathematical view of a JSON value.
pub enum JsonView {
    Null,
    Bool(bool),
    PosInt(u64),
    NegInt(i64),
    Float(u64, Seq<char>),
    Str(Seq<char>),
    Array(Seq<JsonView>),
    Object(Seq<(Seq<char>, JsonView)>),
}

pub open spec fn jview(v: JsonValue) -> JsonView
    decreases v,
{
    match v {
        JsonValue::Null => JsonView::Null,
        JsonValue::Bool(b) => JsonView::Bool(b),
        JsonValue::Number(JsonNumber::PosInt(n)) => JsonView::PosInt(n),
        JsonValue::Number(JsonNumber::NegInt(n)) => JsonView::NegInt(n),
        JsonValue::Number(JsonNumber::Float { bits, text }) => JsonView::Float(bits, text@),
        JsonValue::String(s) => JsonView::Str(s@),
        JsonValue::Array(a) => JsonView::Array(jview_items(a@)),
        JsonValue::Object(o) => JsonView::Object(jview_members(o@)),
    }
}

pub open spec fn jview_items(s: Seq<JsonValue>) -> Seq<JsonView>
    decreases s,
{
    if s.len() == 0 {
        Seq::empty()
    } else {
        jview_items(s.drop_last()).push(jview(s.last()))
    }
}

pub open spec fn jview_members(s: Seq<(String, JsonValue)>) -> Seq<(Seq<char>, JsonView)>
    decreases s,
{
    if s.len() == 0 {
        Seq::empty()
    } else {
        jview_members(s.drop_last()).push((s.last().0@, jview(s.last().1)))
    }
}

pub proof fn lemma_jview_items(s: Seq<JsonValue>)
    ensures
        jview_items(s).len() == s.len(),
        forall|j: int| 0 <= j < s.len() ==> #[trigger] jview_items(s)[j] == jview(s[j]),
    decreases s.len(),
{
    if s.len() > 0 {
        lemma_jview_items(s.drop_last());
        assert forall|j: int| 0 <= j < s.len() implies #[trigger] jview_items(s)[j] == jview(s[j]) by {
            if j < s.len() - 1 {
                assert(s.drop_last()[j] == s[j]);
            }
        }
    }
}

pub proof fn lemma_jview_members(s: Seq<(String, JsonValue)>)
    ensures
        jview_members(s).len() == s.len(),
        forall|j: int|
            0 <= j < s.len() ==> #[trigger] jview_members(s)[j] == (s[j].0@, jview(s[j].1)),
    decreases s.len(),
{
    if s.len() > 0 {
        lemma_jview_members(s.drop_last());
        assert forall|j: int| 0 <= j < s.len() implies #[trigger] jview_members(s)[j] == (
            s[j].0@,
            jview(s[j].1),
        ) by {
            if j < s.len() - 1 {
                assert(s.drop_last()[j] == s[j]);
            }
        }
    }
}

impl View for JsonValue {
    type V = JsonView;

    open spec fn view(&self) -> JsonView {
        jview(*self)
    }
}

pub fn json_clone(v: &JsonValue) -> (r: JsonValue)
    ensures
        r@ == v@,
    decreases v,
{
    match v {
        JsonValue::Null => JsonValue::Null,
        JsonValue::Bool(b) => JsonValue::Bool(*b),
        JsonValue::Number(JsonNumber::PosInt(n)) => JsonValue::Number(JsonNumber::PosInt(*n)),
        JsonValue::Number(JsonNumber::NegInt(n)) => JsonValue::Number(JsonNumber::NegInt(*n)),
        JsonValue::Number(JsonNumber::Float { bits, text }) => JsonValue::Number(
            JsonNumber::Float { bits: *bits, text: text.clone() },
        ),
        JsonValue::String(s) => JsonValue::String(s.clone()),
        JsonValue::Array(a) => {
            let mut out: Vec<JsonValue> = Vec::new();
            let mut i: usize = 0;
            while i < a.len()
                invariant
                    *v == JsonValue::Array(*a),
                    0 <= i <= a@.len(),
                    out@.len() == i,
                    forall|j: int| 0 <= j < i ==> jview(#[trigger] out@[j]) == jview(a@[j]),
                decreases a@.len() - i,
            {
                proof {
                    assert(decreases_to!(*v => (*v)->Array_0));
                    assert(decreases_to!(*a => a@));
                    assert(decreases_to!(a@ => a@[i as int]));
                }
                out.push(json_clone(&a[i]));
                i = i + 1;
            }
            let r = JsonValue::Array(out);
            assert(jview(r) == jview(*v)) by {
                lemma_jview_items(out@);
                lemma_jview_items(a@);
                assert(jview_items(out@) =~= jview_items(a@));
            }
            r
        },
        JsonValue::Object(o) => {
            let mut out: Vec<(String, JsonValue)> = Vec::new();
            let mut i: usize = 0;
            while i < o.len()
                invariant
                    *v == JsonValue::Object(*o),
                    0 <= i <= o@.len(),
                    out@.len() == i,
                    forall|j: int|
                        0 <= j < i ==> (#[trigger] out@[j]).0@ == o@[j].0@ && jview(out@[j].1)
                            == jview(o@[j].1),
                decreases o@.len() - i,
            {
                let k = o[i].0.clone();
                proof {
                    assert(decreases_to!(*v => (*v)->Object_0));
                    assert(decreases_to!(*o => o@));
                    assert(decreases_to!(o@ => o@[i as int]));
                    assert(decreases_to!(o@[i as int] => o@[i as int].1));
                }
                let val = json_clone(&o[i].1);
                out.push((k, val));
                i = i + 1;
            }
            let r = JsonValue::Object(out);
            assert(jview(r) == jview(*v)) by {
                lemma_jview_members(out@);
                lemma_jview_members(o@);
                assert(jview_members(out@) =~= jview_members(o@));
            }
            r
        },
    }
}

} // verus!

verus! {

// ---------------------------------------------------------------------------
// Accessors
// ---------------------------------------------------------------------------

/// Value of the first member named `key` at index `i` or later.
pub open spec fn members_get(m: Seq<(Seq<char>, JsonView)>, key: Seq<char>, i: int) -> Option<JsonView>
    decreases m.len() - i,
{
    if i < 0 || i >= m.len() {
        None
    } else if m[i].0 == key {
        Some(m[i].1)
    } else {
        members_get(m, key, i + 1)
    }
}

/// `Value::get(key)`: the member of an object, nothing for other values.
pub open spec fn jget(v: JsonView, key: Seq<char>) -> Option<JsonView> {
    match v {
        JsonView::Object(m) => members_get(m, key, 0),
        _ => None,
    }
}

pub fn json_get<'a>(v: &'a JsonValue, key: &str) -> (r: Option<&'a JsonValue>)
    ensures
        match r {
            Some(x) => jget(v@, key@) == Some(x@),
            None => jget(v@, key@) is None,
        },
{
    match v {
        JsonValue::Object(o) => {
            proof {
                lemma_jview_members(o@);
            }
            let ghost m = jview_members(o@);
            let mut i: usize = 0;
            while i < o.len()
                invariant
                    *v == JsonValue::Object(*o),
                    m == jview_members(o@),
                    m.len() == o@.len(),
                    forall|j: int| 0 <= j < o@.len() ==> #[trigger] m[j] == (o@[j].0@, jview(o@[j].1)),
                    0 <= i <= o@.len(),
                    members_get(m, key@, 0) == members_get(m, key@, i as int),
                decreases o@.len() - i,
            {
                if crate::text::str_eq(o[i].0.as_str(), key) {
                    assert(m[i as int] == (o@[i as int].0@, jview(o@[i as int].1)));
                    return Some(&o[i].1);
                }
                assert(m[i as int].0 != key@);
                i = i + 1;
            }
            None
        },
        _ => None,
    }
}

pub open spec fn jas_str(v: JsonView) -> Option<Seq<char>> {
    match v {
        JsonView::Str(s) => Some(s),
        _ => None,
    }
}

pub fn json_as_str(v: &JsonValue) -> (r: Option<&String>)
    ensures
        match r {
            Some(s) => jas_str(v@) == Some(s@),
            None => jas_str(v@) is None,
        },
{
    match v {
        JsonValue::String(s) => Some(s),
        _ => None,
    }
}

/// `Value::as_u64`: non-negative integers only.
pub open spec fn jas_u64(v: JsonView) -> Option<u64> {
    match v {
        JsonView::PosInt(n) => Some(n),
        JsonView::NegInt(n) => if n >= 0 {
            Some(n as u64)
        } else {
            None
        },
        _ => None,
    }
}

pub fn json_as_u64(v: &JsonValue) -> (r: Option<u64>)
    ensures
        r == jas_u64(v@),
{
    match v {
        JsonValue::Number(JsonNumber::PosInt(n)) => Some(*n),
        JsonValue::Number(JsonNumber::NegInt(n)) => if *n >= 0 {
            Some(*n as u64)
        } else {
            None
        },
        _ => None,
    }
}

pub open spec fn jas_bool(v: JsonView) -> Option<bool> {
    match v {
        JsonView::Bool(b) => Some(b),
        _ => None,
    }
}

pub fn json_as_bool(v: &JsonValue) -> (r: Option<bool>)
    ensures
        r == jas_bool(v@),
{
    match v {
        JsonValue::Bool(b) => Some(*b),
        _ => None,
    }
}

// ---------------------------------------------------------------------------
// Equality
// ---------------------------------------------------------------------------

pub open spec fn f64_is_nan(bits: u64) -> bool {
    (bits & 0x7ff0_0000_0000_0000) == 0x7ff0_0000_0000_0000 && (bits & 0x000f_ffff_ffff_ffff) != 0
}

/// `f64 == f64` on bit patterns: never for NaN, and `-0.0 == 0.0`.
pub open spec fn f64_bits_eq(a: u64, b: u64) -> bool {
    !f64_is_nan(a) && !f64_is_nan(b) && (a == b || ((a & 0x7fff_ffff_ffff_ffff) == 0 && (b
        & 0x7fff_ffff_ffff_ffff) == 0))
}

/// `Value == Value`: numbers equal only within the same representation,
/// arrays and objects element by element.
pub open spec fn json_equal(a: JsonView, b: JsonView) -> bool
    decreases a, 0nat,
{
    match (a, b) {
        (JsonView::Null, JsonView::Null) => true,
        (JsonView::Bool(x), JsonView::Bool(y)) => x == y,
        (JsonView::PosInt(x), JsonView::PosInt(y)) => x == y,
        (JsonView::NegInt(x), JsonView::NegInt(y)) => x == y,
        (JsonView::Float(x, _), JsonView::Float(y, _)) => f64_bits_eq(x, y),
        (JsonView::Str(x), JsonView::Str(y)) => x == y,
        (JsonView::Array(x), JsonView::Array(y)) => x.len() == y.len() && items_equal(
            x,
            y,
            x.len() as int,
        ),
        (JsonView::Object(x), JsonView::Object(y)) => x.len() == y.len() && members_equal(
            x,
            y,
            x.len() as int,
        ),
        _ => false,
    }
}

/// The first `n` items of `x` and `y` are pairwise equal.
pub open spec fn items_equal(x: Seq<JsonView>, y: Seq<JsonView>, n: int) -> bool
    decreases x, n,
{
    if n <= 0 || n > x.len() || n > y.len() {
        n <= 0
    } else {
        items_equal(x, y, n - 1) && json_equal(x[n - 1], y[n - 1])
    }
}

/// The first `n` members of `x` and `y` have equal keys and values.
pub open spec fn members_equal(x: Seq<(Seq<char>, JsonView)>, y: Seq<(Seq<char>, JsonView)>, n: int) -> bool
    decreases x, n,
{
    if n <= 0 || n > x.len() || n > y.len() {
        n <= 0
    } else {
        members_equal(x, y, n - 1) && x[n - 1].0 == y[n - 1].0 && json_equal(x[n - 1].1, y[n - 1].1)
    }
}

pub fn f64_bits_equal(a: u64, b: u64) -> (r: bool)
    ensures
        r == f64_bits_eq(a, b),
{
    let nan_a = (a & 0x7ff0_0000_0000_0000) == 0x7ff0_0000_0000_0000 && (a & 0x000f_ffff_ffff_ffff)
        != 0;
    let nan_b = (b & 0x7ff0_0000_0000_0000) == 0x7ff0_0000_0000_0000 && (b & 0x000f_ffff_ffff_ffff)
        != 0;
    !nan_a && !nan_b && (a == b || ((a & 0x7fff_ffff_ffff_ffff) == 0 && (b & 0x7fff_ffff_ffff_ffff)
        == 0))
}

pub fn json_eq(a: &JsonValue, b: &JsonValue) -> (r: bool)
    ensures
        r == json_equal(a@, b@),
    decreases a,
{
    match (a, b) {
        (JsonValue::Null, JsonValue::Null) => true,
        (JsonValue::Bool(x), JsonValue::Bool(y)) => *x == *y,
        (JsonValue::Number(JsonNumber::PosInt(x)), JsonValue::Number(JsonNumber::PosInt(y))) => *x
            == *y,
        (JsonValue::Number(JsonNumber::NegInt(x)), JsonValue::Number(JsonNumber::NegInt(y))) => *x
            == *y,
        (
            JsonValue::Number(JsonNumber::Float { bits: x, .. }),
            JsonValue::Number(JsonNumber::Float { bits: y, .. }),
        ) => f64_bits_equal(*x, *y),
        (JsonValue::String(x), JsonValue::String(y)) => crate::text::str_eq(x.as_str(), y.as_str()),
        (JsonValue::Array(x), JsonValue::Array(y)) => {
            proof {
                lemma_jview_items(x@);
                lemma_jview_items(y@);
            }
            if x.len() != y.len() {
                return false;
            }
            let mut i: usize = 0;
            while i < x.len()
                invariant
                    *a == JsonValue::Array(*x),
                    *b == JsonValue::Array(*y),
                    x@.len() == y@.len(),
                    jview_items(x@).len() == x@.len(),
                    jview_items(y@).len() == y@.len(),
                    forall|j: int| 0 <= j < x@.len() ==> #[trigger] jview_items(x@)[j] == jview(x@[j]),
                    forall|j: int| 0 <= j < y@.len() ==> #[trigger] jview_items(y@)[j] == jview(y@[j]),
                    0 <= i <= x@.len(),
                    items_equal(jview_items(x@), jview_items(y@), i as int),
                decreases x@.len() - i,
            {
                proof {
                    assert(decreases_to!(*a => (*a)->Array_0));
                    assert(decreases_to!(*x => x@));
                    assert(decreases_to!(x@ => x@[i as int]));
                }
                let e = json_eq(&x[i], &y[i]);
                assert(jview_items(x@)[i as int] == jview(x@[i as int]));
                assert(jview_items(y@)[i as int] == jview(y@[i as int]));
                if !e {
                    proof {
                        if items_equal(jview_items(x@), jview_items(y@), x@.len() as int) {
                            lemma_items_equal_prefix(jview_items(x@), jview_items(y@), i + 1, x@.len() as int);
                        }
                    }
                    return false;
                }
                i = i + 1;
            }
            true
        },
        (JsonValue::Object(x), JsonValue::Object(y)) => {
            proof {
                lemma_jview_members(x@);
                lemma_jview_members(y@);
            }
            if x.len() != y.len() {
                return false;
            }
            let mut i: usize = 0;
            while i < x.len()
                invariant
                    *a == JsonValue::Object(*x),
                    *b == JsonValue::Object(*y),
                    x@.len() == y@.len(),
                    jview_members(x@).len() == x@.len(),
                    jview_members(y@).len() == y@.len(),
                    forall|j: int|
                        0 <= j < x@.len() ==> #[trigger] jview_members(x@)[j] == (
                            x@[j].0@,
                            jview(x@[j].1),
                        ),
                    forall|j: int|
                        0 <= j < y@.len() ==> #[trigger] jview_members(y@)[j] == (
                            y@[j].0@,
                            jview(y@[j].1),
                        ),
                    0 <= i <= x@.len(),
                    members_equal(jview_members(x@), jview_members(y@), i as int),
                decreases x@.len() - i,
            {
                proof {
                    assert(decreases_to!(*a => (*a)->Object_0));
                    assert(decreases_to!(*x => x@));
                    assert(decreases_to!(x@ => x@[i as int]));
                    assert(decreases_to!(x@[i as int] => x@[i as int].1));
                }
                let ke = crate::text::str_eq(x[i].0.as_str(), y[i].0.as_str());
                let e = ke && json_eq(&x[i].1, &y[i].1);
                assert(jview_members(x@)[i as int] == (x@[i as int].0@, jview(x@[i as int].1)));
                assert(jview_members(y@)[i as int] == (y@[i as int].0@, jview(y@[i as int].1)));
                if !e {
                    proof {
                        if members_equal(jview_members(x@), jview_members(y@), x@.len() as int) {
                            lemma_members_equal_prefix(jview_members(x@), jview_members(y@), i + 1, x@.len() as int);
                        }
                    }
                    return false;
                }
                i = i + 1;
            }
            true
        },
        _ => false,
    }
}

pub proof fn lemma_items_equal_prefix(x: Seq<JsonView>, y: Seq<JsonView>, m: int, n: int)
    requires
        0 <= m <= n <= x.len(),
        n <= y.len(),
        items_equal(x, y, n),
    ensures
        items_equal(x, y, m),
    decreases n - m,
{
    if m < n {
        lemma_items_equal_prefix(x, y, m, n - 1);
    }
}

pub proof fn lemma_members_equal_prefix(
    x: Seq<(Seq<char>, JsonView)>,
    y: Seq<(Seq<char>, JsonView)>,
    m: int,
    n: int,
)
    requires
        0 <= m <= n <= x.len(),
        n <= y.len(),
        members_equal(x, y, n),
    ensures
        members_equal(x, y, m),
    decreases n - m,
{
    if m < n {
        lemma_members_equal_prefix(x, y, m, n - 1);
    }
}

} // verus!

verus! {

// ---------------------------------------------------------------------------
// Compact JSON text
// ---------------------------------------------------------------------------

/// Escaped form of one character inside a JSON string literal.
pub open spec fn escape_char(c: char) -> Seq<char> {
    if c == '"' {
        seq!['\\', '"']
    } else if c == '\\' {
        seq!['\\', '\\']
    } else if c == '\u{8}' {
        seq!['\\', 'b']
    } else if c == '\u{c}' {
        seq!['\\', 'f']
    } else if c == '\n' {
        seq!['\\', 'n']
    } else if c == '\r' {
        seq!['\\', 'r']
    } else if c == '\t' {
        seq!['\\', 't']
    } else if (c as u32) < 0x20 {
        seq![
            '\\',
            'u',
            '0',
            '0',
            crate::text::digit_char((c as u32 / 16) as nat),
            crate::text::digit_char((c as u32 % 16) as nat),
        ]
    } else {
        seq![c]
    }
}

pub open spec fn escape_seq(s: Seq<char>) -> Seq<char>
    decreases s.len(),
{
    if s.len() == 0 {
        Seq::empty()
    } else {
        escape_seq(s.drop_last()) + escape_char(s.last())
    }
}

/// Compact JSON text of a value, as `Value`'s `Display` writes it.
pub open spec fn jtext(v: JsonView) -> Seq<char>
    decreases v, 0nat,
{
    match v {
        JsonView::Null => "null"@,
        JsonView::Bool(b) => if b {
            "true"@
        } else {
            "false"@
        },
        JsonView::PosInt(n) => crate::text::dec(n as nat),
        JsonView::NegInt(n) => if n < 0 {
            "-"@ + crate::text::dec((-n) as nat)
        } else {
            crate::text::dec(n as nat)
        },
        JsonView::Float(_, t) => t,
        JsonView::Str(s) => "\""@ + escape_seq(s) + "\""@,
        JsonView::Array(xs) => "["@ + items_text(xs, xs.len() as int) + "]"@,
        JsonView::Object(ms) => "{"@ + members_text(ms, ms.len() as int) + "}"@,
    }
}

/// The first `n` items, comma separated.
pub open spec fn items_text(xs: Seq<JsonView>, n: int) -> Seq<char>
    decreases xs, n,
{
    if n <= 0 || n > xs.len() {
        Seq::empty()
    } else if n == 1 {
        jtext(xs[0])
    } else {
        items_text(xs, n - 1) + ","@ + jtext(xs[n - 1])
    }
}

/// The first `n` members as `"key":value`, comma separated.
pub open spec fn members_text(ms: Seq<(Seq<char>, JsonView)>, n: int) -> Seq<char>
    decreases ms, n,
{
    if n <= 0 || n > ms.len() {
        Seq::empty()
    } else if n == 1 {
        "\""@ + escape_seq(ms[0].0) + "\":"@ + jtext(ms[0].1)
    } else {
        members_text(ms, n - 1) + ","@ + "\""@ + escape_seq(ms[n - 1].0) + "\":"@ + jtext(ms[n - 1].1)
    }
}

fn hex_digit(d: u32) -> (r: char)
    requires
        d < 16,
    ensures
        r == crate::text::digit_char(d as nat),
{
    if d < 10 {
        ((d as u8) + 48) as char
    } else {
        ((d as u8) + 87) as char
    }
}

fn push_escaped_char(out: &mut String, c: char)
    ensures
        final(out)@ == old(out)@ + escape_char(c),
{
    let ghost o = out@;
    if c == '"' {
        crate::text::push_char(out, '\\');
        crate::text::push_char(out, '"');
    } else if c == '\\' {
        crate::text::push_char(out, '\\');
        crate::text::push_char(out, '\\');
    } else if c == '\u{8}' {
        crate::text::push_char(out, '\\');
        crate::text::push_char(out, 'b');
    } else if c == '\u{c}' {
        crate::text::push_char(out, '\\');
        crate::text::push_char(out, 'f');
    } else if c == '\n' {
        crate::text::push_char(out, '\\');
        crate::text::push_char(out, 'n');
    } else if c == '\r' {
        crate::text::push_char(out, '\\');
        crate::text::push_char(out, 'r');
    } else if c == '\t' {
        crate::text::push_char(out, '\\');
        crate::text::push_char(out, 't');
    } else if (c as u32) < 0x20 {
        let u = c as u32;
        crate::text::push_char(out, '\\');
        crate::text::push_char(out, 'u');
        crate::text::push_char(out, '0');
        crate::text::push_char(out, '0');
        crate::text::push_char(out, hex_digit(u / 16));
        crate::text::push_char(out, hex_digit(u % 16));
    } else {
        crate::text::push_char(out, c);
    }
    assert(out@ =~= o + escape_char(c));
}

fn push_escaped(out: &mut String, s: &str)
    ensures
        final(out)@ == old(out)@ + escape_seq(s@),
{
    let v = crate::text::chars_of(s);
    let mut i: usize = 0;
    while i < v.len()
        invariant
            v@ == s@,
            0 <= i <= v@.len(),
            out@ == old(out)@ + escape_seq(v@.take(i as int)),
        decreases v@.len() - i,
    {
        push_escaped_char(out, v[i]);
        assert(v@.take(i + 1).drop_last() =~= v@.take(i as int));
        i = i + 1;
        assert(out@ =~= old(out)@ + escape_seq(v@.take(i as int)));
    }
    assert(v@.take(v@.len() as int) =~= v@);
}

/// Appends the compact JSON text of `v`.
pub fn push_json_text(out: &mut String, v: &JsonValue)
    ensures
        final(out)@ == old(out)@ + jtext(v@),
    decreases v,
{
    let ghost o = out@;
    match v {
        JsonValue::Null => crate::text::push_str(out, "null"),
        JsonValue::Bool(b) => if *b {
            crate::text::push_str(out, "true")
        } else {
            crate::text::push_str(out, "false")
        },
        JsonValue::Number(JsonNumber::PosInt(n)) => crate::text::push_dec(out, *n),
        JsonValue::Number(JsonNumber::NegInt(n)) => {
            if *n < 0 {
                crate::text::push_str(out, "-");
                let m: u64 = (0i128 - (*n as i128)) as u64;
                crate::text::push_dec(out, m);
            } else {
                crate::text::push_dec(out, *n as u64);
            }
        },
        JsonValue::Number(JsonNumber::Float { text, .. }) => crate::text::push_str(out, text.as_str()),
        JsonValue::String(s) => {
            crate::text::push_str(out, "\"");
            push_escaped(out, s.as_str());
            crate::text::push_str(out, "\"");
        },
        JsonValue::Array(x) => {
            proof {
                lemma_jview_items(x@);
            }
            crate::text::push_str(out, "[");
            let ghost start = out@;
            let mut i: usize = 0;
            while i < x.len()
                invariant
                    *v == JsonValue::Array(*x),
                    jview_items(x@).len() == x@.len(),
                    forall|j: int| 0 <= j < x@.len() ==> #[trigger] jview_items(x@)[j] == jview(x@[j]),
                    0 <= i <= x@.len(),
                    out@ == start + items_text(jview_items(x@), i as int),
                decreases x@.len() - i,
            {
                proof {
                    assert(decreases_to!(*v => (*v)->Array_0));
                    assert(decreases_to!(*x => x@));
                    assert(decreases_to!(x@ => x@[i as int]));
                }
                if i > 0 {
                    crate::text::push_str(out, ",");
                }
                push_json_text(out, &x[i]);
                assert(jview_items(x@)[i as int] == jview(x@[i as int]));
                i = i + 1;
                assert(out@ =~= start + items_text(jview_items(x@), i as int));
            }
            crate::text::push_str(out, "]");
        },
        JsonValue::Object(x) => {
            proof {
                lemma_jview_members(x@);
            }
            crate::text::push_str(out, "{");
            let ghost start = out@;
            let mut i: usize = 0;
            while i < x.len()
                invariant
                    *v == JsonValue::Object(*x),
                    jview_members(x@).len() == x@.len(),
                    forall|j: int|
                        0 <= j < x@.len() ==> #[trigger] jview_members(x@)[j] == (
                            x@[j].0@,
                            jview(x@[j].1),
                        ),
                    0 <= i <= x@.len(),
                    out@ == start + members_text(jview_members(x@), i as int),
                decreases x@.len() - i,
            {
                proof {
                    assert(decreases_to!(*v => (*v)->Object_0));
                    assert(decreases_to!(*x => x@));
                    assert(decreases_to!(x@ => x@[i as int]));
                    assert(decreases_to!(x@[i as int] => x@[i as int].1));
                }
                if i > 0 {
                    crate::text::push_str(out, ",");
                }
                crate::text::push_str(out, "\"");
                push_escaped(out, x[i].0.as_str());
                crate::text::push_str(out, "\":");
                push_json_text(out, &x[i].1);
                assert(jview_members(x@)[i as int] == (x@[i as int].0@, jview(x@[i as int].1)));
                i = i + 1;
                assert(out@ =~= start + members_text(jview_members(x@), i as int));
            }
            crate::text::push_str(out, "}");
        },
    }
    assert(out@ =~= o + jtext(v@));
}

/// Text of a value for templates and string operators: a string as is,
/// anything else as its compact JSON text.
pub open spec fn value_text(v: JsonView) -> Seq<char> {
    match v {
        JsonView::Str(s) => s,
        _ => jtext(v),
    }
}

pub fn json_to_string(v: &JsonValue) -> (r: String)
    ensures
        r@ == value_text(v@),
{
    match v {
        JsonValue::String(s) => s.clone(),
        _ => {
            let mut out = String::new();
            push_json_text(&mut out, v);
            assert(out@ =~= value_text(v@));
            out
        },
    }
}

} // verus!

use vstd::prelude::*;

verus! {

broadcast use {vstd::seq::axiom_seq_index_decreases, vstd::std_specs::vec::axiom_vec_decreases_to_view};

/// Mathematical model of a structured JSON-compatible value.
///
/// Contracts throughout the crate speak of this type; the executable
/// counterpart is [`JsonValue`], whose deep view is a `JsonModel`.
#[verifier::ext_equal]
pub enum JsonModel {
    Null,
    Bool(bool),
    Int(int),
    Text(Seq<char>),
    List(Seq<JsonModel>),
    Object(Seq<(Seq<char>, JsonModel)>),
}

/// A structured JSON-compatible value: the body of a request before it is
/// framed as text, and the decoded form of a response body.
///
/// Objects keep their entries in insertion order, matching the order in
/// which a request renders its fields.
#[derive(Debug, PartialEq)]
pub enum JsonValue {
    Null,
    Bool(bool),
    Int(i64),
    Text(String),
    List(Vec<JsonValue>),
    Object(Vec<(String, JsonValue)>),
}

/// The models of the elements of a list of values.
///
/// The index guard only serves the termination check; `Seq::new` never
/// applies the closure out of range.
pub open spec fn list_model(items: Seq<JsonValue>) -> Seq<JsonModel>
    decreases items,
{
    Seq::new(
        items.len(),
        |i: int|
            if 0 <= i < items.len() {
                items[i].deep_view()
            } else {
                JsonModel::Null
            },
    )
}

/// The models of the entries of an object, keys viewed as character strings.
pub open spec fn entries_model(entries: Seq<(String, JsonValue)>) -> Seq<(Seq<char>, JsonModel)>
    decreases entries,
{
    Seq::new(
        entries.len(),
        |i: int|
            if 0 <= i < entries.len() {
                (entries[i].0@, entries[i].1.deep_view())
            } else {
                (Seq::empty(), JsonModel::Null)
            },
    )
}

impl DeepView for JsonValue {
    type V = JsonModel;

    open spec fn deep_view(&self) -> JsonModel
        decreases self,
    {
        match self {
            JsonValue::Null => JsonModel::Null,
            JsonValue::Bool(b) => JsonModel::Bool(*b),
            JsonValue::Int(n) => JsonModel::Int(*n as int),
            JsonValue::Text(s) => JsonModel::Text(s@),
            JsonValue::List(items) => JsonModel::List(list_model(items@)),
            JsonValue::Object(entries) => JsonModel::Object(entries_model(entries@)),
        }
    }
}

/// The first value bound to `key` in an object's entry list, if any.
pub open spec fn object_lookup(entries: Seq<(Seq<char>, JsonModel)>, key: Seq<char>) -> Option<
    JsonModel,
>
    decreases entries.len(),
{
    if entries.len() == 0 {
        None
    } else if entries[0].0 == key {
        Some(entries[0].1)
    } else {
        object_lookup(entries.skip(1), key)
    }
}

/// One decimal digit, as its ASCII byte.
pub open spec fn digit_byte(n: nat) -> u8 {
    (0x30 + n % 10) as u8
}

/// The decimal digits of `n`, most significant first.
pub open spec fn dec_digits(n: nat) -> Seq<u8>
    decreases n,
{
    if n < 10 {
        seq![digit_byte(n)]
    } else {
        dec_digits(n / 10) + seq![digit_byte(n % 10)]
    }
}

/// The decimal rendering of an integer, with a leading minus sign when
/// negative.
pub open spec fn int_bytes(i: int) -> Seq<u8> {
    if i < 0 {
        seq![0x2du8] + dec_digits((-i) as nat)
    } else {
        dec_digits(i as nat)
    }
}

/// One hexadecimal digit (lower case), as its ASCII byte.
pub open spec fn hex_digit_byte(n: u8) -> u8 {
    if n < 10 {
        (0x30 + n) as u8
    } else {
        (0x57 + n) as u8
    }
}

/// How one byte of a string is rendered inside a JSON string literal:
/// quote and backslash get a two-character escape, as do the usual control
/// characters; the remaining control characters get a `\u00XX` escape; any
/// other byte stands for itself.
pub open spec fn escape_byte(b: u8) -> Seq<u8> {
    if b == 0x22 {  // quote
        seq![0x5cu8, 0x22u8]
    } else if b == 0x5c {  // backslash
        seq![0x5cu8, 0x5cu8]
    } else if b == 0x08 {  // backspace
        seq![0x5cu8, 0x62u8]
    } else if b == 0x09 {  // tab
        seq![0x5cu8, 0x74u8]
    } else if b == 0x0a {  // line feed
        seq![0x5cu8, 0x6eu8]
    } else if b == 0x0c {  // form feed
        seq![0x5cu8, 0x66u8]
    } else if b == 0x0d {  // carriage return
        seq![0x5cu8, 0x72u8]
    } else if b < 0x20 {
        seq![0x5cu8, 0x75u8, 0x30u8, 0x30u8, hex_digit_byte(b / 16), hex_digit_byte(b % 16)]
    } else {
        seq![b]
    }
}

/// The escaped form of the bytes of a string, from index `from` on.
pub open spec fn escape_bytes_from(bs: Seq<u8>, from: int) -> Seq<u8>
    decreases bs.len() - from,
{
    if from < 0 || from >= bs.len() {
        Seq::empty()
    } else {
        escape_byte(bs[from]) + escape_bytes_from(bs, from + 1)
    }
}

/// A JSON string literal: the escaped UTF-8 bytes of the characters,
/// between double quotes.
pub open spec fn text_bytes(s: Seq<char>) -> Seq<u8> {
    seq![0x22u8] + escape_bytes_from(vstd::utf8::encode_utf8(s), 0) + seq![0x22u8]
}

/// The compact JSON rendering of a value, as UTF-8 bytes: no added
/// whitespace, object entries in their stored order.
pub open spec fn json_bytes(v: JsonModel) -> Seq<u8>
    decreases v, 0int,
{
    match v {
        JsonModel::Null => seq![0x6eu8, 0x75u8, 0x6cu8, 0x6cu8],  // null
        JsonModel::Bool(b) => if b {
            seq![0x74u8, 0x72u8, 0x75u8, 0x65u8]  // true
        } else {
            seq![0x66u8, 0x61u8, 0x6cu8, 0x73u8, 0x65u8]  // false
        },
        JsonModel::Int(i) => int_bytes(i),
        JsonModel::Text(s) => text_bytes(s),
        JsonModel::List(items) => seq![0x5bu8] + list_bytes(items, 0) + seq![0x5du8],
        JsonModel::Object(entries) => seq![0x7bu8] + object_bytes(entries, 0) + seq![0x7du8],
    }
}

/// The comma-separated renderings of the elements of a list, from index
/// `from` on.
pub open spec fn list_bytes(items: Seq<JsonModel>, from: int) -> Seq<u8>
    decreases items, items.len() - from,
{
    if from < 0 || from >= items.len() {
        Seq::empty()
    } else {
        (if from > 0 {
            seq![0x2cu8]
        } else {
            Seq::empty()
        }) + json_bytes(items[from]) + list_bytes(items, from + 1)
    }
}

/// The comma-separated renderings of the entries of an object, from index
/// `from` on: each a quoted key, a colon, and the value.
pub open spec fn object_bytes(entries: Seq<(Seq<char>, JsonModel)>, from: int) -> Seq<u8>
    decreases entries, entries.len() - from,
{
    if from < 0 || from >= entries.len() {
        Seq::empty()
    } else {
        (if from > 0 {
            seq![0x2cu8]
        } else {
            Seq::empty()
        }) + text_bytes(entries[from].0) + seq![0x3au8] + json_bytes(entries[from].1)
            + object_bytes(entries, from + 1)
    }
}

/// Appends the decimal digits of `n`.
#[verifier::loop_isolation(false)]
fn push_dec(out: &mut Vec<u8>, n: u64)
    ensures
        final(out)@ == old(out)@ + dec_digits(n as nat),
    decreases n,
{
    if n < 10 {
        out.push(0x30 + n as u8);
        assert(out@ =~= old(out)@ + dec_digits(n as nat));
    } else {
        push_dec(out, n / 10);
        out.push(0x30 + (n % 10) as u8);
        assert(out@ =~= old(out)@ + dec_digits(n as nat));
    }
}

/// Appends the decimal rendering of `i`, sign included.
#[verifier::loop_isolation(false)]
fn push_int(out: &mut Vec<u8>, i: i64)
    ensures
        final(out)@ == old(out)@ + int_bytes(i as int),
{
    if i >= 0 {
        push_dec(out, i as u64);
    } else {
        out.push(0x2d);
        let wide: i128 = -(i as i128);
        assert(0 < wide <= u64::MAX);
        let mag: u64 = wide as u64;
        push_dec(out, mag);
        assert(out@ =~= old(out)@ + int_bytes(i as int));
    }
}

/// Appends a JSON string literal for `s`: quotes around the escaped bytes.
#[verifier::loop_isolation(false)]
fn push_text(out: &mut Vec<u8>, s: &str)
    ensures
        final(out)@ == old(out)@ + text_bytes(s@),
{
    let bs = s.as_bytes();
    let ghost esc = escape_bytes_from(bs@, 0);
    out.push(0x22);
    assert(out@ + escape_bytes_from(bs@, 0) =~= old(out)@ + seq![0x22u8] + esc);
    let mut i: usize = 0;
    while i < bs.len()
        invariant
            0 <= i <= bs.len(),
            out@ + escape_bytes_from(bs@, i as int) == old(out)@ + seq![0x22u8] + esc,
        decreases bs.len() - i,
    {
        let ghost prev = out@;
        let b = bs[i];
        if b == 0x22 {
            out.push(0x5c);
            out.push(0x22);
        } else if b == 0x5c {
            out.push(0x5c);
            out.push(0x5c);
        } else if b == 0x08 {
            out.push(0x5c);
            out.push(0x62);
        } else if b == 0x09 {
            out.push(0x5c);
            out.push(0x74);
        } else if b == 0x0a {
            out.push(0x5c);
            out.push(0x6e);
        } else if b == 0x0c {
            out.push(0x5c);
            out.push(0x66);
        } else if b == 0x0d {
            out.push(0x5c);
            out.push(0x72);
        } else if b < 0x20 {
            out.push(0x5c);
            out.push(0x75);
            out.push(0x30);
            out.push(0x30);
            let hi = b / 16;
            let lo = b % 16;
            out.push(if hi < 10 { 0x30 + hi } else { 0x57 + hi });
            out.push(if lo < 10 { 0x30 + lo } else { 0x57 + lo });
        } else {
            out.push(b);
        }
        assert(out@ =~= prev + escape_byte(bs@[i as int]));
        assert(out@ + escape_bytes_from(bs@, i as int + 1) =~= prev + escape_bytes_from(
            bs@,
            i as int,
        ));
        i = i + 1;
    }
    out.push(0x22);
    assert(out@ =~= old(out)@ + text_bytes(s@));
}

/// Appends the compact JSON rendering of `v`.
#[verifier::loop_isolation(false)]
pub fn write_json(v: &JsonValue, out: &mut Vec<u8>)
    ensures
        final(out)@ == old(out)@ + json_bytes(v.deep_view()),
    decreases v,
{
    match v {
        JsonValue::Null => {
            out.push(0x6e);
            out.push(0x75);
            out.push(0x6c);
            out.push(0x6c);
            assert(out@ =~= old(out)@ + json_bytes(v.deep_view()));
        },
        JsonValue::Bool(b) => {
            if *b {
                out.push(0x74);
                out.push(0x72);
                out.push(0x75);
                out.push(0x65);
            } else {
                out.push(0x66);
                out.push(0x61);
                out.push(0x6c);
                out.push(0x73);
                out.push(0x65);
            }
            assert(out@ =~= old(out)@ + json_bytes(v.deep_view()));
        },
        JsonValue::Int(n) => {
            push_int(out, *n);
        },
        JsonValue::Text(s) => {
            push_text(out, s.as_str());
        },
        JsonValue::List(items) => {
            let ghost m = list_model(items@);
            out.push(0x5b);
            assert(out@ + list_bytes(m, 0) =~= old(out)@ + seq![0x5bu8] + list_bytes(m, 0));
            let mut i: usize = 0;
            while i < items.len()
                invariant
                    0 <= i <= items.len(),
                    out@ + list_bytes(m, i as int) == old(out)@ + seq![0x5bu8] + list_bytes(m, 0),
                decreases items.len() - i,
            {
                let ghost prev = out@;
                if i > 0 {
                    out.push(0x2c);
                }
                write_json(&items[i], out);
                assert(m[i as int] == items@[i as int].deep_view());
                assert(out@ + list_bytes(m, i as int + 1) =~= prev + list_bytes(m, i as int));
                i = i + 1;
            }
            out.push(0x5d);
            assert(out@ =~= old(out)@ + json_bytes(v.deep_view()));
        },
        JsonValue::Object(entries) => {
            let ghost m = entries_model(entries@);
            out.push(0x7b);
            assert(out@ + object_bytes(m, 0) =~= old(out)@ + seq![0x7bu8] + object_bytes(m, 0));
            let mut i: usize = 0;
            while i < entries.len()
                invariant
                    0 <= i <= entries.len(),
                    out@ + object_bytes(m, i as int) == old(out)@ + seq![0x7bu8] + object_bytes(
                        m,
                        0,
                    ),
                decreases entries.len() - i,
            {
                let ghost prev = out@;
                if i > 0 {
                    out.push(0x2c);
                }
                let e = &entries[i];
                push_text(out, e.0.as_str());
                out.push(0x3a);
                write_json(&e.1, out);
                assert(m[i as int] == (entries@[i as int].0@, entries@[i as int].1.deep_view()));
                assert(out@ + object_bytes(m, i as int + 1) =~= prev + object_bytes(m, i as int));
                i = i + 1;
            }
            out.push(0x7d);
            assert(out@ =~= old(out)@ + json_bytes(v.deep_view()));
        },
    }
}

/// The compact JSON rendering of `v`, as UTF-8 bytes.
pub fn to_json_bytes(v: &JsonValue) -> (r: Vec<u8>)
    ensures
        r@ == json_bytes(v.deep_view()),
{
    let mut out: Vec<u8> = Vec::new();
    write_json(v, &mut out);
    out
}

/// The object entries contributed by an optional field: one entry when
/// the field is present, none when it is absent. Absent fields are
/// omitted from the body, not rendered as null.
pub open spec fn opt_entry(key: Seq<char>, m: Option<JsonModel>) -> Seq<(Seq<char>, JsonModel)> {
    match m {
        Some(x) => seq![(key, x)],
        None => Seq::empty(),
    }
}

/// The model of an optional text field.
pub open spec fn opt_text_model(o: Option<String>) -> Option<JsonModel> {
    match o {
        Some(s) => Some(JsonModel::Text(s@)),
        None => None,
    }
}

/// The model of an optional 32-bit integer field.
pub open spec fn opt_i32_model(o: Option<i32>) -> Option<JsonModel> {
    match o {
        Some(n) => Some(JsonModel::Int(n as int)),
        None => None,
    }
}

/// The model of an optional boolean field.
pub open spec fn opt_bool_model(o: Option<bool>) -> Option<JsonModel> {
    match o {
        Some(b) => Some(JsonModel::Bool(b)),
        None => None,
    }
}

/// Appends one object entry.
pub fn push_entry(entries: &mut Vec<(String, JsonValue)>, key: &str, value: JsonValue)
    ensures
        entries_model(final(entries)@) == entries_model(old(entries)@) + seq![
            (key@, value.deep_view()),
        ],
{
    let ghost before = entries_model(entries@);
    let ghost vm = value.deep_view();
    entries.push((key.to_owned(), value));
    assert(entries_model(entries@) =~~= before + seq![(key@, vm)]);
}

/// Appends the entry of an optional text field, when present.
pub fn push_opt_text(entries: &mut Vec<(String, JsonValue)>, key: &str, o: &Option<String>)
    ensures
        entries_model(final(entries)@) == entries_model(old(entries)@) + opt_entry(
            key@,
            opt_text_model(*o),
        ),
{
    let ghost before = entries_model(entries@);
    match o {
        Some(s) => {
            push_entry(entries, key, JsonValue::Text(s.clone()));
        },
        None => {
            assert(entries_model(entries@) =~~= before + opt_entry(key@, opt_text_model(*o)));
        },
    }
}

/// Appends the entry of an optional 32-bit integer field, when present.
pub fn push_opt_i32(entries: &mut Vec<(String, JsonValue)>, key: &str, o: &Option<i32>)
    ensures
        entries_model(final(entries)@) == entries_model(old(entries)@) + opt_entry(
            key@,
            opt_i32_model(*o),
        ),
{
    let ghost before = entries_model(entries@);
    match o {
        Some(n) => {
            push_entry(entries, key, JsonValue::Int(*n as i64));
        },
        None => {
            assert(entries_model(entries@) =~~= before + opt_entry(key@, opt_i32_model(*o)));
        },
    }
}

/// Appends the entry of an optional boolean field, when present.
pub fn push_opt_bool(entries: &mut Vec<(String, JsonValue)>, key: &str, o: &Option<bool>)
    ensures
        entries_model(final(entries)@) == entries_model(old(entries)@) + opt_entry(
            key@,
            opt_bool_model(*o),
        ),
{
    let ghost before = entries_model(entries@);
    match o {
        Some(b) => {
            push_entry(entries, key, JsonValue::Bool(*b));
        },
        None => {
            assert(entries_model(entries@) =~~= before + opt_entry(key@, opt_bool_model(*o)));
        },
    }
}

/// Duplicates a value; the copy has the same model.
#[verifier::loop_isolation(false)]
pub fn clone_json(v: &JsonValue) -> (r: JsonValue)
    ensures
        r.deep_view() == v.deep_view(),
    decreases v,
{
    match v {
        JsonValue::Null => JsonValue::Null,
        JsonValue::Bool(b) => JsonValue::Bool(*b),
        JsonValue::Int(n) => JsonValue::Int(*n),
        JsonValue::Text(s) => JsonValue::Text(s.clone()),
        JsonValue::List(items) => {
            let mut copied: Vec<JsonValue> = Vec::new();
            let mut i: usize = 0;
            while i < items.len()
                invariant
                    0 <= i <= items.len(),
                    copied@.len() == i,
                    forall|j: int|
                        0 <= j < i ==> copied@[j].deep_view() == #[trigger] items@[j].deep_view(),
                decreases items.len() - i,
            {
                copied.push(clone_json(&items[i]));
                i = i + 1;
            }
            let r = JsonValue::List(copied);
            assert forall|j: int| 0 <= j < items@.len() implies list_model(copied@)[j]
                == list_model(items@)[j] by {
                assert(copied@[j].deep_view() == items@[j].deep_view());
            }
            assert(list_model(copied@) =~= list_model(items@));
            r
        },
        JsonValue::Object(entries) => {
            let mut copied: Vec<(String, JsonValue)> = Vec::new();
            let mut i: usize = 0;
            while i < entries.len()
                invariant
                    0 <= i <= entries.len(),
                    copied@.len() == i,
                    forall|j: int|
                        0 <= j < i ==> copied@[j].0@ == #[trigger] entries@[j].0@ && copied@[j].1.deep_view()
                            == entries@[j].1.deep_view(),
                decreases entries.len() - i,
            {
                let e = &entries[i];
                copied.push((e.0.clone(), clone_json(&e.1)));
                i = i + 1;
            }
            let r = JsonValue::Object(copied);
            assert forall|j: int| 0 <= j < entries@.len() implies entries_model(copied@)[j]
                == entries_model(entries@)[j] by {
                assert(copied@[j].0@ == entries@[j].0@);
                assert(copied@[j].1.deep_view() == entries@[j].1.deep_view());
            }
            assert(entries_model(copied@) =~= entries_model(entries@));
            r
        },
    }
}

impl JsonValue {
    /// Looks a key up among the entries of an object, returning the first
    /// entry with that key. Returns `None` on every other variant.
    pub fn get<'a>(&'a self, key: &str) -> (r: Option<&'a JsonValue>)
        ensures
            match self.deep_view() {
                JsonModel::Object(entries) => match r {
                    Some(v) => object_lookup(entries, key@) == Some(v.deep_view()),
                    None => object_lookup(entries, key@) is None,
                },
                _ => r is None,
            },
    {
        match self {
            JsonValue::Object(entries) => {
                let key_owned = key.to_owned();
                let ghost m = entries_model(entries@);
                let mut i: usize = 0;
                assert(m.skip(0) =~= m);
                assert(self.deep_view() == JsonModel::Object(m));
                while i < entries.len()
                    invariant
                        0 <= i <= entries.len(),
                        key_owned@ == key@,
                        m == entries_model(entries@),
                        self.deep_view() == JsonModel::Object(m),
                        object_lookup(m, key@) == object_lookup(m.skip(i as int), key@),
                    decreases entries.len() - i,
                {
                    assert(m.skip(i as int)[0] == m[i as int]);
                    let e = &entries[i];
                    if e.0 == key_owned {
                        return Some(&e.1);
                    }
                    assert(m.skip(i as int).skip(1) =~= m.skip(i as int + 1));
                    i = i + 1;
                }
                assert(m.skip(i as int).len() == 0);
                None
            },
            _ => None,
        }
    }
}

} // verus!

use vstd::prelude::*;

use crate::error::{Error, ResponseParameters, TelegramError};
use crate::json::{object_lookup, JsonModel, JsonValue};
use vstd::string::StrSliceExecFns;

verus! {

/// The value bound to `key` when `v` is an object, if any.
pub open spec fn lookup_model(v: JsonModel, key: Seq<char>) -> Option<JsonModel> {
    match v {
        JsonModel::Object(entries) => object_lookup(entries, key),
        _ => None,
    }
}

/// An optional text field is well-shaped when it is absent, null, or a
/// string.
pub open spec fn opt_text_ok(v: JsonModel, key: Seq<char>) -> bool {
    match lookup_model(v, key) {
        None => true,
        Some(JsonModel::Null) => true,
        Some(JsonModel::Text(_)) => true,
        _ => false,
    }
}

/// The characters of an optional text field, when present.
pub open spec fn opt_text_val(v: JsonModel, key: Seq<char>) -> Option<Seq<char>> {
    match lookup_model(v, key) {
        Some(JsonModel::Text(s)) => Some(s),
        _ => None,
    }
}

/// An optional 32-bit integer field is well-shaped when it is absent,
/// null, or an integer in range.
pub open spec fn opt_i32_ok(v: JsonModel, key: Seq<char>) -> bool {
    match lookup_model(v, key) {
        None => true,
        Some(JsonModel::Null) => true,
        Some(JsonModel::Int(i)) => i32::MIN <= i <= i32::MAX,
        _ => false,
    }
}

/// The value of an optional 32-bit integer field, when present.
pub open spec fn opt_i32_val(v: JsonModel, key: Seq<char>) -> Option<i32> {
    match lookup_model(v, key) {
        Some(JsonModel::Int(i)) => Some(i as i32),
        _ => None,
    }
}

/// An optional 64-bit integer field is well-shaped when it is absent,
/// null, or an integer in range.
pub open spec fn opt_i64_ok(v: JsonModel, key: Seq<char>) -> bool {
    match lookup_model(v, key) {
        None => true,
        Some(JsonModel::Null) => true,
        Some(JsonModel::Int(i)) => i64::MIN <= i <= i64::MAX,
        _ => false,
    }
}

/// The value of an optional 64-bit integer field, when present.
pub open spec fn opt_i64_val(v: JsonModel, key: Seq<char>) -> Option<i64> {
    match lookup_model(v, key) {
        Some(JsonModel::Int(i)) => Some(i as i64),
        _ => None,
    }
}

/// A required boolean field must be present as a boolean.
pub open spec fn req_bool_ok(v: JsonModel, key: Seq<char>) -> bool {
    lookup_model(v, key) matches Some(JsonModel::Bool(_))
}

/// The value of a required boolean field.
pub open spec fn req_bool_val(v: JsonModel, key: Seq<char>) -> bool {
    lookup_model(v, key) matches Some(JsonModel::Bool(b)) && b
}

/// A required 64-bit integer field must be present as an integer in range.
pub open spec fn req_i64_ok(v: JsonModel, key: Seq<char>) -> bool {
    lookup_model(v, key) matches Some(JsonModel::Int(i)) && i64::MIN <= i <= i64::MAX
}

/// The value of a required 64-bit integer field.
pub open spec fn req_i64_val(v: JsonModel, key: Seq<char>) -> int {
    match lookup_model(v, key) {
        Some(JsonModel::Int(i)) => i,
        _ => 0,
    }
}

/// A required text field must be present as a string.
pub open spec fn req_text_ok(v: JsonModel, key: Seq<char>) -> bool {
    lookup_model(v, key) matches Some(JsonModel::Text(_))
}

/// The characters of a required text field.
pub open spec fn req_text_val(v: JsonModel, key: Seq<char>) -> Seq<char> {
    match lookup_model(v, key) {
        Some(JsonModel::Text(s)) => s,
        _ => Seq::empty(),
    }
}

/// An executable optional string agrees with a modelled one.
pub open spec fn text_opt_matches(o: Option<String>, m: Option<Seq<char>>) -> bool {
    match (o, m) {
        (Option::None, Option::None) => true,
        (Option::Some(s), Option::Some(t)) => s@ == t,
        _ => false,
    }
}

/// Reads an optional text field: absent and null both count as absent.
fn get_opt_text(v: &JsonValue, key: &str) -> (r: Result<Option<String>, ()>)
    ensures
        r is Ok <==> opt_text_ok(v.deep_view(), key@),
        r matches Ok(o) ==> text_opt_matches(o, opt_text_val(v.deep_view(), key@)),
{
    match v.get(key) {
        None => Ok(None),
        Some(JsonValue::Null) => Ok(None),
        Some(JsonValue::Text(s)) => Ok(Some(s.clone())),
        Some(_) => Err(()),
    }
}

/// Reads an optional 32-bit integer field: absent and null both count as
/// absent; an out-of-range integer is a shape error.
fn get_opt_i32(v: &JsonValue, key: &str) -> (r: Result<Option<i32>, ()>)
    ensures
        r is Ok <==> opt_i32_ok(v.deep_view(), key@),
        r matches Ok(o) ==> o == opt_i32_val(v.deep_view(), key@),
{
    match v.get(key) {
        None => Ok(None),
        Some(JsonValue::Null) => Ok(None),
        Some(JsonValue::Int(n)) => {
            if *n >= i32::MIN as i64 && *n <= i32::MAX as i64 {
                Ok(Some(*n as i32))
            } else {
                Err(())
            }
        },
        Some(_) => Err(()),
    }
}

/// Reads an optional 64-bit integer field: absent and null both count as
/// absent.
fn get_opt_i64(v: &JsonValue, key: &str) -> (r: Result<Option<i64>, ()>)
    ensures
        r is Ok <==> opt_i64_ok(v.deep_view(), key@),
        r matches Ok(o) ==> o == opt_i64_val(v.deep_view(), key@),
{
    match v.get(key) {
        None => Ok(None),
        Some(JsonValue::Null) => Ok(None),
        Some(JsonValue::Int(n)) => Ok(Some(*n)),
        Some(_) => Err(()),
    }
}

/// Reads a required boolean field.
fn get_req_bool(v: &JsonValue, key: &str) -> (r: Result<bool, ()>)
    ensures
        r is Ok <==> req_bool_ok(v.deep_view(), key@),
        r matches Ok(b) ==> b == req_bool_val(v.deep_view(), key@),
{
    match v.get(key) {
        Some(JsonValue::Bool(b)) => Ok(*b),
        _ => Err(()),
    }
}

/// Reads a required 64-bit integer field.
fn get_req_i64(v: &JsonValue, key: &str) -> (r: Result<i64, ()>)
    ensures
        r is Ok <==> req_i64_ok(v.deep_view(), key@),
        r matches Ok(n) ==> n as int == req_i64_val(v.deep_view(), key@),
{
    match v.get(key) {
        Some(JsonValue::Int(n)) => Ok(*n),
        _ => Err(()),
    }
}

/// Reads a required text field.
fn get_req_text(v: &JsonValue, key: &str) -> (r: Result<String, ()>)
    ensures
        r is Ok <==> req_text_ok(v.deep_view(), key@),
        r matches Ok(s) ==> s@ == req_text_val(v.deep_view(), key@),
{
    match v.get(key) {
        Some(JsonValue::Text(s)) => Ok(s.clone()),
        _ => Err(()),
    }
}

/// An optional size field is well-shaped when it is absent, null, or a
/// non-negative integer that fits the machine's size type.
pub open spec fn opt_usize_ok(v: JsonModel, key: Seq<char>) -> bool {
    match lookup_model(v, key) {
        None => true,
        Some(JsonModel::Null) => true,
        Some(JsonModel::Int(i)) => 0 <= i <= usize::MAX,
        _ => false,
    }
}

/// The value of an optional size field, when present.
pub open spec fn opt_usize_val(v: JsonModel, key: Seq<char>) -> Option<usize> {
    match lookup_model(v, key) {
        Some(JsonModel::Int(i)) => Some(i as usize),
        _ => None,
    }
}

/// Reads an optional size field: absent and null both count as absent.
fn get_opt_usize(v: &JsonValue, key: &str) -> (r: Result<Option<usize>, ()>)
    ensures
        r is Ok <==> opt_usize_ok(v.deep_view(), key@),
        r matches Ok(o) ==> o == opt_usize_val(v.deep_view(), key@),
{
    match v.get(key) {
        None => Ok(None),
        Some(JsonValue::Null) => Ok(None),
        Some(JsonValue::Int(n)) => {
            if *n >= 0 && *n as u64 <= usize::MAX as u64 {
                Ok(Some(*n as usize))
            } else {
                Err(())
            }
        },
        Some(_) => Err(()),
    }
}

/// The rendering of a field that is written even when absent: null then.
pub open spec fn nullable_text(o: Option<String>) -> JsonModel {
    match o {
        Some(s) => JsonModel::Text(s@),
        None => JsonModel::Null,
    }
}

/// Renders an optional string as its text, or as null when absent.
pub fn nullable_text_value(o: &Option<String>) -> (v: JsonValue)
    ensures
        v.deep_view() == nullable_text(*o),
{
    match o {
        Some(s) => JsonValue::Text(s.clone()),
        None => JsonValue::Null,
    }
}

/// The response envelope the remote service wraps every reply in: a
/// success flag, error metadata (flattened beside it on the wire), and an
/// optional result.
#[derive(Debug, Clone, PartialEq)]
pub struct Response<T> {
    /// If the request was successful. If true, the result is available.
    /// If false, the error metadata says what happened.
    pub ok: bool,
    /// The error metadata; empty when the envelope supplied none.
    pub error: TelegramError,
    /// The response data.
    pub result: Option<T>,
}

/// The retry-hint object of an envelope is well-shaped when it is absent,
/// null, or an object whose known fields have their declared types.
pub open spec fn params_shape_ok(v: JsonModel) -> bool {
    match lookup_model(v, "parameters"@) {
        None => true,
        Some(JsonModel::Null) => true,
        Some(JsonModel::Object(es)) => opt_i64_ok(JsonModel::Object(es), "migrate_to_chat_id"@)
            && opt_i32_ok(JsonModel::Object(es), "retry_after"@),
        _ => false,
    }
}

/// The parsed retry hint agrees with the envelope.
pub open spec fn params_match(v: JsonModel, p: Option<ResponseParameters>) -> bool {
    match lookup_model(v, "parameters"@) {
        Some(JsonModel::Object(es)) => p matches Some(q) && q.migrate_to_chat_id == opt_i64_val(
            JsonModel::Object(es),
            "migrate_to_chat_id"@,
        ) && q.retry_after == opt_i32_val(JsonModel::Object(es), "retry_after"@),
        _ => p is None,
    }
}

/// An envelope is well-shaped when it is an object with a boolean `ok`
/// flag whose optional error metadata has its declared types. The result
/// may have any shape; absent error fields default to empty rather than
/// failing the decode.
pub open spec fn envelope_shape_ok(v: JsonModel) -> bool {
    &&& v matches JsonModel::Object(_)
    &&& req_bool_ok(v, "ok"@)
    &&& opt_i32_ok(v, "error_code"@)
    &&& opt_text_ok(v, "description"@)
    &&& params_shape_ok(v)
}

/// The parsed error metadata agrees with the envelope.
pub open spec fn error_matches(v: JsonModel, e: TelegramError) -> bool {
    &&& e.error_code == opt_i32_val(v, "error_code"@)
    &&& text_opt_matches(e.description, opt_text_val(v, "description"@))
    &&& params_match(v, e.parameters)
}

/// The raw result value of an envelope: present unless absent or null.
pub open spec fn result_model(v: JsonModel) -> Option<JsonModel> {
    match lookup_model(v, "result"@) {
        None => None,
        Some(JsonModel::Null) => None,
        Some(m) => Some(m),
    }
}

/// An executable optional value agrees with a modelled one.
pub open spec fn json_opt_matches(o: Option<JsonValue>, m: Option<JsonModel>) -> bool {
    match (o, m) {
        (Option::None, Option::None) => true,
        (Option::Some(x), Option::Some(mm)) => x.deep_view() == mm,
        _ => false,
    }
}

/// Parses a decoded response body as the shared envelope shape. Fails
/// with a decoding error exactly when the body does not match that shape;
/// error metadata that is simply absent defaults to empty instead.
pub fn parse_envelope(v: &JsonValue) -> (r: Result<Response<JsonValue>, Error>)
    ensures
        r is Ok <==> envelope_shape_ok(v.deep_view()),
        r matches Ok(env) ==> ({
            &&& env.ok == req_bool_val(v.deep_view(), "ok"@)
            &&& error_matches(v.deep_view(), env.error)
            &&& json_opt_matches(env.result, result_model(v.deep_view()))
        }),
        r matches Err(e) ==> e matches Error::Decoding(_),
{
    let ok = match get_req_bool(v, "ok") {
        Ok(b) => b,
        Err(_) => {
            return Err(Error::Decoding("envelope has no boolean ok flag".to_owned()));
        },
    };
    let error_code = match get_opt_i32(v, "error_code") {
        Ok(c) => c,
        Err(_) => {
            return Err(Error::Decoding("envelope error code is not an integer".to_owned()));
        },
    };
    let description = match get_opt_text(v, "description") {
        Ok(d) => d,
        Err(_) => {
            return Err(Error::Decoding("envelope description is not a string".to_owned()));
        },
    };
    let parameters = match v.get("parameters") {
        None => None,
        Some(JsonValue::Null) => None,
        Some(p @ JsonValue::Object(_)) => {
            let migrate_to_chat_id = match get_opt_i64(p, "migrate_to_chat_id") {
                Ok(m) => m,
                Err(_) => {
                    return Err(
                        Error::Decoding("envelope migration hint is not an integer".to_owned()),
                    );
                },
            };
            let retry_after = match get_opt_i32(p, "retry_after") {
                Ok(ra) => ra,
                Err(_) => {
                    return Err(Error::Decoding("envelope retry hint is not an integer".to_owned()));
                },
            };
            Some(ResponseParameters { migrate_to_chat_id, retry_after })
        },
        Some(_) => {
            return Err(Error::Decoding("envelope parameters are not an object".to_owned()));
        },
    };
    let result = match v.get("result") {
        None => None,
        Some(JsonValue::Null) => None,
        Some(m) => Some(crate::json::clone_json(m)),
    };
    Ok(Response { ok, error: TelegramError { error_code, description, parameters }, result })
}

impl<T> Response<T> {
    /// Collapses the envelope to one outcome: the result when the success
    /// flag is set and a result is present, and otherwise the envelope's
    /// error metadata, empty when none was supplied.
    pub fn into_result(self) -> (r: Result<T, Error>)
        ensures
            self.ok && self.result is Some ==> (r matches Ok(x) && x == self.result.unwrap()),
            !(self.ok && self.result is Some) ==> r == Result::<T, Error>::Err(
                Error::Telegram(self.error),
            ),
    {
        match self.result {
            Some(result) if self.ok => Ok(result),
            _ => Err(Error::Telegram(self.error)),
        }
    }
}

/// A response type that can be decoded from the structured result value
/// of an envelope.
pub trait FromJson: Sized {
    /// Whether `v` has the shape this type decodes from.
    spec fn spec_decodable(v: JsonModel) -> bool;

    /// Whether `x` is the decoding of `v`.
    spec fn spec_decodes(v: JsonModel, x: Self) -> bool;

    /// Decodes a structured value, returning nothing exactly when the
    /// value does not match this type's shape.
    fn from_json(v: &JsonValue) -> (r: Option<Self>)
        ensures
            r is Some <==> Self::spec_decodable(v.deep_view()),
            r matches Some(x) ==> Self::spec_decodes(v.deep_view(), x),
    ;
}

impl FromJson for bool {
    open spec fn spec_decodable(v: JsonModel) -> bool {
        v matches JsonModel::Bool(_)
    }

    open spec fn spec_decodes(v: JsonModel, x: Self) -> bool {
        v == JsonModel::Bool(x)
    }

    fn from_json(v: &JsonValue) -> (r: Option<Self>) {
        match v {
            JsonValue::Bool(b) => Some(*b),
            _ => None,
        }
    }
}

/// Decodes a response body into the declared result type of a request:
/// parses the envelope, collapses it to an outcome, and decodes the
/// result value on success. The envelope handling does not depend on the
/// result type; only the final decoding step does.
pub fn decode_response<T: FromJson>(v: &JsonValue) -> (r: Result<T, Error>)
    ensures
        !envelope_shape_ok(v.deep_view()) ==> (r matches Err(e) && e matches Error::Decoding(_)),
        envelope_shape_ok(v.deep_view()) && !(req_bool_val(v.deep_view(), "ok"@) && result_model(
            v.deep_view(),
        ) is Some) ==> (r matches Err(e) && e matches Error::Telegram(te) && error_matches(
            v.deep_view(),
            te,
        )),
        (envelope_shape_ok(v.deep_view()) && req_bool_val(v.deep_view(), "ok"@)) ==> match result_model(
            v.deep_view(),
        ) {
            Option::Some(m) => match r {
                Ok(x) => T::spec_decodable(m) && T::spec_decodes(m, x),
                Err(e) => !T::spec_decodable(m) && e matches Error::Decoding(_),
            },
            Option::None => true,
        },
{
    let env = match parse_envelope(v) {
        Ok(env) => env,
        Err(e) => {
            return Err(e);
        },
    };
    match env.into_result() {
        Ok(raw) => match T::from_json(&raw) {
            Some(x) => Ok(x),
            None => Err(Error::Decoding("result does not match the expected shape".to_owned())),
        },
        Err(e) => Err(e),
    }
}

/// Law: a reply whose envelope sets the success flag and carries a
/// result collapses to success with exactly that result, whatever else
/// the envelope holds of error metadata; the rule does not depend on the
/// endpoint the request targeted.
pub proof fn lemma_envelope_success(result: JsonModel)
    requires
        !(result matches JsonModel::Null),
    ensures
        ({
            let v = JsonModel::Object(
                seq![("ok"@, JsonModel::Bool(true))] + seq![("result"@, result)],
            );
            &&& envelope_shape_ok(v)
            &&& req_bool_val(v, "ok"@)
            &&& result_model(v) == Some(result)
        }),
{
    reveal_with_fuel(object_lookup, 3);
    reveal_strlit("ok");
    reveal_strlit("result");
    reveal_strlit("error_code");
    reveal_strlit("description");
    reveal_strlit("parameters");
    assert("ok"@.len() == 2);
    assert("result"@.len() == 6);
    assert("error_code"@.len() == 10);
    assert("description"@.len() == 11);
    assert("parameters"@.len() == 10);
    let v = JsonModel::Object(seq![("ok"@, JsonModel::Bool(true))] + seq![("result"@, result)]);
    let es = v->Object_0;
    assert(es.skip(1) =~= seq![es[1]]);
    assert(es.skip(2) =~= Seq::<(Seq<char>, JsonModel)>::empty());
    assert(object_lookup(es, "ok"@) == Some(es[0].1));
    assert(object_lookup(es, "result"@) == Some(es[1].1));
    assert(object_lookup(es, "error_code"@) is None);
    assert(object_lookup(es, "description"@) is None);
    assert(object_lookup(es, "parameters"@) is None);
}

/// Law: a reply whose envelope clears the success flag collapses to a
/// remote failure carrying exactly the error code and description the
/// envelope supplied, whatever the result field holds.
pub proof fn lemma_envelope_failure(code: i32, description: Seq<char>, e: TelegramError)
    ensures
        ({
            let v = JsonModel::Object(
                seq![("ok"@, JsonModel::Bool(false))] + seq![
                    ("error_code"@, JsonModel::Int(code as int)),
                ] + seq![("description"@, JsonModel::Text(description))],
            );
            &&& envelope_shape_ok(v)
            &&& !req_bool_val(v, "ok"@)
            &&& result_model(v) is None
            &&& error_matches(v, e) ==> e.error_code == Some(code) && (e.description matches Some(
                d,
            ) && d@ == description) && e.parameters is None
        }),
{
    reveal_with_fuel(object_lookup, 4);
    reveal_strlit("ok");
    reveal_strlit("result");
    reveal_strlit("error_code");
    reveal_strlit("description");
    reveal_strlit("parameters");
    assert("ok"@.len() == 2);
    assert("result"@.len() == 6);
    assert("error_code"@.len() == 10);
    assert("description"@.len() == 11);
    assert("parameters"@.len() == 10);
    let v = JsonModel::Object(
        seq![("ok"@, JsonModel::Bool(false))] + seq![("error_code"@, JsonModel::Int(code as int))]
            + seq![("description"@, JsonModel::Text(description))],
    );
    let es = v->Object_0;
    assert(es.skip(1) =~= seq![es[1], es[2]]);
    assert(es.skip(1).skip(1) =~= seq![es[2]]);
    assert(es.skip(1).skip(1).skip(1) =~= Seq::<(Seq<char>, JsonModel)>::empty());
    assert("error_code"@[0] != "parameters"@[0]);
    assert(object_lookup(es, "ok"@) == Some(es[0].1));
    assert(object_lookup(es, "error_code"@) == Some(es[1].1));
    assert(object_lookup(es, "description"@) == Some(es[2].1));
    assert(object_lookup(es, "result"@) is None);
    assert(object_lookup(es, "parameters"@) is None);
}

/// Law: a reply whose envelope sets the success flag but carries no
/// result does not count as success; it collapses to a failure with the
/// error metadata the envelope supplied, here none.
pub proof fn lemma_envelope_success_without_result()
    ensures
        ({
            let v = JsonModel::Object(seq![("ok"@, JsonModel::Bool(true))]);
            &&& envelope_shape_ok(v)
            &&& req_bool_val(v, "ok"@)
            &&& result_model(v) is None
            &&& forall|e: TelegramError|
                error_matches(v, e) ==> e.error_code is None && e.description is None
                    && e.parameters is None
        }),
{
    reveal_with_fuel(object_lookup, 2);
    reveal_strlit("ok");
    reveal_strlit("result");
    reveal_strlit("error_code");
    reveal_strlit("description");
    reveal_strlit("parameters");
    assert("ok"@.len() == 2);
    assert("result"@.len() == 6);
    assert("error_code"@.len() == 10);
    assert("description"@.len() == 11);
    assert("parameters"@.len() == 10);
    let v = JsonModel::Object(seq![("ok"@, JsonModel::Bool(true))]);
    let es = v->Object_0;
    assert(es.skip(1) =~= Seq::<(Seq<char>, JsonModel)>::empty());
    assert(object_lookup(es, "ok"@) == Some(es[0].1));
    assert(object_lookup(es, "result"@) is None);
    assert(object_lookup(es, "error_code"@) is None);
    assert(object_lookup(es, "description"@) is None);
    assert(object_lookup(es, "parameters"@) is None);
}

/// A user or bot account.
#[derive(Clone, Debug, Default, PartialEq)]
pub struct User {
    pub id: i64,
    pub is_bot: bool,
    pub first_name: String,
    pub last_name: Option<String>,
    pub username: Option<String>,
    pub language_code: Option<String>,
}

impl User {
    /// The structured rendering of a user: every field written, absent
    /// options as null.
    pub open spec fn json_model(&self) -> JsonModel {
        JsonModel::Object(
            seq![("id"@, JsonModel::Int(self.id as int))] + seq![
                ("is_bot"@, JsonModel::Bool(self.is_bot)),
            ] + seq![("first_name"@, JsonModel::Text(self.first_name@))] + seq![
                ("last_name"@, nullable_text(self.last_name)),
            ] + seq![("username"@, nullable_text(self.username))] + seq![
                ("language_code"@, nullable_text(self.language_code)),
            ],
        )
    }

    /// Renders the user for a structured body.
    pub fn to_json(&self) -> (v: JsonValue)
        ensures
            v.deep_view() == self.json_model(),
    {
        let mut entries: Vec<(String, JsonValue)> = Vec::new();
        crate::json::push_entry(&mut entries, "id", JsonValue::Int(self.id));
        crate::json::push_entry(&mut entries, "is_bot", JsonValue::Bool(self.is_bot));
        crate::json::push_entry(&mut entries, "first_name", JsonValue::Text(self.first_name.clone()));
        crate::json::push_entry(&mut entries, "last_name", nullable_text_value(&self.last_name));
        crate::json::push_entry(&mut entries, "username", nullable_text_value(&self.username));
        crate::json::push_entry(
            &mut entries,
            "language_code",
            nullable_text_value(&self.language_code),
        );
        let v = JsonValue::Object(entries);
        assert(v.deep_view() =~~= self.json_model());
        v
    }
}

impl FromJson for User {
    open spec fn spec_decodable(v: JsonModel) -> bool {
        &&& v matches JsonModel::Object(_)
        &&& req_i64_ok(v, "id"@)
        &&& req_bool_ok(v, "is_bot"@)
        &&& req_text_ok(v, "first_name"@)
        &&& opt_text_ok(v, "last_name"@)
        &&& opt_text_ok(v, "username"@)
        &&& opt_text_ok(v, "language_code"@)
    }

    open spec fn spec_decodes(v: JsonModel, x: Self) -> bool {
        &&& x.id as int == req_i64_val(v, "id"@)
        &&& x.is_bot == req_bool_val(v, "is_bot"@)
        &&& x.first_name@ == req_text_val(v, "first_name"@)
        &&& text_opt_matches(x.last_name, opt_text_val(v, "last_name"@))
        &&& text_opt_matches(x.username, opt_text_val(v, "username"@))
        &&& text_opt_matches(x.language_code, opt_text_val(v, "language_code"@))
    }

    fn from_json(v: &JsonValue) -> (r: Option<Self>) {
        if !(matches!(v, JsonValue::Object(_))) {
            return None;
        }
        let id = match get_req_i64(v, "id") {
            Ok(n) => n,
            Err(_) => {
                return None;
            },
        };
        let is_bot = match get_req_bool(v, "is_bot") {
            Ok(b) => b,
            Err(_) => {
                return None;
            },
        };
        let first_name = match get_req_text(v, "first_name") {
            Ok(s) => s,
            Err(_) => {
                return None;
            },
        };
        let last_name = match get_opt_text(v, "last_name") {
            Ok(o) => o,
            Err(_) => {
                return None;
            },
        };
        let username = match get_opt_text(v, "username") {
            Ok(o) => o,
            Err(_) => {
                return None;
            },
        };
        let language_code = match get_opt_text(v, "language_code") {
            Ok(o) => o,
            Err(_) => {
                return None;
            },
        };
        Some(User { id, is_bot, first_name, last_name, username, language_code })
    }
}

/// Two optional strings hold the same characters.
pub open spec fn opt_text_like(a: Option<String>, b: Option<String>) -> bool {
    match (a, b) {
        (Option::None, Option::None) => true,
        (Option::Some(s), Option::Some(t)) => s@ == t@,
        _ => false,
    }
}

/// Law: encoding a user to its structured value and decoding it back
/// reproduces the original field set; the rendering loses nothing.
pub proof fn lemma_user_round_trip(u: User)
    ensures
        User::spec_decodable(u.json_model()),
        forall|u2: User|
            User::spec_decodes(u.json_model(), u2) ==> u2.id == u.id && u2.is_bot == u.is_bot
                && u2.first_name@ == u.first_name@ && opt_text_like(u2.last_name, u.last_name)
                && opt_text_like(u2.username, u.username) && opt_text_like(
                u2.language_code,
                u.language_code,
            ),
{
    reveal_with_fuel(object_lookup, 7);
    reveal_strlit("id");
    reveal_strlit("is_bot");
    reveal_strlit("first_name");
    reveal_strlit("last_name");
    reveal_strlit("username");
    reveal_strlit("language_code");
    let es = u.json_model()->Object_0;
    let s1 = es.skip(1);
    let s2 = es.skip(2);
    let s3 = es.skip(3);
    let s4 = es.skip(4);
    let s5 = es.skip(5);
    assert(s1 =~= seq![es[1], es[2], es[3], es[4], es[5]]);
    assert(s1.skip(1) =~= s2);
    assert(s2 =~= seq![es[2], es[3], es[4], es[5]]);
    assert(s2.skip(1) =~= s3);
    assert(s3 =~= seq![es[3], es[4], es[5]]);
    assert(s3.skip(1) =~= s4);
    assert(s4 =~= seq![es[4], es[5]]);
    assert(s4.skip(1) =~= s5);
    assert(s5 =~= seq![es[5]]);
    assert("id"@.len() == 2);
    assert("is_bot"@.len() == 6);
    assert("first_name"@.len() == 10);
    assert("last_name"@.len() == 9);
    assert("username"@.len() == 8);
    assert("language_code"@.len() == 13);
    assert(object_lookup(es, "id"@) == Some(es[0].1));
    assert(object_lookup(es, "is_bot"@) == Some(es[1].1));
    assert(object_lookup(es, "first_name"@) == Some(es[2].1));
    assert(object_lookup(es, "last_name"@) == Some(es[3].1));
    assert(object_lookup(es, "username"@) == Some(es[4].1));
    assert(object_lookup(es, "language_code"@) == Some(es[5].1));
}

/// The kind of chat a message was sent in.
#[derive(Clone, Copy, Debug, PartialEq, Eq, Structural)]
pub enum ChatType {
    Private,
    Group,
    Supergroup,
    Channel,
}

impl Default for ChatType {
    fn default() -> (r: Self)
        ensures
            r == ChatType::Private,
    {
        ChatType::Private
    }
}

impl ChatType {
    /// True for the two kinds of group chat, ordinary and super.
    pub fn is_group(&self) -> (r: bool)
        ensures
            r == (*self == ChatType::Group || *self == ChatType::Supergroup),
    {
        *self == Self::Group || *self == Self::Supergroup
    }
}

/// What members of a chat are allowed to do.
#[derive(Clone, Debug, Default, PartialEq)]
pub struct ChatPermissions {
    pub can_send_messages: Option<bool>,
    pub can_send_media_messages: Option<bool>,
    pub can_send_polls: Option<bool>,
    pub can_send_other_messages: Option<bool>,
    pub can_add_web_page_previews: Option<bool>,
    pub can_change_info: Option<bool>,
    pub can_invite_users: Option<bool>,
    pub can_pin_messages: Option<bool>,
}

/// The type of an entity within a message's text or caption.
#[derive(Clone, Copy, Debug, PartialEq, Eq, Structural)]
pub enum MessageEntityType {
    Mention,
    Hashtag,
    Cashtag,
    BotCommand,
    Url,
    Email,
    PhoneNumber,
    Bold,
    Italic,
    Underline,
    Strikethrough,
    Spoiler,
    Code,
    Pre,
    TextLink,
    TextMention,
}

impl MessageEntityType {
    /// The name of the entity type on the wire.
    pub open spec fn wire_name(&self) -> Seq<char> {
        match self {
            MessageEntityType::Mention => "mention"@,
            MessageEntityType::Hashtag => "hashtag"@,
            MessageEntityType::Cashtag => "cashtag"@,
            MessageEntityType::BotCommand => "bot_command"@,
            MessageEntityType::Url => "url"@,
            MessageEntityType::Email => "email"@,
            MessageEntityType::PhoneNumber => "phone_number"@,
            MessageEntityType::Bold => "bold"@,
            MessageEntityType::Italic => "italic"@,
            MessageEntityType::Underline => "underline"@,
            MessageEntityType::Strikethrough => "strikethrough"@,
            MessageEntityType::Spoiler => "spoiler"@,
            MessageEntityType::Code => "code"@,
            MessageEntityType::Pre => "pre"@,
            MessageEntityType::TextLink => "text_link"@,
            MessageEntityType::TextMention => "text_mention"@,
        }
    }

    /// The name of the entity type on the wire.
    pub fn as_str(&self) -> (r: &str)
        ensures
            r@ == self.wire_name(),
    {
        match self {
            MessageEntityType::Mention => "mention",
            MessageEntityType::Hashtag => "hashtag",
            MessageEntityType::Cashtag => "cashtag",
            MessageEntityType::BotCommand => "bot_command",
            MessageEntityType::Url => "url",
            MessageEntityType::Email => "email",
            MessageEntityType::PhoneNumber => "phone_number",
            MessageEntityType::Bold => "bold",
            MessageEntityType::Italic => "italic",
            MessageEntityType::Underline => "underline",
            MessageEntityType::Strikethrough => "strikethrough",
            MessageEntityType::Spoiler => "spoiler",
            MessageEntityType::Code => "code",
            MessageEntityType::Pre => "pre",
            MessageEntityType::TextLink => "text_link",
            MessageEntityType::TextMention => "text_mention",
        }
    }
}

/// An entity within a message's text or caption.
#[derive(Clone, Debug, PartialEq)]
pub struct MessageEntity {
    pub entity_type: MessageEntityType,
    pub offset: i32,
    pub length: i32,
    pub url: Option<String>,
    pub user: Option<User>,
}

impl MessageEntity {
    /// The structured rendering of an entity: the type under its wire
    /// name, offsets, and the optional fields written as null when
    /// absent.
    pub open spec fn json_model(&self) -> JsonModel {
        JsonModel::Object(
            seq![("type"@, JsonModel::Text(self.entity_type.wire_name()))] + seq![
                ("offset"@, JsonModel::Int(self.offset as int)),
            ] + seq![("length"@, JsonModel::Int(self.length as int))] + seq![
                ("url"@, nullable_text(self.url)),
            ] + seq![
                (
                    "user"@,
                    match self.user {
                        Some(u) => u.json_model(),
                        None => JsonModel::Null,
                    },
                ),
            ],
        )
    }

    /// Renders the entity for a structured body.
    pub fn to_json(&self) -> (v: JsonValue)
        ensures
            v.deep_view() == self.json_model(),
    {
        let mut entries: Vec<(String, JsonValue)> = Vec::new();
        crate::json::push_entry(
            &mut entries,
            "type",
            JsonValue::Text(self.entity_type.as_str().to_owned()),
        );
        crate::json::push_entry(&mut entries, "offset", JsonValue::Int(self.offset as i64));
        crate::json::push_entry(&mut entries, "length", JsonValue::Int(self.length as i64));
        crate::json::push_entry(&mut entries, "url", nullable_text_value(&self.url));
        let user_value = match &self.user {
            Some(u) => u.to_json(),
            None => JsonValue::Null,
        };
        crate::json::push_entry(&mut entries, "user", user_value);
        let v = JsonValue::Object(entries);
        assert(v.deep_view() =~~= self.json_model());
        v
    }
}

/// Duplicates an optional string; the copy holds the same value.
pub fn clone_opt_string(o: &Option<String>) -> (r: Option<String>)
    ensures
        r == *o,
{
    match o {
        Some(s) => Some(s.clone()),
        None => None,
    }
}

/// Duplicates a user; the copy holds the same value.
pub fn clone_user(u: &User) -> (r: User)
    ensures
        r == *u,
{
    User {
        id: u.id,
        is_bot: u.is_bot,
        first_name: u.first_name.clone(),
        last_name: clone_opt_string(&u.last_name),
        username: clone_opt_string(&u.username),
        language_code: clone_opt_string(&u.language_code),
    }
}

/// Duplicates an entity; the copy holds the same value.
pub fn clone_message_entity(e: &MessageEntity) -> (r: MessageEntity)
    ensures
        r == *e,
{
    MessageEntity {
        entity_type: e.entity_type,
        offset: e.offset,
        length: e.length,
        url: clone_opt_string(&e.url),
        user: match &e.user {
            Some(u) => Some(clone_user(u)),
            None => None,
        },
    }
}

/// Command represents information obtained from a bot-command entity.
#[derive(Clone, Debug, PartialEq)]
pub struct Command {
    /// The name of the command, eg. `/start`.
    ///
    /// If the command was written in the `/command@username` form, the
    /// username is removed.
    pub name: String,
    /// The entity responsible for this command.
    pub entity: MessageEntity,
    /// The username of the bot, if the command was written in the
    /// `/command@username` form.
    pub username: Option<String>,
}

/// Whether an entity marks a command at the start of the text.
pub open spec fn is_command_entity(e: MessageEntity) -> bool {
    e.offset == 0 && e.entity_type == MessageEntityType::BotCommand
}

/// The index of the first command entity, from `from` on.
pub open spec fn find_command_entity(entities: Seq<MessageEntity>, from: int) -> Option<int>
    decreases entities.len() - from,
{
    if from < 0 || from >= entities.len() {
        None
    } else if is_command_entity(entities[from]) {
        Some(from)
    } else {
        find_command_entity(entities, from + 1)
    }
}

/// The characters of the command: the first `length` characters of the
/// text, all of it when the length is negative or too large.
pub open spec fn command_span(text: Seq<char>, length: int) -> Seq<char> {
    if length < 0 || length > text.len() {
        text
    } else {
        text.take(length)
    }
}

/// The index of the first `@` in `s`, from `from` on.
pub open spec fn first_at(s: Seq<char>, from: int) -> Option<int>
    decreases s.len() - from,
{
    if from < 0 || from >= s.len() {
        None
    } else if s[from] == '@' {
        Some(from)
    } else {
        first_at(s, from + 1)
    }
}

/// The command's name: everything before the first `@`, or the whole
/// command when there is none.
pub open spec fn command_name(cmd: Seq<char>) -> Seq<char> {
    match first_at(cmd, 0) {
        None => cmd,
        Some(i) => cmd.take(i),
    }
}

/// The username after the first `@`, up to the next `@` if any; nothing
/// when the command carries no `@`.
pub open spec fn command_username(cmd: Seq<char>) -> Option<Seq<char>> {
    match first_at(cmd, 0) {
        None => None,
        Some(i) => {
            let rest = cmd.skip(i + 1);
            match first_at(rest, 0) {
                None => Some(rest),
                Some(j) => Some(rest.take(j)),
            }
        },
    }
}

/// The index of the first `@` among the characters of `s`, if any.
#[verifier::loop_isolation(false)]
fn find_at(s: &str) -> (r: Option<usize>)
    ensures
        match r {
            Some(i) => first_at(s@, 0) == Some(i as int) && i < s@.len(),
            None => first_at(s@, 0) is None,
        },
{
    let n = s.unicode_len();
    let mut i: usize = 0;
    while i < n
        invariant
            0 <= i <= n,
            n == s@.len(),
            first_at(s@, 0) == first_at(s@, i as int),
        decreases n - i,
    {
        if s.get_char(i) == '@' {
            return Some(i);
        }
        i = i + 1;
    }
    None
}

/// The index of the first entity marking a command at the start of the
/// text, if any.
#[verifier::loop_isolation(false)]
fn find_command_index(entities: &Vec<MessageEntity>) -> (r: Option<usize>)
    ensures
        match r {
            Some(i) => find_command_entity(entities@, 0) == Some(i as int) && i < entities@.len(),
            None => find_command_entity(entities@, 0) is None,
        },
{
    let mut k: usize = 0;
    while k < entities.len()
        invariant
            0 <= k <= entities@.len(),
            find_command_entity(entities@, 0) == find_command_entity(entities@, k as int),
        decreases entities@.len() - k,
    {
        let e = &entities[k];
        if e.offset == 0 && e.entity_type == MessageEntityType::BotCommand {
            return Some(k);
        }
        k = k + 1;
    }
    None
}

/// Extracts the command from a message's text and entities.
///
/// Returns nothing when no entity of the bot-command type starts at
/// offset 0; otherwise the first such entity, in order, names the
/// command.
#[verifier::loop_isolation(false)]
pub fn get_command(text: &str, entities: &Vec<MessageEntity>) -> (r: Option<Command>)
    ensures
        match find_command_entity(entities@, 0) {
            Option::None => r is None,
            Option::Some(i) => r matches Some(c) && c.entity == entities@[i] && ({
                let cmd = command_span(text@, entities@[i].length as int);
                &&& c.name@ == command_name(cmd)
                &&& text_opt_matches(c.username, command_username(cmd))
            }),
        },
{
    let k = match find_command_index(entities) {
        Some(k) => k,
        None => {
            return None;
        },
    };
    let entity = &entities[k];
    let ghost which = k as int;
    let total = text.unicode_len();
    let take_n: usize = if entity.length < 0 {
        total
    } else {
        let lu = entity.length as usize;
        if lu > total {
            total
        } else {
            lu
        }
    };
    let cmd = text.substring_char(0, take_n);
    assert(cmd@ == command_span(text@, entities@[which].length as int));
    let cmd_len = cmd.unicode_len();
    let (name, username) = match find_at(cmd) {
        None => (cmd.to_owned(), None),
        Some(at) => {
            let rest = cmd.substring_char(at + 1, cmd_len);
            let name = cmd.substring_char(0, at).to_owned();
            let username = match find_at(rest) {
                None => rest.to_owned(),
                Some(j) => rest.substring_char(0, j).to_owned(),
            };
            (name, Some(username))
        },
    };
    Some(Command { name, entity: clone_message_entity(entity), username })
}

/// Information needed to download a file from the remote service.
#[derive(Clone, Debug, PartialEq)]
pub struct File {
    /// The ID for this file, specific to this bot.
    pub file_id: String,
    /// The size of the file, if known.
    pub file_size: Option<usize>,
    /// A path which is required to download the file.
    pub file_path: Option<String>,
}

impl FromJson for File {
    open spec fn spec_decodable(v: JsonModel) -> bool {
        &&& v matches JsonModel::Object(_)
        &&& req_text_ok(v, "file_id"@)
        &&& opt_usize_ok(v, "file_size"@)
        &&& opt_text_ok(v, "file_path"@)
    }

    open spec fn spec_decodes(v: JsonModel, x: Self) -> bool {
        &&& x.file_id@ == req_text_val(v, "file_id"@)
        &&& x.file_size == opt_usize_val(v, "file_size"@)
        &&& text_opt_matches(x.file_path, opt_text_val(v, "file_path"@))
    }

    fn from_json(v: &JsonValue) -> (r: Option<Self>) {
        if !(matches!(v, JsonValue::Object(_))) {
            return None;
        }
        let file_id = match get_req_text(v, "file_id") {
            Ok(s) => s,
            Err(_) => {
                return None;
            },
        };
        let file_size = match get_opt_usize(v, "file_size") {
            Ok(o) => o,
            Err(_) => {
                return None;
            },
        };
        let file_path = match get_opt_text(v, "file_path") {
            Ok(o) => o,
            Err(_) => {
                return None;
            },
        };
        Some(File { file_id, file_size, file_path })
    }
}

/// The models of a list of message entities.
pub open spec fn entity_list_model(es: Seq<MessageEntity>) -> Seq<JsonModel> {
    Seq::new(
        es.len(),
        |i: int|
            if 0 <= i < es.len() {
                es[i].json_model()
            } else {
                JsonModel::Null
            },
    )
}

/// Renders a list of message entities for a structured body.
#[verifier::loop_isolation(false)]
pub fn render_entities(es: &Vec<MessageEntity>) -> (v: JsonValue)
    ensures
        v.deep_view() == JsonModel::List(entity_list_model(es@)),
{
    let mut items: Vec<JsonValue> = Vec::new();
    let mut i: usize = 0;
    while i < es.len()
        invariant
            0 <= i <= es@.len(),
            items@.len() == i,
            forall|j: int| 0 <= j < i ==> items@[j].deep_view() == #[trigger] es@[j].json_model(),
        decreases es@.len() - i,
    {
        items.push(es[i].to_json());
        i = i + 1;
    }
    let v = JsonValue::List(items);
    assert(crate::json::list_model(items@) =~= entity_list_model(es@));
    v
}

/// A button of an inline keyboard that performs a login handshake.
#[derive(Clone, Debug, Default, PartialEq)]
pub struct LoginUrl {
    pub url: String,
    pub forward_text: Option<String>,
    pub bot_username: Option<String>,
    pub request_write_access: Option<bool>,
}

impl LoginUrl {
    /// The structured rendering: the URL, and the optional fields only
    /// when present.
    pub open spec fn json_model(&self) -> JsonModel {
        JsonModel::Object(
            seq![("url"@, JsonModel::Text(self.url@))] + crate::json::opt_entry(
                "forward_text"@,
                crate::json::opt_text_model(self.forward_text),
            ) + crate::json::opt_entry(
                "bot_username"@,
                crate::json::opt_text_model(self.bot_username),
            ) + crate::json::opt_entry(
                "request_write_access"@,
                crate::json::opt_bool_model(self.request_write_access),
            ),
        )
    }

    /// Renders the login button for a structured body.
    pub fn to_json(&self) -> (v: JsonValue)
        ensures
            v.deep_view() == self.json_model(),
    {
        let mut entries: Vec<(String, JsonValue)> = Vec::new();
        crate::json::push_entry(&mut entries, "url", JsonValue::Text(self.url.clone()));
        crate::json::push_opt_text(&mut entries, "forward_text", &self.forward_text);
        crate::json::push_opt_text(&mut entries, "bot_username", &self.bot_username);
        crate::json::push_opt_bool(&mut entries, "request_write_access", &self.request_write_access);
        let v = JsonValue::Object(entries);
        assert(v.deep_view() =~~= self.json_model());
        v
    }
}

/// One button of an inline keyboard.
#[derive(Clone, Debug, Default, PartialEq)]
pub struct InlineKeyboardButton {
    pub text: String,
    pub url: Option<String>,
    pub login_url: Option<LoginUrl>,
    pub callback_data: Option<String>,
    pub switch_inline_query: Option<String>,
    pub switch_inline_query_current_chat: Option<String>,
}

impl InlineKeyboardButton {
    /// The structured rendering: the label, and each optional field only
    /// when present.
    pub open spec fn json_model(&self) -> JsonModel {
        JsonModel::Object(
            seq![("text"@, JsonModel::Text(self.text@))] + crate::json::opt_entry(
                "url"@,
                crate::json::opt_text_model(self.url),
            ) + crate::json::opt_entry(
                "login_url"@,
                match self.login_url {
                    Some(l) => Some(l.json_model()),
                    None => None,
                },
            ) + crate::json::opt_entry(
                "callback_data"@,
                crate::json::opt_text_model(self.callback_data),
            ) + crate::json::opt_entry(
                "switch_inline_query"@,
                crate::json::opt_text_model(self.switch_inline_query),
            ) + crate::json::opt_entry(
                "switch_inline_query_current_chat"@,
                crate::json::opt_text_model(self.switch_inline_query_current_chat),
            ),
        )
    }

    /// Renders the button for a structured body.
    pub fn to_json(&self) -> (v: JsonValue)
        ensures
            v.deep_view() == self.json_model(),
    {
        let mut entries: Vec<(String, JsonValue)> = Vec::new();
        crate::json::push_entry(&mut entries, "text", JsonValue::Text(self.text.clone()));
        crate::json::push_opt_text(&mut entries, "url", &self.url);
        let ghost before_login = crate::json::entries_model(entries@);
        match &self.login_url {
            Some(l) => {
                crate::json::push_entry(&mut entries, "login_url", l.to_json());
            },
            None => {},
        }
        assert(crate::json::entries_model(entries@) =~~= before_login + crate::json::opt_entry(
            "login_url"@,
            match self.login_url {
                Some(l) => Some(l.json_model()),
                None => None,
            },
        ));
        crate::json::push_opt_text(&mut entries, "callback_data", &self.callback_data);
        crate::json::push_opt_text(&mut entries, "switch_inline_query", &self.switch_inline_query);
        crate::json::push_opt_text(
            &mut entries,
            "switch_inline_query_current_chat",
            &self.switch_inline_query_current_chat,
        );
        let v = JsonValue::Object(entries);
        assert(v.deep_view() =~~= self.json_model());
        v
    }
}

/// The models of one row of inline-keyboard buttons.
pub open spec fn button_row_model(row: Seq<InlineKeyboardButton>) -> Seq<JsonModel> {
    Seq::new(
        row.len(),
        |i: int|
            if 0 <= i < row.len() {
                row[i].json_model()
            } else {
                JsonModel::Null
            },
    )
}

/// The models of the rows of an inline keyboard.
pub open spec fn keyboard_model(rows: Seq<Vec<InlineKeyboardButton>>) -> Seq<JsonModel> {
    Seq::new(
        rows.len(),
        |i: int|
            if 0 <= i < rows.len() {
                JsonModel::List(button_row_model(rows[i]@))
            } else {
                JsonModel::Null
            },
    )
}

/// An inline keyboard shown under a message: rows of buttons.
#[derive(Clone, Debug, PartialEq)]
pub struct InlineKeyboardMarkup {
    pub inline_keyboard: Vec<Vec<InlineKeyboardButton>>,
}

impl InlineKeyboardMarkup {
    /// The structured rendering: one list per row, one object per button.
    pub open spec fn json_model(&self) -> JsonModel {
        JsonModel::Object(
            seq![("inline_keyboard"@, JsonModel::List(keyboard_model(self.inline_keyboard@)))],
        )
    }

    /// Renders the keyboard for a structured body.
    #[verifier::loop_isolation(false)]
    pub fn to_json(&self) -> (v: JsonValue)
        ensures
            v.deep_view() == self.json_model(),
    {
        let mut rows: Vec<JsonValue> = Vec::new();
        let mut i: usize = 0;
        while i < self.inline_keyboard.len()
            invariant
                0 <= i <= self.inline_keyboard@.len(),
                rows@.len() == i,
                forall|j: int|
                    0 <= j < i ==> rows@[j].deep_view() == JsonModel::List(
                        button_row_model(#[trigger] self.inline_keyboard@[j]@),
                    ),
            decreases self.inline_keyboard@.len() - i,
        {
            let row = &self.inline_keyboard[i];
            let mut buttons: Vec<JsonValue> = Vec::new();
            let mut k: usize = 0;
            while k < row.len()
                invariant
                    0 <= k <= row@.len(),
                    buttons@.len() == k,
                    forall|j: int|
                        0 <= j < k ==> buttons@[j].deep_view() == #[trigger] row@[j].json_model(),
                decreases row@.len() - k,
            {
                buttons.push(row[k].to_json());
                k = k + 1;
            }
            let rv = JsonValue::List(buttons);
            assert(crate::json::list_model(buttons@) =~= button_row_model(row@));
            rows.push(rv);
            i = i + 1;
        }
        let mut entries: Vec<(String, JsonValue)> = Vec::new();
        let inner = JsonValue::List(rows);
        assert(crate::json::list_model(inner->List_0@) =~= keyboard_model(self.inline_keyboard@));
        crate::json::push_entry(&mut entries, "inline_keyboard", inner);
        let v = JsonValue::Object(entries);
        assert(v.deep_view() =~~= self.json_model());
        v
    }
}

/// One size of a photo or thumbnail.
#[derive(Clone, Debug, PartialEq)]
pub struct PhotoSize {
    pub file_id: String,
    pub file_unique_id: String,
    pub width: i32,
    pub height: i32,
    pub file_size: Option<i32>,
}

/// An incoming inline query.
#[derive(Clone, Debug, PartialEq)]
pub struct InlineQuery {
    pub id: String,
    pub from: User,
    pub query: String,
    pub offset: String,
}

/// The inline result a user chose.
#[derive(Clone, Debug, PartialEq)]
pub struct ChosenInlineResult {
    pub result_id: String,
    pub from: User,
    pub inline_message_id: Option<String>,
    pub query: String,
}

/// An invite link to a chat.
#[derive(Clone, Debug, Default, PartialEq)]
pub struct ChatInviteLink {
    pub invite_link: String,
    pub creator: User,
    pub is_primary: bool,
    pub is_revoked: bool,
    pub expire_date: Option<i32>,
    pub member_limit: Option<u16>,
}

/// The standing of a user within a chat.
#[derive(Clone, Copy, Debug, PartialEq, Eq, Structural)]
pub enum ChatMemberStatus {
    Creator,
    Administrator,
    Member,
    Restricted,
    Left,
    Kicked,
}

impl Default for ChatMemberStatus {
    fn default() -> (r: Self)
        ensures
            r == ChatMemberStatus::Member,
    {
        ChatMemberStatus::Member
    }
}

impl ChatMemberStatus {
    /// True for the two administrative standings, creator and
    /// administrator.
    pub fn is_admin(&self) -> (r: bool)
        ensures
            r == (*self == ChatMemberStatus::Creator || *self == ChatMemberStatus::Administrator),
    {
        *self == Self::Creator || *self == Self::Administrator
    }
}

/// A user's membership in a chat, with their permissions there.
#[derive(Clone, Debug, Default, PartialEq)]
pub struct ChatMember {
    pub user: User,
    pub status: ChatMemberStatus,
    pub custom_title: Option<String>,
    pub until_date: Option<i32>,
    pub can_be_edited: Option<bool>,
    pub can_post_messages: Option<bool>,
    pub can_edit_messages: Option<bool>,
    pub can_delete_messages: Option<bool>,
    pub can_restrict_members: Option<bool>,
    pub can_promote_members: Option<bool>,
    pub can_change_info: Option<bool>,
    pub can_invite_users: Option<bool>,
    pub can_pin_messages: Option<bool>,
    pub is_member: Option<bool>,
    pub can_send_messages: Option<bool>,
    pub can_send_media_messages: Option<bool>,
    pub can_send_polls: Option<bool>,
    pub can_send_other_messages: Option<bool>,
    pub can_add_web_page_previews: Option<bool>,
}

/// The part of the face where a mask should be placed.
#[derive(Clone, Copy, Debug, PartialEq, Eq, Structural)]
pub enum MaskPositionPoint {
    Forehead,
    Eyes,
    Mouth,
    Chin,
}

impl Default for MaskPositionPoint {
    fn default() -> (r: Self)
        ensures
            r == MaskPositionPoint::Forehead,
    {
        MaskPositionPoint::Forehead
    }
}

/// An audio file treated as music.
#[derive(Clone, Debug, Default, PartialEq)]
pub struct Audio {
    pub file_id: String,
    pub file_unique_id: String,
    pub duration: i32,
    pub performer: Option<String>,
    pub title: Option<String>,
    pub mime_type: Option<String>,
    pub file_size: Option<i32>,
    pub thumb: Option<PhotoSize>,
}

/// A general file.
#[derive(Clone, Debug, Default, PartialEq)]
pub struct Document {
    pub file_id: String,
    pub file_unique_id: String,
    pub thumb: Option<PhotoSize>,
    pub file_name: Option<String>,
    pub mime_type: Option<String>,
    pub file_size: Option<i32>,
}

/// An animation file.
#[derive(Clone, Debug, Default, PartialEq)]
pub struct Animation {
    pub file_id: String,
    pub file_unique_id: String,
    pub width: i32,
    pub height: i32,
    pub duration: i32,
    pub thumb: Option<PhotoSize>,
    pub file_name: Option<String>,
    pub mime_type: Option<String>,
    pub file_size: Option<i32>,
}

/// A game shared in a chat.
#[derive(Clone, Debug, Default, PartialEq)]
pub struct Game {
    pub title: String,
    pub description: String,
    pub photo: Vec<PhotoSize>,
    pub text: Option<String>,
    pub text_entities: Option<Vec<MessageEntity>>,
    pub animation: Option<Animation>,
}

/// A video file.
#[derive(Clone, Debug, Default, PartialEq)]
pub struct Video {
    pub file_id: String,
    pub file_unique_id: String,
    pub width: i32,
    pub height: i32,
    pub duration: i32,
    pub thumb: Option<PhotoSize>,
    pub mime_type: Option<String>,
    pub file_size: Option<i32>,
}

/// A voice recording.
#[derive(Clone, Debug, Default, PartialEq)]
pub struct Voice {
    pub file_id: String,
    pub file_unique_id: String,
    pub duration: i32,
    pub mime_type: Option<String>,
    pub file_size: Option<i32>,
}

/// A round video message.
#[derive(Clone, Debug, Default, PartialEq)]
pub struct VideoNote {
    pub file_id: String,
    pub file_unique_id: String,
    pub length: i32,
    pub duration: i32,
    pub thumb: Option<PhotoSize>,
    pub file_size: Option<i32>,
}

/// A shared contact.
#[derive(Clone, Debug, Default, PartialEq)]
pub struct Contact {
    pub phone_number: String,
    pub first_name: String,
    pub last_name: Option<String>,
    pub user_id: Option<i64>,
    pub vcard: Option<String>,
}

/// Whether a poll is a plain poll or a quiz.
#[derive(Clone, Copy, Debug, PartialEq, Eq, Structural)]
pub enum PollType {
    Regular,
    Quiz,
}

impl Default for PollType {
    fn default() -> (r: Self)
        ensures
            r == PollType::Regular,
    {
        PollType::Regular
    }
}

/// One answer option of a poll.
#[derive(Clone, Debug, Default, PartialEq)]
pub struct PollOption {
    pub text: String,
    pub voter_count: i32,
}

/// A poll in a chat.
#[derive(Clone, Debug, Default, PartialEq)]
pub struct Poll {
    pub id: String,
    pub question: String,
    pub options: Vec<PollOption>,
    pub total_voter_count: i32,
    pub is_closed: bool,
    pub is_anonymous: bool,
    pub poll_type: PollType,
    pub allows_multiple_answers: bool,
    pub correct_option_id: Option<i32>,
}

/// A user's answer in a non-anonymous poll.
#[derive(Clone, Debug, Default, PartialEq)]
pub struct PollAnswer {
    pub poll_id: String,
    pub user: User,
    pub option_ids: Vec<i32>,
}

} // verus!

//! JSON text, parsed and quoted by serde_json.

use vstd::prelude::*;

verus! {

#[verifier::external_type_specification]
#[verifier::external_body]
pub struct ExValue(serde_json::Value);

/// A JSON value as the decoders read it.
#[derive(Debug)]
pub enum Json {
    Null,
    Bool(bool),
    /// A number, as serde_json writes it: an integer in decimal digits with
    /// an optional `-`; any other number with a `.` or an exponent.
    Number(String),
    Str(String),
    Array(Vec<Json>),
    /// Members in order. A parsed object has them sorted by name, each name
    /// once, as serde_json's map keeps them.
    Object(Vec<(String, Json)>),
}

/// The value that a JSON text parses to.
pub uninterp spec fn json_of(text: Seq<char>) -> Json;

/// Relies on the variants of `serde_json::Value`, one arm each with its
/// fields moved; on its `Map`'s `into_iter` for an object's members; and on
/// `Number`'s `Display` for a number's text.
#[verifier::external_body]
fn json_tree(v: serde_json::Value) -> (r: Json) {
    match v {
        serde_json::Value::Null => Json::Null,
        serde_json::Value::Bool(b) => Json::Bool(b),
        serde_json::Value::Number(n) => Json::Number(n.to_string()),
        serde_json::Value::String(s) => Json::Str(s),
        serde_json::Value::Array(a) => Json::Array(a.into_iter().map(json_tree).collect()),
        serde_json::Value::Object(m) => {
            Json::Object(m.into_iter().map(|(k, x)| (k, json_tree(x))).collect())
        },
    }
}

/// Relies on `serde_json::from_str` into a `Value`, taken over as a [`Json`]
/// tree: whether the text parses, and to what, depends on the text alone. A
/// failure comes back as the error's message.
#[verifier::external_body]
fn parse_json(text: &str) -> (r: Result<Json, String>)
    ensures
        r is Ok <==> json_text_parses(text@),
        r is Ok ==> r->Ok_0 == json_of(text@),
{
    serde_json::from_str::<serde_json::Value>(text).map(json_tree).map_err(|e| e.to_string())
}

impl Json {
    /// Parses JSON text; the error's message where it is not one JSON value.
    pub fn parse(text: &str) -> (r: Result<Json, String>)
        ensures
            r is Ok <==> json_text_parses(text@),
            r is Ok ==> r->Ok_0 == json_of(text@),
    {
        parse_json(text)
    }

    /// The value of the first member named `key`, where `self` is an object.
    pub fn get(&self, key: &str) -> (r: Option<&Json>)
        ensures
            r is Some <==> field(*self, key@) is Some,
            r is Some ==> *r->0 == field(*self, key@)->0,
    {
        match self {
            Json::Object(fs) => {
                let k = String::from_str(key);
                let mut i: usize = 0;
                assert(fs@.skip(0) =~= fs@);
                while i < fs.len()
                    invariant
                        i <= fs@.len(),
                        k@ == key@,
                        field(*self, key@) == member(fs@, key@),
                        member(fs@, key@) == member(fs@.skip(i as int), key@),
                    decreases fs@.len() - i,
                {
                    proof {
                        let t = fs@.skip(i as int);
                        assert(t[0] == fs@[i as int]);
                        assert(t.drop_first() =~= fs@.skip(i as int + 1));
                        assert(member(t, key@) == if t[0].0@ == key@ {
                            Some(t[0].1)
                        } else {
                            member(t.drop_first(), key@)
                        });
                    }
                    if fs[i].0 == k {
                        return Some(&fs[i].1);
                    }
                    i = i + 1;
                }
                None
            },
            _ => None,
        }
    }
}

/// The value of the first member of `fields` named `key`.
pub open spec fn member(fields: Seq<(String, Json)>, key: Seq<char>) -> Option<Json>
    decreases fields.len(),
{
    if fields.len() == 0 {
        None
    } else if fields[0].0@ == key {
        Some(fields[0].1)
    } else {
        member(fields.drop_first(), key)
    }
}

/// The member named `key` of an object; `None` for other values.
pub open spec fn field(j: Json, key: Seq<char>) -> Option<Json> {
    match j {
        Json::Object(fs) => member(fs@, key),
        _ => None,
    }
}

/// Whether a text is one JSON value.
pub uninterp spec fn json_text_parses(text: Seq<char>) -> bool;

/// Whether a byte string is one JSON value.
pub uninterp spec fn json_bytes_parse(bytes: Seq<u8>) -> bool;

/// The value that a JSON byte string parses to.
pub uninterp spec fn json_of_bytes(bytes: Seq<u8>) -> Json;

/// Relies on `serde_json::from_slice` into a `Value`, taken over as a
/// [`Json`] tree: whether the bytes parse, and to what, depends on the bytes
/// alone. A failure comes back as the error's message.
#[verifier::external_body]
pub(crate) fn parse_json_bytes(bytes: &[u8]) -> (r: Result<Json, String>)
    ensures
        r is Ok <==> json_bytes_parse(bytes@),
        r is Ok ==> r->Ok_0 == json_of_bytes(bytes@),
{
    serde_json::from_slice::<serde_json::Value>(bytes).map(json_tree).map_err(|e| e.to_string())
}

/// Lower-case hexadecimal digit of `n`, below 16.
pub open spec fn hex_digit(n: int) -> char {
    seq!['0', '1', '2', '3', '4', '5', '6', '7', '8', '9', 'a', 'b', 'c', 'd', 'e', 'f'][n]
}

/// How one character stands inside a JSON string literal: `"` and `\`
/// escaped, the five control characters with short escapes as those, the
/// other control characters as `\u00XX`, everything else as it is.
pub open spec fn escaped_char(c: char) -> Seq<char> {
    if c == '"' {
        seq!['\\', '"']
    } else if c == '\\' {
        seq!['\\', '\\']
    } else if c == '\u{8}' {
        seq!['\\', 'b']
    } else if c == '\t' {
        seq!['\\', 't']
    } else if c == '\n' {
        seq!['\\', 'n']
    } else if c == '\u{c}' {
        seq!['\\', 'f']
    } else if c == '\r' {
        seq!['\\', 'r']
    } else if (c as u32) < 0x20 {
        seq!['\\', 'u', '0', '0', hex_digit((c as u32) as int / 16), hex_digit((c as u32) as int % 16)]
    } else {
        seq![c]
    }
}

/// The characters of `s`, each as it stands inside a JSON string literal.
pub open spec fn json_escaped(s: Seq<char>) -> Seq<char>
    decreases s.len(),
{
    if s.len() == 0 {
        Seq::empty()
    } else {
        json_escaped(s.drop_last()) + escaped_char(s.last())
    }
}

/// The JSON string literal that encodes `s`.
pub open spec fn json_quoted(s: Seq<char>) -> Seq<char> {
    seq!['"'] + json_escaped(s) + seq!['"']
}

/// Relies on `serde_json::to_string` on a `str`: it writes the quoted
/// string into a `Vec`, which cannot fail, escaping each character as its
/// `ESCAPE` table and `write_char_escape` do.
#[verifier::external_body]
pub(crate) fn quote(s: &str) -> (r: Result<String, String>)
    ensures
        r is Ok,
        r is Ok ==> r->Ok_0@ == json_quoted(s@),
{
    serde_json::to_string(s).map_err(|e: serde_json::Error| e.to_string())
}


/// Whether `s` holds exactly `lit`.
pub(crate) fn text_equals(s: &String, lit: &str) -> (r: bool)
    ensures
        r == (s@ == lit@),
{
    let expected = String::from_str(lit);
    *s == expected
}

/// An optional member that decodes to `None`: missing or `null`.
pub open spec fn is_absent(j: Option<Json>) -> bool {
    j is None || j == Some(Json::Null)
}

/// `j` is the string `s`.
pub open spec fn text_is(j: Option<Json>, s: String) -> bool {
    match j {
        Some(Json::Str(t)) => t@ == s@,
        _ => false,
    }
}

/// An optional string member decodes.
pub open spec fn opt_text_ok(j: Option<Json>) -> bool {
    is_absent(j) || j matches Some(Json::Str(_))
}

/// An optional string member decodes to `v`.
pub open spec fn opt_text_is(j: Option<Json>, v: Option<String>) -> bool {
    if is_absent(j) {
        v is None
    } else {
        match v {
            Some(s) => text_is(j, s),
            None => false,
        }
    }
}

/// An optional boolean member: `None` where it does not decode.
pub open spec fn opt_bool(j: Option<Json>) -> Option<Option<bool>> {
    if is_absent(j) {
        Some(None)
    } else {
        match j {
            Some(Json::Bool(b)) => Some(Some(b)),
            _ => None,
        }
    }
}

/// Decimal digits, at least one.
pub open spec fn is_digits(s: Seq<char>) -> bool {
    s.len() > 0 && forall|i: int| 0 <= i < s.len() ==> '0' <= #[trigger] s[i] && s[i] <= '9'
}

/// The value of decimal digits.
pub open spec fn digits_value(s: Seq<char>) -> int
    decreases s.len(),
{
    if s.len() == 0 {
        0
    } else {
        digits_value(s.drop_last()) * 10 + ((s.last() as u32) as int - 48)
    }
}

/// The integer that a number's text writes, where it writes one.
pub open spec fn integer_of(t: Seq<char>) -> Option<int> {
    if is_digits(t) {
        Some(digits_value(t))
    } else if t.len() > 0 && t[0] == '-' && is_digits(t.drop_first()) {
        Some(-digits_value(t.drop_first()))
    } else {
        None
    }
}

/// An integer member within `[lo, hi]`: `None` where it is missing, not an
/// integer, or out of range.
pub open spec fn integer_in(j: Option<Json>, lo: int, hi: int) -> Option<int> {
    match j {
        Some(Json::Number(t)) => match integer_of(t@) {
            Some(i) => if lo <= i <= hi {
                Some(i)
            } else {
                None
            },
            None => None,
        },
        _ => None,
    }
}

/// An `i32` member: `None` where it is missing or not an integer in range.
pub open spec fn int32(j: Option<Json>) -> Option<i32> {
    match integer_in(j, i32::MIN as int, i32::MAX as int) {
        Some(i) => Some(i as i32),
        None => None,
    }
}

proof fn lemma_digits_grow(s: Seq<char>, k: int)
    requires
        is_digits(s),
        0 <= k <= s.len(),
    ensures
        digits_value(s) >= digits_value(s.take(k)),
        digits_value(s.take(k)) >= 0,
    decreases s.len(),
{
    if k == s.len() {
        assert(s.take(k) =~= s);
        lemma_digits_nonneg(s);
    } else {
        let d = s.drop_last();
        assert(d.take(k) =~= s.take(k));
        if d.len() > 0 {
            assert(is_digits(d)) by {
                assert forall|i: int| 0 <= i < d.len() implies '0' <= #[trigger] d[i] && d[i] <= '9' by {
                    assert(d[i] == s[i]);
                }
            }
            lemma_digits_grow(d, k);
        } else {
            assert(s.take(k) =~= Seq::<char>::empty());
        }
        assert('0' <= s[s.len() - 1]);
    }
}

proof fn lemma_digits_nonneg(s: Seq<char>)
    requires
        forall|i: int| 0 <= i < s.len() ==> '0' <= #[trigger] s[i] && s[i] <= '9',
    ensures
        digits_value(s) >= 0,
    decreases s.len(),
{
    if s.len() > 0 {
        let d = s.drop_last();
        assert forall|i: int| 0 <= i < d.len() implies '0' <= #[trigger] d[i] && d[i] <= '9' by {
            assert(d[i] == s[i]);
        }
        lemma_digits_nonneg(d);
        assert('0' <= s[s.len() - 1]);
    }
}

/// The integer a number's text writes, where it lies within `[lo, hi]`.
fn integer_within(t: &String, lo: i64, hi: i64) -> (r: Option<i64>)
    ensures
        r matches Some(v) ==> integer_of(t@) == Some(v as int) && lo <= v <= hi,
        r is None ==> !(integer_of(t@) matches Some(i) && lo <= i <= hi),
{
    let s = t.as_str();
    let n = s.unicode_len();
    if n == 0 {
        return None;
    }
    let neg = s.get_char(0) == '-';
    let start: usize = if neg { 1 } else { 0 };
    if start >= n {
        return None;
    }
    let ghost body = s@.subrange(start as int, n as int);
    proof {
        if neg {
            assert(body =~= s@.drop_first());
        } else {
            assert(body =~= s@);
        }
    }
    let limit: u64 = 9223372036854775808;
    let mut acc: u64 = 0;
    let mut i: usize = start;
    while i < n
        invariant
            start <= i <= n,
            n == s@.len(),
            s@ == t@,
            limit == 9223372036854775808u64,
            neg == (s@[0] == '-'),
            start == (if neg { 1usize } else { 0usize }),
            neg ==> body == s@.drop_first(),
            !neg ==> body == s@,
            body == s@.subrange(start as int, n as int),
            acc as int == digits_value(body.take(i - start)),
            acc <= limit,
            forall|j: int| 0 <= j < i - start ==> '0' <= #[trigger] body[j] && body[j] <= '9',
        decreases n - i,
    {
        let c = s.get_char(i);
        if !('0' <= c && c <= '9') {
            proof {
                assert(body[i - start] == c);
                assert(!is_digits(body));
                if !neg {
                    assert(s@[0] != '-');
                }
            }
            return None;
        }
        let d = (c as u32 - 48) as u64;
        proof {
            let p = body.take(i - start + 1);
            assert(p.drop_last() =~= body.take(i - start));
            assert(p.last() == c);
            assert(body[i - start] == c);
        }
        if acc > (limit - d) / 10 {
            proof {
                assert forall|j: int| 0 <= j < i - start + 1 implies '0' <= #[trigger] body[j]
                    && body[j] <= '9' by {
                    if j == i - start {
                        assert(body[j] == c);
                    }
                }
                let p = body.take(i - start + 1);
                assert(acc * 10 + d > limit) by (nonlinear_arith)
                    requires
                        acc > (limit - d) / 10,
                        d <= 9,
                        limit == 9223372036854775808u64,
                ;
                if is_digits(body) {
                    lemma_digits_grow(body, i - start + 1);
                }
            }
            return None;
        }
        acc = acc * 10 + d;
        i = i + 1;
    }
    proof {
        assert(body.take(n - start) =~= body);
    }
    let v: i128 = if neg { -(acc as i128) } else { acc as i128 };
    if (lo as i128) <= v && v <= (hi as i128) {
        Some(v as i64)
    } else {
        None
    }
}

/// An optional `i32` member: `None` where it does not decode.
pub open spec fn opt_int32(j: Option<Json>) -> Option<Option<i32>> {
    if is_absent(j) {
        Some(None)
    } else {
        match int32(j) {
            Some(i) => Some(Some(i)),
            None => None,
        }
    }
}

/// A required string member; `None` where it is missing or not a string.
pub fn text_member(obj: &Json, key: &str) -> (r: Option<String>)
    ensures
        r is Some <==> field(*obj, key@) matches Some(Json::Str(_)),
        r matches Some(s) ==> text_is(field(*obj, key@), s),
{
    match obj.get(key) {
        Some(Json::Str(s)) => Some(s.clone()),
        _ => None,
    }
}

/// An optional string member; `None` where it does not decode.
pub fn opt_text_member(obj: &Json, key: &str) -> (r: Option<Option<String>>)
    ensures
        r is Some <==> opt_text_ok(field(*obj, key@)),
        r matches Some(v) ==> opt_text_is(field(*obj, key@), v),
{
    match obj.get(key) {
        None => Some(None),
        Some(Json::Null) => Some(None),
        Some(Json::Str(s)) => Some(Some(s.clone())),
        _ => None,
    }
}

/// An optional boolean member.
pub fn opt_bool_member(obj: &Json, key: &str) -> (r: Option<Option<bool>>)
    ensures
        r == opt_bool(field(*obj, key@)),
{
    match obj.get(key) {
        None => Some(None),
        Some(Json::Null) => Some(None),
        Some(Json::Bool(b)) => Some(Some(*b)),
        _ => None,
    }
}

/// A required `i32` member.
pub fn int32_member(obj: &Json, key: &str) -> (r: Option<i32>)
    ensures
        r == int32(field(*obj, key@)),
{
    match obj.get(key) {
        Some(Json::Number(t)) => match integer_within(t, i32::MIN as i64, i32::MAX as i64) {
            Some(v) => Some(v as i32),
            None => None,
        },
        _ => None,
    }
}

/// An optional `i32` member.
pub fn opt_int32_member(obj: &Json, key: &str) -> (r: Option<Option<i32>>)
    ensures
        r == opt_int32(field(*obj, key@)),
{
    match obj.get(key) {
        None => Some(None),
        Some(Json::Null) => Some(None),
        _ => match int32_member(obj, key) {
            Some(i) => Some(Some(i)),
            None => None,
        },
    }
}


/// A required boolean member.
pub open spec fn boolean(j: Option<Json>) -> Option<bool> {
    match j {
        Some(Json::Bool(b)) => Some(b),
        _ => None,
    }
}

/// An `i64` member: `None` where it is missing or not an integer in range.
pub open spec fn int64(j: Option<Json>) -> Option<i64> {
    match integer_in(j, i64::MIN as int, i64::MAX as int) {
        Some(i) => Some(i as i64),
        None => None,
    }
}

/// An optional `i64` member: `None` where it does not decode.
pub open spec fn opt_int64(j: Option<Json>) -> Option<Option<i64>> {
    if is_absent(j) {
        Some(None)
    } else {
        match int64(j) {
            Some(i) => Some(Some(i)),
            None => None,
        }
    }
}

/// A required boolean member.
pub fn bool_member(obj: &Json, key: &str) -> (r: Option<bool>)
    ensures
        r == boolean(field(*obj, key@)),
{
    match obj.get(key) {
        Some(Json::Bool(b)) => Some(*b),
        _ => None,
    }
}

/// A required `i64` member.
pub fn int64_member(obj: &Json, key: &str) -> (r: Option<i64>)
    ensures
        r == int64(field(*obj, key@)),
{
    match obj.get(key) {
        Some(Json::Number(t)) => integer_within(t, i64::MIN, i64::MAX),
        _ => None,
    }
}

/// An optional `i64` member.
pub fn opt_int64_member(obj: &Json, key: &str) -> (r: Option<Option<i64>>)
    ensures
        r == opt_int64(field(*obj, key@)),
{
    match obj.get(key) {
        None => Some(None),
        Some(Json::Null) => Some(None),
        _ => match int64_member(obj, key) {
            Some(i) => Some(Some(i)),
            None => None,
        },
    }
}

/// Removing a member of another name leaves the lookup of `key` as it was.
pub proof fn lemma_remove_other(fs: Seq<(String, Json)>, i: int, key: Seq<char>)
    requires
        0 <= i < fs.len(),
        fs[i].0@ != key,
    ensures
        member(fs.remove(i), key) == member(fs, key),
    decreases i,
{
    if i > 0 {
        assert(fs.remove(i).drop_first() =~= fs.drop_first().remove(i - 1));
        lemma_remove_other(fs.drop_first(), i - 1, key);
    } else {
        assert(fs.remove(0) =~= fs.drop_first());
    }
}

/// Takes out the first member named `key`; the other names look up as
/// before.
pub fn take_member(fs: &mut Vec<(String, Json)>, key: &str) -> (r: Option<Json>)
    ensures
        r == member(old(fs)@, key@),
        forall|k: Seq<char>| k != key@ ==> member(final(fs)@, k) == member(old(fs)@, k),
{
    let k = String::from_str(key);
    let mut i: usize = 0;
    assert(fs@.skip(0) =~= fs@);
    while i < fs.len()
        invariant
            i <= fs@.len(),
            k@ == key@,
            fs@ == old(fs)@,
            member(fs@, key@) == member(fs@.skip(i as int), key@),
        decreases fs@.len() - i,
    {
        proof {
            let t = fs@.skip(i as int);
            assert(t[0] == fs@[i as int]);
            assert(t.drop_first() =~= fs@.skip(i as int + 1));
            assert(member(t, key@) == if t[0].0@ == key@ {
                Some(t[0].1)
            } else {
                member(t.drop_first(), key@)
            });
        }
        if fs[i].0 == k {
            let ghost before = fs@;
            let (_, v) = fs.remove(i);
            proof {
                assert forall|other: Seq<char>| other != key@ implies member(fs@, other) == member(
                    before,
                    other,
                ) by {
                    lemma_remove_other(before, i as int, other);
                }
            }
            return Some(v);
        }
        i = i + 1;
    }
    None
}

} // verus!

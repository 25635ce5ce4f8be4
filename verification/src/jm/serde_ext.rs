//! Lenient readers for JSON fields that the upstream service fills with a
//! string, a number, a boolean, `null` or an array, whichever it likes.
//!
//! A JSON value is held as a `JsonValue`: the caller decodes the document and
//! hands each field over; the rules below decide what the field means.
use crate::text;
use vstd::prelude::*;

verus! {

broadcast use vstd::string::group_string_axioms;

/// A JSON number as the decoder keeps it: a non-negative integer, a negative
/// integer, or a float together with its rendering.
pub enum JsonNumber {
    PosInt(u64),
    /// Always less than zero.
    NegInt(i64),
    /// The text the decoder renders the float as; floats are not read otherwise.
    Float(String),
}

/// A decoded JSON value. The members of an object are not read by any rule,
/// so an object is held without them.
pub enum JsonValue {
    Null,
    Bool(bool),
    Number(JsonNumber),
    String(String),
    Array(Vec<JsonValue>),
    Object,
}

/// Why a field could not be read.
#[derive(Clone, Copy, Debug, PartialEq, Eq, Structural)]
pub enum JsonShapeError {
    ExpectedStringArrayOrScalar,
    ExpectedScalar,
}

impl JsonShapeError {
    pub fn message(&self) -> (m: &'static str)
        ensures
            m@ == match self {
                JsonShapeError::ExpectedStringArrayOrScalar => "expected a string array, scalar, or empty value"@,
                JsonShapeError::ExpectedScalar => "expected a scalar value"@,
            },
    {
        match self {
            JsonShapeError::ExpectedStringArrayOrScalar => "expected a string array, scalar, or empty value",
            JsonShapeError::ExpectedScalar => "expected a scalar value",
        }
    }
}

impl JsonNumber {
    /// The decoder never holds a non-negative number as `NegInt`.
    pub open spec fn wf(&self) -> bool {
        match self {
            JsonNumber::NegInt(v) => *v < 0,
            _ => true,
        }
    }

    /// The number's rendering (`Number::to_string`).
    pub open spec fn text(&self) -> Seq<char> {
        match self {
            JsonNumber::PosInt(u) => text::decimal(*u as nat),
            JsonNumber::NegInt(v) => text::signed_decimal(*v as int),
            JsonNumber::Float(t) => t@,
        }
    }

    /// `Number::as_i64`.
    pub open spec fn i64_value(&self) -> Option<i64> {
        match self {
            JsonNumber::PosInt(u) => if *u <= i64::MAX as u64 {
                Some(*u as i64)
            } else {
                None
            },
            JsonNumber::NegInt(v) => Some(*v),
            JsonNumber::Float(_) => None,
        }
    }

    /// `Number::as_u64`.
    pub open spec fn u64_value(&self) -> Option<u64> {
        match self {
            JsonNumber::PosInt(u) => Some(*u),
            _ => None,
        }
    }

    pub fn to_text(&self) -> (out: String)
        ensures
            out@ == self.text(),
    {
        match self {
            JsonNumber::PosInt(u) => text::u64_to_decimal(*u),
            JsonNumber::NegInt(v) => text::i64_to_decimal(*v),
            JsonNumber::Float(t) => t.clone(),
        }
    }

    pub fn as_i64(&self) -> (r: Option<i64>)
        ensures
            r == self.i64_value(),
    {
        match self {
            JsonNumber::PosInt(u) => if *u <= 0x7fff_ffff_ffff_ffffu64 {
                Some(*u as i64)
            } else {
                None
            },
            JsonNumber::NegInt(v) => Some(*v),
            JsonNumber::Float(_) => None,
        }
    }

    pub fn as_u64(&self) -> (r: Option<u64>)
        ensures
            r == self.u64_value(),
    {
        match self {
            JsonNumber::PosInt(u) => Some(*u),
            _ => None,
        }
    }
}

impl JsonValue {
    /// Every number inside the value is well formed.
    pub open spec fn wf(&self) -> bool
        decreases self,
    {
        match self {
            JsonValue::Number(n) => n.wf(),
            JsonValue::Array(items) => forall|i: int|
                0 <= i < items@.len() ==> (#[trigger] items@[i]).wf(),
            _ => true,
        }
    }
}

pub open spec fn bool_text(b: bool) -> Seq<char> {
    if b {
        "true"@
    } else {
        "false"@
    }
}

/// The text of a scalar: a string as it is, a number or boolean rendered,
/// `null` as the empty string; an array or object has none.
pub open spec fn scalar_text(v: JsonValue) -> Option<Seq<char>> {
    match v {
        JsonValue::String(s) => Some(s@),
        JsonValue::Number(n) => Some(n.text()),
        JsonValue::Bool(b) => Some(bool_text(b)),
        JsonValue::Null => Some(Seq::empty()),
        _ => None,
    }
}

/// The text of a scalar, or the empty string for an array or object.
pub open spec fn text_or_empty(v: JsonValue) -> Seq<char> {
    match scalar_text(v) {
        Some(t) => t,
        None => Seq::empty(),
    }
}

/// The texts of the scalar items of an array that are not blank, in order.
pub open spec fn kept_item_texts(items: Seq<JsonValue>) -> Seq<Seq<char>>
    decreases items.len(),
{
    if items.len() == 0 {
        Seq::empty()
    } else {
        let rest = kept_item_texts(items.drop_last());
        match scalar_text(items.last()) {
            Some(t) => if text::is_blank(t) {
                rest
            } else {
                rest.push(t)
            },
            None => rest,
        }
    }
}

/// What a string list field reads as.
pub open spec fn string_list_of(v: JsonValue) -> Result<Seq<Seq<char>>, JsonShapeError> {
    match v {
        JsonValue::Array(items) => Ok(kept_item_texts(items@)),
        JsonValue::String(s) => if text::is_blank(s@) {
            Ok(Seq::empty())
        } else {
            Ok(seq![s@])
        },
        JsonValue::Number(n) => Ok(seq![n.text()]),
        JsonValue::Bool(b) => Ok(seq![bool_text(b)]),
        JsonValue::Null => Ok(Seq::empty()),
        JsonValue::Object => Err(JsonShapeError::ExpectedStringArrayOrScalar),
    }
}

/// What an unsigned count field reads as: an unsigned integer number cut to
/// its low 32 bits, a string that parses as `u32`, a boolean as 0 or 1, and 0
/// for anything else.
pub open spec fn u32_of(v: JsonValue) -> u32 {
    match v {
        JsonValue::Number(n) => match n.u64_value() {
            Some(u) => (u % 0x1_0000_0000) as u32,
            None => 0,
        },
        JsonValue::String(s) => match text::parse_u32(s@) {
            Some(x) => x,
            None => 0,
        },
        JsonValue::Bool(b) => if b {
            1
        } else {
            0
        },
        _ => 0,
    }
}

/// What an optional timestamp field reads as: an integer number that fits in
/// `i64`, or a string that parses as one once trimmed, kept only when positive.
pub open spec fn positive_i64_of(v: JsonValue) -> Option<i64> {
    let parsed = match v {
        JsonValue::Number(n) => n.i64_value(),
        JsonValue::String(s) => text::parse_i64(text::trimmed(s@)),
        _ => None,
    };
    match parsed {
        Some(x) => if x > 0 {
            Some(x)
        } else {
            None
        },
        None => None,
    }
}

/// What a flag field reads as: a boolean as it is, a number that is a nonzero
/// `i64`, or a string that is `1`, `true` or `yes` once trimmed and lowered.
pub open spec fn bool_of(v: JsonValue) -> bool {
    match v {
        JsonValue::Bool(b) => b,
        JsonValue::Number(n) => match n.i64_value() {
            Some(x) => x != 0,
            None => false,
        },
        JsonValue::String(s) => {
            let t = text::trimmed(s@);
            text::lowercase_is(t, "1"@) || text::lowercase_is(t, "true"@) || text::lowercase_is(t, "yes"@)
        },
        _ => false,
    }
}

fn bool_to_text(b: bool) -> (out: String)
    ensures
        out@ == bool_text(b),
{
    if b {
        String::from_str("true")
    } else {
        String::from_str("false")
    }
}

/// The text of a scalar value; `None` for an array or object.
pub fn scalar_string(value: JsonValue) -> (r: Option<String>)
    ensures
        match r {
            Some(s) => scalar_text(value) == Some(s@),
            None => scalar_text(value) is None,
        },
{
    match value {
        JsonValue::String(s) => Some(s),
        JsonValue::Number(n) => Some(n.to_text()),
        JsonValue::Bool(b) => Some(bool_to_text(b)),
        JsonValue::Null => Some(String::new()),
        _ => None,
    }
}

/// The text of a scalar value, or the empty string.
pub fn string_from_value(value: JsonValue) -> (out: String)
    ensures
        out@ == text_or_empty(value),
{
    match scalar_string(value) {
        Some(s) => s,
        None => String::new(),
    }
}

/// Reads a text field, leniently: any scalar is taken as its text; an array or
/// object reads as the empty string.
pub fn string_from_any_or_default(value: JsonValue) -> (out: String)
    ensures
        out@ == text_or_empty(value),
{
    string_from_value(value)
}

/// Reads an optional text field: the trimmed text, absent when it is empty.
pub fn optional_string_from_any(value: JsonValue) -> (r: Option<String>)
    ensures
        ({
            let t = text::trimmed(text_or_empty(value));
            match r {
                Some(s) => t.len() > 0 && s@ == t,
                None => t.len() == 0,
            }
        }),
{
    let text = string_from_value(value);
    let trimmed_text = text::trim_string(text.as_str());
    if trimmed_text.as_str().unicode_len() == 0 {
        None
    } else {
        Some(trimmed_text)
    }
}

/// Reads a list of strings from an array of scalars (dropping blank ones and
/// anything that is not a scalar), from a single scalar, or from `null`.
pub fn lossy_string_vec_from_array_or_scalar(value: JsonValue) -> (r: Result<
    Vec<String>,
    JsonShapeError,
>)
    ensures
        match r {
            Ok(list) => string_list_of(value) == Ok::<Seq<Seq<char>>, JsonShapeError>(
                text::texts(list@),
            ),
            Err(e) => string_list_of(value) == Err::<Seq<Seq<char>>, JsonShapeError>(e),
        },
{
    match value {
        JsonValue::Array(items) => {
            let mut out: Vec<String> = Vec::new();
            let mut i: usize = 0;
            let n = items.len();
            while i < n
                invariant
                    i <= n == items.len(),
                    text::texts(out@) == kept_item_texts(items@.take(i as int)),
                decreases n - i,
            {
                let item = clone_value(&items[i]);
                assert(items@.take(i + 1).drop_last() == items@.take(i as int));
                match scalar_string(item) {
                    Some(t) => {
                        if !text::is_blank_str(t.as_str()) {
                            out.push(t);
                            assert(text::texts(out@) == text::texts(out@.drop_last()).push(out@.last()@));
                        }
                    },
                    None => {},
                }
                i = i + 1;
            }
            assert(items@.take(n as int) == items@);
            Ok(out)
        },
        JsonValue::String(s) => {
            if text::is_blank_str(s.as_str()) {
                let out: Vec<String> = Vec::new();
                assert(text::texts(out@) == Seq::<Seq<char>>::empty());
                Ok(out)
            } else {
                let mut out = Vec::new();
                out.push(s);
                assert(text::texts(out@) == seq![out@[0]@]);
                Ok(out)
            }
        },
        JsonValue::Number(n) => {
            let mut out = Vec::new();
            out.push(n.to_text());
            assert(text::texts(out@) == seq![out@[0]@]);
            Ok(out)
        },
        JsonValue::Bool(b) => {
            let mut out = Vec::new();
            out.push(bool_to_text(b));
            assert(text::texts(out@) == seq![out@[0]@]);
            Ok(out)
        },
        JsonValue::Null => {
            let out: Vec<String> = Vec::new();
            assert(text::texts(out@) == Seq::<Seq<char>>::empty());
            Ok(out)
        },
        JsonValue::Object => Err(JsonShapeError::ExpectedStringArrayOrScalar),
    }
}

/// A copy of a scalar value; arrays and objects copy as `Object`, which no
/// scalar rule tells apart from them.
fn clone_value(v: &JsonValue) -> (r: JsonValue)
    ensures
        scalar_text(r) == scalar_text(*v),
{
    match v {
        JsonValue::Null => JsonValue::Null,
        JsonValue::Bool(b) => JsonValue::Bool(*b),
        JsonValue::Number(n) => JsonValue::Number(
            match n {
                JsonNumber::PosInt(u) => JsonNumber::PosInt(*u),
                JsonNumber::NegInt(x) => JsonNumber::NegInt(*x),
                JsonNumber::Float(t) => JsonNumber::Float(t.clone()),
            },
        ),
        JsonValue::String(s) => JsonValue::String(s.clone()),
        _ => JsonValue::Object,
    }
}

/// Reads a required text field: any scalar is taken as its text; an array or
/// object is refused.
pub fn string_from_any(value: JsonValue) -> (r: Result<String, JsonShapeError>)
    ensures
        match r {
            Ok(s) => scalar_text(value) == Some(s@),
            Err(e) => scalar_text(value) is None && e == JsonShapeError::ExpectedScalar,
        },
{
    match scalar_string(value) {
        Some(s) => Ok(s),
        None => Err(JsonShapeError::ExpectedScalar),
    }
}

/// Reads an unsigned count field, leniently (see `u32_of`).
pub fn u32_from_any(value: JsonValue) -> (r: u32)
    ensures
        r == u32_of(value),
{
    match value {
        JsonValue::Number(n) => match n.as_u64() {
            Some(u) => {
                let r = (u % 0x1_0000_0000) as u32;
                r
            },
            None => 0,
        },
        JsonValue::String(s) => match text::parse_u32_str(s.as_str()) {
            Some(x) => x,
            None => 0,
        },
        JsonValue::Bool(b) => if b {
            1
        } else {
            0
        },
        _ => 0,
    }
}

/// Reads an optional positive timestamp field (see `positive_i64_of`).
pub fn optional_positive_i64_from_any(value: JsonValue) -> (r: Option<i64>)
    ensures
        r == positive_i64_of(value),
{
    let parsed = match value {
        JsonValue::Number(n) => match n.as_i64() {
            Some(x) => Some(x),
            None => match n.as_u64() {
                Some(u) => if u <= 0x7fff_ffff_ffff_ffffu64 {
                    Some(u as i64)
                } else {
                    None
                },
                None => None,
            },
        },
        JsonValue::String(s) => {
            let t = text::trim_string(s.as_str());
            text::parse_i64_str(t.as_str())
        },
        _ => None,
    };
    match parsed {
        Some(x) => if x > 0 {
            Some(x)
        } else {
            None
        },
        None => None,
    }
}

/// Reads a flag field, leniently (see `bool_of`).
pub fn bool_from_any(value: JsonValue) -> (r: bool)
    ensures
        r == bool_of(value),
{
    match value {
        JsonValue::Bool(b) => b,
        JsonValue::Number(n) => match n.as_i64() {
            Some(x) => x != 0,
            None => false,
        },
        JsonValue::String(s) => {
            let t = text::trim_string(s.as_str());
            text::lowercase_equals(t.as_str(), "1") || text::lowercase_equals(t.as_str(), "true")
                || text::lowercase_equals(t.as_str(), "yes")
        },
        _ => false,
    }
}

} // verus!

verus! {

/// A list of strings read from an array never holds a blank string.
pub proof fn lemma_kept_texts_not_blank(items: Seq<JsonValue>)
    ensures
        forall|k: int|
            0 <= k < kept_item_texts(items).len() ==> !text::is_blank(
                #[trigger] kept_item_texts(items)[k],
            ),
    decreases items.len(),
{
    if items.len() > 0 {
        lemma_kept_texts_not_blank(items.drop_last());
        let rest = kept_item_texts(items.drop_last());
        let all = kept_item_texts(items);
        assert forall|k: int| 0 <= k < all.len() implies !text::is_blank(#[trigger] all[k]) by {
            if k < rest.len() {
                assert(all[k] == rest[k]);
            }
        }
    }
}

/// An optional text field, when present, is trimmed and not empty.
pub proof fn lemma_optional_text_is_trimmed(v: JsonValue)
    ensures
        ({
            let t = text::trimmed(text_or_empty(v));
            t.len() > 0 ==> text::trimmed(t) == t
        }),
{
    text::lemma_trim_idempotent(text_or_empty(v));
}

/// A JSON boolean reads as itself; an integer reads as whether it is not
/// zero; null, arrays and objects read as false; a text reads as true only
/// when, trimmed, it is `1`, `true` or `yes` in any case, and it does read as
/// true for those three words.
pub proof fn lemma_flags_read_as_written(v: JsonValue)
    ensures
        v matches JsonValue::Bool(b) ==> bool_of(v) == b,
        v matches JsonValue::Number(JsonNumber::NegInt(x)) ==> bool_of(v) == (x != 0),
        v matches JsonValue::Number(JsonNumber::PosInt(x)) ==> (x <= i64::MAX ==> bool_of(v) == (x
            != 0)),
        v matches JsonValue::Number(JsonNumber::PosInt(x)) ==> (x == 0 ==> !bool_of(v)),
        v matches JsonValue::Number(JsonNumber::Float(_)) ==> !bool_of(v),
        (v is Null || v is Array || v is Object) ==> !bool_of(v),
        v matches JsonValue::String(t) ==> (bool_of(v) ==> (text::trimmed(t@).len() == 1
            || text::trimmed(t@).len() == 3 || text::trimmed(t@).len() == 4)),
        v matches JsonValue::String(t) ==> ((text::trimmed(t@) == "1"@ || text::trimmed(t@)
            == "true"@ || text::trimmed(t@) == "yes"@) ==> bool_of(v)),
{
    reveal_strlit("1");
    reveal_strlit("true");
    reveal_strlit("yes");
}

/// A scalar's text is the string itself, `true` or `false` for a boolean, and
/// empty for `null`; arrays and objects have none, and read as empty text
/// where a text is owed.
pub proof fn lemma_scalar_texts(v: JsonValue)
    ensures
        v matches JsonValue::String(s) ==> scalar_text(v) == Some(s@) && text_or_empty(v) == s@,
        v == JsonValue::Bool(true) ==> scalar_text(v) == Some("true"@),
        v == JsonValue::Bool(false) ==> scalar_text(v) == Some("false"@),
        v is Null ==> scalar_text(v) == Some(Seq::<char>::empty()),
        (v is Array || v is Object) ==> scalar_text(v) is None && text_or_empty(v) == Seq::<
            char,
        >::empty(),
        scalar_text(v) matches Some(t) ==> text_or_empty(v) == t,
{
}

/// The items an array keeps as a string list are the texts of its scalar
/// items that are not blank, in their order: each kept text is such an item's
/// text, every such text is kept, and no more are kept than there are items.
pub proof fn lemma_kept_texts_are_the_non_blank_scalars(items: Seq<JsonValue>)
    ensures
        kept_item_texts(items).len() <= items.len(),
        forall|k: int|
            0 <= k < kept_item_texts(items).len() ==> exists|j: int|
                0 <= j < items.len() && scalar_text(items[j]) == Some(
                    #[trigger] kept_item_texts(items)[k],
                ),
        forall|j: int|
            0 <= j < items.len() ==> (scalar_text(#[trigger] items[j]) matches Some(t)
                ==> (!text::is_blank(t) ==> kept_item_texts(items).contains(t))),
    decreases items.len(),
{
    if items.len() > 0 {
        let prev = items.drop_last();
        lemma_kept_texts_are_the_non_blank_scalars(prev);
        let rest = kept_item_texts(prev);
        let all = kept_item_texts(items);
        assert forall|k: int| 0 <= k < all.len() implies exists|j: int|
            0 <= j < items.len() && scalar_text(items[j]) == Some(#[trigger] all[k]) by {
            if k < rest.len() {
                assert(all[k] == rest[k]);
                let j = choose|j: int| 0 <= j < prev.len() && scalar_text(prev[j]) == Some(rest[k]);
                assert(items[j] == prev[j]);
            } else {
                assert(scalar_text(items[items.len() - 1]) == Some(all[k]));
            }
        }
        assert forall|j: int| 0 <= j < items.len() implies (scalar_text(#[trigger] items[j]) matches Some(
            t,
        ) ==> (!text::is_blank(t) ==> all.contains(t))) by {
            if j < prev.len() {
                assert(items[j] == prev[j]);
                if let Some(t) = scalar_text(prev[j]) {
                    if !text::is_blank(t) {
                        assert(rest.contains(t));
                        let m = choose|m: int| 0 <= m < rest.len() && rest[m] == t;
                        assert(all[m] == rest[m]);
                    }
                }
            } else {
                if let Some(t) = scalar_text(items.last()) {
                    if !text::is_blank(t) {
                        assert(all[all.len() - 1] == t);
                    }
                }
            }
        }
    }
}

/// A string list field reads an array as its kept texts, a string as itself
/// unless it is blank, `null` as no items, and refuses an object.
pub proof fn lemma_string_lists_read_as_written(v: JsonValue)
    ensures
        v matches JsonValue::Array(items) ==> string_list_of(v) == Ok::<
            Seq<Seq<char>>,
            JsonShapeError,
        >(kept_item_texts(items@)),
        v matches JsonValue::String(s) ==> (!text::is_blank(s@) ==> string_list_of(v) == Ok::<
            Seq<Seq<char>>,
            JsonShapeError,
        >(seq![s@])),
        v matches JsonValue::String(s) ==> (text::is_blank(s@) ==> string_list_of(v) == Ok::<
            Seq<Seq<char>>,
            JsonShapeError,
        >(Seq::empty())),
        v is Null ==> string_list_of(v) == Ok::<Seq<Seq<char>>, JsonShapeError>(Seq::empty()),
        v is Object ==> string_list_of(v) is Err,
        (v is Number || v is Bool) ==> string_list_of(v) is Ok,
        string_list_of(v) matches Ok(l) ==> ((v is Number || v is Bool) ==> l.len() == 1),
{
}

/// A count reads an unsigned number that fits in 32 bits as itself, `true` as
/// 1, `false` as 0, and `null`, a negative number, an array or an object as 0.
pub proof fn lemma_counts_read_as_written(v: JsonValue)
    ensures
        v matches JsonValue::Number(JsonNumber::PosInt(u)) ==> (u <= u32::MAX ==> u32_of(v) == u),
        v == JsonValue::Bool(true) ==> u32_of(v) == 1,
        v == JsonValue::Bool(false) ==> u32_of(v) == 0,
        (v is Null || v is Array || v is Object) ==> u32_of(v) == 0,
        v matches JsonValue::Number(JsonNumber::NegInt(_)) ==> u32_of(v) == 0,
{
}

/// A timestamp reads a positive integer number as itself, and never reads a
/// negative number, zero, a boolean, `null`, an array or an object.
pub proof fn lemma_timestamps_read_as_written(v: JsonValue)
    ensures
        v matches JsonValue::Number(JsonNumber::PosInt(u)) ==> (0 < u <= i64::MAX
            ==> positive_i64_of(v) == Some(u as i64)),
        v matches JsonValue::Number(JsonNumber::PosInt(u)) ==> (u == 0 ==> positive_i64_of(v) is None),
        v matches JsonValue::Number(JsonNumber::NegInt(x)) ==> (x <= 0 ==> positive_i64_of(v) is None),
        (v is Null || v is Bool || v is Array || v is Object) ==> positive_i64_of(v) is None,
{
}

/// A timestamp field, when present, is positive.
pub proof fn lemma_timestamps_positive(v: JsonValue)
    ensures
        positive_i64_of(v) matches Some(x) ==> x > 0,
{
}

} // verus!
